//! Calls into outside crates, with the contracts under which the library uses them.

use vstd::prelude::*;

verus! {

/// `url::ParseError`: why `url::Url::parse` refused an input.
#[verifier::external_type_specification]
#[verifier::external_body]
pub struct ExUrlParseError(url::ParseError);

/// What `url::Url::parse` makes of an input: `None` where it refuses the
/// input, else the parsed URL's scheme (`Url::scheme`) and its serialization
/// (`Url::as_str`, which is also what `Url`'s `Display` writes).
pub uninterp spec fn url_parse(input: Seq<char>) -> Option<(Seq<char>, Seq<char>)>;

/// What `tonic::metadata::MetadataKey::<Ascii>::from_str` makes of a key:
/// `None` where it refuses the key, else the normalized name
/// (`MetadataKey::as_str`) under which a `MetadataMap` stores it.
pub uninterp spec fn grpc_metadata_key(key: Seq<char>) -> Option<Seq<char>>;

/// Parses `input` with `url::Url::parse`.
///
/// Claimed: the call's outcome is `url_parse(input@)`, a function of the input
/// alone; on success the scheme and the serialization are handed back as
/// strings. Which `ParseError` variant comes back on failure is not stated.
#[verifier::external_body]
pub fn parse_url(input: &str) -> (r: Result<(String, String), url::ParseError>)
    ensures
        match r {
            Ok(parts) => url_parse(input@) == Some((parts.0@, parts.1@)),
            Err(_) => url_parse(input@) is None,
        },
{
    match url::Url::parse(input) {
        Ok(url) => Ok((url.scheme().to_owned(), url.as_str().to_owned())),
        Err(e) => Err(e),
    }
}

/// Parses `key` with `MetadataKey::<tonic::metadata::Ascii>::from_str`.
///
/// Claimed: the outcome is `grpc_metadata_key(key@)`, a function of the key
/// alone; an accepted key comes back as its normalized name.
#[verifier::external_body]
pub fn parse_grpc_metadata_key(key: &str) -> (r: Option<String>)
    ensures
        match r {
            Some(name) => grpc_metadata_key(key@) == Some(name@),
            None => grpc_metadata_key(key@) is None,
        },
{
    match key.parse::<tonic::metadata::MetadataKey<tonic::metadata::Ascii>>() {
        Ok(name) => Some(name.as_str().to_owned()),
        Err(_) => None,
    }
}

} // verus!
