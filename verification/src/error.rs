//! Errors of the session configuration.

use vstd::prelude::*;

verus! {

/// Why a collector URI cannot be used.
#[derive(Debug)]
pub enum Error {
    /// The URI does not parse as a URL.
    InvalidUrl(url::ParseError),
    /// The URL's scheme is none of `http`, `https`, `grpc`; it is carried here.
    UnsupportedUrlScheme(String),
}

} // verus!
