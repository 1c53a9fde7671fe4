//! The OTLP export plan: which transport, endpoints, headers and resource
//! attributes the log and metric exporters are built with.

use vstd::prelude::*;
use crate::attributes::{entries_map, keys_distinct, lemma_entries_map_drop_last, pairs_view, Attributes};
use crate::config::Transport;
use crate::external::{grpc_metadata_key, parse_grpc_metadata_key};
use super::options::{OtelOptions, ServiceOptions, TelemetryOptions};
use super::options::telemetry::otlp_endpoint;
use super::options::service::resource_attribute_pairs;
use crate::text::decimal;

verus! {

/// Inserts the pairs of `entries` into `m`, first to last.
pub open spec fn insert_all(m: Map<Seq<char>, Seq<char>>, entries: Seq<(Seq<char>, Seq<char>)>) -> Map<Seq<char>, Seq<char>>
    decreases entries.len(),
{
    if entries.len() == 0 {
        m
    } else {
        insert_all(m, entries.drop_last()).insert(entries.last().0, entries.last().1)
    }
}

/// Inserts the present pairs of `entries` into `m`, first to last.
pub open spec fn insert_present(m: Map<Seq<char>, Seq<char>>, entries: Seq<Option<(Seq<char>, Seq<char>)>>) -> Map<Seq<char>, Seq<char>>
    decreases entries.len(),
{
    if entries.len() == 0 {
        m
    } else {
        let rest = insert_present(m, entries.drop_last());
        match entries.last() {
            Some(p) => rest.insert(p.0, p.1),
            None => rest,
        }
    }
}

/// The credentials header for a bearer token under the header name `name`.
pub open spec fn bearer_header(name: Seq<char>, token: Option<String>) -> Map<Seq<char>, Seq<char>> {
    match token {
        Some(t) => Map::empty().insert(name, "Bearer "@ + t@),
        None => Map::empty(),
    }
}

/// HTTP headers of an export: the bearer token under `Authorization`, then
/// the configured headers, which replace it under the same name.
pub open spec fn http_headers_of(token: Option<String>, headers: Seq<(Seq<char>, Seq<char>)>) -> Map<Seq<char>, Seq<char>> {
    insert_all(bearer_header("Authorization"@, token), headers)
}

/// Inserting entries with distinct keys one by one gives `m` overridden by
/// the map of those entries.
pub proof fn lemma_insert_all_union(m: Map<Seq<char>, Seq<char>>, entries: Seq<(Seq<char>, Seq<char>)>)
    requires
        keys_distinct(entries),
    ensures
        insert_all(m, entries) == m.union_prefer_right(entries_map(entries)),
    decreases entries.len(),
{
    if entries.len() == 0 {
        assert(entries_map(entries) =~= Map::empty());
        assert(m.union_prefer_right(entries_map(entries)) =~= m);
    } else {
        lemma_entries_map_drop_last(entries);
        lemma_insert_all_union(m, entries.drop_last());
        assert(insert_all(m, entries) =~= m.union_prefer_right(entries_map(entries)));
    }
}

/// Law: the configured headers of an HTTP export override the bearer token
/// header; what they leave out, the token header supplies.
pub proof fn law_http_headers_override_token(token: Option<String>, headers: Seq<(Seq<char>, Seq<char>)>)
    requires
        keys_distinct(headers),
    ensures
        http_headers_of(token, headers) == bearer_header("Authorization"@, token).union_prefer_right(entries_map(headers)),
{
    lemma_insert_all_union(bearer_header("Authorization"@, token), headers);
}

/// True for a character that a gRPC metadata value may hold: a tab, or any
/// character from the space on except DEL.
pub open spec fn metadata_value_char(c: char) -> bool {
    c == '\t' || (' ' <= c && c != '\x7f')
}

/// True for a text that `tonic` accepts as an ASCII metadata value.
pub open spec fn metadata_value_valid(value: Seq<char>) -> bool {
    forall|i: int| 0 <= i < value.len() ==> #[trigger] metadata_value_char(value[i])
}

/// The metadata entry that a configured header becomes: its key's
/// normalized name with the value, if both key and value are accepted.
pub open spec fn accepted_metadata(entry: (Seq<char>, Seq<char>)) -> Option<(Seq<char>, Seq<char>)> {
    match grpc_metadata_key(entry.0) {
        Some(name) => if metadata_value_valid(entry.1) { Some((name, entry.1)) } else { None },
        None => None,
    }
}

/// The views of a sequence of optional string pairs.
pub open spec fn opt_pairs_view(v: Seq<Option<(String, String)>>) -> Seq<Option<(Seq<char>, Seq<char>)>> {
    v.map_values(|p: Option<(String, String)>| match p {
        Some(p) => Some((p.0@, p.1@)),
        None => None,
    })
}

/// gRPC metadata of an export: the bearer token under `authorization`, then
/// the configured headers that tonic accepts, by their normalized names.
pub open spec fn grpc_metadata_of(token: Option<String>, headers: Seq<(Seq<char>, Seq<char>)>) -> Map<Seq<char>, Seq<char>> {
    insert_present(bearer_header("authorization"@, token), headers.map_values(|e: (Seq<char>, Seq<char>)| accepted_metadata(e)))
}

/// Inserting present pairs keeps the keys that none of them names, and
/// makes the key of each of them present.
pub proof fn lemma_insert_present(m: Map<Seq<char>, Seq<char>>, entries: Seq<Option<(Seq<char>, Seq<char>)>>, key: Seq<char>)
    ensures
        (forall|i: int| 0 <= i < entries.len() ==> !(#[trigger] entries[i] matches Some(p) && p.0 == key))
            ==> insert_present(m, entries).dom().contains(key) == m.dom().contains(key)
                && insert_present(m, entries)[key] == m[key],
        (exists|i: int| 0 <= i < entries.len() && (#[trigger] entries[i] matches Some(p) && p.0 == key))
            ==> insert_present(m, entries).dom().contains(key),
    decreases entries.len(),
{
    if entries.len() > 0 {
        let init = entries.drop_last();
        lemma_insert_present(m, init, key);
        if forall|i: int| 0 <= i < entries.len() ==> !(#[trigger] entries[i] matches Some(p) && p.0 == key) {
            assert forall|i: int| 0 <= i < init.len() implies !(#[trigger] init[i] matches Some(p) && p.0 == key) by {
                assert(init[i] == entries[i]);
            }
            assert(!(entries[entries.len() - 1] matches Some(p) && p.0 == key));
        }
        if exists|i: int| 0 <= i < entries.len() && (#[trigger] entries[i] matches Some(p) && p.0 == key) {
            let i = choose|i: int| 0 <= i < entries.len() && (#[trigger] entries[i] matches Some(p) && p.0 == key);
            if i < init.len() {
                assert(init[i] == entries[i]);
            }
        }
    }
}

/// Inserting present pairs leaves under a key the value of the last pair
/// that names it.
pub proof fn lemma_insert_present_last(m: Map<Seq<char>, Seq<char>>, entries: Seq<Option<(Seq<char>, Seq<char>)>>, i: int)
    requires
        0 <= i < entries.len(),
        entries[i] is Some,
        forall|j: int| i < j < entries.len() ==> !(#[trigger] entries[j] matches Some(p) && p.0 == entries[i].unwrap().0),
    ensures
        insert_present(m, entries).dom().contains(entries[i].unwrap().0),
        insert_present(m, entries)[entries[i].unwrap().0] == entries[i].unwrap().1,
    decreases entries.len(),
{
    let init = entries.drop_last();
    let n = entries.len() - 1;
    assert(entries.last() == entries[n]);
    if i < n {
        assert(init[i] == entries[i]);
        assert forall|j: int| i < j < init.len() implies !(#[trigger] init[j] matches Some(p) && p.0 == init[i].unwrap().0) by {
            assert(init[j] == entries[j]);
        }
        lemma_insert_present_last(m, init, i);
        assert(!(entries[n] matches Some(p) && p.0 == entries[i].unwrap().0));
    }
}

/// Law: over gRPC, every configured header that tonic accepts is sent under
/// its normalized name, and the bearer token is sent under `authorization`
/// unless an accepted header takes that name.
pub proof fn law_grpc_metadata_keeps_token_and_headers(token: Option<String>, headers: Seq<(Seq<char>, Seq<char>)>)
    ensures
        forall|i: int| 0 <= i < headers.len() && (#[trigger] accepted_metadata(headers[i]) matches Some(p))
            ==> grpc_metadata_of(token, headers).dom().contains(accepted_metadata(headers[i]).unwrap().0),
        (token matches Some(t) && forall|i: int| 0 <= i < headers.len()
            ==> !(#[trigger] accepted_metadata(headers[i]) matches Some(p) && p.0 == "authorization"@))
            ==> grpc_metadata_of(token, headers).dom().contains("authorization"@)
                && grpc_metadata_of(token, headers)["authorization"@] == "Bearer "@ + token->0@,
{
    let entries = headers.map_values(|e: (Seq<char>, Seq<char>)| accepted_metadata(e));
    let base = bearer_header("authorization"@, token);
    assert forall|i: int| 0 <= i < headers.len() && (#[trigger] accepted_metadata(headers[i]) matches Some(p))
        implies grpc_metadata_of(token, headers).dom().contains(accepted_metadata(headers[i]).unwrap().0) by {
        let key = accepted_metadata(headers[i]).unwrap().0;
        assert(entries[i] == accepted_metadata(headers[i]));
        lemma_insert_present(base, entries, key);
    }
    if token matches Some(t) && forall|i: int| 0 <= i < headers.len()
        ==> !(#[trigger] accepted_metadata(headers[i]) matches Some(p) && p.0 == "authorization"@) {
        assert forall|i: int| 0 <= i < entries.len() implies !(#[trigger] entries[i] matches Some(p) && p.0 == "authorization"@) by {
            assert(entries[i] == accepted_metadata(headers[i]));
        }
        lemma_insert_present(base, entries, "authorization"@);
    }
}

/// Law: over gRPC, a configured header that tonic accepts is sent with its
/// own value under its key's normalized name, unless a later accepted header
/// takes the same name.
pub proof fn law_grpc_metadata_header_values(token: Option<String>, headers: Seq<(Seq<char>, Seq<char>)>, i: int)
    requires
        0 <= i < headers.len(),
        accepted_metadata(headers[i]) is Some,
        forall|j: int| i < j < headers.len()
            ==> !(#[trigger] accepted_metadata(headers[j]) matches Some(p) && p.0 == grpc_metadata_key(headers[i].0).unwrap()),
    ensures
        grpc_metadata_of(token, headers).dom().contains(grpc_metadata_key(headers[i].0).unwrap()),
        grpc_metadata_of(token, headers)[grpc_metadata_key(headers[i].0).unwrap()] == headers[i].1,
{
    let entries = headers.map_values(|e: (Seq<char>, Seq<char>)| accepted_metadata(e));
    assert(entries[i] == accepted_metadata(headers[i]));
    assert forall|j: int| i < j < entries.len() implies !(#[trigger] entries[j] matches Some(p) && p.0 == entries[i].unwrap().0) by {
        assert(entries[j] == accepted_metadata(headers[j]));
    }
    lemma_insert_present_last(bearer_header("authorization"@, token), entries, i);
}

/// True when the bearer token of these options can be sent: it is only sent
/// as gRPC metadata, where `Bearer <token>` must be a valid metadata value.
pub open spec fn bearer_token_acceptable(otlp: OtelOptions) -> bool {
    !otlp.enabled || otlp.use_http || match otlp.auth_token {
        Some(t) => metadata_value_valid("Bearer "@ + t@),
        None => true,
    }
}

/// Law: the tab and every printable ASCII character, from the space to the
/// tilde, may stand in a metadata value, so any text made of them is a valid
/// value; the other control characters and DEL may not.
pub proof fn law_metadata_value_printable_ascii(c: char, value: Seq<char>)
    ensures
        (c == '\t' || (' ' <= c && c <= '~')) ==> metadata_value_char(c),
        ((c < ' ' && c != '\t') || c == '\x7f') ==> !metadata_value_char(c),
        (forall|i: int| 0 <= i < value.len() ==> (#[trigger] value[i] == '\t' || (' ' <= value[i] && value[i] <= '~')))
            ==> metadata_value_valid(value),
{
}

/// Law: a bearer token of printable ASCII characters can always be sent,
/// whatever the transport.
pub proof fn law_printable_bearer_token_acceptable(otlp: OtelOptions)
    requires
        otlp.auth_token matches Some(t) ==> forall|i: int| 0 <= i < t@.len()
            ==> (' ' <= #[trigger] t@[i] && t@[i] <= '~'),
    ensures
        bearer_token_acceptable(otlp),
{
    reveal_strlit("Bearer ");
    if let Some(t) = otlp.auth_token {
        let v = "Bearer "@ + t@;
        assert forall|i: int| 0 <= i < v.len() implies #[trigger] metadata_value_char(v[i]) by {
            if i >= 7 {
                assert(v[i] == t@[i - 7]);
            }
        }
    }
}

/// Law: a configured header becomes gRPC metadata exactly when tonic accepts
/// its key and every character of its value is a tab or a character from the
/// space on other than DEL, whatever the value's length; it then keeps its
/// value, under the key's normalized name.
pub proof fn law_accepted_metadata_exact(key: Seq<char>, value: Seq<char>)
    ensures
        accepted_metadata((key, value)) is Some <==> (grpc_metadata_key(key) is Some
            && forall|i: int| 0 <= i < value.len() ==> (#[trigger] value[i] == '\t' || (' ' <= value[i] && value[i] != '\x7f'))),
        accepted_metadata((key, value)) is Some
            ==> accepted_metadata((key, value)) == Some((grpc_metadata_key(key).unwrap(), value)),
{
    assert(metadata_value_valid(value) <==> forall|i: int| 0 <= i < value.len()
        ==> (#[trigger] value[i] == '\t' || (' ' <= value[i] && value[i] != '\x7f'))) by {
        if forall|i: int| 0 <= i < value.len() ==> (#[trigger] value[i] == '\t' || (' ' <= value[i] && value[i] != '\x7f')) {
            assert forall|i: int| 0 <= i < value.len() implies #[trigger] metadata_value_char(value[i]) by {
                assert(value[i] == '\t' || (' ' <= value[i] && value[i] != '\x7f'));
            }
        }
        if metadata_value_valid(value) {
            assert forall|i: int| 0 <= i < value.len()
                implies (#[trigger] value[i] == '\t' || (' ' <= value[i] && value[i] != '\x7f')) by {
                assert(metadata_value_char(value[i]));
            }
        }
    }
}

/// Every value of the map is a valid metadata value.
pub open spec fn all_values_valid(m: Map<Seq<char>, Seq<char>>) -> bool {
    forall|k: Seq<char>| #[trigger] m.dom().contains(k) ==> metadata_value_valid(m[k])
}

/// Inserting pairs with valid values keeps all values valid.
pub proof fn lemma_insert_present_values(m: Map<Seq<char>, Seq<char>>, entries: Seq<Option<(Seq<char>, Seq<char>)>>)
    requires
        all_values_valid(m),
        forall|i: int| 0 <= i < entries.len() && (#[trigger] entries[i] matches Some(p))
            ==> metadata_value_valid(entries[i].unwrap().1),
    ensures
        all_values_valid(insert_present(m, entries)),
    decreases entries.len(),
{
    if entries.len() > 0 {
        let init = entries.drop_last();
        assert forall|i: int| 0 <= i < init.len() && (#[trigger] init[i] matches Some(p))
            implies metadata_value_valid(init[i].unwrap().1) by {
            assert(init[i] == entries[i]);
        }
        lemma_insert_present_values(m, init);
        let last = entries[entries.len() - 1];
        assert(entries.last() == last);
    }
}

/// Whether the bearer token of these options can be sent.
pub fn bearer_token_is_acceptable(otlp: &OtelOptions) -> (r: bool)
    ensures
        r == bearer_token_acceptable(*otlp),
{
    if !otlp.enabled || otlp.use_http {
        return true;
    }
    match &otlp.auth_token {
        Some(t) => {
            let mut value = "Bearer ".to_owned();
            value.append(t.as_str());
            metadata_value_is_valid(value.as_str())
        },
        None => true,
    }
}

/// Whether `value` may be sent as an ASCII gRPC metadata value.
pub fn metadata_value_is_valid(value: &str) -> (r: bool)
    ensures
        r == metadata_value_valid(value@),
{
    let n = value.unicode_len();
    let mut i: usize = 0;
    while i < n
        invariant
            n == value@.len(),
            i <= n,
            forall|j: int| 0 <= j < i ==> #[trigger] metadata_value_char(value@[j]),
        decreases n - i,
    {
        let c = value.get_char(i);
        if !(c == '\t' || (' ' <= c && c != '\x7f')) {
            assert(!metadata_value_char(value@[i as int]));
            return false;
        }
        i = i + 1;
    }
    true
}

/// Checks every configured header as gRPC metadata: each entry becomes its
/// normalized key with its value, or nothing if tonic refuses it.
pub fn parse_metadata_headers(headers: &Attributes) -> (r: Vec<Option<(String, String)>>)
    ensures
        opt_pairs_view(r@) == headers.entries_view().map_values(|e: (Seq<char>, Seq<char>)| accepted_metadata(e)),
{
    let entries = headers.entries();
    let mut out: Vec<Option<(String, String)>> = Vec::new();
    let mut i: usize = 0;
    while i < entries.len()
        invariant
            pairs_view(entries@) == headers.entries_view(),
            i <= entries@.len(),
            opt_pairs_view(out@) == headers.entries_view().take(i as int).map_values(|e: (Seq<char>, Seq<char>)| accepted_metadata(e)),
        decreases entries@.len() - i,
    {
        let ghost before = out@;
        let ghost entry = pairs_view(entries@)[i as int];
        let key = &entries[i].0;
        let value = &entries[i].1;
        let accepted = match parse_grpc_metadata_key(key.as_str()) {
            Some(name) => if metadata_value_is_valid(value.as_str()) {
                Some((name, value.clone()))
            } else {
                None
            },
            None => None,
        };
        out.push(accepted);
        proof {
            assert(entry == (key@, value@));
            assert(opt_pairs_view(out@) =~= opt_pairs_view(before).push(accepted_metadata(entry)));
            assert(headers.entries_view().take(i + 1) =~= headers.entries_view().take(i as int).push(entry));
        }
        i = i + 1;
        assert(opt_pairs_view(out@) =~= headers.entries_view().take(i as int).map_values(|e: (Seq<char>, Seq<char>)| accepted_metadata(e)));
    }
    assert(headers.entries_view().take(i as int) =~= headers.entries_view());
    out
}

fn bearer(name: &str, token: &Option<String>) -> (r: Attributes)
    ensures
        r@ == bearer_header(name@, *token),
{
    let mut map = Attributes::new();
    if let Some(t) = token {
        let mut value = "Bearer ".to_owned();
        value.append(t.as_str());
        map.insert(name.to_owned(), value);
    }
    map
}

/// The gRPC metadata of an export, from the bearer token and the outcome of
/// checking each configured header (`parse_metadata_headers`).
pub fn grpc_metadata(auth_token: &Option<String>, accepted: &Vec<Option<(String, String)>>) -> (r: Attributes)
    ensures
        r@ == insert_present(bearer_header("authorization"@, *auth_token), opt_pairs_view(accepted@)),
{
    let mut map = bearer("authorization", auth_token);
    let mut i: usize = 0;
    while i < accepted.len()
        invariant
            i <= accepted@.len(),
            map@ == insert_present(bearer_header("authorization"@, *auth_token), opt_pairs_view(accepted@).take(i as int)),
        decreases accepted@.len() - i,
    {
        let ghost before = map@;
        if let Some(pair) = &accepted[i] {
            map.insert(pair.0.clone(), pair.1.clone());
        }
        proof {
            let s = opt_pairs_view(accepted@).take(i + 1);
            assert(s.drop_last() =~= opt_pairs_view(accepted@).take(i as int));
        }
        i = i + 1;
    }
    assert(opt_pairs_view(accepted@).take(i as int) =~= opt_pairs_view(accepted@));
    map
}

/// The HTTP headers of an export: the bearer token under `Authorization`,
/// then every configured header.
pub fn http_headers(auth_token: &Option<String>, headers: &Attributes) -> (r: Attributes)
    ensures
        r@ == http_headers_of(*auth_token, headers.entries_view()),
        r@ == bearer_header("Authorization"@, *auth_token).union_prefer_right(headers@),
{
    let mut map = bearer("Authorization", auth_token);
    let entries = headers.entries();
    let mut i: usize = 0;
    while i < entries.len()
        invariant
            pairs_view(entries@) == headers.entries_view(),
            i <= entries@.len(),
            map@ == insert_all(bearer_header("Authorization"@, *auth_token), headers.entries_view().take(i as int)),
        decreases entries@.len() - i,
    {
        map.insert(entries[i].0.clone(), entries[i].1.clone());
        proof {
            let s = headers.entries_view().take(i + 1);
            assert(s.drop_last() =~= headers.entries_view().take(i as int));
        }
        i = i + 1;
    }
    assert(headers.entries_view().take(i as int) =~= headers.entries_view());
    proof { law_http_headers_override_token(*auth_token, headers.entries_view()); }
    map
}

/// How the log and metric exporters of an instance are built.
pub struct OtlpExport {
    pub transport: Transport,
    /// Endpoint of the log exporter.
    pub logs_endpoint: String,
    /// Endpoint of the metric exporter.
    pub metrics_endpoint: String,
    /// HTTP headers, or gRPC metadata, sent with every export.
    pub headers: Attributes,
    /// The service name of the exported resource.
    pub service_name: String,
    /// Further attributes of the exported resource, in order.
    pub resource_attributes: Vec<(String, String)>,
}

/// The endpoint of one signal: over HTTP the collector URL with the signal's
/// path appended, over gRPC the collector URL itself.
pub open spec fn signal_endpoint(otlp: OtelOptions, path: Seq<char>) -> Seq<char> {
    if otlp.use_http {
        otlp_endpoint(otlp.host@, otlp.port) + path
    } else {
        otlp_endpoint(otlp.host@, otlp.port)
    }
}

/// True when `plan` is the export plan of a service with these telemetry
/// options: none unless OTLP export is enabled; else over HTTP or gRPC as
/// configured, towards the signal endpoints, with the configured headers
/// behind the bearer token, and the service's resource attributes.
pub open spec fn export_plan_of(plan: Option<OtlpExport>, service: ServiceOptions, telemetry: TelemetryOptions) -> bool {
    let otlp = telemetry.otlp;
    &&& plan is Some == otlp.enabled
    &&& plan matches Some(p) ==> {
        &&& p.transport == (if otlp.use_http { Transport::Http } else { Transport::Grpc })
        &&& p.logs_endpoint@ == signal_endpoint(otlp, "/v1/logs"@)
        &&& p.metrics_endpoint@ == signal_endpoint(otlp, "/v1/metrics"@)
        &&& p.headers@ == (if otlp.use_http {
                http_headers_of(otlp.auth_token, otlp.headers.entries_view())
            } else {
                grpc_metadata_of(otlp.auth_token, otlp.headers.entries_view())
            })
        &&& p.service_name@ == service.name@
        &&& pairs_view(p.resource_attributes@) == resource_attribute_pairs(service)
    }
}

/// Law: an enabled export carries, over HTTP as over gRPC, the service
/// version, then the deployment environment, then every attribute of the
/// service with its value, in the service's order; every attribute key of the
/// service is among the exported resource attributes with its value.
pub proof fn law_export_plan_resource_attributes(plan: Option<OtlpExport>, service: ServiceOptions, telemetry: TelemetryOptions)
    requires
        export_plan_of(plan, service, telemetry),
        telemetry.otlp.enabled,
    ensures
        plan is Some,
        pairs_view(plan.unwrap().resource_attributes@).len() == service.attributes.entries_view().len() + 2,
        pairs_view(plan.unwrap().resource_attributes@)[0] == ("service.version"@, service.version@),
        pairs_view(plan.unwrap().resource_attributes@)[1] == ("deployment.environment"@, service.environment.name()),
        forall|i: int| 0 <= i < service.attributes.entries_view().len()
            ==> pairs_view(plan.unwrap().resource_attributes@)[i + 2] == #[trigger] service.attributes.entries_view()[i],
        forall|key: Seq<char>| #[trigger] service.attributes@.dom().contains(key)
            ==> exists|i: int| 0 <= i < plan.unwrap().resource_attributes@.len()
                && #[trigger] pairs_view(plan.unwrap().resource_attributes@)[i] == (key, service.attributes@[key]),
{
    let attrs = pairs_view(plan.unwrap().resource_attributes@);
    assert(attrs == resource_attribute_pairs(service));
    assert forall|key: Seq<char>| #[trigger] service.attributes@.dom().contains(key)
        implies exists|i: int| 0 <= i < plan.unwrap().resource_attributes@.len()
            && #[trigger] pairs_view(plan.unwrap().resource_attributes@)[i] == (key, service.attributes@[key]) by {
        crate::sdk::options::service::law_attributes_in_resource(service, key);
    }
}

/// Law: an enabled export goes over HTTP exactly when `use_http` is set, to
/// `http://<host>:<port>` followed by `/v1/logs` or `/v1/metrics` over HTTP
/// and to that URL itself over gRPC, under the service's name. Over HTTP it
/// sends every configured header with its value, and the bearer token under
/// `Authorization` unless a header takes that name, and nothing else; over
/// gRPC it sends each accepted header with its value under its normalized
/// name, unless a later accepted header takes the same name.
pub proof fn law_export_plan_endpoints_and_headers(plan: Option<OtlpExport>, service: ServiceOptions, telemetry: TelemetryOptions)
    requires
        export_plan_of(plan, service, telemetry),
        telemetry.otlp.enabled,
        keys_distinct(telemetry.otlp.headers.entries_view()),
    ensures
        plan is Some,
        (plan.unwrap().transport == Transport::Http) == telemetry.otlp.use_http,
        plan.unwrap().service_name@ == service.name@,
        telemetry.otlp.use_http ==> {
            &&& plan.unwrap().logs_endpoint@
                == "http://"@ + telemetry.otlp.host@ + ":"@ + decimal(telemetry.otlp.port as nat) + "/v1/logs"@
            &&& plan.unwrap().metrics_endpoint@
                == "http://"@ + telemetry.otlp.host@ + ":"@ + decimal(telemetry.otlp.port as nat) + "/v1/metrics"@
        },
        !telemetry.otlp.use_http ==> {
            &&& plan.unwrap().logs_endpoint@ == "http://"@ + telemetry.otlp.host@ + ":"@ + decimal(telemetry.otlp.port as nat)
            &&& plan.unwrap().metrics_endpoint@ == plan.unwrap().logs_endpoint@
        },
        telemetry.otlp.use_http ==> forall|k: Seq<char>| #[trigger] telemetry.otlp.headers@.dom().contains(k)
            ==> plan.unwrap().headers@.dom().contains(k) && plan.unwrap().headers@[k] == telemetry.otlp.headers@[k],
        telemetry.otlp.use_http ==> forall|k: Seq<char>| #[trigger] plan.unwrap().headers@.dom().contains(k)
            ==> telemetry.otlp.headers@.dom().contains(k) || (k == "Authorization"@ && telemetry.otlp.auth_token is Some),
        (telemetry.otlp.use_http && telemetry.otlp.auth_token is Some
            && !telemetry.otlp.headers@.dom().contains("Authorization"@))
            ==> plan.unwrap().headers@.dom().contains("Authorization"@)
                && plan.unwrap().headers@["Authorization"@] == "Bearer "@ + telemetry.otlp.auth_token.unwrap()@,
        !telemetry.otlp.use_http ==> forall|i: int| 0 <= i < telemetry.otlp.headers.entries_view().len()
            && (#[trigger] accepted_metadata(telemetry.otlp.headers.entries_view()[i])) is Some
            && (forall|j: int| i < j < telemetry.otlp.headers.entries_view().len()
                ==> !(#[trigger] accepted_metadata(telemetry.otlp.headers.entries_view()[j]) matches Some(q)
                    && q.0 == grpc_metadata_key(telemetry.otlp.headers.entries_view()[i].0).unwrap()))
            ==> plan.unwrap().headers@[grpc_metadata_key(telemetry.otlp.headers.entries_view()[i].0).unwrap()]
                == telemetry.otlp.headers.entries_view()[i].1,
{
    let otlp = telemetry.otlp;
    let headers = otlp.headers.entries_view();
    if otlp.use_http {
        law_http_headers_override_token(otlp.auth_token, headers);
    } else {
        assert forall|i: int| 0 <= i < headers.len()
            && (#[trigger] accepted_metadata(headers[i])) is Some
            && (forall|j: int| i < j < headers.len()
                ==> !(#[trigger] accepted_metadata(headers[j]) matches Some(q) && q.0 == grpc_metadata_key(headers[i].0).unwrap()))
            implies plan.unwrap().headers@[grpc_metadata_key(headers[i].0).unwrap()] == headers[i].1 by {
            law_grpc_metadata_header_values(otlp.auth_token, headers, i);
        }
    }
}

/// The export plan of an instance: none unless OTLP export is enabled.
pub fn otlp_export_plan(service: &ServiceOptions, telemetry: &TelemetryOptions) -> (r: Option<OtlpExport>)
    requires
        bearer_token_acceptable(telemetry.otlp),
    ensures
        export_plan_of(r, *service, *telemetry),
        r matches Some(p) ==> (p.transport == Transport::Grpc ==> all_values_valid(p.headers@)),
{
    let otlp = &telemetry.otlp;
    if !otlp.enabled {
        return None;
    }
    let endpoint = otlp.endpoint();
    if otlp.use_http {
        let mut logs_endpoint = endpoint.clone();
        logs_endpoint.append("/v1/logs");
        let mut metrics_endpoint = endpoint;
        metrics_endpoint.append("/v1/metrics");
        Some(OtlpExport {
            transport: Transport::Http,
            logs_endpoint,
            metrics_endpoint,
            headers: http_headers(&otlp.auth_token, &otlp.headers),
            service_name: service.name.clone(),
            resource_attributes: service.resource_attributes(),
        })
    } else {
        let accepted = parse_metadata_headers(&otlp.headers);
        let headers = grpc_metadata(&otlp.auth_token, &accepted);
        proof {
            let entries = otlp.headers.entries_view().map_values(|e: (Seq<char>, Seq<char>)| accepted_metadata(e));
            let base = bearer_header("authorization"@, otlp.auth_token);
            if otlp.auth_token is Some {
                assert(base.dom() =~= set!["authorization"@]);
            } else {
                assert(base.dom() =~= Set::<Seq<char>>::empty());
            }
            assert forall|i: int| 0 <= i < entries.len() && (#[trigger] entries[i] matches Some(p))
                implies metadata_value_valid(entries[i].unwrap().1) by {
                assert(entries[i] == accepted_metadata(otlp.headers.entries_view()[i]));
            }
            lemma_insert_present_values(base, entries);
        }
        Some(OtlpExport {
            transport: Transport::Grpc,
            logs_endpoint: endpoint.clone(),
            metrics_endpoint: endpoint,
            headers,
            service_name: service.name.clone(),
            resource_attributes: service.resource_attributes(),
        })
    }
}

} // verus!
