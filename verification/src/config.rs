//! Session configuration: service identity, the optional collector URI and
//! the per-signal settings, and the exporter that a URI selects.

use vstd::prelude::*;
use crate::error::Error;
use crate::external::{parse_url, url_parse};
use crate::log::LogConfig;
use crate::metrics::MetricsConfig;
use crate::trace::TraceConfig;

verus! {

/// The name of this package, the default service name.
pub open spec fn package_name() -> Seq<char> {
    "pulse"@
}

/// The version of this package, the default service version.
pub open spec fn package_version() -> Seq<char> {
    "0.1.0"@
}

/// Configuration of a telemetry session.
#[derive(Debug, Clone)]
pub struct Config {
    pub service_name: String,
    pub service_version: String,
    /// Collector URI; without one nothing is exported.
    pub uri: Option<String>,
    pub log: LogConfig,
    pub trace: TraceConfig,
    pub metrics: MetricsConfig,
}

impl Config {
    /// The service name used when none is configured: this package's name.
    pub fn default_service_name() -> (r: String)
        ensures
            r@ == package_name(),
    {
        "pulse".to_owned()
    }

    /// The service version used when none is configured: this package's version.
    pub fn default_service_version() -> (r: String)
        ensures
            r@ == package_version(),
    {
        "0.1.0".to_owned()
    }

    /// True for the configuration that `default` builds.
    pub open spec fn is_default(self) -> bool {
        &&& self.service_name@ == package_name()
        &&& self.service_version@ == package_version()
        &&& self.uri is None
        &&& self.log.is_default()
        &&& self.trace.is_default()
        &&& self.metrics.is_default()
    }

    /// The exporter that this configuration selects: none without a URI,
    /// else the parsed URI if its scheme is supported.
    pub fn exporter_endpoint(&self) -> (r: Result<Option<ExporterEndpoint>, Error>)
        ensures
            match self.uri {
                None => r matches Ok(None),
                Some(uri) => match url_parse(uri@) {
                    None => r matches Err(Error::InvalidUrl(_)),
                    Some((scheme, serialization)) => match scheme_of(scheme) {
                        Some(s) => r matches Ok(Some(e)) && e.scheme == s && e.endpoint@ == serialization,
                        None => r matches Err(Error::UnsupportedUrlScheme(other)) && other@ == scheme,
                    },
                },
            },
    {
        match &self.uri {
            None => Ok(None),
            Some(uri) => {
                let (scheme, serialization) = match parse_url(uri.as_str()) {
                    Ok(parts) => parts,
                    Err(e) => return Err(Error::InvalidUrl(e)),
                };
                let scheme = supported_scheme(scheme.as_str())?;
                Ok(Some(ExporterEndpoint { scheme, endpoint: serialization }))
            },
        }
    }
}

impl Default for Config {
    fn default() -> (r: Self)
        ensures
            r.is_default(),
    {
        Config {
            service_name: Config::default_service_name(),
            service_version: Config::default_service_version(),
            uri: None,
            log: LogConfig::default(),
            trace: TraceConfig::default(),
            metrics: MetricsConfig::default(),
        }
    }
}

/// The URL schemes that a collector URI may use.
#[derive(Debug, Clone, Copy, PartialEq, Eq, Structural)]
pub enum UriScheme {
    Https,
    Http,
    Grpc,
}

/// The protocol over which an exporter talks to the collector.
#[derive(Debug, Clone, Copy, PartialEq, Eq, Structural)]
pub enum Transport {
    /// OTLP over HTTP.
    Http,
    /// OTLP over gRPC.
    Grpc,
}

impl UriScheme {
    /// The protocol of this scheme: HTTP for `http` and `https`, gRPC for `grpc`.
    pub open spec fn spec_transport(self) -> Transport {
        match self {
            UriScheme::Https | UriScheme::Http => Transport::Http,
            UriScheme::Grpc => Transport::Grpc,
        }
    }

    /// The protocol of this scheme.
    pub fn transport(&self) -> (t: Transport)
        ensures
            t == self.spec_transport(),
    {
        match self {
            UriScheme::Https | UriScheme::Http => Transport::Http,
            UriScheme::Grpc => Transport::Grpc,
        }
    }
}

/// The supported scheme named by `scheme`, if any.
pub open spec fn scheme_of(scheme: Seq<char>) -> Option<UriScheme> {
    if scheme == "http"@ {
        Some(UriScheme::Http)
    } else if scheme == "https"@ {
        Some(UriScheme::Https)
    } else if scheme == "grpc"@ {
        Some(UriScheme::Grpc)
    } else {
        None
    }
}

/// Law: exactly three schemes are supported, `http`, `https` and `grpc`,
/// as HTTP, HTTPS and gRPC respectively; every other scheme is refused.
pub proof fn law_supported_schemes(scheme: Seq<char>)
    ensures
        scheme_of(scheme) is Some <==> (scheme == "http"@ || scheme == "https"@ || scheme == "grpc"@),
        scheme == "http"@ ==> scheme_of(scheme) == Some(UriScheme::Http),
        scheme == "https"@ ==> scheme_of(scheme) == Some(UriScheme::Https),
        scheme == "grpc"@ ==> scheme_of(scheme) == Some(UriScheme::Grpc),
{
    reveal_strlit("http");
    reveal_strlit("https");
    reveal_strlit("grpc");
    assert("https"@.len() != "http"@.len());
    assert("grpc"@[0] != "http"@[0]);
    assert("grpc"@.len() != "https"@.len());
}

/// Classifies a URL scheme: `http`, `https` and `grpc` are supported, any
/// other scheme is refused with an error that carries it.
pub fn supported_scheme(scheme: &str) -> (r: Result<UriScheme, Error>)
    ensures
        match scheme_of(scheme@) {
            Some(s) => r == Ok::<UriScheme, Error>(s),
            None => r matches Err(Error::UnsupportedUrlScheme(other)) && other@ == scheme@,
        },
{
    let owned = scheme.to_owned();
    if owned == "http".to_owned() {
        Ok(UriScheme::Http)
    } else if owned == "https".to_owned() {
        Ok(UriScheme::Https)
    } else if owned == "grpc".to_owned() {
        Ok(UriScheme::Grpc)
    } else {
        Err(Error::UnsupportedUrlScheme(owned))
    }
}

/// The collector endpoint of an exporter.
#[derive(Debug)]
pub struct ExporterEndpoint {
    /// The URI's scheme, which decides the transport.
    pub scheme: UriScheme,
    /// The URI as `url` serializes it.
    pub endpoint: String,
}

} // verus!
