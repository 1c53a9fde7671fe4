//! OpenTelemetry (OTLP) export options.

use vstd::prelude::*;
use crate::attributes::Attributes;
use crate::text::{decimal, push_decimal};

verus! {

/// The endpoint URL of a collector: `http://<host>:<port>`.
pub open spec fn otlp_endpoint(host: Seq<char>, port: u16) -> Seq<char> {
    "http://"@ + host + ":"@ + decimal(port as nat)
}

/// Where and how telemetry is exported over OTLP.
#[derive(Debug, Clone)]
pub struct OtelOptions {
    pub host: String,
    pub port: u16,
    pub enabled: bool,
    /// Export over HTTP instead of gRPC.
    pub use_http: bool,
    /// Bearer token sent with every export.
    pub auth_token: Option<String>,
    /// Further headers (gRPC metadata) sent with every export.
    pub headers: Attributes,
}

impl OtelOptions {
    /// True when everything but host and port has its default.
    pub open spec fn has_default_settings(self) -> bool {
        &&& !self.use_http
        &&& self.auth_token is None
        &&& self.headers.entries_view().len() == 0
    }

    /// True for the options that `default` builds: export disabled, towards
    /// `localhost:4317`.
    pub open spec fn is_default(self) -> bool {
        &&& self.host@ == "localhost"@
        &&& self.port == 4317
        &&& !self.enabled
        &&& self.has_default_settings()
    }

    /// Export enabled towards `host:port`, over gRPC, without credentials or headers.
    pub fn new(host: &str, port: u16) -> (r: Self)
        ensures
            r.host@ == host@,
            r.port == port,
            r.enabled,
            r.has_default_settings(),
    {
        OtelOptions {
            host: host.to_owned(),
            port,
            enabled: true,
            use_http: false,
            auth_token: None,
            headers: Attributes::new(),
        }
    }

    /// The full OTLP endpoint URL.
    pub fn endpoint(&self) -> (r: String)
        ensures
            r@ == otlp_endpoint(self.host@, self.port),
    {
        let mut url = "http://".to_owned();
        url.append(self.host.as_str());
        url.append(":");
        push_decimal(&mut url, self.port);
        url
    }
}

impl Default for OtelOptions {
    fn default() -> (r: Self)
        ensures
            r.is_default(),
    {
        OtelOptions {
            host: "localhost".to_owned(),
            port: 4317,
            enabled: false,
            use_http: false,
            auth_token: None,
            headers: Attributes::new(),
        }
    }
}

/// Telemetry export options.
#[derive(Debug, Clone)]
pub struct TelemetryOptions {
    pub otlp: OtelOptions,
}

impl TelemetryOptions {
    /// True for the options that `default` builds.
    pub open spec fn is_default(self) -> bool {
        self.otlp.is_default()
    }

    /// Sets the OTLP options.
    pub fn with_otlp(self, otlp: OtelOptions) -> (r: Self)
        ensures
            r == (TelemetryOptions { otlp }),
    {
        TelemetryOptions { otlp }
    }
}

impl Default for TelemetryOptions {
    fn default() -> (r: Self)
        ensures
            r.is_default(),
    {
        TelemetryOptions { otlp: OtelOptions::default() }
    }
}

} // verus!
