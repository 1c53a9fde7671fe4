//! Service options with the collector's network address.

use vstd::prelude::*;
use crate::config::{package_name, package_version, scheme_of, Config, Transport, UriScheme};
use crate::text::{decimal, decimal_value, law_port_after_last_colon, push_decimal};

verus! {

/// Service identity, verbosity and collector address.
#[derive(Debug, Clone)]
pub struct Options {
    pub service_name: String,
    pub service_version: String,
    pub log_level: LogLevel,
    pub network: NetworkOptions,
}

impl Options {
    /// True for the options that `default` builds.
    pub open spec fn is_default(self) -> bool {
        &&& self.service_name@ == package_name()
        &&& self.service_version@ == package_version()
        &&& self.log_level == LogLevel::Info
        &&& self.network.is_default()
    }
}

impl Default for Options {
    fn default() -> (r: Self)
        ensures
            r.is_default(),
    {
        Options {
            service_name: Config::default_service_name(),
            service_version: Config::default_service_version(),
            log_level: LogLevel::Info,
            network: NetworkOptions::default(),
        }
    }
}

/// Where the collector listens.
#[derive(Debug, Clone)]
pub struct NetworkOptions {
    pub host: String,
    pub port: u16,
    pub advanced_opts: AdvancedNetworkOptions,
}

/// The text of a collector URI: `<scheme>://<host>:<port>`.
pub open spec fn network_uri(connection_type: ConnectionType, host: Seq<char>, port: u16) -> Seq<char> {
    connection_type.name() + "://"@ + host + ":"@ + decimal(port as nat)
}

/// Law: a collector URI starts with `grpc://` for a gRPC connection and with
/// `http://` for an HTTP one, a scheme that the exporter selection accepts
/// with the same transport, and the text after its last `:` reads back as
/// the port.
pub proof fn law_network_uri_scheme_and_port(connection_type: ConnectionType, host: Seq<char>, port: u16)
    ensures
        network_uri(connection_type, host, port) == (match connection_type {
            ConnectionType::Grpc => "grpc://"@,
            ConnectionType::Http => "http://"@,
        }) + host + ":"@ + decimal(port as nat),
        scheme_of(connection_type.name()) matches Some(s) && s.spec_transport() == (match connection_type {
            ConnectionType::Grpc => Transport::Grpc,
            ConnectionType::Http => Transport::Http,
        }),
        ({
            let uri = network_uri(connection_type, host, port);
            let k = uri.len() - decimal(port as nat).len();
            &&& uri[k - 1] == ':'
            &&& decimal_value(uri.subrange(k, uri.len() as int)) == port
            &&& forall|i: int| k <= i < uri.len() ==> #[trigger] uri[i] != ':'
        }),
{
    reveal_strlit("grpc");
    reveal_strlit("http");
    reveal_strlit("https");
    reveal_strlit("://");
    reveal_strlit("grpc://");
    reveal_strlit("http://");
    assert("grpc"@ + "://"@ =~= "grpc://"@);
    assert("http"@ + "://"@ =~= "http://"@);
    assert("grpc"@[0] != "http"@[0]);
    assert("grpc"@.len() != "https"@.len());
    assert(network_uri(connection_type, host, port) =~= (match connection_type {
        ConnectionType::Grpc => "grpc://"@,
        ConnectionType::Http => "http://"@,
    }) + host + ":"@ + decimal(port as nat));
    law_port_after_last_colon(connection_type.name() + "://"@ + host, port as nat);
}

impl NetworkOptions {
    /// True for the options that `default` builds.
    pub open spec fn is_default(self) -> bool {
        &&& self.host@ == "localhost"@
        &&& self.port == 4317
        &&& self.advanced_opts.connection_type == ConnectionType::Grpc
    }

    /// The collector URI: the connection type's name, `://`, the host, `:`
    /// and the port in decimal.
    pub fn uri(&self) -> (r: String)
        ensures
            r@ == network_uri(self.advanced_opts.connection_type, self.host@, self.port),
    {
        let mut uri = self.advanced_opts.connection_type.as_str().to_owned();
        uri.append("://");
        uri.append(self.host.as_str());
        uri.append(":");
        push_decimal(&mut uri, self.port);
        uri
    }
}

impl Default for NetworkOptions {
    fn default() -> (r: Self)
        ensures
            r.is_default(),
    {
        NetworkOptions {
            host: "localhost".to_owned(),
            port: 4317,
            advanced_opts: AdvancedNetworkOptions::default(),
        }
    }
}

/// Transport settings of the collector connection.
#[derive(Debug, Clone)]
pub struct AdvancedNetworkOptions {
    pub connection_type: ConnectionType,
}

impl Default for AdvancedNetworkOptions {
    fn default() -> (r: Self)
        ensures
            r.connection_type == ConnectionType::Grpc,
    {
        AdvancedNetworkOptions { connection_type: ConnectionType::Grpc }
    }
}

/// The protocol of the collector connection.
#[derive(Debug, Clone, Copy, PartialEq, Eq, Structural)]
pub enum ConnectionType {
    Grpc,
    Http,
}

impl ConnectionType {
    /// The scheme under which the connection type appears in a URI.
    pub open spec fn name(self) -> Seq<char> {
        match self {
            ConnectionType::Grpc => "grpc"@,
            ConnectionType::Http => "http"@,
        }
    }

    /// The scheme under which the connection type appears in a URI.
    pub fn as_str(&self) -> (r: &'static str)
        ensures
            r@ == self.name(),
    {
        match self {
            ConnectionType::Grpc => "grpc",
            ConnectionType::Http => "http",
        }
    }
}

/// Verbosity of the service's own records, from least to most verbose.
#[derive(Debug, Clone, Copy, PartialEq, Eq, Structural)]
pub enum LogLevel {
    Error,
    Warn,
    Info,
    Debug,
    Trace,
}

} // verus!
