use pulse::config::{supported_scheme, Config, Transport, UriScheme};
use pulse::error::Error;
use pulse::log::{console_line, ConsoleColor, ConsoleStyle, LogConfig, LogLevel};
use pulse::metrics::{Interval, MetricsConfig};
use pulse::options::{AdvancedNetworkOptions, ConnectionType, NetworkOptions, Options};
use pulse::trace::{TraceConfig, TraceLevel};

#[test]
fn config_defaults() {
    let c = Config::default();
    assert_eq!(c.service_name, "pulse");
    assert_eq!(c.service_version, "0.1.0");
    assert_eq!(Config::default_service_name(), "pulse");
    assert_eq!(Config::default_service_version(), "0.1.0");
    assert!(c.uri.is_none());
    assert_eq!(c.log.level, LogLevel::Info);
    assert!(c.log.extra_modules.is_empty());
    assert_eq!(c.trace.level, TraceLevel::Info);
    assert_eq!(c.metrics.export_interval, Interval { secs: 1, nanos: 0 });
    assert_eq!(MetricsConfig::default_export_interval(), Interval::from_secs(1));
    assert_eq!(TraceConfig::default().level, TraceLevel::Info);
    assert_eq!(LogLevel::default(), LogLevel::Info);
}

#[test]
fn scheme_classification() {
    assert_eq!(supported_scheme("http").unwrap(), UriScheme::Http);
    assert_eq!(supported_scheme("https").unwrap(), UriScheme::Https);
    assert_eq!(supported_scheme("grpc").unwrap(), UriScheme::Grpc);
    match supported_scheme("ftp") {
        Err(Error::UnsupportedUrlScheme(s)) => assert_eq!(s, "ftp"),
        _ => panic!("ftp must be refused"),
    }
    assert!(supported_scheme("HTTP").is_err());
    assert_eq!(UriScheme::Http.transport(), Transport::Http);
    assert_eq!(UriScheme::Https.transport(), Transport::Http);
    assert_eq!(UriScheme::Grpc.transport(), Transport::Grpc);
}

fn config_with_uri(uri: Option<&str>) -> Config {
    Config { uri: uri.map(|u| u.to_string()), ..Config::default() }
}

#[test]
fn exporter_endpoint_without_uri() {
    assert!(config_with_uri(None).exporter_endpoint().unwrap().is_none());
}

#[test]
fn exporter_endpoint_grpc() {
    let e = config_with_uri(Some("grpc://localhost:4317")).exporter_endpoint().unwrap().unwrap();
    assert_eq!(e.scheme, UriScheme::Grpc);
    assert_eq!(e.endpoint, "grpc://localhost:4317");
}

#[test]
fn exporter_endpoint_http_is_normalized() {
    let e = config_with_uri(Some("HTTP://Example.COM:4318")).exporter_endpoint().unwrap().unwrap();
    assert_eq!(e.scheme, UriScheme::Http);
    assert_eq!(e.endpoint, "http://example.com:4318/");
}

#[test]
fn exporter_endpoint_unsupported_scheme() {
    match config_with_uri(Some("ftp://localhost:21")).exporter_endpoint() {
        Err(Error::UnsupportedUrlScheme(s)) => assert_eq!(s, "ftp"),
        _ => panic!("ftp must be refused"),
    }
}

#[test]
fn exporter_endpoint_invalid_url() {
    match config_with_uri(Some("localhost:4317:bad path")).exporter_endpoint() {
        Err(Error::InvalidUrl(_)) | Err(Error::UnsupportedUrlScheme(_)) => {}
        _ => panic!("must be refused"),
    }
    match config_with_uri(Some("not a url")).exporter_endpoint() {
        Err(Error::InvalidUrl(e)) => assert_eq!(e, url::ParseError::RelativeUrlWithoutBase),
        _ => panic!("a relative URL must be refused"),
    }
}

#[test]
fn log_filter_targets() {
    let c = LogConfig { level: LogLevel::Debug, extra_modules: vec!["hyper".to_string(), "tonic".to_string()] };
    let t = c.filter_targets("my-service");
    assert_eq!(t, vec!["my-service".to_string(), "hyper".to_string(), "tonic".to_string()]);
    assert_eq!(LogConfig::default().filter_targets("svc"), vec!["svc".to_string()]);
}

#[test]
fn network_options_defaults_and_uri() {
    let n = NetworkOptions::default();
    assert_eq!(n.host, "localhost");
    assert_eq!(n.port, 4317);
    assert_eq!(n.advanced_opts.connection_type, ConnectionType::Grpc);
    assert_eq!(n.uri(), "grpc://localhost:4317");
    let n = NetworkOptions {
        host: "collector".to_string(),
        port: 8080,
        advanced_opts: AdvancedNetworkOptions { connection_type: ConnectionType::Http },
    };
    assert_eq!(n.uri(), "http://collector:8080");
    assert_eq!(ConnectionType::Grpc.as_str(), "grpc");
    assert_eq!(ConnectionType::Http.as_str(), "http");
    assert_eq!(AdvancedNetworkOptions::default().connection_type, ConnectionType::Grpc);
}

#[test]
fn options_default() {
    let o = Options::default();
    assert_eq!(o.service_name, "pulse");
    assert_eq!(o.service_version, "0.1.0");
    assert_eq!(o.log_level, pulse::options::LogLevel::Info);
    assert_eq!(o.network.uri(), "grpc://localhost:4317");
}

#[test]
fn console_line_segments() {
    let line = console_line("2024-01-01T00:00:00Z", "svc", LogLevel::Warn, Some("app::db"), "disk low");
    assert_eq!(
        line,
        vec![
            (ConsoleStyle::Timestamp, "2024-01-01T00:00:00Z".to_string()),
            (ConsoleStyle::Plain, " [".to_string()),
            (ConsoleStyle::ServiceName, "svc".to_string()),
            (ConsoleStyle::Plain, ":".to_string()),
            (ConsoleStyle::Level(ConsoleColor::Yellow), "WARN ".to_string()),
            (ConsoleStyle::Plain, "] [app::db] disk low\n".to_string()),
        ]
    );
}

#[test]
fn console_line_without_module_and_each_level() {
    let line = console_line("t", "svc", LogLevel::Error, None, "boom");
    assert_eq!(line[4], (ConsoleStyle::Level(ConsoleColor::Red), "ERROR".to_string()));
    assert_eq!(line[5].1, "]  boom\n");
    assert_eq!(console_line("t", "s", LogLevel::Info, None, "")[4], (ConsoleStyle::Level(ConsoleColor::Green), "INFO ".to_string()));
    assert_eq!(console_line("t", "s", LogLevel::Debug, None, "")[4], (ConsoleStyle::Level(ConsoleColor::Blue), "DEBUG".to_string()));
    assert_eq!(console_line("t", "s", LogLevel::Trace, None, "")[4], (ConsoleStyle::Level(ConsoleColor::BrightWhite), "TRACE".to_string()));
}
