use pulse::attributes::Attributes;
use pulse::config::Transport;
use pulse::sdk::builder::PulseBuilder;
use pulse::sdk::options::{Environment, OtelOptions, PulseOptions, ServiceOptions, TelemetryOptions};
use pulse::sdk::setup::PulseSetup;
use pulse::sdk::telemetry::{
    bearer_token_is_acceptable, grpc_metadata, http_headers, metadata_value_is_valid, otlp_export_plan, parse_metadata_headers,
};
use pulse::sdk::tracing::fallback_trace_filter;

fn s(x: &str) -> String {
    x.to_string()
}

#[test]
fn export_disabled_gives_no_plan() {
    let service = ServiceOptions::new("svc", "1.0.0");
    assert!(otlp_export_plan(&service, &TelemetryOptions::default()).is_none());
}

#[test]
fn grpc_export_plan() {
    let service = ServiceOptions::new("svc", "1.0.0")
        .with_environment(Environment::Production)
        .with_attribute("robot_id", "robot-001");
    let mut otlp = OtelOptions::new("collector", 4317);
    otlp.auth_token = Some(s("secret"));
    otlp.headers.insert(s("X-Custom"), s("value"));
    otlp.headers.insert(s("bad key"), s("value"));
    otlp.headers.insert(s("x-bad-value"), s("line\nbreak"));
    let plan = otlp_export_plan(&service, &TelemetryOptions::default().with_otlp(otlp)).unwrap();
    assert_eq!(plan.transport, Transport::Grpc);
    assert_eq!(plan.logs_endpoint, "http://collector:4317");
    assert_eq!(plan.metrics_endpoint, "http://collector:4317");
    assert_eq!(plan.headers.len(), 2);
    assert_eq!(plan.headers.get(&s("authorization")).unwrap(), "Bearer secret");
    assert_eq!(plan.headers.get(&s("x-custom")).unwrap(), "value");
    assert_eq!(plan.service_name, "svc");
    assert_eq!(
        plan.resource_attributes,
        vec![
            (s("service.version"), s("1.0.0")),
            (s("deployment.environment"), s("production")),
            (s("robot_id"), s("robot-001")),
        ]
    );
}

#[test]
fn http_export_plan() {
    let service = ServiceOptions::new("svc", "2.0.0");
    let mut otlp = OtelOptions::new("otel.example.com", 4318);
    otlp.use_http = true;
    otlp.auth_token = Some(s("token"));
    otlp.headers.insert(s("X-Custom-Header"), s("v"));
    let plan = otlp_export_plan(&service, &TelemetryOptions::default().with_otlp(otlp)).unwrap();
    assert_eq!(plan.transport, Transport::Http);
    assert_eq!(plan.logs_endpoint, "http://otel.example.com:4318/v1/logs");
    assert_eq!(plan.metrics_endpoint, "http://otel.example.com:4318/v1/metrics");
    assert_eq!(plan.headers.get(&s("Authorization")).unwrap(), "Bearer token");
    assert_eq!(plan.headers.get(&s("X-Custom-Header")).unwrap(), "v");
}

#[test]
fn http_configured_header_overrides_token() {
    let mut headers = Attributes::new();
    headers.insert(s("Authorization"), s("Basic abc"));
    let h = http_headers(&Some(s("token")), &headers);
    assert_eq!(h.len(), 1);
    assert_eq!(h.get(&s("Authorization")).unwrap(), "Basic abc");
    let h = http_headers(&None, &Attributes::new());
    assert_eq!(h.len(), 0);
}

#[test]
fn grpc_metadata_from_checked_headers() {
    let mut headers = Attributes::new();
    headers.insert(s("Authorization"), s("Basic abc"));
    headers.insert(s("x-ok"), s("tab\tallowed"));
    headers.insert(s("trailer-bin"), s("binary keys are refused"));
    headers.insert(s("bad key"), s("spaces are refused in keys"));
    let accepted = parse_metadata_headers(&headers);
    assert_eq!(accepted.len(), 4);
    assert_eq!(accepted[0], Some((s("authorization"), s("Basic abc"))));
    assert_eq!(accepted[1], Some((s("x-ok"), s("tab\tallowed"))));
    assert_eq!(accepted[2], None);
    assert_eq!(accepted[3], None);
    let m = grpc_metadata(&Some(s("token")), &accepted);
    assert_eq!(m.get(&s("authorization")).unwrap(), "Basic abc");
    assert_eq!(m.len(), 2);
    let m = grpc_metadata(&Some(s("token")), &vec![None]);
    assert_eq!(m.get(&s("authorization")).unwrap(), "Bearer token");
}

#[test]
fn metadata_values() {
    assert!(metadata_value_is_valid("plain value"));
    assert!(metadata_value_is_valid("with\ttab"));
    assert!(metadata_value_is_valid("non-ascii é"));
    assert!(metadata_value_is_valid(""));
    assert!(!metadata_value_is_valid("new\nline"));
    assert!(!metadata_value_is_valid("del\u{7f}"));
}

#[test]
fn setup_plan_follows_options() {
    let (service, options) = PulseBuilder::new("svc", "1.0.0")
        .environment(Environment::Staging)
        .with_otlp("collector", 12005)
        .with_mcap("out.mcap")
        .options();
    let setup = PulseSetup::plan(&service, &options);
    assert_eq!(setup.service_name, "svc");
    assert_eq!(setup.service_version, "1.0.0");
    assert_eq!(setup.environment, "staging");
    assert_eq!(setup.mcap_path, Some(s("out.mcap")));
    assert_eq!(setup.trace_subscriber_endpoint, Some(s("http://collector:12005")));
    assert_eq!(setup.tracing_endpoint, Some(s("http://collector:12005")));
    assert!(setup.export.is_some());
}

#[test]
fn setup_plan_without_otlp_or_path() {
    let service = ServiceOptions::new("svc", "1.0.0");
    let mut options = PulseOptions::new();
    options.foxglove.enabled = true;
    let setup = PulseSetup::plan(&service, &options);
    assert!(setup.mcap_path.is_none());
    assert!(setup.trace_subscriber_endpoint.is_none());
    assert!(setup.tracing_endpoint.is_none());
    assert!(setup.export.is_none());
    assert_eq!(setup.environment, "development");
}

#[test]
fn trace_filter_fallbacks() {
    assert_eq!(fallback_trace_filter(true), "trace");
    assert_eq!(
        fallback_trace_filter(false),
        "info,opentelemetry=warn,opentelemetry_sdk=warn,h2=warn,tonic=warn,hyper=warn,tower=warn"
    );
}

#[test]
fn bearer_token_acceptance() {
    let mut otlp = OtelOptions::new("collector", 4317);
    assert!(bearer_token_is_acceptable(&otlp));
    otlp.auth_token = Some(s("good-token"));
    assert!(bearer_token_is_acceptable(&otlp));
    otlp.auth_token = Some(s("bad\ntoken"));
    assert!(!bearer_token_is_acceptable(&otlp));
    otlp.use_http = true;
    assert!(bearer_token_is_acceptable(&otlp));
    otlp.use_http = false;
    otlp.enabled = false;
    assert!(bearer_token_is_acceptable(&otlp));
}
