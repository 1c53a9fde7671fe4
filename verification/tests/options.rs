use pulse::attributes::Attributes;
use pulse::opentelementry::OpentelementryOptions;
use pulse::sdk::builder::PulseBuilder;
use pulse::sdk::options::logging::{default_caller_offset, default_true};
use pulse::sdk::options::{
    Environment, FoxgloveOptions, LogOptions, LoggingOptions, OtelOptions, ProfilingOptions,
    PulseOptions, ServiceOptions, TelemetryOptions, TimeFormat, TracingOptions,
};

#[test]
fn service_options_new_has_defaults() {
    let opts = ServiceOptions::new("my-service", "1.0.0");
    assert_eq!(opts.name, "my-service");
    assert_eq!(opts.version, "1.0.0");
    assert_eq!(opts.description, "");
    assert_eq!(opts.environment, Environment::Development);
    assert_eq!(opts.attributes.len(), 0);
}

#[test]
fn service_options_builders() {
    let opts = ServiceOptions::new("my-service", "1.0.0")
        .with_description("My service description")
        .with_environment(Environment::Production);
    assert_eq!(opts.description, "My service description");
    assert_eq!(opts.environment, Environment::Production);
    assert_eq!(opts.name, "my-service");
}

#[test]
fn service_attribute_later_value_wins() {
    let opts = ServiceOptions::new("svc", "1")
        .with_attribute("robot_id", "robot-001")
        .with_attribute("fleet_id", "fleet-alpha")
        .with_attribute("robot_id", "robot-002");
    assert_eq!(opts.attributes.len(), 2);
    assert_eq!(opts.attributes.get(&"robot_id".to_string()).unwrap(), "robot-002");
    assert_eq!(opts.attributes.get(&"fleet_id".to_string()).unwrap(), "fleet-alpha");
    let entries = opts.attributes.entries();
    assert_eq!(entries[0].0, "robot_id");
    assert_eq!(entries[1].0, "fleet_id");
}

#[test]
fn service_with_attributes_replaces_all() {
    let mut attrs = Attributes::new();
    attrs.insert("region".to_string(), "us-west-2".to_string());
    let opts = ServiceOptions::new("svc", "1")
        .with_attribute("robot_id", "robot-001")
        .with_attributes(attrs);
    assert_eq!(opts.attributes.len(), 1);
    assert!(!opts.attributes.contains_key(&"robot_id".to_string()));
    assert_eq!(opts.attributes.get(&"region".to_string()).unwrap(), "us-west-2");
}

#[test]
fn attributes_insert_returns_previous_value() {
    let mut attrs = Attributes::new();
    assert_eq!(attrs.insert("k".to_string(), "a".to_string()), None);
    assert_eq!(attrs.insert("k".to_string(), "b".to_string()), Some("a".to_string()));
    assert_eq!(attrs.get(&"k".to_string()).unwrap(), "b");
    assert_eq!(attrs.get(&"missing".to_string()), None);
    let copy = attrs.clone();
    assert_eq!(copy.get(&"k".to_string()).unwrap(), "b");
    assert_eq!(copy.len(), 1);
}

#[test]
fn environment_names() {
    assert_eq!(Environment::default(), Environment::Development);
    assert_eq!(Environment::Development.to_string(), "development");
    assert_eq!(Environment::Staging.to_string(), "staging");
    assert_eq!(Environment::Production.to_string(), "production");
    assert_eq!(Environment::Jetson.to_string(), "jetson");
}

#[test]
fn otel_options_default_and_new() {
    let d = OtelOptions::default();
    assert_eq!(d.host, "localhost");
    assert_eq!(d.port, 4317);
    assert!(!d.enabled);
    assert!(!d.use_http);
    assert!(d.auth_token.is_none());
    assert_eq!(d.headers.len(), 0);

    let o = OtelOptions::new("collector.local", 12005);
    assert_eq!(o.host, "collector.local");
    assert_eq!(o.port, 12005);
    assert!(o.enabled);
}

#[test]
fn otel_endpoint_format() {
    assert_eq!(OtelOptions::new("localhost", 4317).endpoint(), "http://localhost:4317");
    assert_eq!(OtelOptions::new("otel.example.com", 0).endpoint(), "http://otel.example.com:0");
    assert_eq!(OtelOptions::new("h", 65535).endpoint(), "http://h:65535");
    assert_eq!(OtelOptions::new("h", 10).endpoint(), "http://h:10");
}

#[test]
fn telemetry_options_with_otlp() {
    let t = TelemetryOptions::default();
    assert!(!t.otlp.enabled);
    let t = t.with_otlp(OtelOptions::new("localhost", 4317));
    assert!(t.otlp.enabled);
    assert_eq!(t.otlp.port, 4317);
}

#[test]
fn logging_defaults() {
    assert!(default_true());
    assert_eq!(default_caller_offset(), 3);
    let l = LogOptions::default();
    assert_eq!(l.prefix, "");
    assert!(l.report_caller);
    assert!(l.report_timestamp);
    assert_eq!(l.time_format_key, TimeFormat::RFC3339);
    assert_eq!(l.custom_format, "");
    assert_eq!(l.caller_offset, 3);
    assert_eq!(TimeFormat::default(), TimeFormat::RFC3339);
    assert!(LoggingOptions::default().log.report_caller);
}

#[test]
fn other_option_defaults() {
    let f = FoxgloveOptions::default();
    assert!(!f.enabled);
    assert_eq!(f.mcap_path, "");
    let f = FoxgloveOptions::new("output.mcap");
    assert!(f.enabled);
    assert_eq!(f.mcap_path, "output.mcap");
    let p = ProfilingOptions::default();
    assert!(!p.enabled);
    assert_eq!(p.server_address, "http://localhost:4040");
    assert_eq!(p.basic_auth_user, "");
    assert_eq!(p.basic_auth_password, "");
    assert!(TracingOptions::default().enabled);
}

#[test]
fn pulse_options_builders() {
    let opts = PulseOptions::new();
    assert!(!opts.foxglove.enabled);
    assert!(!opts.telemetry.otlp.enabled);
    let opts = opts
        .with_telemetry(TelemetryOptions::default().with_otlp(OtelOptions::new("localhost", 4317)))
        .with_foxglove(FoxgloveOptions::new("output.mcap"))
        .with_tracing(TracingOptions { enabled: false })
        .with_profiling(ProfilingOptions { enabled: true, ..ProfilingOptions::default() })
        .with_logging(LoggingOptions { log: LogOptions { caller_offset: 5, ..LogOptions::default() } });
    assert!(opts.telemetry.otlp.enabled);
    assert!(opts.foxglove.enabled);
    assert!(!opts.tracing.enabled);
    assert!(opts.profiling.enabled);
    assert_eq!(opts.logging.log.caller_offset, 5);
}

#[test]
fn opentelementry_options_builders() {
    let opts = OpentelementryOptions::new();
    assert!(!opts.foxglove.enabled);
    assert!(opts.tracing.enabled);
    let opts = opts
        .with_telemetry(TelemetryOptions::default())
        .with_foxglove(FoxgloveOptions::new("output.mcap"))
        .with_tracing(TracingOptions { enabled: false })
        .with_profiling(ProfilingOptions::default())
        .with_logging(LoggingOptions::default());
    assert!(opts.foxglove.enabled);
    assert_eq!(opts.foxglove.mcap_path, "output.mcap");
    assert!(!opts.tracing.enabled);
}

#[test]
fn builder_defaults_to_plain_options() {
    let (service, pulse) = PulseBuilder::new("my-service", "1.0.0").options();
    assert_eq!(service.name, "my-service");
    assert_eq!(service.version, "1.0.0");
    assert_eq!(service.description, "");
    assert_eq!(service.environment, Environment::Development);
    assert!(!pulse.telemetry.otlp.enabled);
    assert!(!pulse.foxglove.enabled);
}

#[test]
fn builder_settings_override_defaults() {
    let (service, pulse) = PulseBuilder::new("my-service", "1.0.0")
        .description("My awesome service")
        .environment(Environment::Production)
        .with_otlp("localhost", 4317)
        .with_mcap("output.mcap")
        .options();
    assert_eq!(service.description, "My awesome service");
    assert_eq!(service.environment, Environment::Production);
    assert!(pulse.telemetry.otlp.enabled);
    assert_eq!(pulse.telemetry.otlp.host, "localhost");
    assert_eq!(pulse.telemetry.otlp.port, 4317);
    assert!(pulse.foxglove.enabled);
    assert_eq!(pulse.foxglove.mcap_path, "output.mcap");
}

#[test]
fn builder_later_otlp_call_wins() {
    let (_, pulse) = PulseBuilder::new("svc", "1")
        .with_otlp("first", 1)
        .with_otlp("second", 2)
        .options();
    assert_eq!(pulse.telemetry.otlp.host, "second");
    assert_eq!(pulse.telemetry.otlp.port, 2);
}
