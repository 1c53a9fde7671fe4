//! What starting a Pulse instance sets up, decided from its options.

use vstd::prelude::*;
use super::options::{PulseOptions, ServiceOptions};
use super::options::telemetry::otlp_endpoint;
use super::telemetry::{bearer_token_acceptable, export_plan_of, otlp_export_plan, OtlpExport};

verus! {

/// The components of a Pulse instance and how each is configured.
pub struct PulseSetup {
    /// Service name shown by the console formatter and the loggers.
    pub service_name: String,
    /// Service version shown by the console formatter and the loggers.
    pub service_version: String,
    /// Environment name shown by the console formatter and the loggers.
    pub environment: String,
    /// The MCAP file to record to, if recording is on.
    pub mcap_path: Option<String>,
    /// The collector that the `tracing` subscriber exports spans to, if it
    /// is installed.
    pub trace_subscriber_endpoint: Option<String>,
    /// The collector that manual spans are exported to, if any.
    pub tracing_endpoint: Option<String>,
    /// How logs and metrics are exported, if at all.
    pub export: Option<OtlpExport>,
}

impl PulseSetup {
    /// The setup of an instance with these options: MCAP recording when it
    /// is enabled with a non-empty path; manual spans, the trace subscriber
    /// and log and metric export when OTLP is enabled, spans of both going to
    /// the OTLP endpoint. Options whose bearer token cannot be sent are refused
    /// by `requires`.
    pub fn plan(service: &ServiceOptions, options: &PulseOptions) -> (r: PulseSetup)
        requires
            bearer_token_acceptable(options.telemetry.otlp),
        ensures
            r.service_name@ == service.name@,
            r.service_version@ == service.version@,
            r.environment@ == service.environment.name(),
            r.mcap_path is Some == (options.foxglove.enabled && options.foxglove.mcap_path@.len() > 0),
            r.mcap_path matches Some(path) ==> path@ == options.foxglove.mcap_path@,
            r.trace_subscriber_endpoint is Some == options.telemetry.otlp.enabled,
            r.trace_subscriber_endpoint matches Some(endpoint) ==> endpoint@ == otlp_endpoint(
                options.telemetry.otlp.host@,
                options.telemetry.otlp.port,
            ),
            r.tracing_endpoint is Some == options.telemetry.otlp.enabled,
            r.tracing_endpoint matches Some(endpoint) ==> endpoint@ == otlp_endpoint(
                options.telemetry.otlp.host@,
                options.telemetry.otlp.port,
            ),
            export_plan_of(r.export, *service, options.telemetry),
    {
        let foxglove = &options.foxglove;
        let mcap_path = if foxglove.enabled && !foxglove.mcap_path.as_str().is_empty() {
            Some(foxglove.mcap_path.clone())
        } else {
            None
        };
        let otlp = &options.telemetry.otlp;
        let tracing_endpoint = if otlp.enabled {
            Some(otlp.endpoint())
        } else {
            None
        };
        PulseSetup {
            service_name: service.name.clone(),
            service_version: service.version.clone(),
            environment: service.environment.to_string(),
            mcap_path,
            trace_subscriber_endpoint: tracing_endpoint.clone(),
            tracing_endpoint,
            export: otlp_export_plan(service, &options.telemetry),
        }
    }
}

} // verus!
