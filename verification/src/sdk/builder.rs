//! `PulseBuilder`: a fluent way to assemble the options of a Pulse instance.

use vstd::prelude::*;
use super::options::{Environment, OtelOptions, PulseOptions, ServiceOptions};

verus! {

/// What a builder has collected so far.
pub struct PulseBuilderView {
    pub name: Seq<char>,
    pub version: Seq<char>,
    pub description: Option<Seq<char>>,
    pub environment: Environment,
    pub otlp_host: Option<Seq<char>>,
    pub otlp_port: Option<u16>,
    pub mcap_path: Option<Seq<char>>,
}

/// Collects the settings of a Pulse instance before it is started.
pub struct PulseBuilder {
    name: String,
    version: String,
    description: Option<String>,
    environment: Environment,
    otlp_host: Option<String>,
    otlp_port: Option<u16>,
    mcap_path: Option<String>,
}

spec fn opt_view(s: Option<String>) -> Option<Seq<char>> {
    match s {
        Some(s) => Some(s@),
        None => None,
    }
}

impl View for PulseBuilder {
    type V = PulseBuilderView;

    closed spec fn view(&self) -> PulseBuilderView {
        PulseBuilderView {
            name: self.name@,
            version: self.version@,
            description: opt_view(self.description),
            environment: self.environment,
            otlp_host: opt_view(self.otlp_host),
            otlp_port: self.otlp_port,
            mcap_path: opt_view(self.mcap_path),
        }
    }
}

impl PulseBuilder {
    /// A builder for the service `name` at `version`, in the development
    /// environment, without OTLP export or MCAP recording.
    pub fn new(name: &str, version: &str) -> (r: Self)
        ensures
            r@ == (PulseBuilderView {
                name: name@,
                version: version@,
                description: None,
                environment: Environment::Development,
                otlp_host: None,
                otlp_port: None,
                mcap_path: None,
            }),
    {
        PulseBuilder {
            name: name.to_owned(),
            version: version.to_owned(),
            description: None,
            environment: Environment::Development,
            otlp_host: None,
            otlp_port: None,
            mcap_path: None,
        }
    }

    /// Sets the service description.
    pub fn description(self, description: &str) -> (r: Self)
        ensures
            r@ == (PulseBuilderView { description: Some(description@), ..self@ }),
    {
        PulseBuilder { description: Some(description.to_owned()), ..self }
    }

    /// Sets the deployment environment.
    pub fn environment(self, environment: Environment) -> (r: Self)
        ensures
            r@ == (PulseBuilderView { environment, ..self@ }),
    {
        PulseBuilder { environment, ..self }
    }

    /// Enables OTLP export to the collector at `host:port`.
    pub fn with_otlp(self, host: &str, port: u16) -> (r: Self)
        ensures
            r@ == (PulseBuilderView { otlp_host: Some(host@), otlp_port: Some(port), ..self@ }),
    {
        PulseBuilder { otlp_host: Some(host.to_owned()), otlp_port: Some(port), ..self }
    }

    /// Enables MCAP recording to the file at `path`.
    pub fn with_mcap(self, path: &str) -> (r: Self)
        ensures
            r@ == (PulseBuilderView { mcap_path: Some(path@), ..self@ }),
    {
        PulseBuilder { mcap_path: Some(path.to_owned()), ..self }
    }

    /// The service and Pulse options that the builder stands for: defaults
    /// throughout, overridden by what was set on the builder.
    pub fn options(self) -> (r: (ServiceOptions, PulseOptions))
        ensures
            r.0.name@ == self@.name,
            r.0.version@ == self@.version,
            r.0.environment == self@.environment,
            r.0.description@ == match self@.description {
                Some(d) => d,
                None => Seq::<char>::empty(),
            },
            r.0.attributes.entries_view().len() == 0,
            r.1.logging.is_default(),
            r.1.profiling.is_default(),
            r.1.tracing.is_default(),
            match (self@.otlp_host, self@.otlp_port) {
                (Some(host), Some(port)) => {
                    &&& r.1.telemetry.otlp.enabled
                    &&& r.1.telemetry.otlp.host@ == host
                    &&& r.1.telemetry.otlp.port == port
                    &&& r.1.telemetry.otlp.has_default_settings()
                },
                _ => r.1.telemetry.is_default(),
            },
            match self@.mcap_path {
                Some(path) => r.1.foxglove.enabled && r.1.foxglove.mcap_path@ == path,
                None => r.1.foxglove.is_default(),
            },
    {
        let mut service = ServiceOptions::new(self.name.as_str(), self.version.as_str())
            .with_environment(self.environment);
        if let Some(description) = &self.description {
            service = service.with_description(description.as_str());
        }
        let mut pulse = PulseOptions::new();
        if let (Some(host), Some(port)) = (self.otlp_host, self.otlp_port) {
            pulse.telemetry.otlp.enabled = true;
            pulse.telemetry.otlp.host = host;
            pulse.telemetry.otlp.port = port;
        }
        if let Some(path) = self.mcap_path {
            pulse.foxglove.enabled = true;
            pulse.foxglove.mcap_path = path;
        }
        (service, pulse)
    }
}

} // verus!
