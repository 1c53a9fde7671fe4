# pulse

Configuration, planning and validation logic of the Pulse observability
toolkit, verified with Verus.

- `src/` — the library: option types with their defaults and builders
  (`sdk::options`, `opentelementry`, `options`, `config`, `log`, `trace`,
  `metrics`), the ordered string map `attributes::Attributes`, endpoint
  rendering (`text`), the console log line (`log::console_line`), the collector URI check (`config::Config::exporter_endpoint`),
  and the plans from which a running instance is set up (`sdk::setup`,
  `sdk::telemetry`). `external` holds the calls into `url` and `tonic`.
- `app/` — the runtime around it: reading `pulse.toml` and `PULSE_*`
  variables, building the OpenTelemetry exporters and providers, installing
  loggers and subscribers, shutting them down.
- `tests/` — scenarios run against the compiled library.
