# fastly-opentelemetry-exporter

OpenTelemetry exporters for Fastly Compute services, with their configuration
logic verified.

- `src/` is the verified library: the exporter builders and exporters
  (spans, logs, metrics), the default OTLP/HTTP endpoint URLs built from a
  backend's address, the resource attributes derived from the Fastly
  environment, the build errors and their messages, and laws relating them.
  Calls into `url` (through `fastly`), `opentelemetry_sdk` and
  `opentelemetry-proto` stand behind small trusted wrappers whose contracts
  are documented where they are declared.
- `app/` is the part that talks to the Fastly host: it reads backends and
  environment variables, implements the OpenTelemetry SDK exporter traits by
  sending requests, propagates trace context, and sets up tracing for a
  service.
- `tests/` exercises the library on concrete values.
