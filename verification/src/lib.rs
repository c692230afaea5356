//! Building blocks of an OpenTelemetry exporter for Fastly Compute services:
//! exporter builders and their default endpoint URLs, the resource that
//! describes a service from its Fastly environment, and the build errors.
mod backend;
mod decimal;
mod default_url;
mod error;
mod url;

pub use backend::BackendInfo;
pub use decimal::{decimal_string, decimal_text, decimal_value, digit_char};
pub use default_url::{
    backend_scheme, default_url_path, default_url_text, endpoint_url, parse_text_outcome,
    parsed_default_url, parsed_trace_url, resolve_endpoint, resolve_trace_endpoint, trace_url,
    trace_url_string, trace_url_text, url_result_is, DefaultUrl,
};
pub use error::{debug_quoted, error_message, ExporterBuildError};
pub use url::{url_or_error, url_parse_outcome};
mod resource_builder;
pub use resource_builder::{
    chosen_service_name, default_settings, deployment_environment, resource_attribute_list,
    resource_attribute_map, resource_built, resource_schema_url, value_or_unknown,
    lemma_attribute_keys_distinct, FastlyEnvironment, ResourceBuilder, ResourceSettings,
    SCHEMA_URL,
};
mod headers;
mod proto_resource;
pub use proto_resource::{
    exported_from, exported_keys, exported_resource_attributes, exported_resource_schema_url,
    resource_or_default, resource_or_empty,
};
mod span_exporter;
mod span_exporter_builder;
pub use span_exporter::{SpanExporter, SpanExporterView};
pub use span_exporter_builder::{
    span_builder_created, span_exporter_built, SpanExporterBuilder, SpanExporterBuilderView,
};
mod log_exporter;
mod log_exporter_builder;
mod metrics_exporter;
pub use log_exporter::{LogExporter, LogExporterView};
pub use log_exporter_builder::{
    log_builder_created, log_exporter_built, LogExporterBuilder, LogExporterBuilderView,
};
pub use metrics_exporter::{MetricsExporter, MetricsExporterView};
mod laws;
pub use laws::{
    law_build_default_is_new_build, law_builders_need_an_existing_backend,
    law_configured_resource_is_used, law_decimal_reads_back, law_error_messages,
    law_exported_resource, law_default_resource,
    law_default_url_scheme, law_default_url_text, law_environment_override,
    law_log_default_endpoint, law_resource_values, law_span_default_endpoint,
    law_trace_url_text, law_log_configured_url_is_used,
    law_log_headers_kept, law_resource_keys, law_service_name, law_span_configured_url_is_used,
    law_span_defaults, law_staging_from_environment, law_trace_url_is_https,
};
