use fastly::http::{HeaderName, HeaderValue};
use fastly_opentelemetry_exporter::{
    BackendInfo, ExporterBuildError, FastlyEnvironment, LogExporter, LogExporterBuilder,
    MetricsExporter, ResourceBuilder, SpanExporter, SpanExporterBuilder, SCHEMA_URL,
};
use opentelemetry_proto::tonic::common::v1::any_value::Value as AnyValueKind;
use opentelemetry_proto::transform::common::tonic::{Attributes, ResourceAttributesWithSchema};
use opentelemetry_sdk::metrics::Temporality;

fn backend(exists: bool) -> BackendInfo {
    BackendInfo {
        name: "otel-http".to_string(),
        exists,
        host: "collector.example.com".to_string(),
        port: 4318,
        is_ssl: false,
    }
}

fn missing() -> ExporterBuildError {
    ExporterBuildError::MissingBackend {
        name: "otel-http".to_string(),
    }
}

#[test]
fn span_builder_refuses_a_missing_backend() {
    assert_eq!(SpanExporterBuilder::new(backend(false)).err(), Some(missing()));
    assert_eq!(SpanExporter::builder(backend(false)).err(), Some(missing()));
}

#[test]
fn span_builder_defaults() {
    let exporter = SpanExporterBuilder::new(backend(true)).unwrap().build().unwrap();
    assert_eq!(exporter.url(), "https://collector.example.com:4318/v1/traces");
    assert_eq!(exporter.backend().name, "otel-http");
    assert!(exporter.headers().is_empty());
    assert!(exporter.resource().attributes.0.is_empty());
    assert_eq!(exporter.resource().schema_url, None);
}

#[test]
fn span_builder_overrides() {
    let resource = ResourceAttributesWithSchema {
        attributes: Attributes(Vec::new()),
        schema_url: Some("https://example.com/schema".to_string()),
    };
    let exporter = SpanExporter::builder(backend(true))
        .unwrap()
        .with_url("https://collector.example.com/custom".to_string())
        .with_resource(resource)
        .build()
        .unwrap();
    assert_eq!(exporter.url(), "https://collector.example.com/custom");
    assert_eq!(
        exporter.resource().schema_url.as_deref(),
        Some("https://example.com/schema")
    );
}

#[test]
fn span_builder_reports_an_invalid_default_url() {
    let mut info = backend(true);
    info.host = "bad host".to_string();
    let result = SpanExporterBuilder::new(info).unwrap().build();
    match result {
        Err(ExporterBuildError::InvalidUrl { url, .. }) => {
            assert_eq!(url, "https://bad host:4318/v1/traces")
        }
        _ => panic!("expected an invalid URL"),
    }
    // A configured URL is not checked again.
    let mut info = backend(true);
    info.host = "bad host".to_string();
    let exporter = SpanExporterBuilder::new(info)
        .unwrap()
        .with_url("http://ok/".to_string())
        .build()
        .unwrap();
    assert_eq!(exporter.url(), "http://ok/");
}

#[test]
fn span_exporter_set_resource() {
    let mut exporter = SpanExporterBuilder::new(backend(true)).unwrap().build().unwrap();
    let env = FastlyEnvironment::default();
    let resource = ResourceBuilder::new().with_service_name("svc").build(&env, "pkg");
    exporter.set_resource(&resource);
    let service_name = exporter
        .resource()
        .attributes
        .0
        .iter()
        .find(|kv| kv.key == "service.name")
        .and_then(|kv| kv.value.clone())
        .and_then(|v| v.value);
    assert_eq!(
        service_name,
        Some(AnyValueKind::StringValue("svc".to_string()))
    );
    assert_eq!(exporter.resource().schema_url.as_deref(), Some(SCHEMA_URL));
    let keys: Vec<&str> = exporter
        .resource()
        .attributes
        .0
        .iter()
        .map(|kv| kv.key.as_str())
        .collect();
    assert!(keys.contains(&"service.name"));
    assert!(keys.contains(&"cloud.platform"));
    assert_eq!(keys.len(), resource.len());
    assert_eq!(exporter.url(), "https://collector.example.com:4318/v1/traces");
}

#[test]
fn span_exporter_new_keeps_its_parts() {
    let mut headers = std::collections::HashMap::new();
    headers.insert(
        HeaderName::from_static("x-api-key"),
        vec![HeaderValue::from_static("secret")],
    );
    let exporter = SpanExporter::new(
        backend(true),
        ResourceAttributesWithSchema::default(),
        "http://a/".to_string(),
        headers,
    );
    assert_eq!(exporter.url(), "http://a/");
    assert_eq!(exporter.headers().len(), 1);
}

#[test]
fn log_builder_refuses_a_missing_backend() {
    assert_eq!(LogExporterBuilder::new(backend(false)).err(), Some(missing()));
    assert_eq!(LogExporter::builder(backend(false)).err(), Some(missing()));
}

#[test]
fn log_builder_keeps_headers_in_order() {
    let exporter = LogExporterBuilder::new(backend(true))
        .unwrap()
        .with_header(
            HeaderName::from_static("x-first"),
            HeaderValue::from_static("1"),
        )
        .with_header(
            HeaderName::from_static("x-second"),
            HeaderValue::from_static("2"),
        )
        .build()
        .unwrap();
    assert_eq!(exporter.url(), "http://collector.example.com:4318/v1/logs");
    let headers: Vec<(&str, &str)> = exporter
        .headers()
        .iter()
        .map(|(n, v)| (n.as_str(), v.to_str().unwrap()))
        .collect();
    assert_eq!(headers, vec![("x-first", "1"), ("x-second", "2")]);
    assert!(exporter.resource().attributes.0.is_empty());
}

#[test]
fn log_builder_overrides() {
    let resource = ResourceAttributesWithSchema {
        attributes: Attributes(Vec::new()),
        schema_url: Some("s".to_string()),
    };
    let exporter = LogExporter::builder(backend(true))
        .unwrap()
        .with_resource(resource)
        .with_url("https://logs.example.com/v1/logs".to_string())
        .build()
        .unwrap();
    assert_eq!(exporter.url(), "https://logs.example.com/v1/logs");
    assert_eq!(exporter.resource().schema_url.as_deref(), Some("s"));
    assert!(exporter.headers().is_empty());
}

#[test]
fn log_exporter_set_resource() {
    let mut exporter = LogExporterBuilder::new(backend(true)).unwrap().build().unwrap();
    let resource = ResourceBuilder::new().build(&FastlyEnvironment::default(), "pkg");
    exporter.set_resource(&resource);
    assert_eq!(exporter.resource().schema_url.as_deref(), Some(SCHEMA_URL));
    assert_eq!(exporter.resource().attributes.0.len(), resource.len());
}

#[test]
fn metrics_exporter_new_keeps_its_parts() {
    let exporter = MetricsExporter::new(
        backend(true),
        vec![(
            HeaderName::from_static("x-api-key"),
            HeaderValue::from_static("k"),
        )],
        Temporality::Delta,
        "http://collector.example.com:4318/v1/metrics".to_string(),
    );
    assert_eq!(*exporter.temporality(), Temporality::Delta);
    assert_eq!(exporter.headers().len(), 1);
    assert_eq!(exporter.url(), "http://collector.example.com:4318/v1/metrics");
    assert!(exporter.backend().exists);
}
