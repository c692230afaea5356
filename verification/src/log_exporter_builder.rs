use fastly::http::{HeaderName, HeaderValue};
use opentelemetry_proto::transform::common::tonic::ResourceAttributesWithSchema;
use vstd::prelude::*;

use crate::backend::BackendInfo;
use crate::default_url::{endpoint_url, parsed_default_url, resolve_endpoint, DefaultUrl};
use crate::error::ExporterBuildError;
use crate::log_exporter::LogExporter;
use crate::proto_resource::{resource_or_default, resource_or_empty};

verus! {

/// What a `LogExporterBuilder` holds.
pub struct LogExporterBuilderView {
    pub backend: BackendInfo,
    pub headers: Seq<(HeaderName, HeaderValue)>,
    pub resource: Option<ResourceAttributesWithSchema>,
    pub url: Option<Seq<char>>,
}

/// Builder for configuring a [`LogExporter`]: its headers, resource and URL.
pub struct LogExporterBuilder {
    backend: BackendInfo,
    headers: Vec<(HeaderName, HeaderValue)>,
    resource: Option<ResourceAttributesWithSchema>,
    url: Option<String>,
}

impl View for LogExporterBuilder {
    type V = LogExporterBuilderView;

    closed spec fn view(&self) -> LogExporterBuilderView {
        LogExporterBuilderView {
            backend: self.backend,
            headers: self.headers@,
            resource: self.resource,
            url: self.url.deep_view(),
        }
    }
}

/// `r` is what creating a log exporter builder for `backend` gives: a builder
/// with default settings where the backend exists, else `MissingBackend` with
/// its name.
pub open spec fn log_builder_created(
    backend: BackendInfo,
    r: Result<LogExporterBuilder, ExporterBuildError>,
) -> bool {
    if backend.exists {
        r matches Ok(b) && b@ == (LogExporterBuilderView {
            backend,
            headers: Seq::empty(),
            resource: None,
            url: None,
        })
    } else {
        r matches Err(ExporterBuildError::MissingBackend { name }) && name@ == backend.name@
    }
}

/// `r` is what building `b` gives: an exporter for the same backend, with the
/// same headers in the same order, the configured resource (or an empty one)
/// and the configured URL (or the default log endpoint); or the `InvalidUrl`
/// error of that endpoint.
pub open spec fn log_exporter_built(
    b: LogExporterBuilderView,
    r: Result<LogExporter, ExporterBuildError>,
) -> bool {
    match endpoint_url(b.url, parsed_default_url(DefaultUrl::Logs, b.backend)) {
        Ok(u) => r matches Ok(e) && e@.url == u && e@.backend == b.backend && e@.headers
            == b.headers && resource_or_empty(b.resource, e@.resource),
        Err((text, m)) => r matches Err(ExporterBuildError::InvalidUrl { url, message }) && url@
            == text && message@ == m,
    }
}

impl LogExporterBuilder {
    /// Create a new LogExporterBuilder that will export logs to a Fastly backend with default
    /// settings
    pub fn new(backend: BackendInfo) -> (r: Result<Self, ExporterBuildError>)
        ensures
            log_builder_created(backend, r),
    {
        if !backend.exists {
            return Err(ExporterBuildError::MissingBackend { name: backend.name.clone() });
        }
        Ok(LogExporterBuilder { backend, headers: Vec::new(), resource: None, url: None })
    }

    /// Build the log exporter
    pub fn build(self) -> (r: Result<LogExporter, ExporterBuildError>)
        ensures
            log_exporter_built(self@, r),
    {
        let LogExporterBuilder { backend, headers, resource, url } = self;
        let resource = resource_or_default(resource);
        let url = resolve_endpoint(url, DefaultUrl::Logs, &backend);
        match url {
            Ok(url) => Ok(LogExporter::new(backend, headers, resource, url)),
            Err(e) => Err(e),
        }
    }

    /// Add a header
    pub fn with_header(self, name: HeaderName, value: HeaderValue) -> (r: Self)
        ensures
            r@ == (LogExporterBuilderView { headers: self@.headers.push((name, value)), ..self@ }),
    {
        let LogExporterBuilder { backend, mut headers, resource, url } = self;
        headers.push((name, value));
        LogExporterBuilder { backend, headers, resource, url }
    }

    /// Override the exporter resource
    pub fn with_resource(self, resource: ResourceAttributesWithSchema) -> (r: Self)
        ensures
            r@ == (LogExporterBuilderView { resource: Some(resource), ..self@ }),
    {
        LogExporterBuilder { resource: Some(resource), ..self }
    }

    /// Override the exporter URL (the serialization of a parsed URL)
    ///
    /// If the URL is left unspecified it will be constructed from the backend and export logs to
    /// `/v1/logs`
    pub fn with_url(self, url: String) -> (r: Self)
        ensures
            r@ == (LogExporterBuilderView { url: Some(url@), ..self@ }),
    {
        LogExporterBuilder { url: Some(url), ..self }
    }
}

} // verus!
