use std::collections::HashMap;

use fastly::http::{HeaderName, HeaderValue};
use opentelemetry_proto::transform::common::tonic::ResourceAttributesWithSchema;
use vstd::prelude::*;

use crate::backend::BackendInfo;
use crate::default_url::{endpoint_url, parsed_trace_url, resolve_trace_endpoint};
use crate::error::ExporterBuildError;
use crate::proto_resource::{resource_or_default, resource_or_empty};
use crate::span_exporter::SpanExporter;

verus! {

/// What a `SpanExporterBuilder` holds.
pub struct SpanExporterBuilderView {
    pub backend: BackendInfo,
    pub resource: Option<ResourceAttributesWithSchema>,
    pub url: Option<Seq<char>>,
}

/// Builder for configuring a [`SpanExporter`].
///
/// This builder allows you to customize the backend, URL, and resource attributes
/// for the span exporter before building it.
pub struct SpanExporterBuilder {
    backend: BackendInfo,
    resource: Option<ResourceAttributesWithSchema>,
    url: Option<String>,
}

impl View for SpanExporterBuilder {
    type V = SpanExporterBuilderView;

    closed spec fn view(&self) -> SpanExporterBuilderView {
        SpanExporterBuilderView {
            backend: self.backend,
            resource: self.resource,
            url: self.url.deep_view(),
        }
    }
}

/// `r` is what creating a span exporter builder for `backend` gives: a builder
/// with default settings where the backend exists, else `MissingBackend` with
/// its name.
pub open spec fn span_builder_created(
    backend: BackendInfo,
    r: Result<SpanExporterBuilder, ExporterBuildError>,
) -> bool {
    if backend.exists {
        r matches Ok(b) && b@ == (SpanExporterBuilderView { backend, resource: None, url: None })
    } else {
        r matches Err(ExporterBuildError::MissingBackend { name }) && name@ == backend.name@
    }
}

/// `r` is what building `b` gives: an exporter for the same backend, with no
/// headers, the configured resource (or an empty one) and the configured URL
/// (or the default trace endpoint, `https://{host}:{port}/v1/traces`); or the `InvalidUrl` error of that endpoint.
pub open spec fn span_exporter_built(
    b: SpanExporterBuilderView,
    r: Result<SpanExporter, ExporterBuildError>,
) -> bool {
    match endpoint_url(b.url, parsed_trace_url(b.backend)) {
        Ok(u) => r matches Ok(e) && e@.url == u && e@.backend == b.backend && e@.headers
            == Map::<HeaderName, Vec<HeaderValue>>::empty() && resource_or_empty(
            b.resource,
            e@.resource,
        ),
        Err((text, m)) => r matches Err(ExporterBuildError::InvalidUrl { url, message }) && url@
            == text && message@ == m,
    }
}

impl SpanExporterBuilder {
    /// Create a new SpanExporterBuilder that will export spans to a Fastly backend with default settings
    pub fn new(backend: BackendInfo) -> (r: Result<Self, ExporterBuildError>)
        ensures
            span_builder_created(backend, r),
    {
        if !backend.exists {
            return Err(ExporterBuildError::MissingBackend { name: backend.name.clone() });
        }
        Ok(SpanExporterBuilder { backend, resource: None, url: None })
    }

    /// Build the span exporter
    pub fn build(self) -> (r: Result<SpanExporter, ExporterBuildError>)
        ensures
            span_exporter_built(self@, r),
    {
        let SpanExporterBuilder { backend, resource, url } = self;
        let resource = resource_or_default(resource);
        let url = resolve_trace_endpoint(url, &backend);
        match url {
            Ok(url) => Ok(SpanExporter::new(backend, resource, url, HashMap::new())),
            Err(e) => Err(e),
        }
    }

    /// Override the exporter resource
    pub fn with_resource(self, resource: ResourceAttributesWithSchema) -> (r: Self)
        ensures
            r@ == (SpanExporterBuilderView { resource: Some(resource), ..self@ }),
    {
        SpanExporterBuilder { resource: Some(resource), ..self }
    }

    /// Override the exporter URL (the serialization of a parsed URL)
    ///
    /// If the URL is left unspecified it will be `https://<host>:<port>/v1/traces`, built from the
    /// backend
    pub fn with_url(self, url: String) -> (r: Self)
        ensures
            r@ == (SpanExporterBuilderView { url: Some(url@), ..self@ }),
    {
        SpanExporterBuilder { url: Some(url), ..self }
    }
}

} // verus!
