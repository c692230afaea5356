use std::collections::HashMap;

use fastly::http::{HeaderName, HeaderValue};
use opentelemetry_proto::transform::common::tonic::ResourceAttributesWithSchema;
use opentelemetry_sdk::Resource;
use vstd::prelude::*;

use crate::backend::BackendInfo;
use crate::error::ExporterBuildError;
use crate::proto_resource::{
    export_resource, exported_from,
};
use crate::span_exporter_builder::{span_builder_created, SpanExporterBuilder};

verus! {

/// What a `SpanExporter` holds.
pub struct SpanExporterView {
    pub backend: BackendInfo,
    pub headers: Map<HeaderName, Vec<HeaderValue>>,
    pub resource: ResourceAttributesWithSchema,
    pub url: Seq<char>,
}

/// An OpenTelemetry trace exporter: it sends spans, with the headers it holds,
/// to `url` through `backend`, described by `resource`.
#[derive(Debug)]
pub struct SpanExporter {
    backend: BackendInfo,
    headers: HashMap<HeaderName, Vec<HeaderValue>>,
    resource: ResourceAttributesWithSchema,
    url: String,
}

impl View for SpanExporter {
    type V = SpanExporterView;

    closed spec fn view(&self) -> SpanExporterView {
        SpanExporterView {
            backend: self.backend,
            headers: self.headers@,
            resource: self.resource,
            url: self.url@,
        }
    }
}

impl SpanExporter {
    /// Create a new SpanExporter
    pub fn new(
        backend: BackendInfo,
        resource: ResourceAttributesWithSchema,
        url: String,
        headers: HashMap<HeaderName, Vec<HeaderValue>>,
    ) -> (r: Self)
        ensures
            r@ == (SpanExporterView { backend, headers: headers@, resource, url: url@ }),
    {
        SpanExporter { backend, headers, resource, url }
    }

    /// Create a SpanExporterBuilder
    pub fn builder(backend: BackendInfo) -> (r: Result<SpanExporterBuilder, ExporterBuildError>)
        ensures
            span_builder_created(backend, r),
    {
        SpanExporterBuilder::new(backend)
    }

    /// The backend spans are sent through.
    pub fn backend(&self) -> (r: &BackendInfo)
        ensures
            *r == self@.backend,
    {
        &self.backend
    }

    /// The headers every export request carries.
    pub fn headers(&self) -> (r: &HashMap<HeaderName, Vec<HeaderValue>>)
        ensures
            r@ == self@.headers,
    {
        &self.headers
    }

    /// The resource the exported spans are described by.
    pub fn resource(&self) -> (r: &ResourceAttributesWithSchema)
        ensures
            *r == self@.resource,
    {
        &self.resource
    }

    /// The URL spans are sent to.
    pub fn url(&self) -> (r: &str)
        ensures
            r@ == self@.url,
    {
        self.url.as_str()
    }

    /// Describe the exported spans by `resource` from now on.
    pub fn set_resource(&mut self, resource: &Resource)
        ensures
            exported_from(final(self)@.resource, *resource),
            final(self)@.backend == old(self)@.backend,
            final(self)@.headers == old(self)@.headers,
            final(self)@.url == old(self)@.url,
    {
        self.resource = export_resource(resource);
    }
}

} // verus!
