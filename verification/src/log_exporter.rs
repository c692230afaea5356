use fastly::http::{HeaderName, HeaderValue};
use opentelemetry_proto::transform::common::tonic::ResourceAttributesWithSchema;
use opentelemetry_sdk::Resource;
use vstd::prelude::*;

use crate::backend::BackendInfo;
use crate::error::ExporterBuildError;
use crate::log_exporter_builder::{log_builder_created, LogExporterBuilder};
use crate::proto_resource::{
    export_resource, exported_from,
};

verus! {

/// What a `LogExporter` holds.
pub struct LogExporterView {
    pub backend: BackendInfo,
    pub headers: Seq<(HeaderName, HeaderValue)>,
    pub resource: ResourceAttributesWithSchema,
    pub url: Seq<char>,
}

/// An OpenTelemetry log exporter: it sends log records, with the headers it
/// holds in order, to `url` through `backend`, described by `resource`.
#[derive(Debug)]
pub struct LogExporter {
    backend: BackendInfo,
    headers: Vec<(HeaderName, HeaderValue)>,
    resource: ResourceAttributesWithSchema,
    url: String,
}

impl View for LogExporter {
    type V = LogExporterView;

    closed spec fn view(&self) -> LogExporterView {
        LogExporterView {
            backend: self.backend,
            headers: self.headers@,
            resource: self.resource,
            url: self.url@,
        }
    }
}

impl LogExporter {
    /// Create a new LogExporter
    pub fn new(
        backend: BackendInfo,
        headers: Vec<(HeaderName, HeaderValue)>,
        resource: ResourceAttributesWithSchema,
        url: String,
    ) -> (r: Self)
        ensures
            r@ == (LogExporterView { backend, headers: headers@, resource, url: url@ }),
    {
        LogExporter { backend, headers, resource, url }
    }

    /// Create a new LogExporterBuilder
    pub fn builder(backend: BackendInfo) -> (r: Result<LogExporterBuilder, ExporterBuildError>)
        ensures
            log_builder_created(backend, r),
    {
        LogExporterBuilder::new(backend)
    }

    /// The backend log records are sent through.
    pub fn backend(&self) -> (r: &BackendInfo)
        ensures
            *r == self@.backend,
    {
        &self.backend
    }

    /// The headers every export request carries, in order.
    pub fn headers(&self) -> (r: &Vec<(HeaderName, HeaderValue)>)
        ensures
            r@ == self@.headers,
    {
        &self.headers
    }

    /// The resource the exported log records are described by.
    pub fn resource(&self) -> (r: &ResourceAttributesWithSchema)
        ensures
            *r == self@.resource,
    {
        &self.resource
    }

    /// The URL log records are sent to.
    pub fn url(&self) -> (r: &str)
        ensures
            r@ == self@.url,
    {
        self.url.as_str()
    }

    /// Describe the exported log records by `resource` from now on.
    pub fn set_resource(&mut self, resource: &Resource)
        ensures
            exported_from(final(self)@.resource, *resource),
            final(self)@.backend == old(self)@.backend,
            final(self)@.headers == old(self)@.headers,
            final(self)@.url == old(self)@.url,
    {
        self.resource = export_resource(resource);
    }
}

} // verus!
