use fastly::http::{HeaderName, HeaderValue};
use opentelemetry_sdk::metrics::Temporality;
use vstd::prelude::*;

use crate::backend::BackendInfo;

verus! {

#[verifier::external_type_specification]
#[verifier::external_body]
pub struct ExTemporality(Temporality);

/// What a `MetricsExporter` holds.
pub struct MetricsExporterView {
    pub backend: BackendInfo,
    pub headers: Seq<(HeaderName, HeaderValue)>,
    pub temporality: Temporality,
    pub url: Seq<char>,
}

/// An OpenTelemetry metrics exporter: it sends metrics, with the headers it
/// holds in order, to `url` through `backend`, aggregated over `temporality`.
#[derive(Debug)]
pub struct MetricsExporter {
    backend: BackendInfo,
    headers: Vec<(HeaderName, HeaderValue)>,
    temporality: Temporality,
    url: String,
}

impl View for MetricsExporter {
    type V = MetricsExporterView;

    closed spec fn view(&self) -> MetricsExporterView {
        MetricsExporterView {
            backend: self.backend,
            headers: self.headers@,
            temporality: self.temporality,
            url: self.url@,
        }
    }
}

impl MetricsExporter {
    /// Create a new MetricsExporter
    pub fn new(
        backend: BackendInfo,
        headers: Vec<(HeaderName, HeaderValue)>,
        temporality: Temporality,
        url: String,
    ) -> (r: Self)
        ensures
            r@ == (MetricsExporterView { backend, headers: headers@, temporality, url: url@ }),
    {
        MetricsExporter { backend, headers, temporality, url }
    }

    /// The backend metrics are sent through.
    pub fn backend(&self) -> (r: &BackendInfo)
        ensures
            *r == self@.backend,
    {
        &self.backend
    }

    /// The headers every export request carries, in order.
    pub fn headers(&self) -> (r: &Vec<(HeaderName, HeaderValue)>)
        ensures
            r@ == self@.headers,
    {
        &self.headers
    }

    /// The temporality the exported metrics are aggregated over.
    pub fn temporality(&self) -> (r: &Temporality)
        ensures
            *r == self@.temporality,
    {
        &self.temporality
    }

    /// The URL metrics are sent to.
    pub fn url(&self) -> (r: &str)
        ensures
            r@ == self@.url,
    {
        self.url.as_str()
    }
}

} // verus!
