use vstd::prelude::*;

use crate::backend::BackendInfo;
use crate::decimal::{decimal_string, decimal_text};
use crate::error::ExporterBuildError;
use crate::url::{parse_url, url_or_error, url_parse_outcome};

verus! {

/// The OTLP/HTTP endpoints an exporter can send to by default.
#[derive(Clone, Copy, Debug, PartialEq, Eq)]
pub enum DefaultUrl {
    Logs,
    Metrics,
    Traces,
}

/// The path of a default endpoint.
pub open spec fn default_url_path(kind: DefaultUrl) -> Seq<char> {
    match kind {
        DefaultUrl::Logs => "/v1/logs"@,
        DefaultUrl::Metrics => "/v1/metrics"@,
        DefaultUrl::Traces => "/v1/traces"@,
    }
}

/// The scheme used to reach a backend: `https` over TLS, `http` otherwise.
pub open spec fn backend_scheme(is_ssl: bool) -> Seq<char> {
    if is_ssl {
        "https"@
    } else {
        "http"@
    }
}

/// The text of a default endpoint URL: `{scheme}://{host}:{port}{path}`.
pub open spec fn default_url_text(kind: DefaultUrl, backend: BackendInfo) -> Seq<char> {
    backend_scheme(backend.is_ssl) + "://"@ + backend.host@ + ":"@ + decimal_text(
        backend.port as nat,
    ) + default_url_path(kind)
}

impl DefaultUrl {
    /// The path of this endpoint.
    pub fn path(&self) -> (r: &'static str)
        ensures
            r@ == default_url_path(*self),
    {
        match self {
            DefaultUrl::Logs => "/v1/logs",
            DefaultUrl::Metrics => "/v1/metrics",
            DefaultUrl::Traces => "/v1/traces",
        }
    }

    /// The text of this endpoint's URL on `backend`, before it is parsed.
    pub fn url_text(&self, backend: &BackendInfo) -> (r: String)
        ensures
            r@ == default_url_text(*self, *backend),
    {
        let mut r = if backend.is_ssl {
            String::from_str("https")
        } else {
            String::from_str("http")
        };
        r.append("://");
        r.append(backend.host.as_str());
        r.append(":");
        let port = decimal_string(backend.port);
        r.append(port.as_str());
        r.append(self.path());
        r
    }

    /// The URL of this endpoint on `backend`: `{scheme}://{host}:{port}{path}`,
    /// parsed. An `InvalidUrl` error carries the text and the parser's message
    /// where that text does not parse.
    pub fn to_url(&self, backend: &BackendInfo) -> (r: Result<String, ExporterBuildError>)
        ensures
            url_result_is(r, parsed_default_url(*self, *backend)),
    {
        let text = self.url_text(backend);
        let parsed = parse_url(text.as_str());
        url_or_error(text, parsed)
    }
}

/// The outcome of parsing `text` as an endpoint URL: the parsed URL, or the
/// text that failed and the parser's message.
pub open spec fn parse_text_outcome(text: Seq<char>) -> Result<Seq<char>, (Seq<char>, Seq<char>)> {
    match url_parse_outcome(text) {
        Ok(href) => Ok(href),
        Err(m) => Err((text, m)),
    }
}

/// The outcome of parsing a default endpoint URL.
pub open spec fn parsed_default_url(kind: DefaultUrl, backend: BackendInfo) -> Result<
    Seq<char>,
    (Seq<char>, Seq<char>),
> {
    parse_text_outcome(default_url_text(kind, backend))
}

/// The text of the default trace endpoint URL: always
/// `https://{host}:{port}/v1/traces`, whether or not the backend uses TLS.
pub open spec fn trace_url_text(backend: BackendInfo) -> Seq<char> {
    "https://"@ + backend.host@ + ":"@ + decimal_text(backend.port as nat) + "/v1/traces"@
}

/// The outcome of parsing the default trace endpoint URL.
pub open spec fn parsed_trace_url(backend: BackendInfo) -> Result<Seq<char>, (Seq<char>, Seq<char>)> {
    parse_text_outcome(trace_url_text(backend))
}

/// The URL an exporter sends to: the one configured, else the outcome of
/// parsing its default endpoint.
pub open spec fn endpoint_url(
    configured: Option<Seq<char>>,
    default: Result<Seq<char>, (Seq<char>, Seq<char>)>,
) -> Result<Seq<char>, (Seq<char>, Seq<char>)> {
    match configured {
        Some(u) => Ok(u),
        None => default,
    }
}

/// `r` is the executable form of the outcome `outcome`: the same URL, or an
/// `InvalidUrl` error with the same text and message.
pub open spec fn url_result_is(
    r: Result<String, ExporterBuildError>,
    outcome: Result<Seq<char>, (Seq<char>, Seq<char>)>,
) -> bool {
    match outcome {
        Ok(href) => r matches Ok(u) && u@ == href,
        Err((text, m)) => r matches Err(ExporterBuildError::InvalidUrl { url, message }) && url@
            == text && message@ == m,
    }
}

/// The URL an exporter sends to: `configured` where it is given, else the
/// default endpoint `kind` on `backend`.
pub fn resolve_endpoint(configured: Option<String>, kind: DefaultUrl, backend: &BackendInfo) -> (r:
    Result<String, ExporterBuildError>)
    ensures
        url_result_is(
            r,
            endpoint_url(configured.deep_view(), parsed_default_url(kind, *backend)),
        ),
{
    match configured {
        Some(u) => Ok(u),
        None => kind.to_url(backend),
    }
}

/// The text of the default trace endpoint URL on `backend`, before it is parsed:
/// `https://{host}:{port}/v1/traces`.
pub fn trace_url_string(backend: &BackendInfo) -> (r: String)
    ensures
        r@ == trace_url_text(*backend),
{
    let mut r = String::from_str("https://");
    r.append(backend.host.as_str());
    r.append(":");
    let port = decimal_string(backend.port);
    r.append(port.as_str());
    r.append("/v1/traces");
    r
}

/// The default trace endpoint URL on `backend`, parsed; an `InvalidUrl` error
/// carries the text and the parser's message where that text does not parse.
pub fn trace_url(backend: &BackendInfo) -> (r: Result<String, ExporterBuildError>)
    ensures
        url_result_is(r, parsed_trace_url(*backend)),
{
    let text = trace_url_string(backend);
    let parsed = parse_url(text.as_str());
    url_or_error(text, parsed)
}

/// The URL a span exporter sends to: `configured` where it is given, else the
/// default trace endpoint on `backend`.
pub fn resolve_trace_endpoint(configured: Option<String>, backend: &BackendInfo) -> (r: Result<
    String,
    ExporterBuildError,
>)
    ensures
        url_result_is(r, endpoint_url(configured.deep_view(), parsed_trace_url(*backend))),
{
    match configured {
        Some(u) => Ok(u),
        None => trace_url(backend),
    }
}

} // verus!
