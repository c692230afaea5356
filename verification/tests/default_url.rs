use fastly::http::Url;
use fastly_opentelemetry_exporter::{
    decimal_string, resolve_trace_endpoint, trace_url, trace_url_string, url_or_error, BackendInfo,
    DefaultUrl, ExporterBuildError,
};

fn backend(host: &str, port: u16, is_ssl: bool) -> BackendInfo {
    BackendInfo {
        name: "otel-http".to_string(),
        exists: true,
        host: host.to_string(),
        port,
        is_ssl,
    }
}

fn parse_message(text: &str) -> String {
    Url::parse(text).unwrap_err().to_string()
}

#[test]
fn decimal_string_renders_ports() {
    assert_eq!(decimal_string(0), "0");
    assert_eq!(decimal_string(7), "7");
    assert_eq!(decimal_string(10), "10");
    assert_eq!(decimal_string(443), "443");
    assert_eq!(decimal_string(4318), "4318");
    assert_eq!(decimal_string(65535), "65535");
}

#[test]
fn default_url_paths() {
    assert_eq!(DefaultUrl::Logs.path(), "/v1/logs");
    assert_eq!(DefaultUrl::Metrics.path(), "/v1/metrics");
    assert_eq!(DefaultUrl::Traces.path(), "/v1/traces");
}

#[test]
fn default_url_text_uses_scheme_host_port_and_path() {
    let tls = backend("collector.example.com", 443, true);
    assert_eq!(
        DefaultUrl::Traces.url_text(&tls),
        "https://collector.example.com:443/v1/traces"
    );
    let plain = backend("collector.example.com", 4318, false);
    assert_eq!(
        DefaultUrl::Logs.url_text(&plain),
        "http://collector.example.com:4318/v1/logs"
    );
    assert_eq!(
        DefaultUrl::Metrics.url_text(&plain),
        "http://collector.example.com:4318/v1/metrics"
    );
}

#[test]
fn to_url_parses_the_default_url() {
    // The parser drops a port that is the scheme's default.
    let tls = backend("collector.example.com", 443, true);
    assert_eq!(
        DefaultUrl::Traces.to_url(&tls),
        Ok("https://collector.example.com/v1/traces".to_string())
    );
    let plain = backend("Collector.Example.com", 4318, false);
    assert_eq!(
        DefaultUrl::Logs.to_url(&plain),
        Ok("http://collector.example.com:4318/v1/logs".to_string())
    );
    let http_default = backend("localhost", 80, false);
    assert_eq!(
        DefaultUrl::Metrics.to_url(&http_default),
        Ok("http://localhost/v1/metrics".to_string())
    );
}

#[test]
fn to_url_reports_an_invalid_host() {
    let bad = backend("bad host", 80, false);
    let text = "http://bad host:80/v1/metrics";
    assert_eq!(
        DefaultUrl::Metrics.to_url(&bad),
        Err(ExporterBuildError::InvalidUrl {
            url: text.to_string(),
            message: parse_message(text),
        })
    );
    let empty = backend("", 443, true);
    let text = "https://:443/v1/traces";
    assert_eq!(
        DefaultUrl::Traces.to_url(&empty),
        Err(ExporterBuildError::InvalidUrl {
            url: text.to_string(),
            message: parse_message(text),
        })
    );
}

#[test]
fn url_or_error_maps_the_parse_outcome() {
    assert_eq!(
        url_or_error("x".to_string(), Ok("http://a/".to_string())),
        Ok("http://a/".to_string())
    );
    assert_eq!(
        url_or_error("x y".to_string(), Err("bad".to_string())),
        Err(ExporterBuildError::InvalidUrl {
            url: "x y".to_string(),
            message: "bad".to_string(),
        })
    );
}

#[test]
fn error_messages() {
    let missing = ExporterBuildError::MissingBackend {
        name: "otel-http".to_string(),
    };
    assert_eq!(missing.to_message(), "Exporter backend otel-http does not exist");
    let invalid = ExporterBuildError::InvalidUrl {
        url: "http://bad host/".to_string(),
        message: "invalid domain character".to_string(),
    };
    assert_eq!(
        invalid.to_message(),
        "Invalid URL: invalid domain character (\"http://bad host/\")"
    );
    let quoted = ExporterBuildError::InvalidUrl {
        url: "a\"b".to_string(),
        message: "m".to_string(),
    };
    assert_eq!(quoted.to_message(), "Invalid URL: m (\"a\\\"b\")");
}

#[test]
fn trace_url_is_always_https() {
    let plain = backend("collector.example.com", 4318, false);
    assert_eq!(
        trace_url_string(&plain),
        "https://collector.example.com:4318/v1/traces"
    );
    assert_eq!(
        trace_url(&plain),
        Ok("https://collector.example.com:4318/v1/traces".to_string())
    );
    let tls = backend("collector.example.com", 443, true);
    assert_eq!(
        trace_url(&tls),
        Ok("https://collector.example.com/v1/traces".to_string())
    );
    let bad = backend("bad host", 80, false);
    let text = "https://bad host:80/v1/traces";
    assert_eq!(
        trace_url(&bad),
        Err(ExporterBuildError::InvalidUrl {
            url: text.to_string(),
            message: parse_message(text),
        })
    );
    assert_eq!(
        resolve_trace_endpoint(Some("http://x/".to_string()), &bad),
        Ok("http://x/".to_string())
    );
}
