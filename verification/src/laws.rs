use fastly::http::{HeaderName, HeaderValue};
use vstd::prelude::*;

use crate::backend::BackendInfo;
use crate::decimal::{decimal_text, decimal_value};
use crate::url::url_parse_outcome;
use crate::default_url::{default_url_text, parsed_trace_url, trace_url_text, DefaultUrl};
use crate::error::{debug_quoted, error_message, ExporterBuildError};
use crate::log_exporter_builder::{log_builder_created, LogExporterBuilder};
use crate::proto_resource::{exported_from, exported_keys, resource_or_empty};
use crate::log_exporter::LogExporter;
use crate::log_exporter_builder::{log_exporter_built, LogExporterBuilderView};
use crate::proto_resource::{exported_resource_attributes, exported_resource_schema_url};
use opentelemetry_proto::transform::common::tonic::ResourceAttributesWithSchema;
use crate::resource_builder::{
    resource_attribute_map, resource_schema_url, SCHEMA_URL,
    chosen_service_name, default_settings, deployment_environment, resource_attribute_list,
    resource_built, FastlyEnvironment, ResourceBuilder, ResourceSettings,
};
use opentelemetry_sdk::Resource;
use crate::span_exporter::SpanExporter;
use crate::span_exporter_builder::{
    span_builder_created, span_exporter_built, SpanExporterBuilder, SpanExporterBuilderView,
};

verus! {

/// A span exporter built with a configured URL sends to that URL: building
/// never fails then, whatever the backend.
pub proof fn law_span_configured_url_is_used(
    b: SpanExporterBuilderView,
    url: Seq<char>,
    r: Result<SpanExporter, ExporterBuildError>,
)
    requires
        span_exporter_built(SpanExporterBuilderView { url: Some(url), ..b }, r),
    ensures
        r matches Ok(e) && e@.url == url,
{
}

/// A log exporter built with a configured URL sends to that URL: building
/// never fails then, whatever the backend.
pub proof fn law_log_configured_url_is_used(
    b: LogExporterBuilderView,
    url: Seq<char>,
    r: Result<LogExporter, ExporterBuildError>,
)
    requires
        log_exporter_built(LogExporterBuilderView { url: Some(url), ..b }, r),
    ensures
        r matches Ok(e) && e@.url == url,
{
}

/// A span exporter built straight from a new builder sends to the default
/// trace endpoint of its backend, `https://{host}:{port}/v1/traces` parsed,
/// with no headers and an empty resource; it fails exactly when that URL does
/// not parse, and its error then names that `https` text.
pub proof fn law_span_defaults(
    backend: BackendInfo,
    b: Result<SpanExporterBuilder, ExporterBuildError>,
    r: Result<SpanExporter, ExporterBuildError>,
)
    requires
        span_builder_created(backend, b),
        b matches Ok(builder) && span_exporter_built(builder@, r),
    ensures
        r is Ok <==> parsed_trace_url(backend) is Ok,
        r matches Err(ExporterBuildError::InvalidUrl { url, .. }) ==> url@ == trace_url_text(
            backend,
        ),
        r matches Ok(e) ==> {
            &&& parsed_trace_url(backend) == Ok::<
                Seq<char>,
                (Seq<char>, Seq<char>),
            >(e@.url)
            &&& e@.backend == backend
            &&& e@.headers == Map::<HeaderName, Vec<HeaderValue>>::empty()
            &&& exported_resource_attributes(e@.resource) == Seq::<(Seq<char>, Seq<char>)>::empty()
            &&& exported_resource_schema_url(e@.resource) is None
        },
{
}

/// A log exporter keeps the headers its builder was given, in the order they
/// were added.
pub proof fn law_log_headers_kept(b: LogExporterBuilderView, r: Result<LogExporter, ExporterBuildError>)
    requires
        log_exporter_built(b, r),
    ensures
        r matches Ok(e) ==> e@.headers == b.headers,
{
}

/// The default trace endpoint is always reached over `https`, whatever the
/// backend.
pub proof fn law_trace_url_is_https(backend: BackendInfo)
    ensures
        "https://"@.is_prefix_of(trace_url_text(backend)),
        trace_url_text(backend).len() >= 8,
{
    reveal_strlit("https://");
    let text = trace_url_text(backend);
    assert(text.subrange(0, 8) =~= "https://"@);
}

/// A resource built with the defaults is described exactly as one built by a
/// new builder: the same service name, keys and schema URL.
pub proof fn law_build_default_is_new_build(
    b: ResourceBuilder,
    env: FastlyEnvironment,
    package_name: Seq<char>,
    r: Resource,
)
    requires
        b@ == default_settings(),
    ensures
        resource_built(b@, env, package_name, r) == resource_built(
            default_settings(),
            env,
            package_name,
            r,
        ),
{
}

/// A default endpoint URL uses `https` exactly when the backend uses TLS.
pub proof fn law_default_url_scheme(kind: DefaultUrl, backend: BackendInfo)
    ensures
        backend.is_ssl ==> "https://"@.is_prefix_of(default_url_text(kind, backend)),
        !backend.is_ssl ==> "http://"@.is_prefix_of(default_url_text(kind, backend)),
{
    reveal_strlit("https");
    reveal_strlit("http");
    reveal_strlit("://");
    reveal_strlit("https://");
    reveal_strlit("http://");
    let text = default_url_text(kind, backend);
    if backend.is_ssl {
        assert(text.subrange(0, 8) =~= "https://"@);
    } else {
        assert(text.subrange(0, 7) =~= "http://"@);
    }
}

/// An overridden deployment environment is used whatever the Fastly
/// environment holds.
pub proof fn law_environment_override(
    settings: ResourceSettings,
    environment: Seq<char>,
    env: FastlyEnvironment,
    package_name: Seq<char>,
)
    ensures
        deployment_environment(
            ResourceSettings { environment: Some(environment), ..settings },
            env,
        ) == environment,
        resource_attribute_list(
            ResourceSettings { environment: Some(environment), ..settings },
            env,
            package_name,
        )[5] == ("deployment.environment.name"@, environment),
{
}

/// Without an override, the deployment environment is `"staging"` exactly
/// when `FASTLY_IS_STAGING` is `"1"`, and `"production"` otherwise.
pub proof fn law_staging_from_environment(settings: ResourceSettings, env: FastlyEnvironment)
    requires
        settings.environment is None,
    ensures
        (deployment_environment(settings, env) == "staging"@) <==> (env.is_staging matches Some(
            s,
        ) && s@ == "1"@),
        deployment_environment(settings, env) == "staging"@ || deployment_environment(
            settings,
            env,
        ) == "production"@,
{
    reveal_strlit("staging");
    reveal_strlit("production");
    assert("staging"@ != "production"@) by {
        assert("staging"@.len() != "production"@.len());
    }
}

/// An overridden service name is used; without one, the package name of the
/// service's crate is.
pub proof fn law_service_name(
    settings: ResourceSettings,
    env: FastlyEnvironment,
    package_name: Seq<char>,
)
    ensures
        resource_attribute_list(settings, env, package_name)[8] == ("service.name"@,
        chosen_service_name(settings, package_name)),
        settings.service_name matches Some(n) ==> chosen_service_name(settings, package_name) == n,
        settings.service_name is None ==> chosen_service_name(settings, package_name)
            == package_name,
{
}

/// Every resource carries the same ten attribute keys, each once, and names
/// its platform and provider as Fastly's, whatever the settings and the
/// environment.
pub proof fn law_resource_keys(
    s1: ResourceSettings,
    e1: FastlyEnvironment,
    p1: Seq<char>,
    s2: ResourceSettings,
    e2: FastlyEnvironment,
    p2: Seq<char>,
)
    ensures
        resource_attribute_list(s1, e1, p1).len() == 10,
        resource_attribute_list(s1, e1, p1).map_values(|p: (Seq<char>, Seq<char>)| p.0)
            == resource_attribute_list(s2, e2, p2).map_values(|p: (Seq<char>, Seq<char>)| p.0),
        resource_attribute_list(s1, e1, p1).map_values(
            |p: (Seq<char>, Seq<char>)| p.0,
        ).no_duplicates(),
        resource_attribute_list(s1, e1, p1)[2] == ("cloud.platform"@, "Fastly Compute"@),
        resource_attribute_list(s1, e1, p1)[3] == ("cloud.provider"@, "Fastly"@),
{
    let l1 = resource_attribute_list(s1, e1, p1);
    let l2 = resource_attribute_list(s2, e2, p2);
    let k1 = l1.map_values(|p: (Seq<char>, Seq<char>)| p.0);
    let k2 = l2.map_values(|p: (Seq<char>, Seq<char>)| p.0);
    assert(k1 =~= k2);
    reveal_strlit("cloud.account.id");
    reveal_strlit("cloud.availability_zone");
    reveal_strlit("cloud.platform");
    reveal_strlit("cloud.provider");
    reveal_strlit("cloud.region");
    reveal_strlit("deployment.environment.name");
    reveal_strlit("host.name");
    reveal_strlit("service.instance.id");
    reveal_strlit("service.name");
    reveal_strlit("service.version");
    assert forall|i: int, j: int| 0 <= i < k1.len() && 0 <= j < k1.len() && i != j implies k1[i]
        != k1[j] by {
        if k1[i] == k1[j] {
            assert(k1[i].len() == k1[j].len());
            assert(k1[i][6] == k1[j][6]);
            assert(k1[i][8] == k1[j][8]);
            assert(k1[i][9] == k1[j][9]);
        }
    }
}

/// A port is written as its standard decimal numeral: the digits `0`-`9`,
/// read back in base 10 they give the number, and no leading zero.
pub proof fn law_decimal_reads_back(n: nat)
    ensures
        decimal_value(decimal_text(n)) == n,
        decimal_text(n).len() >= 1,
        decimal_text(n).len() == 1 <==> n < 10,
        forall|i: int|
            0 <= i < decimal_text(n).len() ==> 48 <= (#[trigger] decimal_text(n)[i]) as int <= 57,
        decimal_text(n).len() > 1 ==> decimal_text(n)[0] != '0',
    decreases n,
{
    assert(((48 + n % 10) as char) as int == 48 + n % 10);
    if n < 10 {
        let t = decimal_text(n);
        assert(t.drop_last() =~= Seq::<char>::empty());
        assert(t.last() == ((48 + n) as char));
        assert(decimal_value(t) == decimal_value(t.drop_last()) * 10 + ((t.last() as int) - 48));
    } else {
        law_decimal_reads_back(n / 10);
        let p = decimal_text(n / 10);
        let t = decimal_text(n);
        assert(t == p + seq![((48 + n % 10) as char)]);
        assert(t.drop_last() =~= p);
        assert(t[0] == p[0]);
        if p.len() == 1 {
            assert(n / 10 < 10);
            assert(p[0] == ((48 + n / 10) as char));
            assert(((48 + n / 10) as char) as int == 48 + n / 10);
            assert('0' as int == 48);
        }
        assert forall|i: int| 0 <= i < t.len() implies 48 <= (#[trigger] t[i]) as int <= 57 by {
            if i < p.len() {
                assert(t[i] == p[i]);
            }
        }
    }
}

/// The default trace URL is, for every backend with TLS or without,
/// `https://` then the host, `:`, the port in decimal and `/v1/traces`: the
/// port always follows the host, and the backend's TLS setting plays no part.
pub proof fn law_trace_url_text(backend: BackendInfo)
    ensures
        trace_url_text(backend) == "https://"@ + backend.host@ + ":"@ + decimal_text(
            backend.port as nat,
        ) + "/v1/traces"@,
        trace_url_text(backend) == trace_url_text(
            BackendInfo { is_ssl: !backend.is_ssl, ..backend },
        ),
        trace_url_text(backend) == default_url_text(
            DefaultUrl::Traces,
            BackendInfo { is_ssl: true, ..backend },
        ),
{
    reveal_strlit("https");
    reveal_strlit("://");
    reveal_strlit("https://");
    assert("https"@ + "://"@ =~= "https://"@);
    let rest = backend.host@ + ":"@ + decimal_text(backend.port as nat) + "/v1/traces"@;
    assert("https"@ + "://"@ + backend.host@ + ":"@ + decimal_text(backend.port as nat)
        + "/v1/traces"@ =~= "https://"@ + backend.host@ + ":"@ + decimal_text(
        backend.port as nat,
    ) + "/v1/traces"@);
}

/// The default endpoint URL of every kind is the backend's scheme (`https`
/// exactly when it uses TLS), `://`, the host, `:`, the port in decimal and
/// the kind's path.
pub proof fn law_default_url_text(kind: DefaultUrl, backend: BackendInfo)
    ensures
        default_url_text(kind, backend) == (if backend.is_ssl {
            "https"@
        } else {
            "http"@
        }) + "://"@ + backend.host@ + ":"@ + decimal_text(backend.port as nat) + (match kind {
            DefaultUrl::Logs => "/v1/logs"@,
            DefaultUrl::Metrics => "/v1/metrics"@,
            DefaultUrl::Traces => "/v1/traces"@,
        }),
{
}

/// A span exporter built without a configured URL sends to
/// `https://{host}:{port}/v1/traces` parsed, or fails with `InvalidUrl`
/// naming that text and the parser's message.
pub proof fn law_span_default_endpoint(
    b: SpanExporterBuilderView,
    r: Result<SpanExporter, ExporterBuildError>,
)
    requires
        span_exporter_built(b, r),
        b.url is None,
    ensures
        ({
            let text = "https://"@ + b.backend.host@ + ":"@ + decimal_text(b.backend.port as nat)
                + "/v1/traces"@;
            match url_parse_outcome(text) {
                Ok(href) => r matches Ok(e) && e@.url == href && e@.backend == b.backend,
                Err(m) => r matches Err(ExporterBuildError::InvalidUrl { url, message }) && url@
                    == text && message@ == m,
            }
        }),
{
}

/// A log exporter built without a configured URL sends to its own backend's
/// default log endpoint, `{https|http}://{host}:{port}/v1/logs` parsed (`https`
/// exactly when that backend uses TLS), or fails with `InvalidUrl` naming
/// that text.
pub proof fn law_log_default_endpoint(
    b: LogExporterBuilderView,
    r: Result<LogExporter, ExporterBuildError>,
)
    requires
        log_exporter_built(b, r),
        b.url is None,
    ensures
        ({
            let text = (if b.backend.is_ssl {
                "https"@
            } else {
                "http"@
            }) + "://"@ + b.backend.host@ + ":"@ + decimal_text(b.backend.port as nat)
                + "/v1/logs"@;
            match url_parse_outcome(text) {
                Ok(href) => r matches Ok(e) && e@.url == href && e@.backend == b.backend
                    && e@.headers == b.headers,
                Err(m) => r matches Err(ExporterBuildError::InvalidUrl { url, message }) && url@
                    == text && message@ == m,
            }
        }),
{
}

/// A built resource holds each attribute with the value its source gives:
/// the Fastly variable (or `"unknown"` where it is unset), the fixed platform
/// and provider, the chosen or derived environment, the chosen service name
/// or the package name; and the semantic-conventions schema URL.
pub proof fn law_resource_values(
    settings: ResourceSettings,
    env: FastlyEnvironment,
    package_name: Seq<char>,
    r: Resource,
)
    requires
        resource_built(settings, env, package_name, r),
    ensures
        ({
            let m = resource_attribute_map(r);
            &&& m["cloud.account.id"@] == (match env.customer_id {
                Some(s) => s@,
                None => "unknown"@,
            })
            &&& m["cloud.availability_zone"@] == (match env.pop {
                Some(s) => s@,
                None => "unknown"@,
            })
            &&& m["cloud.platform"@] == "Fastly Compute"@
            &&& m["cloud.provider"@] == "Fastly"@
            &&& m["cloud.region"@] == (match env.region {
                Some(s) => s@,
                None => "unknown"@,
            })
            &&& m["deployment.environment.name"@] == (match settings.environment {
                Some(e) => e,
                None => if env.is_staging matches Some(s) && s@ == "1"@ {
                    "staging"@
                } else {
                    "production"@
                },
            })
            &&& m["host.name"@] == (match env.hostname {
                Some(s) => s@,
                None => "unknown"@,
            })
            &&& m["service.instance.id"@] == (match env.service_id {
                Some(s) => s@,
                None => "unknown"@,
            })
            &&& m["service.name"@] == (match settings.service_name {
                Some(n) => n,
                None => package_name,
            })
            &&& m["service.version"@] == (match env.service_version {
                Some(s) => s@,
                None => "unknown"@,
            })
        }),
        resource_schema_url(r) == Some("https://opentelemetry.io/schemas/1.42.0"@),
{
    let l = resource_attribute_list(settings, env, package_name);
    assert(resource_attribute_map(r)[l[0].0] == l[0].1);
    assert(resource_attribute_map(r)[l[1].0] == l[1].1);
    assert(resource_attribute_map(r)[l[2].0] == l[2].1);
    assert(resource_attribute_map(r)[l[3].0] == l[3].1);
    assert(resource_attribute_map(r)[l[4].0] == l[4].1);
    assert(resource_attribute_map(r)[l[5].0] == l[5].1);
    assert(resource_attribute_map(r)[l[6].0] == l[6].1);
    assert(resource_attribute_map(r)[l[7].0] == l[7].1);
    assert(resource_attribute_map(r)[l[8].0] == l[8].1);
    assert(resource_attribute_map(r)[l[9].0] == l[9].1);
    reveal_strlit("https://opentelemetry.io/schemas/1.42.0");
}

/// A resource built with the defaults (no overrides) holds
/// `deployment.environment.name` = `"staging"` exactly when
/// `FASTLY_IS_STAGING` is `"1"` (else `"production"`) and `service.name` = the
/// package name.
pub proof fn law_default_resource(env: FastlyEnvironment, package_name: Seq<char>, r: Resource)
    requires
        resource_built(default_settings(), env, package_name, r),
    ensures
        default_settings() == (ResourceSettings { environment: None, service_name: None }),
        (env.is_staging matches Some(s) && s@ == "1"@) ==> resource_attribute_map(
            r,
        )["deployment.environment.name"@] == "staging"@,
        !(env.is_staging matches Some(s) && s@ == "1"@) ==> resource_attribute_map(
            r,
        )["deployment.environment.name"@] == "production"@,
        resource_attribute_map(r)["service.name"@] == package_name,
{
    law_resource_values(default_settings(), env, package_name, r);
}

/// A builder is created exactly when its backend exists; otherwise the error
/// is `MissingBackend` naming that backend.
pub proof fn law_builders_need_an_existing_backend(
    backend: BackendInfo,
    span: Result<SpanExporterBuilder, ExporterBuildError>,
    log: Result<LogExporterBuilder, ExporterBuildError>,
)
    requires
        span_builder_created(backend, span),
        log_builder_created(backend, log),
    ensures
        span is Ok <==> backend.exists,
        log is Ok <==> backend.exists,
        span matches Ok(b) ==> b@.backend == backend && b@.url is None && b@.resource is None,
        log matches Ok(b) ==> b@.backend == backend && b@.url is None && b@.resource is None
            && b@.headers.len() == 0,
        span matches Err(e) ==> e matches ExporterBuildError::MissingBackend { name } && name@
            == backend.name@,
        log matches Err(e) ==> e matches ExporterBuildError::MissingBackend { name } && name@
            == backend.name@,
{
}

/// A configured resource is the one an exporter is built with; without one
/// the exporter's resource has no attributes and no schema URL.
pub proof fn law_configured_resource_is_used(
    configured: Option<ResourceAttributesWithSchema>,
    exported: ResourceAttributesWithSchema,
)
    requires
        resource_or_empty(configured, exported),
    ensures
        configured matches Some(c) ==> exported == c,
        configured is None ==> exported_resource_attributes(exported).len() == 0
            && exported_resource_schema_url(exported) is None,
{
}

/// A resource converted for export holds exactly the resource's attributes:
/// as many, each key once, each with the resource's value, and the same
/// schema URL.
pub proof fn law_exported_resource(exported: ResourceAttributesWithSchema, resource: Resource)
    requires
        exported_from(exported, resource),
    ensures
        exported_resource_attributes(exported).len() == resource_attribute_map(resource).dom().len(),
        forall|k: Seq<char>|
            resource_attribute_map(resource).dom().contains(k) ==> exists|i: int|
                0 <= i < exported_resource_attributes(exported).len()
                    && #[trigger] exported_resource_attributes(exported)[i] == (k,
                    resource_attribute_map(resource)[k]),
        exported_resource_schema_url(exported) == resource_schema_url(resource),
{
    let keys = exported_keys(exported);
    keys.unique_seq_to_set();
    assert forall|k: Seq<char>| resource_attribute_map(resource).dom().contains(k) implies exists|
        i: int,
    |
        0 <= i < exported_resource_attributes(exported).len()
            && #[trigger] exported_resource_attributes(exported)[i] == (k,
            resource_attribute_map(resource)[k]) by {
        assert(keys.to_set().contains(k));
        let i = keys.index_of(k);
        assert(keys[i] == k);
        assert(exported_resource_attributes(exported)[i].0 == k);
    }
}

/// The messages of the build errors: `Invalid URL: {message} ({url:?})` and
/// `Exporter backend {name} does not exist`.
pub proof fn law_error_messages(url: String, message: String, name: String)
    ensures
        error_message(ExporterBuildError::InvalidUrl { url, message }) == "Invalid URL: "@
            + message@ + " ("@ + debug_quoted(url@) + ")"@,
        error_message(ExporterBuildError::MissingBackend { name }) == "Exporter backend "@
            + name@ + " does not exist"@,
{
}

} // verus!
