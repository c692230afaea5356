use opentelemetry::KeyValue;
use opentelemetry_sdk::Resource;
use vstd::prelude::*;

verus! {

/// The Fastly Compute environment variables that describe a service instance,
/// each `None` where the variable is unset (or not valid Unicode).
#[derive(Debug, Default)]
pub struct FastlyEnvironment {
    /// `FASTLY_IS_STAGING`
    pub is_staging: Option<String>,
    /// `FASTLY_CUSTOMER_ID`
    pub customer_id: Option<String>,
    /// `FASTLY_POP`
    pub pop: Option<String>,
    /// `FASTLY_REGION`
    pub region: Option<String>,
    /// `FASTLY_HOSTNAME`
    pub hostname: Option<String>,
    /// `FASTLY_SERVICE_ID`
    pub service_id: Option<String>,
    /// `FASTLY_SERVICE_VERSION`
    pub service_version: Option<String>,
}

#[verifier::external_type_specification]
#[verifier::external_body]
pub struct ExResource(Resource);

/// The attributes that an SDK resource holds, each key and value as text
/// (values as `Value::as_str` renders them).
pub uninterp spec fn resource_attribute_map(resource: Resource) -> Map<Seq<char>, Seq<char>>;

/// The schema URL that an SDK resource holds.
pub uninterp spec fn resource_schema_url(resource: Resource) -> Option<Seq<char>>;

/// The schema URL of the semantic conventions that the attribute keys follow.
pub const SCHEMA_URL: &'static str = "https://opentelemetry.io/schemas/1.42.0";

/// Builds an SDK resource: `Resource::builder().with_service_name(service_name)
/// .with_attributes(attributes).with_schema_url(attributes, schema_url).build()`.
/// `Resource::builder()` starts from the SDK's detectors (`OTEL_SERVICE_NAME`,
/// `OTEL_RESOURCE_ATTRIBUTES`, the `telemetry.sdk.*` keys); `with_attributes`
/// merges `attributes` over them, so the given values take precedence.
/// Claimed, as the SDK source shows: every key of `attributes` is present and
/// holds the value of its last occurrence (as text, `Value::as_str` of a
/// string value is the string); `service.name` holds `service_name` where
/// `attributes` does not name it; the schema URL is `schema_url`.
/// Not claimed: the values of the other keys the detectors bring.
#[verifier::external_body]
fn sdk_resource(service_name: String, attributes: Vec<(String, String)>, schema_url: &'static str) -> (r: Resource)
    requires
        schema_url@.len() > 0,
    ensures
        resource_attribute_map(r).contains_key("service.name"@),
        (forall|i: int| 0 <= i < attributes@.len() ==> attributes@[i].0@ != "service.name"@)
            ==> resource_attribute_map(r)["service.name"@] == service_name@,
        forall|i: int|
            0 <= i < attributes@.len() ==> resource_attribute_map(r).contains_key(
                #[trigger] attributes@[i].0@,
            ),
        forall|i: int|
            0 <= i < attributes@.len() && (forall|j: int|
                i < j < attributes@.len() ==> attributes@[j].0@ != attributes@[i].0@)
                ==> resource_attribute_map(r)[#[trigger] attributes@[i].0@] == attributes@[i].1@,
        resource_schema_url(r) == Some(schema_url@),
{
    let mut kvs = Vec::new();
    for (key, value) in attributes {
        kvs.push(KeyValue::new(key, value));
    }
    Resource::builder()
        .with_service_name(service_name)
        .with_attributes(kvs.clone())
        .with_schema_url(kvs, schema_url)
        .build()
}

/// The ten attribute keys are distinct, whatever the settings and environment.
pub proof fn lemma_attribute_keys_distinct(
    settings: ResourceSettings,
    env: FastlyEnvironment,
    package_name: Seq<char>,
)
    ensures
        forall|i: int, j: int|
            0 <= i < resource_attribute_list(settings, env, package_name).len() && 0 <= j
                < resource_attribute_list(settings, env, package_name).len() && i != j
                ==> (#[trigger] resource_attribute_list(settings, env, package_name)[i]).0
                != (#[trigger] resource_attribute_list(settings, env, package_name)[j]).0,
{
    let l = resource_attribute_list(settings, env, package_name);
    reveal_strlit("cloud.account.id");
    reveal_strlit("cloud.availability_zone");
    reveal_strlit("cloud.platform");
    reveal_strlit("cloud.provider");
    reveal_strlit("cloud.region");
    reveal_strlit("deployment.environment.name");
    reveal_strlit("host.name");
    reveal_strlit("service.instance.id");
    reveal_strlit("service.name");
    reveal_strlit("service.version");
    assert forall|i: int, j: int| 0 <= i < l.len() && 0 <= j < l.len() && i != j implies l[i].0
        != l[j].0 by {
        if l[i].0 == l[j].0 {
            assert(l[i].0.len() == l[j].0.len());
            assert(l[i].0[6] == l[j].0[6]);
            assert(l[i].0[8] == l[j].0[8]);
            assert(l[i].0[9] == l[j].0[9]);
        }
    }
}

/// The settings a `ResourceBuilder` holds.
pub struct ResourceSettings {
    pub environment: Option<Seq<char>>,
    pub service_name: Option<Seq<char>>,
}

/// Builds a trace resource whose attributes come from the Fastly Compute
/// environment variables and the package settings.
///
/// If `environment` is not overridden the value is derived from
/// `FASTLY_IS_STAGING`; if `service_name` is not overridden the value is the
/// package name of the crate the service is built from, which the caller
/// passes to `build` (`env!("CARGO_PKG_NAME")` in that crate).
pub struct ResourceBuilder {
    environment: Option<String>,
    service_name: Option<String>,
}

impl View for ResourceBuilder {
    type V = ResourceSettings;

    closed spec fn view(&self) -> ResourceSettings {
        ResourceSettings {
            environment: self.environment.deep_view(),
            service_name: self.service_name.deep_view(),
        }
    }
}

/// The value of an environment variable, `"unknown"` where it is unset.
pub open spec fn value_or_unknown(value: Option<String>) -> Seq<char> {
    match value {
        Some(s) => s@,
        None => "unknown"@,
    }
}

/// The deployment environment name: the override where there is one, else
/// `"staging"` when `FASTLY_IS_STAGING` is `"1"` and `"production"` otherwise.
pub open spec fn deployment_environment(settings: ResourceSettings, env: FastlyEnvironment) -> Seq<
    char,
> {
    match settings.environment {
        Some(e) => e,
        None => if env.is_staging matches Some(s) && s@ == "1"@ {
            "staging"@
        } else {
            "production"@
        },
    }
}

/// The service name: the override where there is one, else the package name
/// of the service's crate.
pub open spec fn chosen_service_name(settings: ResourceSettings, package_name: Seq<char>) -> Seq<
    char,
> {
    match settings.service_name {
        Some(n) => n,
        None => package_name,
    }
}

/// The resource attributes, in order, as (key, value) pairs.
pub open spec fn resource_attribute_list(
    settings: ResourceSettings,
    env: FastlyEnvironment,
    package_name: Seq<char>,
) -> Seq<(Seq<char>, Seq<char>)> {
    seq![
        ("cloud.account.id"@, value_or_unknown(env.customer_id)),
        ("cloud.availability_zone"@, value_or_unknown(env.pop)),
        ("cloud.platform"@, "Fastly Compute"@),
        ("cloud.provider"@, "Fastly"@),
        ("cloud.region"@, value_or_unknown(env.region)),
        ("deployment.environment.name"@, deployment_environment(settings, env)),
        ("host.name"@, value_or_unknown(env.hostname)),
        ("service.instance.id"@, value_or_unknown(env.service_id)),
        ("service.name"@, chosen_service_name(settings, package_name)),
        ("service.version"@, value_or_unknown(env.service_version)),
    ]
}

fn value_or_unknown_string(value: &Option<String>) -> (r: String)
    ensures
        r@ == value_or_unknown(*value),
{
    match value {
        Some(s) => s.clone(),
        None => String::from_str("unknown"),
    }
}

fn pair(key: &str, value: String) -> (r: (String, String))
    ensures
        r.0@ == key@,
        r.1@ == value@,
{
    (String::from_str(key), value)
}

impl Default for ResourceBuilder {
    fn default() -> (r: Self)
        ensures
            r@ == default_settings(),
    {
        ResourceBuilder { environment: None, service_name: None }
    }
}

impl ResourceBuilder {
    /// Create a `ResourceBuilder` with no overrides.
    pub fn new() -> (r: Self)
        ensures
            r@ == default_settings(),
    {
        ResourceBuilder { environment: None, service_name: None }
    }

    /// Override the deployment environment name.
    pub fn with_environment(self, environment: &str) -> (r: Self)
        ensures
            r@.environment == Some(environment@),
            r@.service_name == self@.service_name,
    {
        ResourceBuilder { environment: Some(String::from_str(environment)), ..self }
    }

    /// Override the service name.
    pub fn with_service_name(self, service_name: &str) -> (r: Self)
        ensures
            r@.service_name == Some(service_name@),
            r@.environment == self@.environment,
    {
        ResourceBuilder { service_name: Some(String::from_str(service_name)), ..self }
    }

    /// The deployment environment name for `env`.
    pub fn environment_name(&self, env: &FastlyEnvironment) -> (r: String)
        ensures
            r@ == deployment_environment(self@, *env),
    {
        match &self.environment {
            Some(e) => e.clone(),
            None => {
                let one = String::from_str("1");
                let staging = match &env.is_staging {
                    Some(s) => *s == one,
                    None => false,
                };
                if staging {
                    String::from_str("staging")
                } else {
                    String::from_str("production")
                }
            },
        }
    }

    /// The service name, `package_name` where none was chosen.
    pub fn service_name(&self, package_name: &str) -> (r: String)
        ensures
            r@ == chosen_service_name(self@, package_name@),
    {
        match &self.service_name {
            Some(n) => n.clone(),
            None => String::from_str(package_name),
        }
    }

    /// The resource attributes for `env` and the service crate's
    /// `package_name`, in order.
    pub fn attributes(&self, env: &FastlyEnvironment, package_name: &str) -> (r: Vec<
        (String, String),
    >)
        ensures
            r.deep_view() == resource_attribute_list(self@, *env, package_name@),
    {
        let mut r = Vec::new();
        r.push(pair("cloud.account.id", value_or_unknown_string(&env.customer_id)));
        r.push(pair("cloud.availability_zone", value_or_unknown_string(&env.pop)));
        r.push(pair("cloud.platform", String::from_str("Fastly Compute")));
        r.push(pair("cloud.provider", String::from_str("Fastly")));
        r.push(pair("cloud.region", value_or_unknown_string(&env.region)));
        r.push(pair("deployment.environment.name", self.environment_name(env)));
        r.push(pair("host.name", value_or_unknown_string(&env.hostname)));
        r.push(pair("service.instance.id", value_or_unknown_string(&env.service_id)));
        r.push(pair("service.name", self.service_name(package_name)));
        r.push(pair("service.version", value_or_unknown_string(&env.service_version)));
        assert(r.deep_view() =~= resource_attribute_list(self@, *env, package_name@));
        r
    }

    /// Build the resource for the environment `env`; `package_name` is the
    /// package name of the crate the service is built from.
    pub fn build(self, env: &FastlyEnvironment, package_name: &str) -> (r: Resource)
        ensures
            resource_built(self@, *env, package_name@, r),
    {
        let attributes = self.attributes(env, package_name);
        let service_name = self.service_name(package_name);
        proof {
            reveal_strlit("https://opentelemetry.io/schemas/1.42.0");
        }
        let ghost list = resource_attribute_list(self@, *env, package_name@);
        proof {
            lemma_attribute_keys_distinct(self@, *env, package_name@);
            assert forall|i: int| 0 <= i < attributes@.len() implies attributes@[i].0@ == list[i].0
                && attributes@[i].1@ == list[i].1 by {
                assert(attributes.deep_view()[i] == list[i]);
            }
            reveal_strlit("service.name");
            assert(list[8].0 == "service.name"@);
        }
        let r = sdk_resource(service_name, attributes, SCHEMA_URL);
        proof {
            assert forall|i: int| 0 <= i < list.len() implies resource_attribute_map(
                r,
            ).contains_key(#[trigger] list[i].0) && resource_attribute_map(r)[list[i].0]
                == list[i].1 by {
                assert(attributes@[i].0@ == list[i].0);
                assert forall|j: int| i < j < attributes@.len() implies attributes@[j].0@
                    != attributes@[i].0@ by {
                    assert(attributes@[j].0@ == list[j].0);
                    assert(list[j].0 != list[i].0);
                }
            }
            assert(resource_attribute_map(r).contains_key(list[8].0));
            assert(resource_attribute_map(r)[list[8].0] == list[8].1);
        }
        r
    }

    /// Build a resource using the defaults: the same as
    /// `ResourceBuilder::new().build(env, package_name)`.
    pub fn build_default(env: &FastlyEnvironment, package_name: &str) -> (r: Resource)
        ensures
            resource_built(default_settings(), *env, package_name@, r),
    {
        Self::new().build(env, package_name)
    }
}

/// The settings of a builder with no overrides.
pub open spec fn default_settings() -> ResourceSettings {
    ResourceSettings { environment: None, service_name: None }
}

/// What holds of a resource built with `settings` for `env`: `service.name`
/// holds the chosen service name, every attribute of the list is present with
/// the list's value, and the schema URL is `SCHEMA_URL`.
pub open spec fn resource_built(
    settings: ResourceSettings,
    env: FastlyEnvironment,
    package_name: Seq<char>,
    r: Resource,
) -> bool {
    &&& resource_attribute_map(r).contains_key("service.name"@)
    &&& resource_attribute_map(r)["service.name"@] == chosen_service_name(settings, package_name)
    &&& forall|i: int|
        0 <= i < resource_attribute_list(settings, env, package_name).len()
            ==> resource_attribute_map(r).contains_key(
            #[trigger] resource_attribute_list(settings, env, package_name)[i].0,
        )
    &&& forall|i: int|
        0 <= i < resource_attribute_list(settings, env, package_name).len()
            ==> resource_attribute_map(r)[(#[trigger] resource_attribute_list(
            settings,
            env,
            package_name,
        )[i]).0] == resource_attribute_list(settings, env, package_name)[i].1
    &&& resource_schema_url(r) == Some(SCHEMA_URL@)
}

} // verus!
