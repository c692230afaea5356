use fastly_opentelemetry_exporter::{FastlyEnvironment, ResourceBuilder, SCHEMA_URL};
use opentelemetry::Key;
use opentelemetry_sdk::Resource;
use opentelemetry_semantic_conventions::resource as semconv;

fn full_env(is_staging: Option<&str>) -> FastlyEnvironment {
    FastlyEnvironment {
        is_staging: is_staging.map(|s| s.to_string()),
        customer_id: Some("customer".to_string()),
        pop: Some("SEA".to_string()),
        region: Some("US-West".to_string()),
        hostname: Some("cache-sea-1".to_string()),
        service_id: Some("service-id".to_string()),
        service_version: Some("7".to_string()),
    }
}

fn value(resource: &Resource, key: &'static str) -> Option<String> {
    resource.get(&Key::from_static_str(key)).map(|v| v.as_str().to_string())
}

fn pairs(list: Vec<(String, String)>) -> Vec<(String, String)> {
    list
}

#[test]
fn attributes_from_a_full_environment() {
    let attributes = ResourceBuilder::new().attributes(&full_env(Some("1")), "my-service-crate");
    let expected: Vec<(String, String)> = [
        ("cloud.account.id", "customer"),
        ("cloud.availability_zone", "SEA"),
        ("cloud.platform", "Fastly Compute"),
        ("cloud.provider", "Fastly"),
        ("cloud.region", "US-West"),
        ("deployment.environment.name", "staging"),
        ("host.name", "cache-sea-1"),
        ("service.instance.id", "service-id"),
        ("service.name", "my-service-crate"),
        ("service.version", "7"),
    ]
    .iter()
    .map(|(k, v)| (k.to_string(), v.to_string()))
    .collect();
    assert_eq!(pairs(attributes), expected);
}

#[test]
fn attributes_from_an_empty_environment() {
    let attributes = ResourceBuilder::new().attributes(&FastlyEnvironment::default(), "pkg");
    for (key, value) in &attributes {
        match key.as_str() {
            "cloud.platform" => assert_eq!(value, "Fastly Compute"),
            "cloud.provider" => assert_eq!(value, "Fastly"),
            "deployment.environment.name" => assert_eq!(value, "production"),
            "service.name" => assert_eq!(value, "pkg"),
            _ => assert_eq!(value, "unknown"),
        }
    }
    assert_eq!(attributes.len(), 10);
}

#[test]
fn staging_only_when_the_flag_is_one() {
    let b = ResourceBuilder::new();
    assert_eq!(b.environment_name(&full_env(Some("1"))), "staging");
    assert_eq!(b.environment_name(&full_env(Some("0"))), "production");
    assert_eq!(b.environment_name(&full_env(Some("true"))), "production");
    assert_eq!(b.environment_name(&full_env(Some(" 1"))), "production");
    assert_eq!(b.environment_name(&full_env(None)), "production");
}

#[test]
fn overrides_take_precedence() {
    let b = ResourceBuilder::new()
        .with_environment("development")
        .with_service_name("my-service");
    assert_eq!(b.environment_name(&full_env(Some("1"))), "development");
    assert_eq!(b.service_name("pkg"), "my-service");
    let only_name = ResourceBuilder::default().with_service_name("x");
    assert_eq!(only_name.environment_name(&full_env(Some("1"))), "staging");
    let only_env = ResourceBuilder::new().with_environment("qa");
    assert_eq!(only_env.service_name("pkg"), "pkg");
}

#[test]
fn build_makes_an_sdk_resource() {
    let resource = ResourceBuilder::new()
        .with_environment("development")
        .with_service_name("my-service")
        .build(&full_env(None), "pkg");
    assert_eq!(resource.schema_url(), Some(SCHEMA_URL));
    assert_eq!(value(&resource, "service.name").as_deref(), Some("my-service"));
    assert_eq!(
        value(&resource, "deployment.environment.name").as_deref(),
        Some("development")
    );
    assert_eq!(value(&resource, "cloud.platform").as_deref(), Some("Fastly Compute"));
    assert_eq!(value(&resource, "cloud.provider").as_deref(), Some("Fastly"));
    assert_eq!(value(&resource, "cloud.availability_zone").as_deref(), Some("SEA"));
    assert_eq!(value(&resource, "service.version").as_deref(), Some("7"));
}

#[test]
fn build_default_uses_package_name() {
    let resource = ResourceBuilder::build_default(&FastlyEnvironment::default(), "my-crate");
    assert_eq!(value(&resource, "service.name").as_deref(), Some("my-crate"));
    let same = ResourceBuilder::new().build(&FastlyEnvironment::default(), "my-crate");
    assert_eq!(resource, same);
    assert_eq!(value(&resource, "host.name").as_deref(), Some("unknown"));
    assert_eq!(
        value(&resource, "deployment.environment.name").as_deref(),
        Some("production")
    );
}

#[test]
fn keys_follow_the_semantic_conventions() {
    let keys: Vec<String> = ResourceBuilder::new()
        .attributes(&FastlyEnvironment::default(), "pkg")
        .into_iter()
        .map(|(k, _)| k)
        .collect();
    let expected = [
        semconv::CLOUD_ACCOUNT_ID,
        semconv::CLOUD_AVAILABILITY_ZONE,
        semconv::CLOUD_PLATFORM,
        semconv::CLOUD_PROVIDER,
        semconv::CLOUD_REGION,
        semconv::DEPLOYMENT_ENVIRONMENT_NAME,
        semconv::HOST_NAME,
        semconv::SERVICE_INSTANCE_ID,
        semconv::SERVICE_NAME,
        semconv::SERVICE_VERSION,
    ];
    assert_eq!(keys, expected);
    assert_eq!(SCHEMA_URL, opentelemetry_semantic_conventions::SCHEMA_URL);
}
