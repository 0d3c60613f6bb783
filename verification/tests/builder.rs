use flo_otel::builder::{BuildError, KeyValue, OtelBuilder, Value};
use opentelemetry_semantic_conventions::attribute::{DEPLOYMENT_ENVIRONMENT_NAME, SERVICE_VERSION};
use opentelemetry_semantic_conventions::resource::SERVICE_NAME;

#[test]
fn test_ok() {
    let _config = OtelBuilder::new()
        .set_environment("dev".to_string())
        .set_project_name("project".to_string())
        .set_tracing_endpoint("http://jaeger:4317".to_string())
        .set_metrics_endpoint("http://otel-collector:4318".to_string())
        .build()
        .unwrap();
}

#[test]
fn test_custom_attributes() {
    let builder = OtelBuilder::new()
        .set_environment("dev".to_string())
        .set_project_name("project".to_string())
        .set_tracing_endpoint("http://jaeger:4317".to_string())
        .set_metrics_endpoint("http://otel-collector:4318".to_string())
        .set_attributes(&mut vec![KeyValue::new(SERVICE_NAME, "test-service")]);
    assert_eq!(
        builder.attributes(),
        &vec![
            KeyValue::new(DEPLOYMENT_ENVIRONMENT_NAME, "dev"),
            KeyValue::new(SERVICE_NAME, "test-service")
        ]
    );
}

#[test]
fn test_missing() {
    // env not set
    assert!(OtelBuilder::new()
        .set_project_name("project".to_string())
        .set_attributes(&mut vec![KeyValue::new(SERVICE_NAME, "test-service")])
        .set_tracing_endpoint("http://jaeger:4317".to_string())
        .set_metrics_endpoint("http://otel-collector:4318".to_string())
        .build()
        .is_err());
    // env empty
    assert!(OtelBuilder::new()
        .set_environment("".to_string())
        .set_project_name("project".to_string())
        .set_attributes(&mut vec![KeyValue::new(SERVICE_NAME, "test-service")])
        .set_tracing_endpoint("http://jaeger:4317".to_string())
        .set_metrics_endpoint("http://otel-collector:4318".to_string())
        .build()
        .is_err());
    // project name not set
    assert!(OtelBuilder::new()
        .set_environment("dev".to_string())
        .set_attributes(&mut vec![KeyValue::new(SERVICE_NAME, "test-service")])
        .set_tracing_endpoint("http://jaeger:4317".to_string())
        .set_metrics_endpoint("http://otel-collector:4318".to_string())
        .build()
        .is_err());
}

#[test]
fn build_reports_each_error() {
    assert_eq!(OtelBuilder::new().build().unwrap_err(), BuildError::EnvironmentNotSet);
    assert_eq!(
        OtelBuilder::new().set_environment(String::new()).build().unwrap_err(),
        BuildError::EnvironmentEmpty
    );
    assert_eq!(
        OtelBuilder::new().set_environment("dev".to_string()).build().unwrap_err(),
        BuildError::ProjectNameNotSet
    );
    assert_eq!(
        OtelBuilder::new()
            .set_environment("dev".to_string())
            .set_project_name(String::new())
            .build()
            .unwrap_err(),
        BuildError::ProjectNameEmpty
    );
    // The environment is checked before the project name.
    assert_eq!(
        OtelBuilder::new().set_project_name(String::new()).build().unwrap_err(),
        BuildError::EnvironmentNotSet
    );
}

#[test]
fn build_error_messages() {
    assert_eq!(BuildError::EnvironmentNotSet.message(), "Environment not set");
    assert_eq!(BuildError::EnvironmentEmpty.message(), "Environment cannot be empty");
    assert_eq!(BuildError::ProjectNameNotSet.message(), "Project name not set");
    assert_eq!(BuildError::ProjectNameEmpty.message(), "Project name cannot be empty");
}

#[test]
fn build_carries_everything_set() {
    let config = OtelBuilder::new()
        .set_version("1.2.3".to_string())
        .set_environment("production".to_string())
        .set_attributes(&mut vec![
            KeyValue::with_value("replicas", Value::I64(3)),
            KeyValue::with_value("canary", Value::Bool(false)),
        ])
        .set_project_name("first".to_string())
        .set_project_name("my-service".to_string())
        .set_tracing_endpoint("http://jaeger:14250".to_string())
        .build()
        .unwrap();
    assert_eq!(config.project_name(), "my-service");
    assert_eq!(config.tracing_endpoint(), Some("http://jaeger:14250"));
    assert_eq!(config.metrics_endpoint(), None);
    assert_eq!(
        config.attributes(),
        &vec![
            KeyValue::new(SERVICE_VERSION, "1.2.3"),
            KeyValue::new(DEPLOYMENT_ENVIRONMENT_NAME, "production"),
            KeyValue::with_value("replicas", Value::I64(3)),
            KeyValue::with_value("canary", Value::Bool(false)),
        ]
    );
}

#[test]
fn version_and_environment_use_semantic_keys() {
    let builder = OtelBuilder::new()
        .set_version("2.0.0".to_string())
        .set_environment("staging".to_string());
    let attributes = builder.attributes();
    assert_eq!(attributes.len(), 2);
    assert_eq!(attributes[0].key, "service.version");
    assert_eq!(attributes[0].value, Value::String("2.0.0".to_string()));
    assert_eq!(attributes[1].key, "deployment.environment.name");
    assert_eq!(attributes[1].value, Value::String("staging".to_string()));
}

#[test]
fn set_attributes_drains_its_argument() {
    let mut extra = vec![
        KeyValue::new("a", "1"),
        KeyValue::with_value("b", Value::StringArray(vec!["x".to_string(), "y".to_string()])),
    ];
    let builder = OtelBuilder::new().set_attributes(&mut extra);
    assert!(extra.is_empty());
    assert_eq!(builder.attributes().len(), 2);
    assert_eq!(builder.attributes()[0], KeyValue::new("a", "1"));
}

#[test]
fn export_endpoints_disabled_when_unset_or_empty() {
    let config = OtelBuilder::new()
        .set_environment("dev".to_string())
        .set_project_name("svc".to_string())
        .set_tracing_endpoint(String::new())
        .build()
        .unwrap();
    assert_eq!(config.tracing_export_endpoint(), None);
    assert_eq!(config.metrics_export_endpoint(), None);

    let config = OtelBuilder::new()
        .set_environment("dev".to_string())
        .set_project_name("svc".to_string())
        .set_tracing_endpoint("http://jaeger:4317".to_string())
        .set_metrics_endpoint("http://otel-collector:4318".to_string())
        .build()
        .unwrap();
    assert_eq!(config.tracing_export_endpoint(), Some("http://jaeger:4317"));
    assert_eq!(config.metrics_export_endpoint(), Some("http://otel-collector:4318"));
}

#[test]
fn default_builder_is_empty() {
    let builder = OtelBuilder::default();
    assert!(builder.attributes().is_empty());
    assert_eq!(builder.build().unwrap_err(), BuildError::EnvironmentNotSet);
}
