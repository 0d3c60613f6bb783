use flo_otel::grpc::{GrpcMetadataExtractor, GrpcMetadataInjector};
use std::str::FromStr;
use tonic::metadata::{MetadataMap, MetadataValue};

#[test]
fn test_grpc_metadata_extractor() {
    let mut metadata = MetadataMap::new();
    let traceparent = "00-4bf92f3577b34da6a3ce929d0e0e4736-00f067aa0ba902b7-01";
    metadata.insert("traceparent", MetadataValue::from_str(traceparent).unwrap());
    metadata.insert(
        "tracestate",
        MetadataValue::from_str("vendor=value").unwrap(),
    );

    let extractor = GrpcMetadataExtractor(&metadata);

    // Test get method
    assert_eq!(extractor.get("traceparent"), Some(traceparent));
    assert_eq!(extractor.get("tracestate"), Some("vendor=value"));
    assert_eq!(extractor.get("nonexistent"), None);

    // Test keys method
    let keys = extractor.keys();
    assert!(keys.contains(&"traceparent"));
    assert!(keys.contains(&"tracestate"));
}

#[test]
fn test_grpc_metadata_injector() {
    let mut metadata = MetadataMap::new();
    let mut injector = GrpcMetadataInjector(&mut metadata);

    // Test set method
    injector.set("traceparent", "00-test-trace-id-span-id-01".to_string());
    injector.set("tracestate", "vendor=test".to_string());

    // Verify headers were injected
    assert!(metadata.get("traceparent").is_some());
    assert!(metadata.get("tracestate").is_some());
}

#[test]
fn get_after_set_gives_the_value_in_any_case() {
    let mut metadata = MetadataMap::new();
    let mut injector = GrpcMetadataInjector(&mut metadata);
    injector.set("TraceParent", "00-abc-01".to_string());
    let extractor = GrpcMetadataExtractor(&metadata);
    assert_eq!(extractor.get("traceparent"), Some("00-abc-01"));
    assert_eq!(extractor.get("TRACEPARENT"), Some("00-abc-01"));
    assert_eq!(extractor.keys(), vec!["traceparent"]);
}

#[test]
fn set_replaces_previous_value() {
    let mut metadata = MetadataMap::new();
    let mut injector = GrpcMetadataInjector(&mut metadata);
    injector.set("tracestate", "a=1".to_string());
    injector.set("tracestate", "b=2".to_string());
    let extractor = GrpcMetadataExtractor(&metadata);
    assert_eq!(extractor.get("tracestate"), Some("b=2"));
    assert_eq!(metadata.len(), 1);
}

#[test]
fn set_ignores_invalid_keys_and_values() {
    let mut metadata = MetadataMap::new();
    let mut injector = GrpcMetadataInjector(&mut metadata);
    injector.set("bad key", "v".to_string());
    injector.set("", "v".to_string());
    injector.set("trace-bin", "v".to_string());
    injector.set("traceparent", "line\nbreak".to_string());
    assert!(metadata.is_empty());
}

#[test]
fn set_keeps_other_keys() {
    let mut metadata = MetadataMap::new();
    metadata.insert("x-other", MetadataValue::from_str("kept").unwrap());
    let mut injector = GrpcMetadataInjector(&mut metadata);
    injector.set("traceparent", "00-1-01".to_string());
    let extractor = GrpcMetadataExtractor(&metadata);
    assert_eq!(extractor.get("x-other"), Some("kept"));
    assert_eq!(extractor.get("traceparent"), Some("00-1-01"));
}

#[test]
fn non_ascii_value_is_stored_but_not_read_as_text() {
    let mut metadata = MetadataMap::new();
    let mut injector = GrpcMetadataInjector(&mut metadata);
    injector.set("x-name", "h\u{e9}llo".to_string());
    assert!(metadata.get("x-name").is_some());
    let extractor = GrpcMetadataExtractor(&metadata);
    assert_eq!(extractor.get("x-name"), None);
}

#[test]
fn extractor_skips_binary_keys() {
    let mut metadata = MetadataMap::new();
    metadata.insert_bin("trace-proto-bin", MetadataValue::from_bytes(b"\x01\x02"));
    metadata.insert("tracestate", MetadataValue::from_str("k=v").unwrap());
    let extractor = GrpcMetadataExtractor(&metadata);
    assert_eq!(extractor.keys(), vec!["tracestate"]);
    assert_eq!(extractor.get("trace-proto-bin"), None);
}

#[test]
fn extractor_rejects_invalid_lookup_keys() {
    let mut metadata = MetadataMap::new();
    metadata.insert("tracestate", MetadataValue::from_str("k=v").unwrap());
    let extractor = GrpcMetadataExtractor(&metadata);
    assert_eq!(extractor.get("trace state"), None);
    assert_eq!(extractor.get(""), None);
}

#[test]
fn try_set_sets_below_the_bound() {
    let mut metadata = MetadataMap::new();
    let mut injector = GrpcMetadataInjector(&mut metadata);
    assert!(injector.try_set("traceparent", "00-2-01".to_string()));
    let extractor = GrpcMetadataExtractor(&metadata);
    assert_eq!(extractor.get("traceparent"), Some("00-2-01"));
}

#[test]
fn set_replaces_all_values_of_its_key_only() {
    let mut metadata = MetadataMap::new();
    metadata.insert("tracestate", MetadataValue::from_str("a=1").unwrap());
    metadata.append("tracestate", MetadataValue::from_str("b=2").unwrap());
    metadata.insert("x-other", MetadataValue::from_str("one").unwrap());
    metadata.append("x-other", MetadataValue::from_str("two").unwrap());
    let mut injector = GrpcMetadataInjector(&mut metadata);
    injector.set("tracestate", "c=3".to_string());
    let state: Vec<_> = metadata.get_all("tracestate").iter().collect();
    assert_eq!(state.len(), 1);
    assert_eq!(state[0], "c=3");
    let other: Vec<_> = metadata.get_all("x-other").iter().collect();
    assert_eq!(other.len(), 2);
    assert_eq!(other[0], "one");
    assert_eq!(other[1], "two");
}

#[test]
fn invalid_set_leaves_appended_values() {
    let mut metadata = MetadataMap::new();
    metadata.insert("tracestate", MetadataValue::from_str("a=1").unwrap());
    metadata.append("tracestate", MetadataValue::from_str("b=2").unwrap());
    let mut injector = GrpcMetadataInjector(&mut metadata);
    injector.set("tracestate", "bad\nvalue".to_string());
    injector.set("trace state", "c=3".to_string());
    assert!(injector.try_set("tracestate-bin", "c=3".to_string()));
    assert_eq!(metadata.get_all("tracestate").iter().count(), 2);
    assert_eq!(metadata.len(), 2);
}

#[test]
fn injector_reports_key_count() {
    let mut metadata = MetadataMap::new();
    metadata.insert("a", MetadataValue::from_str("1").unwrap());
    let mut injector = GrpcMetadataInjector(&mut metadata);
    assert_eq!(injector.keys_len(), 1);
    injector.set("b", "2".to_string());
    assert_eq!(injector.keys_len(), 2);
}
