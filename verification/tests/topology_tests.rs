use cbshell::json::JsonValue;
use cbshell::service::{ServiceKind, join_services};
use cbshell::topology::{admin_url, nodes_from_payload, strip_scheme};
use cbshell::value::StructuredValue;

fn node_obj(hostname: &str, services: Vec<&str>) -> JsonValue {
    JsonValue::Obj(vec![
        ("hostname".to_string(), JsonValue::Str(hostname.to_string())),
        ("status".to_string(), JsonValue::Str("healthy".to_string())),
        ("memoryTotal".to_string(), JsonValue::Int(1024)),
        ("memoryFree".to_string(), JsonValue::Int(512)),
        (
            "services".to_string(),
            JsonValue::Arr(
                services
                    .into_iter()
                    .map(|s| JsonValue::Str(s.to_string()))
                    .collect(),
            ),
        ),
        ("version".to_string(), JsonValue::Str("6.5.1".to_string())),
        ("os".to_string(), JsonValue::Str("linux".to_string())),
    ])
}

fn payload(nodes: Vec<JsonValue>) -> JsonValue {
    JsonValue::Obj(vec![
        ("name".to_string(), JsonValue::Str("default".to_string())),
        ("nodes".to_string(), JsonValue::Arr(nodes)),
    ])
}

fn record_field<'a>(rec: &'a StructuredValue, name: &str) -> &'a StructuredValue {
    match rec {
        StructuredValue::Record(fields) => {
            &fields
                .iter()
                .find(|(n, _)| n == name)
                .expect("field missing")
                .1
        }
        other => panic!("record expected, got {:?}", other),
    }
}

#[test]
fn two_nodes_render_in_wire_order_with_display_names() {
    let p = payload(vec![
        node_obj("n1.example.com", vec!["kv", "n1ql"]),
        node_obj("n2.example.com", vec!["cbas"]),
    ]);
    let recs = nodes_from_payload(&p).expect("payload matches the schema");
    assert_eq!(recs.len(), 2);
    assert_eq!(
        record_field(&recs[0], "hostname"),
        &StructuredValue::Str("n1.example.com".to_string())
    );
    // The n1ql wire code displays under its canonical name "query".
    assert_eq!(
        record_field(&recs[0], "services"),
        &StructuredValue::Str("kv,query".to_string())
    );
    assert_eq!(
        record_field(&recs[1], "services"),
        &StructuredValue::Str("analytics".to_string())
    );
}

#[test]
fn full_node_record_shape() {
    let p = payload(vec![node_obj("n1.example.com", vec!["fts"])]);
    let recs = nodes_from_payload(&p).expect("payload matches the schema");
    assert_eq!(recs.len(), 1);
    let expected = StructuredValue::Record(vec![
        (
            "hostname".to_string(),
            StructuredValue::Str("n1.example.com".to_string()),
        ),
        (
            "status".to_string(),
            StructuredValue::Str("healthy".to_string()),
        ),
        (
            "services".to_string(),
            StructuredValue::Str("search".to_string()),
        ),
        (
            "version".to_string(),
            StructuredValue::Str("6.5.1".to_string()),
        ),
        ("os".to_string(), StructuredValue::Str("linux".to_string())),
        ("memory_total".to_string(), StructuredValue::Bytes(1024)),
        ("memory_free".to_string(), StructuredValue::Bytes(512)),
    ]);
    assert_eq!(recs[0], expected);
}

#[test]
fn unknown_service_code_fails_the_whole_fetch() {
    let p = payload(vec![
        node_obj("n1.example.com", vec!["kv"]),
        node_obj("n2.example.com", vec!["warp"]),
    ]);
    assert!(nodes_from_payload(&p).is_err());
}

#[test]
fn missing_field_fails() {
    let bad = JsonValue::Obj(vec![(
        "hostname".to_string(),
        JsonValue::Str("n1".to_string()),
    )]);
    assert!(nodes_from_payload(&payload(vec![bad])).is_err());
}

#[test]
fn wrongly_typed_field_fails() {
    let mut node = node_obj("n1.example.com", vec!["kv"]);
    if let JsonValue::Obj(fields) = &mut node {
        fields[2].1 = JsonValue::Str("lots".to_string());
    }
    assert!(nodes_from_payload(&payload(vec![node])).is_err());
}

#[test]
fn negative_memory_fails() {
    let mut node = node_obj("n1.example.com", vec!["kv"]);
    if let JsonValue::Obj(fields) = &mut node {
        fields[3].1 = JsonValue::Int(-1);
    }
    assert!(nodes_from_payload(&payload(vec![node])).is_err());
}

#[test]
fn memory_at_the_unsigned_limit_is_accepted() {
    let mut node = node_obj("n1.example.com", vec!["kv"]);
    if let JsonValue::Obj(fields) = &mut node {
        fields[2].1 = JsonValue::Int(u64::MAX as i128);
    }
    let recs = nodes_from_payload(&payload(vec![node])).expect("u64::MAX fits");
    assert_eq!(
        record_field(&recs[0], "memory_total"),
        &StructuredValue::Bytes(u64::MAX)
    );
}

#[test]
fn memory_beyond_the_unsigned_limit_fails() {
    let mut node = node_obj("n1.example.com", vec!["kv"]);
    if let JsonValue::Obj(fields) = &mut node {
        fields[2].1 = JsonValue::Int(u64::MAX as i128 + 1);
    }
    assert!(nodes_from_payload(&payload(vec![node])).is_err());
}

#[test]
fn first_field_wins_when_names_repeat() {
    let p = JsonValue::Obj(vec![
        (
            "nodes".to_string(),
            JsonValue::Arr(vec![node_obj("first.example.com", vec!["kv"])]),
        ),
        ("nodes".to_string(), JsonValue::Int(0)),
    ]);
    let recs = nodes_from_payload(&p).expect("first nodes field is the list");
    assert_eq!(
        record_field(&recs[0], "hostname"),
        &StructuredValue::Str("first.example.com".to_string())
    );
}

#[test]
fn payload_without_nodes_list_fails() {
    assert!(nodes_from_payload(&JsonValue::Obj(vec![])).is_err());
    assert!(nodes_from_payload(&JsonValue::Int(3)).is_err());
    let not_a_list = JsonValue::Obj(vec![("nodes".to_string(), JsonValue::Int(1))]);
    assert!(nodes_from_payload(&not_a_list).is_err());
}

#[test]
fn empty_node_list_gives_empty_output() {
    let recs = nodes_from_payload(&payload(vec![])).expect("empty list is fine");
    assert!(recs.is_empty());
}

#[test]
fn scheme_prefix_is_stripped() {
    assert_eq!(strip_scheme("couchbase://node1.example.com"), "node1.example.com");
    assert_eq!(strip_scheme("couchbase://"), "");
}

#[test]
fn address_without_prefix_passes_through() {
    assert_eq!(strip_scheme("node1.example.com"), "node1.example.com");
    assert_eq!(strip_scheme("couchbase:/x"), "couchbase:/x");
    assert_eq!(strip_scheme(""), "");
}

#[test]
fn admin_url_uses_fixed_port_and_path() {
    assert_eq!(
        admin_url("couchbase://node1.example.com"),
        "http://node1.example.com:8091/pools/default"
    );
    assert_eq!(admin_url("10.0.0.2"), "http://10.0.0.2:8091/pools/default");
}

#[test]
fn service_codes_decode_to_the_closed_enumeration() {
    assert_eq!(ServiceKind::from_code("cbas"), Some(ServiceKind::Analytics));
    assert_eq!(ServiceKind::from_code("eventing"), Some(ServiceKind::Eventing));
    assert_eq!(ServiceKind::from_code("fts"), Some(ServiceKind::Search));
    assert_eq!(ServiceKind::from_code("n1ql"), Some(ServiceKind::Query));
    assert_eq!(ServiceKind::from_code("index"), Some(ServiceKind::Indexing));
    assert_eq!(ServiceKind::from_code("kv"), Some(ServiceKind::KeyValue));
    assert_eq!(ServiceKind::from_code("moxi"), None);
    assert_eq!(ServiceKind::from_code(""), None);
    assert_eq!(ServiceKind::from_code("KV"), None);
}

#[test]
fn display_names_are_canonical_lowercase() {
    assert_eq!(ServiceKind::Analytics.display_name(), "analytics");
    assert_eq!(ServiceKind::Eventing.display_name(), "eventing");
    assert_eq!(ServiceKind::Search.display_name(), "search");
    assert_eq!(ServiceKind::Query.display_name(), "query");
    assert_eq!(ServiceKind::Indexing.display_name(), "indexing");
    assert_eq!(ServiceKind::KeyValue.display_name(), "kv");
}

#[test]
fn joined_services_keep_order() {
    assert_eq!(join_services(&vec![]), "");
    assert_eq!(join_services(&vec![ServiceKind::KeyValue]), "kv");
    assert_eq!(
        join_services(&vec![ServiceKind::Query, ServiceKind::KeyValue, ServiceKind::Search]),
        "query,kv,search"
    );
}
