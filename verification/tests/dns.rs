use iface_ddns::config::{RecordConfig, RecordType, ResolveMode};
use iface_ddns::dns::{current_record_value, normalize_name, plan_update, upsert_change, RecordSet, RecordUpdate};

fn set(name: &str, rr_type: &str, values: &[&str]) -> RecordSet {
    RecordSet {
        name: name.to_string(),
        rr_type: rr_type.to_string(),
        values: values.iter().map(|v| v.to_string()).collect(),
    }
}

fn record() -> RecordConfig {
    RecordConfig {
        hosted_zone_id: "Z123".to_string(),
        name: "home.example.com".to_string(),
        interface: "eth0".to_string(),
        mode: ResolveMode::Direct,
        record_type: RecordType::A,
        ttl: 60,
        web_url: None,
    }
}

#[test]
fn normalize_strips_one_trailing_dot() {
    assert_eq!(normalize_name("home.example.com."), "home.example.com");
    assert_eq!(normalize_name("home.example.com"), "home.example.com");
    assert_eq!(normalize_name("a.."), "a.");
    assert_eq!(normalize_name("."), "");
    assert_eq!(normalize_name(""), "");
    assert_eq!(normalize_name("ö."), "ö");
}

#[test]
fn current_value_of_matching_set() {
    let sets = vec![set("home.example.com.", "A", &["192.0.2.1", "192.0.2.2"])];
    assert_eq!(current_record_value(&sets, "home.example.com", "A"), Some("192.0.2.1".to_string()));
    assert_eq!(current_record_value(&sets, "home.example.com.", "A"), Some("192.0.2.1".to_string()));
}

#[test]
fn current_value_is_none_otherwise() {
    assert_eq!(current_record_value(&vec![], "home.example.com", "A"), None);
    let other_name = vec![set("other.example.com.", "A", &["192.0.2.1"])];
    assert_eq!(current_record_value(&other_name, "home.example.com", "A"), None);
    let other_type = vec![set("home.example.com.", "AAAA", &["2001:db8::1"])];
    assert_eq!(current_record_value(&other_type, "home.example.com", "A"), None);
    let no_values = vec![set("home.example.com.", "A", &[])];
    assert_eq!(current_record_value(&no_values, "home.example.com", "A"), None);
    // Only the first set listed is looked at.
    let second = vec![set("a.example.com.", "A", &["192.0.2.9"]), set("home.example.com.", "A", &["192.0.2.1"])];
    assert_eq!(current_record_value(&second, "home.example.com", "A"), None);
}

#[test]
fn plan_unchanged_when_value_matches() {
    assert!(matches!(plan_update(&record(), Some("192.0.2.1".to_string()), "192.0.2.1"), RecordUpdate::Unchanged));
}

#[test]
fn plan_create_when_missing() {
    match plan_update(&record(), None, "192.0.2.1") {
        RecordUpdate::Create(c) => {
            assert_eq!(c.hosted_zone_id, "Z123");
            assert_eq!(c.name, "home.example.com");
            assert_eq!(c.rr_type, "A");
            assert_eq!(c.ttl, 60);
            assert_eq!(c.value, "192.0.2.1");
        }
        other => panic!("{:?}", other),
    }
}

#[test]
fn plan_replace_when_different() {
    match plan_update(&record(), Some("192.0.2.7".to_string()), "192.0.2.1") {
        RecordUpdate::Replace { old, change } => {
            assert_eq!(old, "192.0.2.7");
            assert_eq!(change.value, "192.0.2.1");
            assert_eq!(change.name, "home.example.com");
        }
        other => panic!("{:?}", other),
    }
}

#[test]
fn read_after_upsert_is_unchanged() {
    let r = record();
    let change = upsert_change(&r, "192.0.2.1");
    let stored = vec![RecordSet {
        name: format!("{}.", change.name),
        rr_type: change.rr_type.to_string(),
        values: vec![change.value.clone()],
    }];
    let current = current_record_value(&stored, &r.name, r.rr_type());
    assert_eq!(current, Some("192.0.2.1".to_string()));
    assert!(matches!(plan_update(&r, current, "192.0.2.1"), RecordUpdate::Unchanged));
}
