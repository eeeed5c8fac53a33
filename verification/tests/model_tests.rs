use pbddns::cache::Cache;
use pbddns::model::{create_or_edit_model, ProviderModel};
use pbddns::net::IpAddress;
use pbddns::reconcile::{plan_for_name, reconcile_plan};
use pbddns::record::{Params, RecordType};

fn home_params(content: &str) -> Params {
    Params {
        domain: "example.com".to_string(),
        record_type: RecordType::A,
        name: "home".to_string(),
        content: content.to_string(),
        ttl: Some("600".to_string()),
        prio: None,
    }
}

#[test]
fn create_then_unchanged_is_idempotent() {
    let mut provider = ProviderModel::new();
    let p = home_params("203.0.113.5");
    let first = create_or_edit_model(&mut provider, &p, "101".to_string()).unwrap();
    assert_eq!(first, ("101".to_string(), true));
    let second = create_or_edit_model(&mut provider, &p, "102".to_string()).unwrap();
    assert_eq!(second, ("101".to_string(), false));
    assert_eq!(provider.records.len(), 1);
}

#[test]
fn edit_then_unchanged_is_idempotent() {
    let mut provider = ProviderModel::new();
    let before = home_params("203.0.113.5");
    create_or_edit_model(&mut provider, &before, "101".to_string()).unwrap();
    let after = home_params("203.0.113.9");
    let first = create_or_edit_model(&mut provider, &after, "102".to_string()).unwrap();
    assert_eq!(first, ("101".to_string(), true));
    assert_eq!(provider.records[0].content, "203.0.113.9");
    let second = create_or_edit_model(&mut provider, &after, "103".to_string()).unwrap();
    assert_eq!(second, ("101".to_string(), false));
    assert_eq!(provider.records.len(), 1);
}

#[test]
fn retrieve_is_scoped_to_the_query() {
    let mut provider = ProviderModel::new();
    create_or_edit_model(&mut provider, &home_params("203.0.113.5"), "101".to_string()).unwrap();
    let mut other = home_params("203.0.113.5");
    other.name = "office".to_string();
    create_or_edit_model(&mut provider, &other, "102".to_string()).unwrap();
    let fetched = provider.retrieve("example.com", "home", RecordType::A);
    assert_eq!(fetched.len(), 1);
    assert_eq!(fetched[0].id, "101");
    assert!(provider.retrieve("example.com", "home", RecordType::AAAA).is_empty());
    assert!(provider.retrieve("other.org", "home", RecordType::A).is_empty());
}

// First pass with an empty cache: the one observed address dispatches, the
// provider has nothing, a create runs with the expected fields, and the
// cache latches the address; a second pass with the same address makes no
// provider call at all.
#[test]
fn first_pass_creates_second_pass_is_quiet() {
    let ip = IpAddress::V4(203, 0, 113, 5);
    let mut cache = Cache::new();
    let mut provider = ProviderModel::new();
    let desired = vec![("home".to_string(), vec![ip])];

    let plan = reconcile_plan(&mut cache, "example.com", &desired);
    assert_eq!(plan.len(), 1);
    assert_eq!(plan[0].0, "home");
    assert_eq!(plan[0].1.len(), 1);
    let p = &plan[0].1[0];
    assert_eq!(p.name, "home");
    assert_eq!(p.record_type, RecordType::A);
    assert_eq!(p.content, "203.0.113.5");
    assert_eq!(p.ttl, Some("600".to_string()));
    assert_eq!(p.prio, None);

    let out = create_or_edit_model(&mut provider, p, "7".to_string()).unwrap();
    assert_eq!(out, ("7".to_string(), true));
    assert_eq!(provider.records.len(), 1);
    assert_eq!(provider.records[0].name, "home");
    assert_eq!(provider.records[0].ttl, "600");

    assert_eq!(cache.get("home"), Some(&vec![ip]));

    let plan2 = reconcile_plan(&mut cache, "example.com", &desired);
    assert_eq!(plan2.len(), 1);
    assert!(plan2[0].1.is_empty());
}

// The observed address changes: dispatch fires again, the provider returns
// the old record, and an edit reports a change.
#[test]
fn changed_address_dispatches_an_edit() {
    let old_ip = IpAddress::V4(203, 0, 113, 5);
    let new_ip = IpAddress::V4(203, 0, 113, 9);
    let mut cache = Cache::new();
    let mut provider = ProviderModel::new();

    let first = reconcile_plan(&mut cache, "example.com", &vec![("home".to_string(), vec![
        old_ip,
    ])]);
    let out = create_or_edit_model(&mut provider, &first[0].1[0], "7".to_string()).unwrap();
    assert_eq!(out, ("7".to_string(), true));

    let second = reconcile_plan(&mut cache, "example.com", &vec![("home".to_string(), vec![
        new_ip,
    ])]);
    assert_eq!(second[0].1.len(), 1);
    let out2 = create_or_edit_model(&mut provider, &second[0].1[0], "8".to_string()).unwrap();
    assert_eq!(out2, ("7".to_string(), true));
    assert_eq!(provider.records.len(), 1);
    assert_eq!(provider.records[0].content, "203.0.113.9");
    assert_eq!(cache.get("home"), Some(&vec![new_ip]));
}

#[test]
fn reorder_of_addresses_is_no_change() {
    let a = IpAddress::V4(203, 0, 113, 5);
    let b = IpAddress::V6(0x2001, 0xdb8, 0, 0, 0, 0, 0, 1);
    let mut cache = Cache::new();
    let plan = plan_for_name(&mut cache, "example.com", "home", &vec![a, b]);
    assert_eq!(plan.len(), 2);
    assert_eq!(plan[1].record_type, RecordType::AAAA);
    let plan2 = plan_for_name(&mut cache, "example.com", "home", &vec![b, a]);
    assert!(plan2.is_empty());
}

#[test]
fn empty_desired_set_with_empty_cache_is_no_change() {
    let mut cache = Cache::new();
    let plan = plan_for_name(&mut cache, "example.com", "home", &Vec::new());
    assert!(plan.is_empty());
    assert_eq!(cache.get("home"), None);
}

#[test]
fn plan_with_several_names_touches_only_the_changed_one() {
    let a = IpAddress::V4(203, 0, 113, 5);
    let b = IpAddress::V4(198, 51, 100, 7);
    let c = IpAddress::V4(198, 51, 100, 8);
    let mut cache = Cache::new();
    cache.set("home", vec![a]);
    cache.set("office", vec![b]);
    let desired = vec![
        ("home".to_string(), vec![a]),
        ("office".to_string(), vec![c]),
    ];
    let plan = reconcile_plan(&mut cache, "example.com", &desired);
    assert_eq!(plan.len(), 2);
    assert!(plan[0].1.is_empty());
    assert_eq!(plan[1].1.len(), 1);
    assert_eq!(plan[1].1[0].content, "198.51.100.8");
    assert_eq!(cache.get("home"), Some(&vec![a]));
    assert_eq!(cache.get("office"), Some(&vec![c]));
}

// An edit whose parameters leave the ttl absent keeps the record's own
// ttl, so the next round still sees a ttl that differs from the "600"
// default and edits again: such parameters are deliberately outside the
// idempotence law.
#[test]
fn absent_ttl_keeps_record_ttl_and_stays_hot() {
    let mut provider = ProviderModel::new();
    let mut create = home_params("203.0.113.5");
    create.ttl = Some("300".to_string());
    create_or_edit_model(&mut provider, &create, "101".to_string()).unwrap();

    let mut p = home_params("203.0.113.9");
    p.ttl = None;
    let first = create_or_edit_model(&mut provider, &p, "102".to_string()).unwrap();
    assert_eq!(first, ("101".to_string(), true));
    assert_eq!(provider.records[0].ttl, "300");
    let second = create_or_edit_model(&mut provider, &p, "103".to_string()).unwrap();
    assert_eq!(second, ("101".to_string(), true));
}

#[test]
fn cache_should_dispatch_iff_sets_differ() {
    let a = IpAddress::V4(203, 0, 113, 5);
    let b = IpAddress::V4(203, 0, 113, 9);
    let mut cache = Cache::new();
    assert!(cache.should_dispatch("home", &vec![a]));
    assert!(!cache.should_dispatch("home", &Vec::new()));
    cache.set("home", vec![a]);
    assert!(!cache.should_dispatch("home", &vec![a]));
    assert!(!cache.should_dispatch("home", &vec![a, a]));
    assert!(cache.should_dispatch("home", &vec![b]));
    assert!(cache.should_dispatch("home", &vec![a, b]));
    assert!(cache.should_dispatch("home", &Vec::new()));
    cache.set("home", vec![a, b]);
    assert!(!cache.should_dispatch("home", &vec![b, a]));
    assert!(cache.should_dispatch("office", &vec![a]));
}
