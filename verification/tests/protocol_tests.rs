use pbddns::error::Error;
use pbddns::protocol::{credentials, decide, Decision};
use pbddns::record::{strip_domain_suffix, Params, Record, RecordType};

fn base_record() -> Record {
    Record {
        content: "203.0.113.5".to_string(),
        id: "42".to_string(),
        name: "home".to_string(),
        prio: "0".to_string(),
        ttl: "600".to_string(),
        record_type: RecordType::A,
        domain: Some("example.com".to_string()),
    }
}

fn base_params() -> Params {
    Params {
        domain: "example.com".to_string(),
        record_type: RecordType::A,
        name: "home".to_string(),
        content: "203.0.113.5".to_string(),
        ttl: Some("600".to_string()),
        prio: None,
    }
}

#[test]
fn unmodified_record_is_not_modified() {
    assert!(!base_record().is_modified(&base_params()));
}

#[test]
fn changing_name_flips_modified() {
    let mut r = base_record();
    r.name = "other".to_string();
    assert!(r.is_modified(&base_params()));
}

#[test]
fn changing_type_flips_modified() {
    let mut r = base_record();
    r.record_type = RecordType::TXT;
    assert!(r.is_modified(&base_params()));
}

#[test]
fn changing_content_flips_modified() {
    let mut r = base_record();
    r.content = "203.0.113.9".to_string();
    assert!(r.is_modified(&base_params()));
}

#[test]
fn changing_ttl_flips_modified() {
    let mut r = base_record();
    r.ttl = "300".to_string();
    assert!(r.is_modified(&base_params()));
}

#[test]
fn ttl_default_is_600() {
    let r = base_record();
    let mut p = base_params();
    p.ttl = None;
    assert!(!r.is_modified(&p));
    let mut r2 = r;
    r2.ttl = "300".to_string();
    assert!(r2.is_modified(&p));
}

#[test]
fn changing_prio_flips_modified() {
    let mut r = base_record();
    r.prio = "10".to_string();
    assert!(r.is_modified(&base_params()));
}

#[test]
fn prio_default_is_0() {
    let r = base_record();
    let mut p = base_params();
    p.prio = Some("0".to_string());
    assert!(!r.is_modified(&p));
    p.prio = Some("10".to_string());
    assert!(r.is_modified(&p));
}

#[test]
fn modify_merges_params_and_keeps_id() {
    let mut r = base_record();
    r.ttl = "300".to_string();
    r.prio = "7".to_string();
    let mut p = base_params();
    p.ttl = None;
    p.prio = None;
    p.content = "203.0.113.9".to_string();
    let merged = r.modify(&p).unwrap();
    assert_eq!(merged.id, "42");
    assert_eq!(merged.content, "203.0.113.9");
    // absent params keep the record's own ttl and priority
    assert_eq!(merged.ttl, "300");
    assert_eq!(merged.prio, "7");
    assert_eq!(merged.domain, Some("example.com".to_string()));
}

#[test]
fn modify_rejects_cross_domain_edit() {
    let mut r = base_record();
    r.domain = Some("other.org".to_string());
    let out = r.modify(&base_params());
    assert!(matches!(out, Err(Error::Protocol(_))));
}

#[test]
fn modify_rejects_missing_domain() {
    let mut r = base_record();
    r.domain = None;
    let out = r.modify(&base_params());
    match out {
        Err(Error::Protocol(m)) => assert_eq!(m, "no domain on record"),
        other => panic!("expected protocol error, got {:?}", other),
    }
}

#[test]
fn decide_creates_on_empty_fetch() {
    let d = decide(Vec::new(), &base_params()).unwrap();
    assert_eq!(d, Decision::Create);
}

#[test]
fn decide_leaves_matching_record_alone() {
    let d = decide(vec![base_record()], &base_params()).unwrap();
    assert_eq!(d, Decision::Unchanged("42".to_string()));
}

#[test]
fn decide_edits_first_modified_record() {
    let mut r = base_record();
    r.content = "203.0.113.9".to_string();
    let d = decide(vec![r], &base_params()).unwrap();
    match d {
        Decision::Edit(m) => {
            assert_eq!(m.id, "42");
            assert_eq!(m.content, "203.0.113.5");
        },
        other => panic!("expected an edit, got {:?}", other),
    }
}

#[test]
fn decide_ignores_duplicate_records() {
    let first = base_record();
    let mut second = base_record();
    second.id = "43".to_string();
    second.content = "203.0.113.9".to_string();
    let d = decide(vec![first, second], &base_params()).unwrap();
    assert_eq!(d, Decision::Unchanged("42".to_string()));
}

#[test]
fn decide_rejects_cross_domain_edit_locally() {
    let mut r = base_record();
    r.domain = Some("other.org".to_string());
    r.content = "203.0.113.9".to_string();
    let out = decide(vec![r], &base_params());
    assert!(matches!(out, Err(Error::Protocol(_))));
}

#[test]
fn strip_removes_domain_suffix() {
    assert_eq!(strip_domain_suffix("host.example.com", "example.com"), "host");
}

#[test]
fn strip_leaves_bare_domain_alone() {
    assert_eq!(strip_domain_suffix("example.com", "example.com"), "example.com");
}

#[test]
fn strip_leaves_other_suffix_alone() {
    assert_eq!(strip_domain_suffix("host.other.org", "example.com"), "host.other.org");
    assert_eq!(strip_domain_suffix("hostexample.com", "example.com"), "hostexample.com");
}

#[test]
fn missing_api_key_is_a_config_error() {
    let out = credentials(None, Some("sk".to_string()));
    match out {
        Err(Error::Config(m)) => assert_eq!(m, "PORKBUN_API_KEY env var not set"),
        other => panic!("expected config error, got {:?}", other),
    }
}

#[test]
fn missing_secret_key_is_a_config_error() {
    let out = credentials(Some("ak".to_string()), None);
    match out {
        Err(Error::Config(m)) => assert_eq!(m, "PORKBUN_SECRET_KEY env var not set"),
        other => panic!("expected config error, got {:?}", other),
    }
}

#[test]
fn error_detail_carries_the_message() {
    let e = Error::Provider("Invalid domain.".to_string());
    assert_eq!(e.detail().as_str(), "Invalid domain.");
    let e = Error::Decode("bad json".to_string());
    assert_eq!(e.detail().as_str(), "bad json");
}

#[test]
fn present_keys_pass() {
    let c = credentials(Some("ak".to_string()), Some("sk".to_string())).unwrap();
    assert_eq!(c.api_key, "ak");
    assert_eq!(c.secret_key, "sk");
}

#[test]
fn record_type_names_round_trip() {
    let all = [
        RecordType::A,
        RecordType::MX,
        RecordType::CNAME,
        RecordType::ALIAS,
        RecordType::TXT,
        RecordType::NS,
        RecordType::AAAA,
        RecordType::SRV,
        RecordType::TLSA,
        RecordType::CAA,
    ];
    for t in all {
        assert_eq!(RecordType::from_name(t.as_name()), Some(t));
    }
    assert_eq!(RecordType::from_name("PTR"), None);
}
