use pbddns::config::{desired_state, InterfaceSubdomain};
use pbddns::net::{ip_text, is_public, public_ips, IpAddress};
use pbddns::protocol::Credentials;
use pbddns::record::RecordType;
use pbddns::request::{create_body, create_url, edit_body, edit_url, ping_body, ping_url, retrieve_url};
use pbddns::record::Params;
use pbddns::text::u64_to_string;

#[test]
fn private_and_special_v4_ranges_are_not_public() {
    assert!(!is_public(&IpAddress::V4(10, 1, 2, 3)));
    assert!(!is_public(&IpAddress::V4(172, 16, 0, 1)));
    assert!(!is_public(&IpAddress::V4(172, 31, 255, 255)));
    assert!(is_public(&IpAddress::V4(172, 15, 0, 1)));
    assert!(is_public(&IpAddress::V4(172, 32, 0, 1)));
    assert!(!is_public(&IpAddress::V4(192, 168, 1, 1)));
    assert!(!is_public(&IpAddress::V4(169, 254, 0, 1)));
    assert!(!is_public(&IpAddress::V4(127, 0, 0, 1)));
    assert!(is_public(&IpAddress::V4(203, 0, 113, 5)));
    assert!(is_public(&IpAddress::V4(8, 8, 8, 8)));
}

#[test]
fn only_global_unicast_v6_is_public() {
    assert!(is_public(&IpAddress::V6(0x2001, 0xdb8, 0, 0, 0, 0, 0, 1)));
    assert!(is_public(&IpAddress::V6(0x2a00, 0, 0, 0, 0, 0, 0, 1)));
    assert!(is_public(&IpAddress::V6(0x3fff, 0, 0, 0, 0, 0, 0, 1)));
    assert!(!is_public(&IpAddress::V6(0xfe80, 0, 0, 0, 0, 0, 0, 1)));
    assert!(!is_public(&IpAddress::V6(0xfd00, 0, 0, 0, 0, 0, 0, 1)));
    assert!(!is_public(&IpAddress::V6(0, 0, 0, 0, 0, 0, 0, 1)));
    assert!(!is_public(&IpAddress::V6(0x4000, 0, 0, 0, 0, 0, 0, 1)));
}

#[test]
fn public_ips_filters_in_order() {
    let v = vec![
        IpAddress::V4(192, 168, 1, 1),
        IpAddress::V4(203, 0, 113, 5),
        IpAddress::V6(0xfe80, 0, 0, 0, 0, 0, 0, 1),
        IpAddress::V6(0x2001, 0xdb8, 0, 0, 0, 0, 0, 1),
    ];
    let out = public_ips(&v);
    assert_eq!(out, vec![
        IpAddress::V4(203, 0, 113, 5),
        IpAddress::V6(0x2001, 0xdb8, 0, 0, 0, 0, 0, 1),
    ]);
}

#[test]
fn v4_text_is_dotted_decimal() {
    assert_eq!(ip_text(&IpAddress::V4(203, 0, 113, 5)), "203.0.113.5");
    assert_eq!(ip_text(&IpAddress::V4(0, 0, 0, 0)), "0.0.0.0");
    assert_eq!(ip_text(&IpAddress::V4(255, 255, 255, 255)), "255.255.255.255");
}

#[test]
fn v6_text_is_the_compressed_form() {
    assert_eq!(ip_text(&IpAddress::V6(0x2001, 0xdb8, 0, 0, 0, 0, 0, 1)), "2001:db8::1");
    assert_eq!(ip_text(&IpAddress::V6(0, 0, 0, 0, 0, 0, 0, 0)), "::");
    assert_eq!(ip_text(&IpAddress::V6(0, 0, 0, 0, 0, 0, 0, 1)), "::1");
    assert_eq!(ip_text(&IpAddress::V6(1, 0, 0, 0, 0, 0, 0, 0)), "1::");
    assert_eq!(
        ip_text(&IpAddress::V6(0x2001, 0xdb8, 1, 2, 3, 4, 5, 6)),
        "2001:db8:1:2:3:4:5:6"
    );
    // a lone zero group is not compressed
    assert_eq!(ip_text(&IpAddress::V6(1, 0, 1, 1, 1, 1, 1, 1)), "1:0:1:1:1:1:1:1");
    // the longest run wins over an earlier shorter one
    assert_eq!(ip_text(&IpAddress::V6(1, 0, 0, 1, 0, 0, 0, 1)), "1:0:0:1::1");
    // on a tie the leftmost run wins
    assert_eq!(ip_text(&IpAddress::V6(1, 0, 0, 1, 1, 0, 0, 1)), "1::1:1:0:0:1");
    // hex digits are lowercase and minimal
    assert_eq!(
        ip_text(&IpAddress::V6(0xfe80, 0, 0, 0, 0x1ff, 0xfe23, 0x4567, 0x890a)),
        "fe80::1ff:fe23:4567:890a"
    );
}

#[test]
fn u64_renders_in_decimal() {
    assert_eq!(u64_to_string(0), "0");
    assert_eq!(u64_to_string(7), "7");
    assert_eq!(u64_to_string(600), "600");
    assert_eq!(u64_to_string(106926659), "106926659");
    assert_eq!(u64_to_string(u64::MAX), "18446744073709551615");
}

#[test]
fn interface_mapping_parses_both_forms() {
    let with_sub = InterfaceSubdomain::parse("eth0=home");
    assert_eq!(with_sub.interface, "eth0");
    assert_eq!(with_sub.subdomain, Some("home".to_string()));

    let bare = InterfaceSubdomain::parse("eth0");
    assert_eq!(bare.interface, "eth0");
    assert_eq!(bare.subdomain, None);

    // everything after the first '=' belongs to the subdomain
    let twice = InterfaceSubdomain::parse("eth0=a=b");
    assert_eq!(twice.interface, "eth0");
    assert_eq!(twice.subdomain, Some("a=b".to_string()));

    let empty_sub = InterfaceSubdomain::parse("eth0=");
    assert_eq!(empty_sub.interface, "eth0");
    assert_eq!(empty_sub.subdomain, Some("".to_string()));
}

#[test]
fn desired_state_filters_and_names() {
    let observed = vec![
        (
            InterfaceSubdomain::parse("eth0=home"),
            vec![IpAddress::V4(192, 168, 1, 1), IpAddress::V4(203, 0, 113, 5)],
        ),
        (InterfaceSubdomain::parse("eth1"), vec![IpAddress::V4(8, 8, 8, 8)]),
    ];
    let desired = desired_state(&observed);
    assert_eq!(desired.len(), 2);
    assert_eq!(desired[0].0, "home");
    assert_eq!(desired[0].1, vec![IpAddress::V4(203, 0, 113, 5)]);
    assert_eq!(desired[1].0, "");
    assert_eq!(desired[1].1, vec![IpAddress::V4(8, 8, 8, 8)]);
}

fn creds() -> Credentials {
    Credentials { api_key: "ak".to_string(), secret_key: "sk".to_string() }
}

#[test]
fn urls_name_the_porkbun_endpoints() {
    assert_eq!(ping_url(), "https://api.porkbun.com/api/json/v3/ping");
    assert_eq!(
        retrieve_url("example.com", RecordType::A, "home"),
        "https://api.porkbun.com/api/json/v3/dns/retrieveByNameType/example.com/A/home"
    );
    assert_eq!(
        create_url("example.com"),
        "https://api.porkbun.com/api/json/v3/dns/create/example.com"
    );
    assert_eq!(
        edit_url("example.com", "101"),
        "https://api.porkbun.com/api/json/v3/dns/edit/example.com/101"
    );
}

#[test]
fn bodies_carry_credentials_and_fields() {
    let ping = ping_body(&creds());
    assert_eq!(ping.apikey, "ak");
    assert_eq!(ping.secretapikey, "sk");
    assert_eq!(ping.name, None);

    let params = Params {
        domain: "example.com".to_string(),
        record_type: RecordType::AAAA,
        name: "home".to_string(),
        content: "2001:0db8:0000:0000:0000:0000:0000:0001".to_string(),
        ttl: None,
        prio: None,
    };
    let create = create_body(&creds(), &params);
    assert_eq!(create.record_type, Some("AAAA".to_string()));
    assert_eq!(create.name, Some("home".to_string()));
    // an absent ttl is passed through, left to the provider's default
    assert_eq!(create.ttl, None);

    let record = pbddns::record::Record {
        content: "203.0.113.5".to_string(),
        id: "101".to_string(),
        name: "home".to_string(),
        prio: "0".to_string(),
        ttl: "300".to_string(),
        record_type: RecordType::A,
        domain: Some("example.com".to_string()),
    };
    let edit = edit_body(&creds(), &record);
    assert_eq!(edit.ttl, Some("300".to_string()));
    assert_eq!(edit.prio, Some("0".to_string()));
    assert_eq!(edit.record_type, Some("A".to_string()));
}
