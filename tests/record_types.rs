use cloudflare_dns::address::{is_ipv4_address, is_ipv6_address};
use cloudflare_dns::record_type::DnsRecordType;

#[test]
fn all_variants_in_fixed_order() {
    let all = DnsRecordType::all();
    let names: Vec<&str> = all.iter().map(|t| t.as_str()).collect();
    assert_eq!(names, vec!["A", "AAAA", "CNAME", "MX", "TXT", "NS", "SRV", "CAA", "PTR"]);
    assert!(!all.contains(&DnsRecordType::Other));
}

#[test]
fn proxiable_and_priority_kinds() {
    for t in DnsRecordType::all() {
        let proxiable = matches!(t, DnsRecordType::A | DnsRecordType::AAAA | DnsRecordType::CNAME);
        let priority = matches!(t, DnsRecordType::MX | DnsRecordType::SRV);
        assert_eq!(t.is_proxiable(), proxiable);
        assert_eq!(t.requires_priority(), priority);
    }
    assert!(!DnsRecordType::Other.is_proxiable());
    assert!(!DnsRecordType::Other.requires_priority());
}

#[test]
fn validate_ip_contents() {
    assert_eq!(DnsRecordType::A.validate_content("256.1.1.1"), Err("Invalid IPv4 address"));
    assert_eq!(DnsRecordType::A.validate_content("1.2.3.4"), Ok(()));
    assert_eq!(DnsRecordType::AAAA.validate_content("::1"), Ok(()));
    assert_eq!(DnsRecordType::AAAA.validate_content("not-an-ip"), Err("Invalid IPv6 address"));
}

#[test]
fn validate_empty_contents() {
    assert_eq!(DnsRecordType::CNAME.validate_content(""), Err("Content cannot be empty"));
    assert_eq!(DnsRecordType::MX.validate_content(""), Err("Content cannot be empty"));
    assert_eq!(DnsRecordType::NS.validate_content(""), Err("Content cannot be empty"));
    assert_eq!(DnsRecordType::PTR.validate_content(""), Err("Content cannot be empty"));
    assert_eq!(DnsRecordType::TXT.validate_content(""), Ok(()));
    assert_eq!(DnsRecordType::SRV.validate_content(""), Ok(()));
    assert_eq!(DnsRecordType::CAA.validate_content("anything at all"), Ok(()));
    assert_eq!(DnsRecordType::Other.validate_content(""), Ok(()));
    assert_eq!(DnsRecordType::CNAME.validate_content("example.com"), Ok(()));
}

#[test]
fn ipv4_syntax() {
    assert!(is_ipv4_address("0.0.0.0"));
    assert!(is_ipv4_address("255.255.255.255"));
    assert!(is_ipv4_address("192.168.1.1"));
    assert!(!is_ipv4_address("01.2.3.4"));
    assert!(!is_ipv4_address("1.2.3"));
    assert!(!is_ipv4_address("1.2.3.4.5"));
    assert!(!is_ipv4_address("1..3.4"));
    assert!(!is_ipv4_address("1.2.3.4 "));
    assert!(!is_ipv4_address("1000.2.3.4"));
    assert!(!is_ipv4_address(""));
    assert!(!is_ipv4_address("+1.2.3.4"));
    assert!(!is_ipv4_address("\u{661}.2.3.4"));
}

#[test]
fn ipv6_syntax() {
    assert!(is_ipv6_address("::"));
    assert!(is_ipv6_address("::1"));
    assert!(is_ipv6_address("1::"));
    assert!(is_ipv6_address("2001:db8::ff00:42:8329"));
    assert!(is_ipv6_address("2001:0DB8:0000:0000:0000:ff00:0042:8329"));
    assert!(is_ipv6_address("::ffff:192.0.2.1"));
    assert!(is_ipv6_address("1:2:3:4:5:6:1.2.3.4"));
    assert!(is_ipv6_address("1:2:3:4:5:6:7::"));
    assert!(is_ipv6_address("::2:3:4:5:6:7:8"));
    assert!(!is_ipv6_address("1:2:3:4:5:6:7:8:9"));
    assert!(!is_ipv6_address("1:2:3:4:5:6:7"));
    assert!(!is_ipv6_address("1:2:3:4:5:6:7:8::"));
    assert!(!is_ipv6_address("1::2::3"));
    assert!(!is_ipv6_address("12345::"));
    assert!(!is_ipv6_address(":1"));
    assert!(!is_ipv6_address("1:"));
    assert!(!is_ipv6_address(":::"));
    assert!(!is_ipv6_address("1.2.3.4::"));
    assert!(!is_ipv6_address("1:2:3:4:5:6:7:1.2.3.4"));
    assert!(!is_ipv6_address("::1.2.3.256"));
    assert!(!is_ipv6_address("g::"));
    assert!(!is_ipv6_address(""));
}

#[test]
fn wire_name_round_trip() {
    for t in DnsRecordType::all() {
        let name = t.wire_name().unwrap();
        assert_eq!(DnsRecordType::from_wire(name), t);
        assert_eq!(name, t.as_str());
    }
}

#[test]
fn unknown_wire_name_is_other() {
    assert_eq!(DnsRecordType::from_wire("HTTPS"), DnsRecordType::Other);
    assert_eq!(DnsRecordType::from_wire("a"), DnsRecordType::Other);
    assert_eq!(DnsRecordType::from_wire(""), DnsRecordType::Other);
    assert_eq!(DnsRecordType::Other.wire_name(), None);
    assert_eq!(DnsRecordType::Other.as_str(), "Other");
}

#[test]
fn selector_index_of_kinds() {
    assert_eq!(DnsRecordType::A.selector_index(), 0);
    assert_eq!(DnsRecordType::MX.selector_index(), 3);
    assert_eq!(DnsRecordType::PTR.selector_index(), 8);
    assert_eq!(DnsRecordType::Other.selector_index(), 0);
}
