use cloudflare_dns::appearance::AppearanceMode;
use cloudflare_dns::envelope::DnsRecord;
use cloudflare_dns::form::RecordForm;
use cloudflare_dns::payload::{CreateDnsRecord, UpdateDnsRecord};
use cloudflare_dns::record_type::DnsRecordType;
use cloudflare_dns::storage::{deletion_outcome, has_token, stored_secret, SecretError};
use cloudflare_dns::text::{decimal_of, parse_unsigned};

fn form(t: DnsRecordType, name: &str, content: &str) -> RecordForm {
    RecordForm {
        record_type: t,
        name: name.to_string(),
        content: content.to_string(),
        ttl: "1".to_string(),
        priority: String::new(),
        comment: String::new(),
        proxied: false,
    }
}

#[test]
fn mx_create_omits_proxied() {
    let mut f = form(DnsRecordType::MX, "example.com", "mail.example.com");
    f.priority = "10".to_string();
    f.proxied = true;
    let p = f.to_create().unwrap();
    assert_eq!(p.proxied, None);
    let body = p.to_json().unwrap();
    assert!(!body.contains("proxied"));
    assert_eq!(
        body,
        r#"{"type":"MX","name":"example.com","content":"mail.example.com","ttl":1,"priority":10}"#
    );
}

#[test]
fn a_create_includes_proxied() {
    let mut f = form(DnsRecordType::A, "www", "192.168.1.1");
    f.proxied = true;
    let body = f.to_create().unwrap().to_json().unwrap();
    assert!(body.contains(r#""proxied":true"#));
    f.proxied = false;
    let body = f.to_create().unwrap().to_json().unwrap();
    assert_eq!(
        body,
        r#"{"type":"A","name":"www","content":"192.168.1.1","ttl":1,"proxied":false}"#
    );
}

#[test]
fn json_strings_are_escaped() {
    let p = CreateDnsRecord {
        record_type: DnsRecordType::TXT,
        name: "say \"hi\"".to_string(),
        content: "a\\b\nc".to_string(),
        ttl: 120,
        proxied: None,
        priority: None,
        comment: Some("tab\there".to_string()),
    };
    assert_eq!(
        p.to_json().unwrap(),
        r#"{"type":"TXT","name":"say \"hi\"","content":"a\\b\nc","ttl":120,"comment":"tab\there"}"#
    );
}

#[test]
fn update_sends_only_set_fields() {
    let empty = UpdateDnsRecord {
        record_type: None,
        name: None,
        content: None,
        ttl: None,
        proxied: None,
        priority: None,
        comment: None,
    };
    assert_eq!(empty.to_json().unwrap(), "{}");
    let full = UpdateDnsRecord {
        record_type: Some(DnsRecordType::SRV),
        name: Some("_sip._tcp".to_string()),
        content: Some("0 5 5060 sip.example.com".to_string()),
        ttl: Some(300),
        proxied: None,
        priority: Some(65535),
        comment: Some(String::new()),
    };
    assert_eq!(
        full.to_json().unwrap(),
        r#"{"type":"SRV","name":"_sip._tcp","content":"0 5 5060 sip.example.com","ttl":300,"priority":65535,"comment":""}"#
    );
}

#[test]
fn form_refuses_missing_fields() {
    assert_eq!(form(DnsRecordType::A, "", "1.2.3.4").to_create().unwrap_err(), "Record name is required");
    assert_eq!(form(DnsRecordType::TXT, "x", "").to_create().unwrap_err(), "Content is required");
    assert_eq!(form(DnsRecordType::A, "x", "1.2.3").to_create().unwrap_err(), "Invalid IPv4 address");
    assert_eq!(form(DnsRecordType::AAAA, "x", "1.2.3.4").to_update().unwrap_err(), "Invalid IPv6 address");
    assert_eq!(form(DnsRecordType::CNAME, "x", "").to_update().unwrap_err(), "Content cannot be empty");
    assert!(form(DnsRecordType::TXT, "", "").to_update().is_ok());
}

#[test]
fn form_reads_numbers_and_comment() {
    let mut f = form(DnsRecordType::CNAME, "www", "example.com");
    f.ttl = "abc".to_string();
    f.priority = "70000".to_string();
    f.comment = "note".to_string();
    f.proxied = true;
    let p = f.to_create().unwrap();
    assert_eq!(p.ttl, 1);
    assert_eq!(p.priority, None);
    assert_eq!(p.comment.as_deref(), Some("note"));
    assert_eq!(p.proxied, Some(true));
    f.ttl = "+300".to_string();
    f.priority = "007".to_string();
    f.comment = String::new();
    let u = f.to_update().unwrap();
    assert_eq!(u.ttl, Some(300));
    assert_eq!(u.priority, Some(7));
    assert_eq!(u.comment, None);
    assert_eq!(u.record_type, Some(DnsRecordType::CNAME));
    assert_eq!(u.name.as_deref(), Some("www"));
}

#[test]
fn form_round_trips_a_record() {
    let r = DnsRecord {
        id: "r".to_string(),
        record_type: DnsRecordType::MX,
        name: "example.com".to_string(),
        content: "mx.example.com".to_string(),
        ttl: 3600,
        proxied: false,
        proxiable: false,
        priority: Some(20),
        comment: None,
    };
    let f = RecordForm::from_record(&r);
    assert_eq!(f.record_type, DnsRecordType::MX);
    assert_eq!(f.ttl, "3600");
    assert_eq!(f.priority, "20");
    assert_eq!(f.comment, "");
    let mut other = r.clone();
    other.record_type = DnsRecordType::Other;
    assert_eq!(RecordForm::from_record(&other).record_type, DnsRecordType::A);
    let b = RecordForm::blank();
    assert_eq!(b.record_type, DnsRecordType::A);
    assert_eq!(b.ttl, "1");
    assert!(b.name.is_empty() && !b.proxied);
}

#[test]
fn decimal_numbers() {
    assert_eq!(decimal_of(0), "0");
    assert_eq!(decimal_of(4294967295), "4294967295");
    assert_eq!(parse_unsigned("4294967295", 4294967295), Some(4294967295));
    assert_eq!(parse_unsigned("4294967296", 4294967295), None);
    assert_eq!(parse_unsigned("+", 100), None);
    assert_eq!(parse_unsigned("", 100), None);
    assert_eq!(parse_unsigned("-1", 100), None);
    assert_eq!(parse_unsigned("1 ", 100), None);
}

#[test]
fn secret_store_outcomes() {
    assert_eq!(stored_secret(Ok("tok".to_string())), Ok(Some("tok".to_string())));
    assert_eq!(stored_secret(Err(SecretError::NoEntry)), Ok(None));
    assert_eq!(stored_secret(Err(SecretError::Other("locked".to_string()))), Err("locked".to_string()));
    assert_eq!(deletion_outcome(Err(SecretError::NoEntry)), Ok(()));
    assert_eq!(deletion_outcome(Ok(())), Ok(()));
    assert_eq!(deletion_outcome(Err(SecretError::Other("denied".to_string()))), Err("denied".to_string()));
    assert!(has_token(&Ok(Some("tok".to_string()))));
    assert!(!has_token(&Ok(None)));
    assert!(!has_token(&Err("locked".to_string())));
}

#[test]
fn appearance_modes() {
    assert_eq!(AppearanceMode::parse("light"), AppearanceMode::Light);
    assert_eq!(AppearanceMode::parse("dark"), AppearanceMode::Dark);
    assert_eq!(AppearanceMode::parse("Dark"), AppearanceMode::Auto);
    assert_eq!(AppearanceMode::Dark.as_str(), "dark");
    assert_eq!(AppearanceMode::Auto.label(), "Auto (System)");
    assert_eq!(AppearanceMode::default(), AppearanceMode::Auto);
    assert_eq!(AppearanceMode::from_stored(&Ok(Some("light".to_string()))), AppearanceMode::Light);
    assert_eq!(AppearanceMode::from_stored(&Err("x".to_string())), AppearanceMode::Auto);
    assert_eq!(
        AppearanceMode::offered_modes(),
        vec![AppearanceMode::Auto, AppearanceMode::Light, AppearanceMode::Dark]
    );
    assert_eq!(AppearanceMode::Dark.offered_index(), 2);
}
