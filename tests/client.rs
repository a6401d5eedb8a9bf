use cloudflare_dns::client::{CloudflareClient, HttpMethod, API_BASE};
use cloudflare_dns::envelope::{
    ApiError, ApiResponse, ClientError, DeleteResult, DnsRecord, ResultInfo, TokenVerifyResult,
    Zone, ZoneAccount,
};
use cloudflare_dns::pagination::{PageStep, Pager};
use cloudflare_dns::payload::{CreateDnsRecord, UpdateDnsRecord};
use cloudflare_dns::record_type::DnsRecordType;

fn zone(n: usize) -> Zone {
    Zone {
        id: format!("z{}", n),
        name: format!("example{}.com", n),
        status: "active".to_string(),
        account: ZoneAccount { id: "acc".to_string(), name: "Account".to_string() },
    }
}

fn info(page: u32, total_pages: u32) -> Option<ResultInfo> {
    Some(ResultInfo { page, per_page: 50, count: 0, total_count: 0, total_pages })
}

fn zones_page(start: usize, n: usize, result_info: Option<ResultInfo>) -> ApiResponse<Vec<Zone>> {
    ApiResponse {
        success: true,
        result: Some((start..start + n).map(zone).collect()),
        errors: Vec::new(),
        result_info,
    }
}

fn failure<T>(messages: &[&str]) -> ApiResponse<T> {
    ApiResponse {
        success: false,
        result: None,
        errors: messages
            .iter()
            .enumerate()
            .map(|(i, m)| ApiError { code: 1000 + i as i32, message: m.to_string() })
            .collect(),
        result_info: None,
    }
}

fn record(id: &str) -> DnsRecord {
    DnsRecord {
        id: id.to_string(),
        record_type: DnsRecordType::A,
        name: "www.example.com".to_string(),
        content: "1.2.3.4".to_string(),
        ttl: 1,
        proxied: true,
        proxiable: true,
        priority: None,
        comment: None,
    }
}

#[test]
fn pagination_collects_three_pages() {
    let pages = vec![
        zones_page(0, 50, info(1, 3)),
        zones_page(50, 50, info(2, 3)),
        zones_page(100, 10, info(3, 3)),
    ];
    let mut pager: Pager<Zone> = Pager::new(50);
    let mut requested = Vec::new();
    let mut pages = pages.into_iter();
    let all = loop {
        requested.push(pager.page);
        let resp = pages.next().expect("no more than three pages are asked for");
        match pager.absorb(resp) {
            PageStep::Next(p) => pager = p,
            PageStep::Done(items) => break items,
            PageStep::Failed(e) => panic!("unexpected failure {:?}", e),
        }
    };
    assert_eq!(requested, vec![1, 2, 3]);
    assert_eq!(all.len(), 110);
    for (i, z) in all.iter().enumerate() {
        assert_eq!(z.id, format!("z{}", i));
    }
}

#[test]
fn pagination_without_metadata_stops_after_one_page() {
    let pager: Pager<Zone> = Pager::new(50);
    match pager.absorb(zones_page(0, 50, None)) {
        PageStep::Done(items) => assert_eq!(items.len(), 50),
        other => panic!("expected the list to end, got {:?}", other),
    }
}

#[test]
fn pagination_stops_on_empty_page() {
    let pager: Pager<Zone> = Pager::new(50);
    let pager = match pager.absorb(zones_page(0, 50, info(1, 5))) {
        PageStep::Next(p) => p,
        other => panic!("expected another page, got {:?}", other),
    };
    assert_eq!(pager.page, 2);
    match pager.absorb(zones_page(50, 0, info(2, 5))) {
        PageStep::Done(items) => assert_eq!(items.len(), 50),
        other => panic!("expected the list to end, got {:?}", other),
    }
}

#[test]
fn pagination_failure_discards_collected_items() {
    let pager: Pager<Zone> = Pager::new(50);
    let pager = match pager.absorb(zones_page(0, 50, info(1, 3))) {
        PageStep::Next(p) => p,
        other => panic!("expected another page, got {:?}", other),
    };
    match pager.absorb(failure(&["rate limited", "second"])) {
        PageStep::Failed(ClientError::Api(m)) => assert_eq!(m, "rate limited"),
        other => panic!("expected a failure, got {:?}", other),
    }
}

#[test]
fn failure_surfaces_first_error_text() {
    let resp: ApiResponse<DnsRecord> = failure(&["Invalid request headers", "other"]);
    match CloudflareClient::record_outcome(resp) {
        Err(ClientError::Api(m)) => assert_eq!(m, "Invalid request headers"),
        other => panic!("unexpected {:?}", other),
    }
}

#[test]
fn failure_without_errors_surfaces_empty_text() {
    let resp: ApiResponse<DeleteResult> = failure(&[]);
    match CloudflareClient::delete_outcome(resp) {
        Err(ClientError::Api(m)) => assert_eq!(m, ""),
        other => panic!("unexpected {:?}", other),
    }
}

#[test]
fn success_without_result_is_empty_result() {
    let resp: ApiResponse<DnsRecord> =
        ApiResponse { success: true, result: None, errors: Vec::new(), result_info: None };
    match CloudflareClient::record_outcome(resp) {
        Err(ClientError::EmptyResult) => {}
        other => panic!("unexpected {:?}", other),
    }
    assert_eq!(ClientError::EmptyResult.message(), "No result returned");
}

#[test]
fn success_with_result_returns_record() {
    let resp = ApiResponse {
        success: true,
        result: Some(record("r1")),
        errors: Vec::new(),
        result_info: None,
    };
    let r = CloudflareClient::record_outcome(resp).unwrap();
    assert_eq!(r.id, "r1");
}

#[test]
fn delete_success() {
    let resp = ApiResponse {
        success: true,
        result: Some(DeleteResult { id: "r1".to_string() }),
        errors: Vec::new(),
        result_info: None,
    };
    assert!(CloudflareClient::delete_outcome(resp).is_ok());
}

fn token_resp(success: bool, status: Option<&str>) -> ApiResponse<TokenVerifyResult> {
    ApiResponse {
        success,
        result: status.map(|s| TokenVerifyResult { id: "t".to_string(), status: s.to_string() }),
        errors: Vec::new(),
        result_info: None,
    }
}

#[test]
fn verify_token_reads_status() {
    assert!(!CloudflareClient::verify_token_outcome(&token_resp(true, Some("disabled"))));
    assert!(CloudflareClient::verify_token_outcome(&token_resp(true, Some("active"))));
    assert!(!CloudflareClient::verify_token_outcome(&token_resp(true, Some("Active"))));
    assert!(!CloudflareClient::verify_token_outcome(&token_resp(true, None)));
    assert!(!CloudflareClient::verify_token_outcome(&token_resp(false, Some("active"))));
}

#[test]
fn requests_carry_paths_and_token() {
    let client = CloudflareClient::new("secret-token".to_string());
    assert_eq!(client.token(), "secret-token");

    let v = client.verify_token_request();
    assert_eq!(v.method, HttpMethod::Get);
    assert_eq!(v.url, format!("{}/user/tokens/verify", API_BASE));
    assert_eq!(v.bearer_token, "secret-token");

    let z = client.list_zones_request(2);
    assert_eq!(z.url, "https://api.cloudflare.com/client/v4/zones");
    assert_eq!(
        z.query,
        vec![("page".to_string(), "2".to_string()), ("per_page".to_string(), "50".to_string())]
    );

    let r = client.list_dns_records_request("abc", 12);
    assert_eq!(r.url, "https://api.cloudflare.com/client/v4/zones/abc/dns_records");
    assert_eq!(
        r.query,
        vec![("page".to_string(), "12".to_string()), ("per_page".to_string(), "100".to_string())]
    );

    let d = client.delete_dns_record_request("abc", "rec1");
    assert_eq!(d.method, HttpMethod::Delete);
    assert_eq!(d.url, "https://api.cloudflare.com/client/v4/zones/abc/dns_records/rec1");
    assert!(d.body.is_none());
}

#[test]
fn write_requests_carry_json_bodies() {
    let client = CloudflareClient::new("t".to_string());
    let create = CreateDnsRecord {
        record_type: DnsRecordType::TXT,
        name: "txt.example.com".to_string(),
        content: "v=spf1 -all".to_string(),
        ttl: 3600,
        proxied: None,
        priority: None,
        comment: None,
    };
    let q = client.create_dns_record_request("zone", &create).unwrap();
    assert_eq!(q.method, HttpMethod::Post);
    assert_eq!(q.url, "https://api.cloudflare.com/client/v4/zones/zone/dns_records");
    assert_eq!(
        q.body.unwrap(),
        r#"{"type":"TXT","name":"txt.example.com","content":"v=spf1 -all","ttl":3600}"#
    );

    let update = UpdateDnsRecord {
        record_type: None,
        name: None,
        content: Some("5.6.7.8".to_string()),
        ttl: None,
        proxied: Some(false),
        priority: None,
        comment: None,
    };
    let u = client.update_dns_record_request("zone", "rec", &update).unwrap();
    assert_eq!(u.method, HttpMethod::Patch);
    assert_eq!(u.url, "https://api.cloudflare.com/client/v4/zones/zone/dns_records/rec");
    assert_eq!(u.body.unwrap(), r#"{"content":"5.6.7.8","proxied":false}"#);
}

#[test]
fn fallback_kind_is_never_sent() {
    let client = CloudflareClient::new("t".to_string());
    let create = CreateDnsRecord {
        record_type: DnsRecordType::Other,
        name: "x".to_string(),
        content: "y".to_string(),
        ttl: 1,
        proxied: None,
        priority: None,
        comment: None,
    };
    assert!(create.to_json().is_none());
    assert!(client.create_dns_record_request("zone", &create).is_none());
    let update = UpdateDnsRecord {
        record_type: Some(DnsRecordType::Other),
        name: None,
        content: None,
        ttl: None,
        proxied: None,
        priority: None,
        comment: None,
    };
    assert!(update.to_json().is_none());
    assert!(client.update_dns_record_request("zone", "rec", &update).is_none());
}
