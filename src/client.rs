//! The client of the service: the requests it makes, and what it makes of
//! the envelopes that come back. Sending a request and decoding its response
//! is left to the caller, which hands the decoded envelope back.

use crate::envelope::{
    ApiResponse, ClientError, DeleteResult, DnsRecord, TokenVerifyResult,
};
use crate::payload::{CreateDnsRecord, UpdateDnsRecord};
use crate::text::{decimal_of, decimal_text, same_text};
use vstd::prelude::*;

verus! {

/// Root of every endpoint of the service.
pub const API_BASE: &'static str = "https://api.cloudflare.com/client/v4";

/// Page size used when listing zones.
pub const ZONES_PER_PAGE: u32 = 50;

/// Page size used when listing DNS records.
pub const RECORDS_PER_PAGE: u32 = 100;

#[derive(Clone, Copy, Debug, PartialEq, Eq, Structural)]
pub enum HttpMethod {
    Get,
    Post,
    Patch,
    Delete,
}

/// A request to the service, authenticated by a bearer token.
#[derive(Clone)]
pub struct ApiRequest {
    pub method: HttpMethod,
    pub url: String,
    pub bearer_token: String,
    /// Query parameters, as (name, value) pairs.
    pub query: Vec<(String, String)>,
    /// JSON body.
    pub body: Option<String>,
}

impl ApiRequest {
    /// The query parameters as text.
    pub open spec fn query_view(&self) -> Seq<(Seq<char>, Seq<char>)> {
        self.query@.map_values(|p: (String, String)| (p.0@, p.1@))
    }
}

/// The query of the given page of a list.
pub open spec fn page_query(page: u32, per_page: u32) -> Seq<(Seq<char>, Seq<char>)> {
    seq![("page"@, decimal_text(page as nat)), ("per_page"@, decimal_text(per_page as nat))]
}

/// The client: the token that it authenticates with.
#[derive(Clone)]
pub struct CloudflareClient {
    token: String,
}

fn endpoint(path: &str) -> (r: String)
    ensures
        r@ == API_BASE@ + path@,
{
    let mut r = String::from_str(API_BASE);
    r.append(path);
    r
}

fn records_path(zone_id: &str) -> (r: String)
    ensures
        r@ == "/zones/"@ + zone_id@ + "/dns_records"@,
{
    let mut r = String::from_str("/zones/");
    r.append(zone_id);
    r.append("/dns_records");
    r
}

fn record_path(zone_id: &str, record_id: &str) -> (r: String)
    ensures
        r@ == "/zones/"@ + zone_id@ + "/dns_records/"@ + record_id@,
{
    let mut r = String::from_str("/zones/");
    r.append(zone_id);
    r.append("/dns_records/");
    r.append(record_id);
    r
}

fn page_params(page: u32, per_page: u32) -> (r: Vec<(String, String)>)
    ensures
        r@.map_values(|p: (String, String)| (p.0@, p.1@)) == page_query(page, per_page),
{
    let mut r: Vec<(String, String)> = Vec::new();
    r.push((String::from_str("page"), decimal_of(page as u64)));
    r.push((String::from_str("per_page"), decimal_of(per_page as u64)));
    assert(r@.map_values(|p: (String, String)| (p.0@, p.1@)) =~= page_query(page, per_page));
    r
}

impl CloudflareClient {
    pub closed spec fn token_view(&self) -> Seq<char> {
        self.token@
    }

    /// A client that authenticates with `token`.
    pub fn new(token: String) -> (r: Self)
        ensures
            r.token_view() == token@,
    {
        CloudflareClient { token }
    }

    /// The token that the client authenticates with.
    pub fn token(&self) -> (r: &str)
        ensures
            r@ == self.token_view(),
    {
        self.token.as_str()
    }

    fn request(
        &self,
        method: HttpMethod,
        url: String,
        query: Vec<(String, String)>,
        body: Option<String>,
    ) -> (r: ApiRequest)
        ensures
            r == (ApiRequest { method, url, bearer_token: r.bearer_token, query, body }),
            r.bearer_token@ == self.token_view(),
    {
        ApiRequest { method, url, bearer_token: self.token.clone(), query, body }
    }

    /// `GET /user/tokens/verify`.
    pub fn verify_token_request(&self) -> (r: ApiRequest)
        ensures
            r.method == HttpMethod::Get,
            r.url@ == API_BASE@ + "/user/tokens/verify"@,
            r.bearer_token@ == self.token_view(),
            r.query@.len() == 0,
            r.body is None,
    {
        self.request(HttpMethod::Get, endpoint("/user/tokens/verify"), Vec::new(), None)
    }

    /// `GET /zones` for page `page`, fifty zones a page.
    pub fn list_zones_request(&self, page: u32) -> (r: ApiRequest)
        ensures
            r.method == HttpMethod::Get,
            r.url@ == API_BASE@ + "/zones"@,
            r.bearer_token@ == self.token_view(),
            r.query_view() == page_query(page, ZONES_PER_PAGE),
            r.body is None,
    {
        self.request(HttpMethod::Get, endpoint("/zones"), page_params(page, ZONES_PER_PAGE), None)
    }

    /// `GET /zones/{zone_id}/dns_records` for page `page`, a hundred records a
    /// page.
    pub fn list_dns_records_request(&self, zone_id: &str, page: u32) -> (r: ApiRequest)
        ensures
            r.method == HttpMethod::Get,
            r.url@ == API_BASE@ + "/zones/"@ + zone_id@ + "/dns_records"@,
            r.bearer_token@ == self.token_view(),
            r.query_view() == page_query(page, RECORDS_PER_PAGE),
            r.body is None,
    {
        let path = records_path(zone_id);
        let url = endpoint(path.as_str());
        assert(url@ =~= API_BASE@ + "/zones/"@ + zone_id@ + "/dns_records"@);
        self.request(HttpMethod::Get, url, page_params(page, RECORDS_PER_PAGE), None)
    }

    /// `POST /zones/{zone_id}/dns_records` with the record as body; `None` for
    /// a record of kind `Other`, which cannot be sent.
    pub fn create_dns_record_request(
        &self,
        zone_id: &str,
        record: &CreateDnsRecord,
    ) -> (r: Option<ApiRequest>)
        ensures
            r is None <==> record.to_json_spec() is None,
            r matches Some(q) ==> {
                &&& q.method == HttpMethod::Post
                &&& q.url@ == API_BASE@ + "/zones/"@ + zone_id@ + "/dns_records"@
                &&& q.bearer_token@ == self.token_view()
                &&& q.query@.len() == 0
                &&& q.body matches Some(b) && Some(b@) == record.to_json_spec()
            },
    {
        let body = match record.to_json() {
            None => return None,
            Some(b) => b,
        };
        let path = records_path(zone_id);
        let url = endpoint(path.as_str());
        assert(url@ =~= API_BASE@ + "/zones/"@ + zone_id@ + "/dns_records"@);
        Some(self.request(HttpMethod::Post, url, Vec::new(), Some(body)))
    }

    /// `PATCH /zones/{zone_id}/dns_records/{record_id}` with the set fields as
    /// body; `None` when the kind is set to `Other`, which cannot be sent.
    pub fn update_dns_record_request(
        &self,
        zone_id: &str,
        record_id: &str,
        record: &UpdateDnsRecord,
    ) -> (r: Option<ApiRequest>)
        ensures
            r is None <==> record.to_json_spec() is None,
            r matches Some(q) ==> {
                &&& q.method == HttpMethod::Patch
                &&& q.url@ == API_BASE@ + "/zones/"@ + zone_id@ + "/dns_records/"@ + record_id@
                &&& q.bearer_token@ == self.token_view()
                &&& q.query@.len() == 0
                &&& q.body matches Some(b) && Some(b@) == record.to_json_spec()
            },
    {
        let body = match record.to_json() {
            None => return None,
            Some(b) => b,
        };
        let path = record_path(zone_id, record_id);
        let url = endpoint(path.as_str());
        assert(url@ =~= API_BASE@ + "/zones/"@ + zone_id@ + "/dns_records/"@ + record_id@);
        Some(self.request(HttpMethod::Patch, url, Vec::new(), Some(body)))
    }

    /// `DELETE /zones/{zone_id}/dns_records/{record_id}`.
    pub fn delete_dns_record_request(&self, zone_id: &str, record_id: &str) -> (r: ApiRequest)
        ensures
            r.method == HttpMethod::Delete,
            r.url@ == API_BASE@ + "/zones/"@ + zone_id@ + "/dns_records/"@ + record_id@,
            r.bearer_token@ == self.token_view(),
            r.query@.len() == 0,
            r.body is None,
    {
        let path = record_path(zone_id, record_id);
        let url = endpoint(path.as_str());
        assert(url@ =~= API_BASE@ + "/zones/"@ + zone_id@ + "/dns_records/"@ + record_id@);
        self.request(HttpMethod::Delete, url, Vec::new(), None)
    }

    /// Whether the token check reports an active token: the envelope reports
    /// success and a status of exactly "active". Any other status, or no
    /// result, is an inactive token, not an error.
    pub fn verify_token_outcome(resp: &ApiResponse<TokenVerifyResult>) -> (r: bool)
        ensures
            r == (resp.success && (resp.result matches Some(t) && t.status@ == "active"@)),
    {
        if !resp.success {
            return false;
        }
        match &resp.result {
            Some(t) => same_text(t.status.as_str(), "active"),
            None => false,
        }
    }

    /// The record that a create or update call returned.
    pub fn record_outcome(resp: ApiResponse<DnsRecord>) -> (r: Result<DnsRecord, ClientError>)
        ensures
            !resp.success ==> (r matches Err(ClientError::Api(m)) && m@ == resp.failure_text()),
            resp.success && resp.result is None ==> r matches Err(ClientError::EmptyResult),
            resp.success && resp.result is Some ==> r == Ok::<DnsRecord, ClientError>(
                resp.result->0,
            ),
    {
        resp.into_required()
    }

    /// The outcome of a delete call: it succeeded if the envelope says so.
    pub fn delete_outcome(resp: ApiResponse<DeleteResult>) -> (r: Result<(), ClientError>)
        ensures
            resp.success ==> r is Ok,
            !resp.success ==> (r matches Err(ClientError::Api(m)) && m@ == resp.failure_text()),
    {
        match resp.into_checked() {
            Ok(_) => Ok(()),
            Err(e) => Err(e),
        }
    }
}

} // verus!
