//! The response envelope that every call to the service returns, the values
//! it carries, and the errors that calls surface.

use crate::record_type::DnsRecordType;
use vstd::prelude::*;

verus! {

/// One entry of the error list of an envelope.
#[derive(Clone, Debug)]
pub struct ApiError {
    pub code: i32,
    pub message: String,
}

/// Pagination metadata of a list response.
#[derive(Clone, Copy, Debug, PartialEq, Eq, Structural)]
pub struct ResultInfo {
    pub page: u32,
    pub per_page: u32,
    pub count: u32,
    pub total_count: u32,
    pub total_pages: u32,
}

/// The envelope around every response: whether the call succeeded, its result,
/// the reported errors and, for lists, pagination metadata.
#[derive(Debug)]
pub struct ApiResponse<T> {
    pub success: bool,
    pub result: Option<T>,
    pub errors: Vec<ApiError>,
    pub result_info: Option<ResultInfo>,
}

/// What the token check reports of a token.
#[derive(Clone, Debug)]
pub struct TokenVerifyResult {
    pub id: String,
    pub status: String,
}

/// What the service reports of a deleted record.
#[derive(Clone, Debug)]
pub struct DeleteResult {
    pub id: String,
}

/// A domain reachable with the token.
#[derive(Clone, Debug)]
pub struct Zone {
    pub id: String,
    pub name: String,
    pub status: String,
    pub account: ZoneAccount,
}

/// The account that owns a zone.
#[derive(Clone, Debug)]
pub struct ZoneAccount {
    pub id: String,
    pub name: String,
}

/// A DNS record as the service reports it. A `ttl` of 1 means automatic.
#[derive(Clone, Debug)]
pub struct DnsRecord {
    pub id: String,
    pub record_type: DnsRecordType,
    pub name: String,
    pub content: String,
    pub ttl: u32,
    pub proxied: bool,
    pub proxiable: bool,
    pub priority: Option<u16>,
    pub comment: Option<String>,
}

/// Why a call to the service failed.
#[derive(Clone, Debug)]
pub enum ClientError {
    /// The request could not be made or got no HTTP response.
    Transport(String),
    /// The response body was not an envelope of the expected shape.
    Decode(String),
    /// The envelope reported failure; the text of its first error, or empty.
    Api(String),
    /// The envelope reported success but carried no result.
    EmptyResult,
}

impl ClientError {
    /// The text that the error is shown with.
    pub open spec fn text(self) -> Seq<char> {
        match self {
            ClientError::Transport(m) => m@,
            ClientError::Decode(m) => m@,
            ClientError::Api(m) => m@,
            ClientError::EmptyResult => "No result returned"@,
        }
    }

    /// The text that the error is shown with.
    pub fn message(&self) -> (r: String)
        ensures
            r@ == self.text(),
    {
        match self {
            ClientError::Transport(m) => m.clone(),
            ClientError::Decode(m) => m.clone(),
            ClientError::Api(m) => m.clone(),
            ClientError::EmptyResult => String::from_str("No result returned"),
        }
    }
}

impl<T> ApiResponse<T> {
    /// The text of the first reported error, or the empty text when none is.
    pub open spec fn failure_text(&self) -> Seq<char> {
        if self.errors.len() > 0 {
            self.errors@[0].message@
        } else {
            Seq::empty()
        }
    }

    /// The text of the first reported error, or the empty text when none is.
    pub fn failure_message(&self) -> (r: String)
        ensures
            r@ == self.failure_text(),
    {
        if self.errors.len() > 0 {
            self.errors[0].message.clone()
        } else {
            String::new()
        }
    }

    /// The result of a call that reported success; a call that reported
    /// failure gives `ClientError::Api` with the first error's text.
    pub fn into_checked(self) -> (r: Result<Option<T>, ClientError>)
        ensures
            self.success ==> r == Ok::<Option<T>, ClientError>(self.result),
            !self.success ==> (r matches Err(ClientError::Api(m)) && m@ == self.failure_text()),
    {
        if !self.success {
            let m = self.failure_message();
            return Err(ClientError::Api(m));
        }
        Ok(self.result)
    }

    /// The result of a call that must return one: failure gives
    /// `ClientError::Api`, success without a result `ClientError::EmptyResult`.
    pub fn into_required(self) -> (r: Result<T, ClientError>)
        ensures
            !self.success ==> (r matches Err(ClientError::Api(m)) && m@ == self.failure_text()),
            self.success && self.result is None ==> r matches Err(ClientError::EmptyResult),
            self.success && self.result is Some ==> r == Ok::<T, ClientError>(self.result->0),
    {
        match self.into_checked() {
            Err(e) => Err(e),
            Ok(None) => Err(ClientError::EmptyResult),
            Ok(Some(v)) => Ok(v),
        }
    }
}

} // verus!
