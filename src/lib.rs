//! Verified core of a DNS management client for the Cloudflare API.
//!
//! - `record_type`: the kinds of DNS record, what each allows, and the rule
//!   its content must meet; `address` holds the IPv4 and IPv6 syntax.
//! - `payload` and `form`: the bodies of write requests and how the record
//!   editor's fields become them.
//! - `client`, `envelope` and `pagination`: the requests made to the service,
//!   the response envelope, and collecting lists page by page.
//! - `session`, `storage` and `appearance`: the application's state between
//!   calls and the answers of the secret store.
//! - `text`: characters, decimal numerals.

pub mod address;
pub mod appearance;
pub mod client;
pub mod envelope;
pub mod form;
pub mod pagination;
pub mod payload;
pub mod record_type;
pub mod session;
pub mod storage;
pub mod text;
