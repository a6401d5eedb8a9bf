//! The record editor's fields, as typed, and the write requests built from
//! them. Content is checked against the record kind before any request is
//! built, so a refused record never reaches the service.

use crate::envelope::DnsRecord;
use crate::payload::{
    bool_text, lemma_create_unset_omitted, member_keys, CreateDnsRecord, UpdateDnsRecord,
};
use crate::record_type::DnsRecordType;
use crate::text::{decimal_of, decimal_text, parse_unsigned, unsigned_value};
use vstd::prelude::*;

verus! {

/// The fields of the record editor, as text where the user types them.
#[derive(Clone, Debug)]
pub struct RecordForm {
    pub record_type: DnsRecordType,
    pub name: String,
    pub content: String,
    pub ttl: String,
    pub priority: String,
    pub comment: String,
    pub proxied: bool,
}

/// The TTL that the text gives: its number when it is an unsigned decimal
/// that fits in 32 bits, else 1 (automatic).
pub open spec fn ttl_value(s: Seq<char>) -> u32 {
    match unsigned_value(s) {
        Some(v) => if v <= u32::MAX {
            v as u32
        } else {
            1
        },
        None => 1,
    }
}

/// The priority that the text gives: its number when it is an unsigned decimal
/// that fits in 16 bits, else none.
pub open spec fn priority_value(s: Seq<char>) -> Option<u16> {
    match unsigned_value(s) {
        Some(v) => if v <= u16::MAX {
            Some(v as u16)
        } else {
            None
        },
        None => None,
    }
}

/// The proxied flag that is sent: the form's flag for kinds that can be
/// proxied, none for the others.
pub open spec fn sent_proxied(t: DnsRecordType, proxied: bool) -> Option<bool> {
    if t.proxiable() {
        Some(proxied)
    } else {
        None
    }
}

pub open spec fn text_or_none(s: Seq<char>, v: Option<String>) -> bool {
    if s.len() == 0 {
        v is None
    } else {
        v matches Some(x) && x@ == s
    }
}

fn ttl_of(s: &str) -> (r: u32)
    ensures
        r == ttl_value(s@),
{
    match parse_unsigned(s, 0xffff_ffff) {
        Some(v) => v as u32,
        None => 1,
    }
}

fn priority_of(s: &str) -> (r: Option<u16>)
    ensures
        r == priority_value(s@),
{
    match parse_unsigned(s, 0xffff) {
        Some(v) => Some(v as u16),
        None => None,
    }
}

fn comment_of(s: &String) -> (r: Option<String>)
    ensures
        text_or_none(s@, r),
{
    if s.as_str().is_empty() {
        None
    } else {
        Some(s.clone())
    }
}

impl RecordForm {
    /// Why the form cannot be sent as a new record, if it cannot: the name and
    /// the content are needed, and the content must suit the kind.
    pub open spec fn create_error(&self) -> Option<Seq<char>> {
        if self.name@.len() == 0 {
            Some("Record name is required"@)
        } else if self.content@.len() == 0 {
            Some("Content is required"@)
        } else {
            self.record_type.content_error(self.content@)
        }
    }

    /// The empty form: kind A, TTL 1, nothing else filled in.
    pub fn blank() -> (r: RecordForm)
        ensures
            r.record_type == DnsRecordType::A,
            r.name@.len() == 0,
            r.content@.len() == 0,
            r.ttl@ == seq!['1'],
            r.priority@.len() == 0,
            r.comment@.len() == 0,
            !r.proxied,
    {
        let ttl = String::from_str("1");
        proof {
            reveal_strlit("1");
        }
        RecordForm {
            record_type: DnsRecordType::A,
            name: String::new(),
            content: String::new(),
            ttl,
            priority: String::new(),
            comment: String::new(),
            proxied: false,
        }
    }

    /// The form filled in from an existing record. A kind that the editor does
    /// not offer shows as the first offered kind, A.
    pub fn from_record(record: &DnsRecord) -> (r: RecordForm)
        ensures
            r.record_type == (if record.record_type == DnsRecordType::Other {
                DnsRecordType::A
            } else {
                record.record_type
            }),
            r.name@ == record.name@,
            r.content@ == record.content@,
            r.ttl@ == decimal_text(record.ttl as nat),
            record.priority matches Some(p) ==> r.priority@ == decimal_text(p as nat),
            record.priority is None ==> r.priority@.len() == 0,
            record.comment matches Some(c) ==> r.comment@ == c@,
            record.comment is None ==> r.comment@.len() == 0,
            r.proxied == record.proxied,
    {
        let record_type = match record.record_type {
            DnsRecordType::Other => DnsRecordType::A,
            t => t,
        };
        let priority = match record.priority {
            Some(p) => decimal_of(p as u64),
            None => String::new(),
        };
        let comment = match &record.comment {
            Some(c) => c.clone(),
            None => String::new(),
        };
        RecordForm {
            record_type,
            name: record.name.clone(),
            content: record.content.clone(),
            ttl: decimal_of(record.ttl as u64),
            priority,
            comment,
            proxied: record.proxied,
        }
    }

    /// The record to create from the form, or why it cannot be.
    pub fn to_create(&self) -> (r: Result<CreateDnsRecord, &'static str>)
        ensures
            self.create_error() matches Some(m) ==> (r matches Err(e) && e@ == m),
            self.create_error() is None ==> (r matches Ok(p) && {
                &&& p.record_type == self.record_type
                &&& p.name@ == self.name@
                &&& p.content@ == self.content@
                &&& p.ttl == ttl_value(self.ttl@)
                &&& p.proxied == sent_proxied(self.record_type, self.proxied)
                &&& p.priority == priority_value(self.priority@)
                &&& text_or_none(self.comment@, p.comment)
            }),
    {
        if self.name.as_str().is_empty() {
            return Err("Record name is required");
        }
        if self.content.as_str().is_empty() {
            return Err("Content is required");
        }
        match self.record_type.validate_content(self.content.as_str()) {
            Err(e) => return Err(e),
            Ok(()) => {},
        }
        let proxied = if self.record_type.is_proxiable() {
            Some(self.proxied)
        } else {
            None
        };
        Ok(
            CreateDnsRecord {
                record_type: self.record_type,
                name: self.name.clone(),
                content: self.content.clone(),
                ttl: ttl_of(self.ttl.as_str()),
                proxied,
                priority: priority_of(self.priority.as_str()),
                comment: comment_of(&self.comment),
            },
        )
    }

    /// The change to send for the record being edited, or why it cannot be
    /// sent: only the content is checked, against the kind.
    pub fn to_update(&self) -> (r: Result<UpdateDnsRecord, &'static str>)
        ensures
            self.record_type.content_error(self.content@) matches Some(m) ==> (r matches Err(e)
                && e@ == m),
            self.record_type.content_error(self.content@) is None ==> (r matches Ok(p) && {
                &&& p.record_type == Some(self.record_type)
                &&& p.name matches Some(n) && n@ == self.name@
                &&& p.content matches Some(c) && c@ == self.content@
                &&& p.ttl == Some(ttl_value(self.ttl@))
                &&& p.proxied == sent_proxied(self.record_type, self.proxied)
                &&& p.priority == priority_value(self.priority@)
                &&& text_or_none(self.comment@, p.comment)
            }),
    {
        match self.record_type.validate_content(self.content.as_str()) {
            Err(e) => return Err(e),
            Ok(()) => {},
        }
        let proxied = if self.record_type.is_proxiable() {
            Some(self.proxied)
        } else {
            None
        };
        Ok(
            UpdateDnsRecord {
                record_type: Some(self.record_type),
                name: Some(self.name.clone()),
                content: Some(self.content.clone()),
                ttl: Some(ttl_of(self.ttl.as_str())),
                proxied,
                priority: priority_of(self.priority.as_str()),
                comment: comment_of(&self.comment),
            },
        )
    }
}

/// The body of a record created from the form has no `proxied` member when
/// the kind cannot be proxied (MX, for one), whatever the form's flag; for a
/// kind that can be proxied it carries the form's flag.
pub proof fn lemma_form_proxied_member(f: RecordForm, p: CreateDnsRecord)
    requires
        p.proxied == sent_proxied(f.record_type, f.proxied),
    ensures
        !f.record_type.proxiable() ==> !member_keys(p.members()).contains("proxied"@),
        f.record_type.proxiable() ==> p.members().contains(("proxied"@, bool_text(f.proxied))),
{
    lemma_create_unset_omitted(p);
}

} // verus!
