//! The bodies of write requests: a full record to create, or the fields of a
//! record to change. Fields left unset are left out of the JSON body, not
//! written as null.

use crate::record_type::{lemma_concrete_kind, DnsRecordType};
use crate::text::{decimal_of, decimal_text};
use vstd::prelude::*;

verus! {

/// A record to create.
#[derive(Clone, Debug)]
pub struct CreateDnsRecord {
    pub record_type: DnsRecordType,
    pub name: String,
    pub content: String,
    pub ttl: u32,
    pub proxied: Option<bool>,
    pub priority: Option<u16>,
    pub comment: Option<String>,
}

/// The fields of a record to change; only those that are set are sent.
#[derive(Clone, Debug)]
pub struct UpdateDnsRecord {
    pub record_type: Option<DnsRecordType>,
    pub name: Option<String>,
    pub content: Option<String>,
    pub ttl: Option<u32>,
    pub proxied: Option<bool>,
    pub priority: Option<u16>,
    pub comment: Option<String>,
}

/// The JSON string literal of `s`, quotes and escapes included.
pub uninterp spec fn json_string(s: Seq<char>) -> Seq<char>;

/// Relies on serde_json's `Display` for `Value::String`, which writes the JSON
/// string literal of the text.
#[verifier::external_body]
fn json_quote(s: &str) -> (r: String)
    ensures
        r@ == json_string(s@),
{
    serde_json::Value::String(s.to_string()).to_string()
}

pub open spec fn bool_text(b: bool) -> Seq<char> {
    if b {
        "true"@
    } else {
        "false"@
    }
}

/// The members of a JSON object, written in order and separated by commas.
pub open spec fn join_members(members: Seq<(Seq<char>, Seq<char>)>) -> Seq<char>
    decreases members.len(),
{
    if members.len() == 0 {
        Seq::empty()
    } else {
        let last = members.last();
        let one = seq!['"'] + last.0 + seq!['"', ':'] + last.1;
        if members.len() == 1 {
            one
        } else {
            join_members(members.drop_last()) + seq![','] + one
        }
    }
}

/// A JSON object with the given members; each value is already JSON text.
pub open spec fn json_object(members: Seq<(Seq<char>, Seq<char>)>) -> Seq<char> {
    seq!['{'] + join_members(members) + seq!['}']
}

/// `members`, followed by `(key, value)` when `value` is present.
pub open spec fn with_optional(
    members: Seq<(Seq<char>, Seq<char>)>,
    key: Seq<char>,
    value: Option<Seq<char>>,
) -> Seq<(Seq<char>, Seq<char>)> {
    match value {
        Some(v) => members.push((key, v)),
        None => members,
    }
}

pub open spec fn optional_bool(b: Option<bool>) -> Option<Seq<char>> {
    match b {
        Some(x) => Some(bool_text(x)),
        None => None,
    }
}

pub open spec fn optional_number(n: Option<u16>) -> Option<Seq<char>> {
    match n {
        Some(x) => Some(decimal_text(x as nat)),
        None => None,
    }
}

pub open spec fn optional_text(s: Option<String>) -> Option<Seq<char>> {
    match s {
        Some(x) => Some(json_string(x@)),
        None => None,
    }
}

/// The keys of `members`, in order.
pub open spec fn member_keys(members: Seq<(Seq<char>, Seq<char>)>) -> Seq<Seq<char>> {
    members.map_values(|m: (Seq<char>, Seq<char>)| m.0)
}

/// The members as text.
pub open spec fn member_views(members: Seq<(String, String)>) -> Seq<(Seq<char>, Seq<char>)> {
    members.map_values(|m: (String, String)| (m.0@, m.1@))
}

/// Appends `(key, value)` to the object text being written in `out`.
fn push_member(
    out: &mut String,
    Ghost(members): Ghost<Seq<(Seq<char>, Seq<char>)>>,
    first: bool,
    key: &str,
    value: &str,
)
    requires
        old(out)@ == seq!['{'] + join_members(members),
        first == (members.len() == 0),
    ensures
        final(out)@ == seq!['{'] + join_members(members.push((key@, value@))),
{
    let ghost all = members.push((key@, value@));
    assert(all.drop_last() =~= members);
    if !first {
        out.append(",");
    }
    out.append("\"");
    out.append(key);
    out.append("\":");
    out.append(value);
    proof {
        reveal_strlit(",");
        reveal_strlit("\"");
        reveal_strlit("\":");
    }
    assert(out@ =~= seq!['{'] + join_members(all));
}

/// The JSON object with the given members, in order; each key is written
/// between quotes as it is, each value as it is.
pub fn json_object_text(members: &Vec<(String, String)>) -> (r: String)
    ensures
        r@ == json_object(member_views(members@)),
{
    let mut out = String::from_str("{");
    proof {
        reveal_strlit("{");
    }
    assert(member_views(members@).take(0) =~= Seq::empty());
    assert(out@ =~= seq!['{'] + join_members(member_views(members@).take(0)));
    let mut i: usize = 0;
    while i < members.len()
        invariant
            i <= members.len(),
            out@ == seq!['{'] + join_members(member_views(members@).take(i as int)),
        decreases members.len() - i,
    {
        let ghost before = member_views(members@).take(i as int);
        push_member(&mut out, Ghost(before), i == 0, members[i].0.as_str(), members[i].1.as_str());
        assert(before.push((members@[i as int].0@, members@[i as int].1@)) =~= member_views(
            members@,
        ).take(i + 1));
        i = i + 1;
    }
    assert(member_views(members@).take(members.len() as int) =~= member_views(members@));
    out.append("}");
    proof {
        reveal_strlit("}");
    }
    assert(out@ =~= json_object(member_views(members@)));
    out
}

fn bool_str(b: bool) -> (r: &'static str)
    ensures
        r@ == bool_text(b),
{
    if b {
        "true"
    } else {
        "false"
    }
}

/// Appends `(key, value)` to `members` when `value` is present.
fn push_optional(members: &mut Vec<(String, String)>, key: &str, value: Option<String>)
    ensures
        member_views(final(members)@) == with_optional(
            member_views(old(members)@),
            key@,
            match value {
                Some(v) => Some(v@),
                None => None,
            },
        ),
{
    let ghost before = member_views(members@);
    match value {
        Some(v) => {
            members.push((String::from_str(key), v));
            assert(member_views(members@) =~= before.push((key@, v@)));
        },
        None => {},
    }
}

impl CreateDnsRecord {
    /// The members of the JSON body, in order: type, name, content, ttl, then
    /// proxied, priority and comment where they are set.
    pub open spec fn members(&self) -> Seq<(Seq<char>, Seq<char>)> {
        let base = seq![
            ("type"@, json_string(self.record_type.name())),
            ("name"@, json_string(self.name@)),
            ("content"@, json_string(self.content@)),
            ("ttl"@, decimal_text(self.ttl as nat)),
        ];
        let with_proxied = with_optional(base, "proxied"@, optional_bool(self.proxied));
        let with_priority = with_optional(
            with_proxied,
            "priority"@,
            optional_number(self.priority),
        );
        with_optional(with_priority, "comment"@, optional_text(self.comment))
    }

    /// The JSON body; none for a record of kind `Other`, which cannot be sent.
    pub open spec fn to_json_spec(&self) -> Option<Seq<char>> {
        if self.record_type == DnsRecordType::Other {
            None
        } else {
            Some(json_object(self.members()))
        }
    }

    /// The JSON body of the request; `None` for a record of kind `Other`,
    /// which cannot be sent.
    pub fn to_json(&self) -> (r: Option<String>)
        ensures
            r is None <==> self.to_json_spec() is None,
            r matches Some(b) ==> Some(b@) == self.to_json_spec(),
    {
        let t = match self.record_type.wire_name() {
            None => return None,
            Some(t) => t,
        };
        let mut ms: Vec<(String, String)> = Vec::new();
        push_optional(&mut ms, "type", Some(json_quote(t)));
        push_optional(&mut ms, "name", Some(json_quote(self.name.as_str())));
        push_optional(&mut ms, "content", Some(json_quote(self.content.as_str())));
        push_optional(&mut ms, "ttl", Some(decimal_of(self.ttl as u64)));
        let proxied = match self.proxied {
            Some(b) => Some(String::from_str(bool_str(b))),
            None => None,
        };
        push_optional(&mut ms, "proxied", proxied);
        let priority = match self.priority {
            Some(p) => Some(decimal_of(p as u64)),
            None => None,
        };
        push_optional(&mut ms, "priority", priority);
        let comment = match &self.comment {
            Some(c) => Some(json_quote(c.as_str())),
            None => None,
        };
        push_optional(&mut ms, "comment", comment);
        assert(member_views(ms@) =~= self.members());
        Some(json_object_text(&ms))
    }
}

impl UpdateDnsRecord {
    /// The members of the JSON body: those of the fields that are set, in the
    /// order type, name, content, ttl, proxied, priority, comment.
    pub open spec fn members(&self) -> Seq<(Seq<char>, Seq<char>)> {
        let m5 = with_optional(self.leading_members(), "proxied"@, optional_bool(self.proxied));
        let m6 = with_optional(m5, "priority"@, optional_number(self.priority));
        with_optional(m6, "comment"@, optional_text(self.comment))
    }

    /// The members that come before `proxied`.
    pub open spec fn leading_members(&self) -> Seq<(Seq<char>, Seq<char>)> {
        let t = match self.record_type {
            Some(k) => Some(json_string(k.name())),
            None => None,
        };
        let m1 = with_optional(Seq::empty(), "type"@, t);
        let m2 = with_optional(m1, "name"@, optional_text(self.name));
        let m3 = with_optional(m2, "content"@, optional_text(self.content));
        let ttl = match self.ttl {
            Some(x) => Some(decimal_text(x as nat)),
            None => None,
        };
        with_optional(m3, "ttl"@, ttl)
    }

    /// The JSON body; none when the kind is set to `Other`, which cannot be
    /// sent.
    pub open spec fn to_json_spec(&self) -> Option<Seq<char>> {
        if self.record_type == Some(DnsRecordType::Other) {
            None
        } else {
            Some(json_object(self.members()))
        }
    }

    /// The JSON body of the request; `None` when the kind is set to `Other`,
    /// which cannot be sent.
    pub fn to_json(&self) -> (r: Option<String>)
        ensures
            r is None <==> self.to_json_spec() is None,
            r matches Some(b) ==> Some(b@) == self.to_json_spec(),
    {
        let record_type = match self.record_type {
            Some(k) => match k.wire_name() {
                None => return None,
                Some(t) => Some(json_quote(t)),
            },
            None => None,
        };
        let mut ms: Vec<(String, String)> = Vec::new();
        push_optional(&mut ms, "type", record_type);
        let name = match &self.name {
            Some(v) => Some(json_quote(v.as_str())),
            None => None,
        };
        push_optional(&mut ms, "name", name);
        let content = match &self.content {
            Some(v) => Some(json_quote(v.as_str())),
            None => None,
        };
        push_optional(&mut ms, "content", content);
        let ttl = match self.ttl {
            Some(v) => Some(decimal_of(v as u64)),
            None => None,
        };
        push_optional(&mut ms, "ttl", ttl);
        let proxied = match self.proxied {
            Some(b) => Some(String::from_str(bool_str(b))),
            None => None,
        };
        push_optional(&mut ms, "proxied", proxied);
        let priority = match self.priority {
            Some(p) => Some(decimal_of(p as u64)),
            None => None,
        };
        push_optional(&mut ms, "priority", priority);
        let comment = match &self.comment {
            Some(c) => Some(json_quote(c.as_str())),
            None => None,
        };
        push_optional(&mut ms, "comment", comment);
        assert(member_views(ms@) =~= self.members());
        Some(json_object_text(&ms))
    }
}

/// A field of a record to create that is not set is absent from the body,
/// not written as null; one that is set is present with its value. Shown for
/// `proxied`, the field that only some kinds of record carry.
pub proof fn lemma_create_unset_omitted(c: CreateDnsRecord)
    ensures
        c.proxied is None ==> !member_keys(c.members()).contains("proxied"@),
        c.proxied matches Some(b) ==> c.members().contains(("proxied"@, bool_text(b))),
{
    lemma_proxied_key_distinct();
    let cm = c.members();
    if c.proxied is None {
        assert(forall|i: int| 0 <= i < cm.len() ==> cm[i].0 != "proxied"@);
    } else {
        assert(cm[4] == ("proxied"@, bool_text(c.proxied->0)));
    }
}

/// The same for a change to a record: an unset `proxied` is absent from the
/// body, a set one is present with its value.
pub proof fn lemma_update_unset_omitted(u: UpdateDnsRecord)
    ensures
        u.proxied is None ==> !member_keys(u.members()).contains("proxied"@),
        u.proxied matches Some(b) ==> u.members().contains(("proxied"@, bool_text(b))),
{
    lemma_proxied_key_distinct();
    let um = u.members();
    if u.proxied is None {
        assert(forall|i: int| 0 <= i < um.len() ==> um[i].0 != "proxied"@);
    } else {
        let k = u.leading_members().len() as int;
        assert(um[k] == ("proxied"@, bool_text(u.proxied->0)));
    }
}

proof fn lemma_proxied_key_distinct()
    ensures
        "proxied"@ != "type"@,
        "proxied"@ != "name"@,
        "proxied"@ != "content"@,
        "proxied"@ != "ttl"@,
        "proxied"@ != "priority"@,
        "proxied"@ != "comment"@,
{
    reveal_strlit("proxied");
    reveal_strlit("type");
    reveal_strlit("name");
    reveal_strlit("content");
    reveal_strlit("ttl");
    reveal_strlit("priority");
    reveal_strlit("comment");
    assert("proxied"@.len() == 7 && "type"@.len() == 4 && "name"@.len() == 4);
    assert("ttl"@.len() == 3 && "priority"@.len() == 8);
    assert("proxied"@[0] != "content"@[0] && "proxied"@[0] != "comment"@[0]);
}

/// A record of the fallback kind has no body, so it is never sent; every body
/// that is written starts with the name of one of the nine concrete kinds.
pub proof fn lemma_fallback_never_sent(c: CreateDnsRecord, u: UpdateDnsRecord)
    ensures
        c.to_json_spec() is None <==> c.record_type == DnsRecordType::Other,
        c.to_json_spec() is Some ==> DnsRecordType::concrete_kinds().contains(c.record_type)
            && c.members()[0] == ("type"@, json_string(c.record_type.name())),
        u.to_json_spec() is None <==> u.record_type == Some(DnsRecordType::Other),
        u.to_json_spec() is Some && u.record_type is Some ==> {
            &&& DnsRecordType::concrete_kinds().contains(u.record_type->0)
            &&& u.members()[0] == ("type"@, json_string(u.record_type->0.name()))
        },
{
    lemma_concrete_kind(c.record_type);
    if u.record_type is Some {
        lemma_concrete_kind(u.record_type->0);
        let m = u.members();
        assert(u.leading_members()[0] == ("type"@, json_string(u.record_type->0.name())));
        assert(m[0] == u.leading_members()[0]);
    }
}

} // verus!
