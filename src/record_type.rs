//! The kinds of DNS record, their capabilities and their content rules.

use crate::address::{is_ipv4, is_ipv4_address, is_ipv6, is_ipv6_address};
use crate::text::same_text;
use vstd::prelude::*;

verus! {

/// The kinds of DNS record that the library manages. `Other` stands for a kind
/// that the service reports under a name not listed here; it has no name of
/// its own on the wire and is never sent.
#[derive(Clone, Copy, Debug, PartialEq, Eq, Structural)]
pub enum DnsRecordType {
    A,
    AAAA,
    CNAME,
    MX,
    TXT,
    NS,
    SRV,
    CAA,
    PTR,
    Other,
}

impl DnsRecordType {
    /// The name under which the kind is shown and sent; `Other` shows as
    /// "Other", which the service does not know as a kind.
    pub open spec fn name(self) -> Seq<char> {
        match self {
            DnsRecordType::A => "A"@,
            DnsRecordType::AAAA => "AAAA"@,
            DnsRecordType::CNAME => "CNAME"@,
            DnsRecordType::MX => "MX"@,
            DnsRecordType::TXT => "TXT"@,
            DnsRecordType::NS => "NS"@,
            DnsRecordType::SRV => "SRV"@,
            DnsRecordType::CAA => "CAA"@,
            DnsRecordType::PTR => "PTR"@,
            DnsRecordType::Other => "Other"@,
        }
    }

    /// The nine concrete kinds, in the order in which they are offered.
    pub open spec fn concrete_kinds() -> Seq<DnsRecordType> {
        seq![
            DnsRecordType::A,
            DnsRecordType::AAAA,
            DnsRecordType::CNAME,
            DnsRecordType::MX,
            DnsRecordType::TXT,
            DnsRecordType::NS,
            DnsRecordType::SRV,
            DnsRecordType::CAA,
            DnsRecordType::PTR,
        ]
    }

    /// Kinds that can be served through the provider's proxy.
    pub open spec fn proxiable(self) -> bool {
        self == DnsRecordType::A || self == DnsRecordType::AAAA || self == DnsRecordType::CNAME
    }

    /// Kinds whose records carry a priority.
    pub open spec fn needs_priority(self) -> bool {
        self == DnsRecordType::MX || self == DnsRecordType::SRV
    }

    /// The kind that a name received from the service denotes: one of the nine
    /// concrete kinds when the name is exactly its upper-case name, else `Other`.
    pub open spec fn from_name(s: Seq<char>) -> DnsRecordType {
        if s == "A"@ {
            DnsRecordType::A
        } else if s == "AAAA"@ {
            DnsRecordType::AAAA
        } else if s == "CNAME"@ {
            DnsRecordType::CNAME
        } else if s == "MX"@ {
            DnsRecordType::MX
        } else if s == "TXT"@ {
            DnsRecordType::TXT
        } else if s == "NS"@ {
            DnsRecordType::NS
        } else if s == "SRV"@ {
            DnsRecordType::SRV
        } else if s == "CAA"@ {
            DnsRecordType::CAA
        } else if s == "PTR"@ {
            DnsRecordType::PTR
        } else {
            DnsRecordType::Other
        }
    }

    /// Why `content` is refused for a record of this kind, if it is: A needs a
    /// dotted-decimal IPv4 address, AAAA an IPv6 address, MX, CNAME, NS and PTR
    /// some content; TXT, SRV, CAA and `Other` take any content.
    pub open spec fn content_error(self, content: Seq<char>) -> Option<Seq<char>> {
        match self {
            DnsRecordType::A => if is_ipv4(content) {
                None
            } else {
                Some("Invalid IPv4 address"@)
            },
            DnsRecordType::AAAA => if is_ipv6(content) {
                None
            } else {
                Some("Invalid IPv6 address"@)
            },
            DnsRecordType::MX | DnsRecordType::CNAME | DnsRecordType::NS | DnsRecordType::PTR => {
                if content.len() == 0 {
                    Some("Content cannot be empty"@)
                } else {
                    None
                }
            },
            _ => None,
        }
    }

    /// Checks `content` against the rule of this kind; the error is the reason
    /// for refusing it.
    pub fn validate_content(&self, content: &str) -> (r: Result<(), &'static str>)
        ensures
            match self.content_error(content@) {
                None => r is Ok,
                Some(m) => r is Err && r->Err_0@ == m,
            },
    {
        match self {
            DnsRecordType::A => if is_ipv4_address(content) {
                Ok(())
            } else {
                Err("Invalid IPv4 address")
            },
            DnsRecordType::AAAA => if is_ipv6_address(content) {
                Ok(())
            } else {
                Err("Invalid IPv6 address")
            },
            DnsRecordType::MX | DnsRecordType::CNAME | DnsRecordType::NS | DnsRecordType::PTR => {
                if content.is_empty() {
                    Err("Content cannot be empty")
                } else {
                    Ok(())
                }
            },
            _ => Ok(()),
        }
    }

    /// The name of the kind.
    pub fn as_str(&self) -> (r: &'static str)
        ensures
            r@ == self.name(),
    {
        match self {
            DnsRecordType::A => "A",
            DnsRecordType::AAAA => "AAAA",
            DnsRecordType::CNAME => "CNAME",
            DnsRecordType::MX => "MX",
            DnsRecordType::TXT => "TXT",
            DnsRecordType::NS => "NS",
            DnsRecordType::SRV => "SRV",
            DnsRecordType::CAA => "CAA",
            DnsRecordType::PTR => "PTR",
            DnsRecordType::Other => "Other",
        }
    }

    /// The name sent for the kind in a write request; `Other` has none.
    pub fn wire_name(&self) -> (r: Option<&'static str>)
        ensures
            *self == DnsRecordType::Other ==> r is None,
            *self != DnsRecordType::Other ==> r is Some && r->0@ == self.name(),
    {
        match self {
            DnsRecordType::Other => None,
            _ => Some(self.as_str()),
        }
    }

    /// The kind that a name received from the service denotes.
    pub fn from_wire(s: &str) -> (r: DnsRecordType)
        ensures
            r == DnsRecordType::from_name(s@),
    {
        if same_text(s, "A") {
            DnsRecordType::A
        } else if same_text(s, "AAAA") {
            DnsRecordType::AAAA
        } else if same_text(s, "CNAME") {
            DnsRecordType::CNAME
        } else if same_text(s, "MX") {
            DnsRecordType::MX
        } else if same_text(s, "TXT") {
            DnsRecordType::TXT
        } else if same_text(s, "NS") {
            DnsRecordType::NS
        } else if same_text(s, "SRV") {
            DnsRecordType::SRV
        } else if same_text(s, "CAA") {
            DnsRecordType::CAA
        } else if same_text(s, "PTR") {
            DnsRecordType::PTR
        } else {
            DnsRecordType::Other
        }
    }

    /// The nine concrete kinds in their fixed order: A, AAAA, CNAME, MX, TXT,
    /// NS, SRV, CAA, PTR.
    pub fn all() -> (r: Vec<DnsRecordType>)
        ensures
            r@ == DnsRecordType::concrete_kinds(),
    {
        let r = vec![
            DnsRecordType::A,
            DnsRecordType::AAAA,
            DnsRecordType::CNAME,
            DnsRecordType::MX,
            DnsRecordType::TXT,
            DnsRecordType::NS,
            DnsRecordType::SRV,
            DnsRecordType::CAA,
            DnsRecordType::PTR,
        ];
        assert(r@ =~= DnsRecordType::concrete_kinds());
        r
    }

    /// Whether records of this kind can be proxied: A, AAAA and CNAME.
    pub fn is_proxiable(&self) -> (r: bool)
        ensures
            r == self.proxiable(),
    {
        match self {
            DnsRecordType::A | DnsRecordType::AAAA | DnsRecordType::CNAME => true,
            _ => false,
        }
    }

    /// Whether records of this kind need a priority: MX and SRV.
    pub fn requires_priority(&self) -> (r: bool)
        ensures
            r == self.needs_priority(),
    {
        match self {
            DnsRecordType::MX | DnsRecordType::SRV => true,
            _ => false,
        }
    }

    /// The position of the kind among `all()`, or 0 for `Other`.
    pub fn selector_index(&self) -> (r: usize)
        ensures
            *self != DnsRecordType::Other ==> r < 9 && DnsRecordType::concrete_kinds()[r as int]
                == *self,
            *self == DnsRecordType::Other ==> r == 0,
    {
        match self {
            DnsRecordType::A => 0,
            DnsRecordType::AAAA => 1,
            DnsRecordType::CNAME => 2,
            DnsRecordType::MX => 3,
            DnsRecordType::TXT => 4,
            DnsRecordType::NS => 5,
            DnsRecordType::SRV => 6,
            DnsRecordType::CAA => 7,
            DnsRecordType::PTR => 8,
            DnsRecordType::Other => 0,
        }
    }
}

/// Every kind but `Other` is one of the nine concrete kinds.
pub proof fn lemma_concrete_kind(t: DnsRecordType)
    ensures
        t != DnsRecordType::Other ==> DnsRecordType::concrete_kinds().contains(t),
{
    let k = DnsRecordType::concrete_kinds();
    match t {
        DnsRecordType::A => assert(k[0] == t),
        DnsRecordType::AAAA => assert(k[1] == t),
        DnsRecordType::CNAME => assert(k[2] == t),
        DnsRecordType::MX => assert(k[3] == t),
        DnsRecordType::TXT => assert(k[4] == t),
        DnsRecordType::NS => assert(k[5] == t),
        DnsRecordType::SRV => assert(k[6] == t),
        DnsRecordType::CAA => assert(k[7] == t),
        DnsRecordType::PTR => assert(k[8] == t),
        DnsRecordType::Other => {},
    }
}

/// Reading back the name of a kind gives the kind again, for every kind; a name
/// outside the nine upper-case names reads as `Other`, which has no name to send.
pub proof fn lemma_name_round_trip(t: DnsRecordType, s: Seq<char>)
    ensures
        DnsRecordType::from_name(t.name()) == t,
        (forall|k: DnsRecordType| k != DnsRecordType::Other ==> s != #[trigger] k.name())
            ==> DnsRecordType::from_name(s) == DnsRecordType::Other,
{
    reveal_strlit("A");
    reveal_strlit("AAAA");
    reveal_strlit("CNAME");
    reveal_strlit("MX");
    reveal_strlit("TXT");
    reveal_strlit("NS");
    reveal_strlit("SRV");
    reveal_strlit("CAA");
    reveal_strlit("PTR");
    reveal_strlit("Other");
    let names = seq!["A"@, "AAAA"@, "CNAME"@, "MX"@, "TXT"@, "NS"@, "SRV"@, "CAA"@, "PTR"@];
    assert(names[0].len() == 1 && names[1].len() == 4 && names[2].len() == 5);
    assert(names[3].len() == 2 && names[4].len() == 3 && names[5].len() == 2);
    assert(names[6].len() == 3 && names[7].len() == 3 && names[8].len() == 3);
    assert(names[3][0] != names[5][0]);
    assert(names[4][0] != names[6][0] && names[4][0] != names[7][0] && names[4][0] != names[8][0]);
    assert(names[6][0] != names[7][0] && names[6][0] != names[8][0] && names[7][0] != names[8][0]);
    assert(forall|i: int, j: int| 0 <= i < j < 9 ==> names[i] != names[j]);
    assert(DnsRecordType::Other.name().len() == 5 && DnsRecordType::Other.name()[0] != names[2][0]);
    if forall|k: DnsRecordType| k != DnsRecordType::Other ==> s != #[trigger] k.name() {
        assert(s != DnsRecordType::A.name());
        assert(s != DnsRecordType::AAAA.name());
        assert(s != DnsRecordType::CNAME.name());
        assert(s != DnsRecordType::MX.name());
        assert(s != DnsRecordType::TXT.name());
        assert(s != DnsRecordType::NS.name());
        assert(s != DnsRecordType::SRV.name());
        assert(s != DnsRecordType::CAA.name());
        assert(s != DnsRecordType::PTR.name());
    }
}

} // verus!
