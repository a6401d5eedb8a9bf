//! Textual IP addresses: dotted-decimal IPv4 and colon-separated IPv6,
//! the latter with `::` compression and an optional dotted-decimal tail.

use crate::text::chars_of;
use vstd::prelude::*;

verus! {

pub open spec fn is_digit(c: char) -> bool {
    '0' as u32 <= c as u32 <= '9' as u32
}

pub open spec fn is_hex_digit(c: char) -> bool {
    is_digit(c) || ('a' as u32 <= c as u32 <= 'f' as u32) || ('A' as u32 <= c as u32
        <= 'F' as u32)
}

/// The number that a run of decimal digits writes.
pub open spec fn decimal_value(s: Seq<char>) -> nat
    decreases s.len(),
{
    if s.len() == 0 {
        0
    } else {
        decimal_value(s.drop_last()) * 10 + (s.last() as u32 - '0' as u32) as nat
    }
}

/// The pieces of `s` between occurrences of `sep`, in order; there is always
/// one piece more than there are separators.
pub open spec fn split(s: Seq<char>, sep: char) -> Seq<Seq<char>>
    decreases s.len(),
{
    if s.len() == 0 {
        seq![Seq::<char>::empty()]
    } else {
        let p = split(s.drop_last(), sep);
        if s.last() == sep {
            p.push(Seq::<char>::empty())
        } else {
            p.update(p.len() - 1, p.last().push(s.last()))
        }
    }
}

/// One part of a dotted-decimal address: one to three decimal digits, no
/// leading zero unless the part is "0", and a value of at most 255.
pub open spec fn is_octet(s: Seq<char>) -> bool {
    &&& 1 <= s.len() <= 3
    &&& forall|i: int| 0 <= i < s.len() ==> is_digit(#[trigger] s[i])
    &&& (s.len() > 1 ==> s[0] != '0')
    &&& decimal_value(s) <= 255
}

/// A dotted-decimal IPv4 address: exactly four octets separated by dots.
pub open spec fn is_ipv4(s: Seq<char>) -> bool {
    let p = split(s, '.');
    p.len() == 4 && forall|i: int| 0 <= i < 4 ==> is_octet(#[trigger] p[i])
}

/// One 16-bit group of an IPv6 address: one to four hexadecimal digits.
pub open spec fn is_hex_group(s: Seq<char>) -> bool {
    1 <= s.len() <= 4 && forall|i: int| 0 <= i < s.len() ==> is_hex_digit(#[trigger] s[i])
}

/// The number of 16-bit groups that colon-separated `parts` write: each part is
/// a hexadecimal group, except that the last may be an IPv4 address, which
/// counts as two groups. `None` when the parts are not of that shape.
pub open spec fn group_count(parts: Seq<Seq<char>>) -> Option<nat> {
    if forall|i: int| 0 <= i < parts.len() ==> is_hex_group(#[trigger] parts[i]) {
        Some(parts.len())
    } else if parts.len() >= 1 && (forall|i: int|
        0 <= i < parts.len() - 1 ==> is_hex_group(#[trigger] parts[i])) && is_ipv4(parts.last()) {
        Some(parts.len() + 1)
    } else {
        None
    }
}

/// The groups written by a run without `::`; the empty run writes none.
pub open spec fn run_groups(s: Seq<char>) -> Option<nat> {
    if s.len() == 0 {
        Some(0)
    } else {
        group_count(split(s, ':'))
    }
}

/// A run of hexadecimal groups only (no IPv4 tail); the empty run has none.
pub open spec fn hex_run(s: Seq<char>) -> Option<nat> {
    if s.len() == 0 {
        Some(0)
    } else if forall|i: int|
        0 <= i < split(s, ':').len() ==> is_hex_group(#[trigger] split(s, ':')[i]) {
        Some(split(s, ':').len())
    } else {
        None
    }
}

pub open spec fn double_colon_at(s: Seq<char>, i: int) -> bool {
    0 <= i && i + 1 < s.len() && s[i] == ':' && s[i + 1] == ':'
}

/// Where the first `::` of `s` starts, if it has one.
pub open spec fn first_double_colon(s: Seq<char>) -> Option<int> {
    if exists|i: int| double_colon_at(s, i) {
        Some(
            choose|i: int|
                double_colon_at(s, i) && forall|j: int| 0 <= j < i ==> !double_colon_at(s, j),
        )
    } else {
        None
    }
}

/// An IPv6 address. Without `::` it writes exactly eight groups. With it, the
/// text before the first `::` is a run of hexadecimal groups, the text after
/// is a run of groups, and the two together write at most seven groups, since
/// `::` stands for at least one group of zeros.
pub open spec fn is_ipv6(s: Seq<char>) -> bool {
    match first_double_colon(s) {
        None => run_groups(s) == Some(8nat),
        Some(i) => compressed_valid(s, i),
    }
}

/// Whether `s`, compressed at the `::` that starts at `i`, is an address:
/// hexadecimal groups before, groups after, at most seven in all.
pub open spec fn compressed_valid(s: Seq<char>, i: int) -> bool {
    let head = s.subrange(0, i);
    let tail = s.subrange(i + 2, s.len() as int);
    &&& hex_run(head) is Some
    &&& run_groups(tail) is Some
    &&& hex_run(head)->0 + run_groups(tail)->0 <= 7
}

fn is_digit_char(c: char) -> (r: bool)
    ensures
        r == is_digit(c),
{
    '0' as u32 <= c as u32 && c as u32 <= '9' as u32
}

fn is_hex_digit_char(c: char) -> (r: bool)
    ensures
        r == is_hex_digit(c),
{
    is_digit_char(c) || ('a' as u32 <= c as u32 && c as u32 <= 'f' as u32) || ('A' as u32
        <= c as u32 && c as u32 <= 'F' as u32)
}

/// The characters of each piece.
pub open spec fn views(v: &Vec<Vec<char>>) -> Seq<Seq<char>> {
    v@.map_values(|p: Vec<char>| p@)
}

/// Splits `s` at every `sep`.
fn split_chars(s: &Vec<char>, sep: char) -> (r: Vec<Vec<char>>)
    ensures
        views(&r) == split(s@, sep),
{
    let mut done: Vec<Vec<char>> = Vec::new();
    let mut cur: Vec<char> = Vec::new();
    let mut i: usize = 0;
    assert(s@.take(0) =~= Seq::<char>::empty());
    assert(views(&done).push(cur@) =~= split(s@.take(0), sep));
    while i < s.len()
        invariant
            i <= s.len(),
            views(&done).push(cur@) == split(s@.take(i as int), sep),
        decreases s.len() - i,
    {
        let c = s[i];
        let ghost before = views(&done).push(cur@);
        assert(s@.take(i + 1).drop_last() =~= s@.take(i as int));
        assert(s@.take(i + 1).last() == c);
        if c == sep {
            done.push(cur);
            cur = Vec::new();
            assert(views(&done).push(cur@) =~= before.push(Seq::<char>::empty()));
        } else {
            cur.push(c);
            assert(views(&done).push(cur@) =~= before.update(
                before.len() - 1,
                before.last().push(c),
            ));
        }
        i = i + 1;
    }
    assert(s@.take(s.len() as int) =~= s@);
    let ghost before = views(&done);
    done.push(cur);
    assert(views(&done) =~= before.push(cur@));
    done
}

fn is_octet_chars(s: &Vec<char>) -> (r: bool)
    ensures
        r == is_octet(s@),
{
    if s.len() < 1 || s.len() > 3 {
        return false;
    }
    if s.len() > 1 && s[0] == '0' {
        return false;
    }
    let mut value: u32 = 0;
    let mut i: usize = 0;
    assert(s@.take(0) =~= Seq::<char>::empty());
    while i < s.len()
        invariant
            1 <= s.len() <= 3,
            i <= s.len(),
            forall|k: int| 0 <= k < i ==> is_digit(#[trigger] s@[k]),
            value == decimal_value(s@.take(i as int)),
            value < 1000,
            i == 0 ==> value == 0,
            i == 1 ==> value < 10,
            i == 2 ==> value < 100,
        decreases s.len() - i,
    {
        let c = s[i];
        if !is_digit_char(c) {
            return false;
        }
        assert(s@.take(i + 1).drop_last() =~= s@.take(i as int));
        value = value * 10 + (c as u32 - '0' as u32);
        i = i + 1;
    }
    assert(s@.take(s.len() as int) =~= s@);
    value <= 255
}

fn is_ipv4_chars(s: &Vec<char>) -> (r: bool)
    ensures
        r == is_ipv4(s@),
{
    let parts = split_chars(s, '.');
    if parts.len() != 4 {
        return false;
    }
    let mut i: usize = 0;
    while i < 4
        invariant
            views(&parts) == split(s@, '.'),
            parts.len() == 4,
            i <= 4,
            forall|k: int| 0 <= k < i ==> is_octet(#[trigger] split(s@, '.')[k]),
        decreases 4 - i,
    {
                assert(views(&parts)[i as int] == parts[i as int]@);
        if !is_octet_chars(&parts[i]) {
            return false;
        }
        i = i + 1;
    }
    true
}

/// A dotted-decimal IPv4 address: four parts of one to three digits, each at
/// most 255 and without a leading zero.
pub fn is_ipv4_address(s: &str) -> (r: bool)
    ensures
        r == is_ipv4(s@),
{
    let v = chars_of(s);
    is_ipv4_chars(&v)
}

fn is_hex_group_chars(s: &Vec<char>) -> (r: bool)
    ensures
        r == is_hex_group(s@),
{
    if s.len() < 1 || s.len() > 4 {
        return false;
    }
    let mut i: usize = 0;
    while i < s.len()
        invariant
            i <= s.len(),
            forall|k: int| 0 <= k < i ==> is_hex_digit(#[trigger] s@[k]),
        decreases s.len() - i,
    {
        if !is_hex_digit_char(s[i]) {
            return false;
        }
        i = i + 1;
    }
    true
}

/// The number of leading parts that are hexadecimal groups.
fn leading_hex_groups(parts: &Vec<Vec<char>>) -> (k: usize)
    ensures
        k <= parts.len(),
        forall|i: int| 0 <= i < k ==> is_hex_group(#[trigger] views(parts)[i]),
        k < parts.len() ==> !is_hex_group(views(parts)[k as int]),
{
    let mut k: usize = 0;
    while k < parts.len()
        invariant
            k <= parts.len(),
            forall|i: int| 0 <= i < k ==> is_hex_group(#[trigger] views(parts)[i]),
        decreases parts.len() - k,
    {
        assert(views(parts)[k as int] == parts[k as int]@);
        if !is_hex_group_chars(&parts[k]) {
            return k;
        }
        k = k + 1;
    }
    k
}

/// `group_count` of `parts`, where it is at most eight.
fn group_count_parts(parts: &Vec<Vec<char>>) -> (r: Option<usize>)
    ensures
        r is Some ==> group_count(views(parts)) == Some(r->0 as nat) && r->0 <= 8,
        r is None ==> group_count(views(parts)) is None || group_count(views(parts))->0 > 8,
{
    let ghost v = views(parts);
    if parts.len() > 8 {
        return None;
    }
    let k = leading_hex_groups(parts);
    if k == parts.len() {
        return Some(k);
    }
    if k + 1 == parts.len() && k + 2 <= 8 {
        assert(v.last() == parts[k as int]@);
        if is_ipv4_chars(&parts[k]) {
            assert(forall|i: int| 0 <= i < v.len() - 1 ==> is_hex_group(#[trigger] v[i]));
            return Some(k + 2);
        }
    }
    assert(!is_hex_group(v[k as int]));
    None
}

/// `run_groups` of `s`, where it is at most eight.
fn run_groups_chars(s: &Vec<char>) -> (r: Option<usize>)
    ensures
        r is Some ==> run_groups(s@) == Some(r->0 as nat) && r->0 <= 8,
        r is None ==> run_groups(s@) is None || run_groups(s@)->0 > 8,
{
    if s.len() == 0 {
        return Some(0);
    }
    let parts = split_chars(s, ':');
    group_count_parts(&parts)
}

/// `hex_run` of `s`, where it is at most eight.
fn hex_run_chars(s: &Vec<char>) -> (r: Option<usize>)
    ensures
        r is Some ==> hex_run(s@) == Some(r->0 as nat) && r->0 <= 8,
        r is None ==> hex_run(s@) is None || hex_run(s@)->0 > 8,
{
    if s.len() == 0 {
        return Some(0);
    }
    let parts = split_chars(s, ':');
    if parts.len() > 8 {
        return None;
    }
    let k = leading_hex_groups(&parts);
    if k == parts.len() {
        Some(k)
    } else {
        None
    }
}

fn slice_chars(s: &Vec<char>, lo: usize, hi: usize) -> (r: Vec<char>)
    requires
        lo <= hi <= s.len(),
    ensures
        r@ == s@.subrange(lo as int, hi as int),
{
    let mut r: Vec<char> = Vec::new();
    let mut i: usize = lo;
    while i < hi
        invariant
            lo <= i <= hi <= s.len(),
            r@ == s@.subrange(lo as int, i as int),
        decreases hi - i,
    {
        r.push(s[i]);
        i = i + 1;
        assert(r@ =~= s@.subrange(lo as int, i as int));
    }
    r
}

proof fn lemma_first_double_colon(s: Seq<char>, i: int)
    requires
        double_colon_at(s, i),
        forall|j: int| 0 <= j < i ==> !double_colon_at(s, j),
    ensures
        first_double_colon(s) == Some(i),
{
    let c = choose|c: int|
        double_colon_at(s, c) && forall|j: int| 0 <= j < c ==> !double_colon_at(s, j);
    assert(double_colon_at(s, c) && forall|j: int| 0 <= j < c ==> !double_colon_at(s, j));
    if c < i {
        assert(!double_colon_at(s, c));
    } else if c > i {
        assert(!double_colon_at(s, i));
    }
}

fn compressed_valid_chars(s: &Vec<char>, i: usize) -> (r: bool)
    requires
        double_colon_at(s@, i as int),
    ensures
        r == compressed_valid(s@, i as int),
{
    assert(i + 1 < s.len());
    let head = slice_chars(s, 0, i);
    let tail = slice_chars(s, i + 2, s.len());
    let h = hex_run_chars(&head);
    let t = run_groups_chars(&tail);
    match (h, t) {
        (Some(a), Some(b)) => a + b <= 7,
        _ => false,
    }
}

fn is_ipv6_chars(s: &Vec<char>) -> (r: bool)
    ensures
        r == is_ipv6(s@),
{
    let mut i: usize = 0;
    while i < s.len()
        invariant
            i <= s.len(),
            forall|j: int| 0 <= j < i ==> !double_colon_at(s@, j),
        decreases s.len() - i,
    {
        if i + 1 < s.len() && s[i] == ':' && s[i + 1] == ':' {
            proof {
                lemma_first_double_colon(s@, i as int);
            }
            return compressed_valid_chars(s, i);
        }
        assert(!double_colon_at(s@, i as int));
        i = i + 1;
    }
    assert(!exists|j: int| double_colon_at(s@, j));
    match run_groups_chars(s) {
        Some(n) => n == 8,
        None => false,
    }
}

/// A textual IPv6 address, with or without `::` compression and an IPv4 tail.
pub fn is_ipv6_address(s: &str) -> (r: bool)
    ensures
        r == is_ipv6(s@),
{
    let v = chars_of(s);
    is_ipv6_chars(&v)
}

} // verus!
