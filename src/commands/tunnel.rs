//! Resource ids of the tunnel command: `<prefix>_<rest>`.

use vstd::prelude::*;
use vstd::string::{StrSliceExecFns, StringExecFns};

verus! {

/// The kinds of resource that a tunnel reaches.
#[derive(Clone, Copy, Debug, PartialEq, Eq, Structural)]
pub enum Prefix {
    Deployment,
    Container,
}

/// Whether the text of `s` before its first `_` is `p`, for a `p` without `_`.
pub open spec fn has_segment(s: Seq<char>, p: Seq<char>) -> bool {
    &&& p.len() <= s.len()
    &&& s.subrange(0, p.len() as int) == p
    &&& (s.len() == p.len() || s[p.len() as int] == '_')
}

/// The prefix that an id starts with, if it is a known one.
pub open spec fn spec_prefix_of(s: Seq<char>) -> Option<Prefix> {
    if has_segment(s, "deployment"@) {
        Some(Prefix::Deployment)
    } else if has_segment(s, "container"@) {
        Some(Prefix::Container)
    } else {
        None
    }
}

fn starts_with_segment(s: &str, p: &str) -> (r: bool)
    ensures
        r == has_segment(s@, p@),
{
    let n = p.unicode_len();
    let m = s.unicode_len();
    if n > m {
        return false;
    }
    let mut i: usize = 0;
    while i < n
        invariant
            n == p@.len(),
            m == s@.len(),
            n <= m,
            i <= n,
            s@.subrange(0, i as int) == p@.subrange(0, i as int),
        decreases n - i,
    {
        if s.get_char(i) != p.get_char(i) {
            assert(s@.subrange(0, n as int)[i as int] != p@[i as int]);
            return false;
        }
        assert(s@.subrange(0, i + 1) =~= s@.subrange(0, i as int).push(s@[i as int]));
        assert(p@.subrange(0, i + 1) =~= p@.subrange(0, i as int).push(p@[i as int]));
        i = i + 1;
    }
    assert(p@.subrange(0, n as int) =~= p@);
    n == m || s.get_char(n) == '_'
}

/// The prefix of `id`, if it is a known one.
pub fn prefix_of(id: &str) -> (r: Option<Prefix>)
    ensures
        r == spec_prefix_of(id@),
{
    if starts_with_segment(id, "deployment") {
        Some(Prefix::Deployment)
    } else if starts_with_segment(id, "container") {
        Some(Prefix::Container)
    } else {
        None
    }
}

/// Pairs an id with the kind of resource that its prefix names.
pub fn get_id_with_prefix(id: Option<&str>) -> (r: Option<(Prefix, String)>)
    requires
        id matches Some(s) ==> spec_prefix_of(s@) is Some,
    ensures
        r is Some <==> id is Some,
        r matches Some(p) ==> p.0 == spec_prefix_of(id->0@)->0 && p.1@ == id->0@,
{
    match id {
        Some(s) => match prefix_of(s) {
            Some(p) => Some((p, String::from_str(s))),
            None => None,
        },
        None => None,
    }
}

/// Why a publish specification was refused.
#[derive(Clone, Copy, Debug, PartialEq, Eq, Structural)]
pub enum PublishError {
    /// More than three `:`-separated parts.
    InvalidFormat,
    /// A port that is not a `u16`.
    InvalidPort,
}

/// The first position at or after `from` where `s` holds `c`.
pub open spec fn find_char(s: Seq<char>, c: char, from: int) -> Option<int>
    decreases s.len() - from,
{
    if from < 0 || from >= s.len() {
        None
    } else if s[from] == c {
        Some(from)
    } else {
        find_char(s, c, from + 1)
    }
}

pub open spec fn is_digit(c: char) -> bool {
    '0' <= c && c <= '9'
}

pub open spec fn digit_value(c: char) -> nat {
    ((c as u32) - ('0' as u32)) as nat
}

/// The number that a string of decimal digits writes.
pub open spec fn digits_value(t: Seq<char>) -> nat
    decreases t.len(),
{
    if t.len() == 0 {
        0
    } else {
        digits_value(t.drop_last()) * 10 + digit_value(t.last())
    }
}

pub open spec fn all_digits(d: Seq<char>) -> bool {
    forall|i: int| 0 <= i < d.len() ==> is_digit(d[i])
}

/// A port's digits: without the sign, if it has one.
pub open spec fn unsigned_part(t: Seq<char>) -> Seq<char> {
    if t.len() > 0 && t[0] == '+' {
        t.drop_first()
    } else {
        t
    }
}

/// A port as `u16`'s `from_str` reads it: an optional `+`, then at least
/// one decimal digit, up to 65535.
pub open spec fn port_of(t: Seq<char>) -> Option<u16> {
    let d = unsigned_part(t);
    if d.len() > 0 && all_digits(d) && digits_value(d) <= 65535 {
        Some(digits_value(d) as u16)
    } else {
        None
    }
}

pub open spec fn both_ports(a: Seq<char>, b: Seq<char>) -> Result<(u16, u16), PublishError> {
    match (port_of(a), port_of(b)) {
        (Some(x), Some(y)) => Ok((x, y)),
        _ => Err(PublishError::InvalidPort),
    }
}

/// What a publish specification `[address:]local[:external]` means: the
/// address text, if one is given (loopback otherwise), the local port and
/// the external port. With two parts, a first part holding `.` is the
/// address and the second the port on both sides.
pub open spec fn publish_spec(s: Seq<char>) -> Result<(Option<Seq<char>>, u16, u16), PublishError> {
    match find_char(s, ':', 0) {
        None => match port_of(s) {
            Some(p) => Ok((None, p, p)),
            None => Err(PublishError::InvalidPort),
        },
        Some(i) => {
            let first = s.subrange(0, i);
            match find_char(s, ':', i + 1) {
                None => {
                    let second = s.subrange(i + 1, s.len() as int);
                    if first.contains('.') {
                        match port_of(second) {
                            Some(p) => Ok((Some(first), p, p)),
                            None => Err(PublishError::InvalidPort),
                        }
                    } else {
                        match both_ports(first, second) {
                            Ok((l, e)) => Ok((None, l, e)),
                            Err(err) => Err(err),
                        }
                    }
                },
                Some(j) => match find_char(s, ':', j + 1) {
                    Some(_) => Err(PublishError::InvalidFormat),
                    None => match both_ports(s.subrange(i + 1, j), s.subrange(j + 1, s.len() as int)) {
                        Ok((l, e)) => Ok((Some(first), l, e)),
                        Err(err) => Err(err),
                    },
                },
            }
        },
    }
}

fn find_char_from(s: &str, c: char, from: usize) -> (r: Option<usize>)
    requires
        from <= s@.len(),
    ensures
        match r {
            Some(i) => find_char(s@, c, from as int) == Some(i as int) && from <= i < s@.len()
                && s@[i as int] == c,
            None => find_char(s@, c, from as int) is None,
        },
{
    let n = s.unicode_len();
    let mut i = from;
    while i < n
        invariant
            n == s@.len(),
            from <= i <= n,
            find_char(s@, c, from as int) == find_char(s@, c, i as int),
        decreases n - i,
    {
        if s.get_char(i) == c {
            return Some(i);
        }
        i = i + 1;
    }
    None
}

/// Reads a port from the characters `from..to` of `s`.
fn parse_port(s: &str, from: usize, to: usize) -> (r: Option<u16>)
    requires
        from <= to <= s@.len(),
    ensures
        r == port_of(s@.subrange(from as int, to as int)),
{
    let ghost t = s@.subrange(from as int, to as int);
    let mut start = from;
    if from < to && s.get_char(from) == '+' {
        start = from + 1;
    }
    let ghost d = s@.subrange(start as int, to as int);
    assert(d =~= unsigned_part(t));
    if start == to {
        return None;
    }
    let mut acc: u32 = 0;
    let mut k = start;
    while k < to
        invariant
            start <= k <= to <= s@.len(),
            d == s@.subrange(start as int, to as int),
            t == s@.subrange(from as int, to as int),
            d == unsigned_part(t),
            d.len() > 0,
            forall|i: int| 0 <= i < k - start ==> is_digit(d[i]),
            acc == (if digits_value(d.subrange(0, k - start)) > 65535 { 65536 } else { digits_value(d.subrange(0, k - start)) }),
        decreases to - k,
    {
        let c = s.get_char(k);
        if c < '0' || c > '9' {
            assert(d[k - start] == c);
            assert(!is_digit(d[k - start]));
            return None;
        }
        let ghost pre = d.subrange(0, k - start);
        let ghost next = d.subrange(0, k + 1 - start);
        assert(next.drop_last() =~= pre);
        assert(next.last() == c);
        let v = (c as u32) - ('0' as u32);
        if acc == 65536 || acc * 10 + v > 65535 {
            acc = 65536;
        } else {
            acc = acc * 10 + v;
        }
        k = k + 1;
    }
    assert(d.subrange(0, d.len() as int) =~= d);
    if acc > 65535 {
        None
    } else {
        Some(acc as u16)
    }
}

/// Reads a publish specification `[address:]local[:external]`.
pub fn parse_publish(publish: &str) -> (r: Result<(Option<String>, u16, u16), PublishError>)
    ensures
        match r {
            Ok((a, l, e)) => publish_spec(publish@) == Ok::<(Option<Seq<char>>, u16, u16), PublishError>(
                (opt_seq(a), l, e),
            ),
            Err(err) => publish_spec(publish@) == Err::<(Option<Seq<char>>, u16, u16), PublishError>(err),
        },
{
    let s = publish;
    let n = s.unicode_len();
    match find_char_from(s, ':', 0) {
        None => {
            assert(s@.subrange(0, n as int) =~= s@);
            match parse_port(s, 0, n) {
                Some(p) => Ok((None, p, p)),
                None => Err(PublishError::InvalidPort),
            }
        },
        Some(i) => {
            let first = s.substring_char(0, i);
            match find_char_from(s, ':', i + 1) {
                None => {
                    match find_char_from(first, '.', 0) {
                        Some(k) => {
                            assert(first@[k as int] == '.');
                            match parse_port(s, i + 1, n) {
                                Some(p) => Ok((Some(String::from_str(first)), p, p)),
                                None => Err(PublishError::InvalidPort),
                            }
                        },
                        None => {
                            proof {
                                lemma_find_none_not_contains(first@, '.', 0);
                            }
                            match parse_port(s, 0, i) {
                                Some(l) => match parse_port(s, i + 1, n) {
                                    Some(e) => Ok((None, l, e)),
                                    None => Err(PublishError::InvalidPort),
                                },
                                None => Err(PublishError::InvalidPort),
                            }
                        },
                    }
                },
                Some(j) => match find_char_from(s, ':', j + 1) {
                    Some(_) => Err(PublishError::InvalidFormat),
                    None => match parse_port(s, i + 1, j) {
                        Some(l) => match parse_port(s, j + 1, n) {
                            Some(e) => Ok((Some(String::from_str(first)), l, e)),
                            None => Err(PublishError::InvalidPort),
                        },
                        None => Err(PublishError::InvalidPort),
                    },
                },
            }
        },
    }
}

pub open spec fn opt_seq(a: Option<String>) -> Option<Seq<char>> {
    match a {
        Some(t) => Some(t@),
        None => None,
    }
}

proof fn lemma_find_none_not_contains(s: Seq<char>, c: char, from: int)
    requires
        0 <= from <= s.len(),
        find_char(s, c, from) is None,
    ensures
        forall|i: int| from <= i < s.len() ==> s[i] != c,
    decreases s.len() - from,
{
    if from < s.len() {
        lemma_find_none_not_contains(s, c, from + 1);
    }
}

} // verus!
