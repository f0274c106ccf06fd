//! IPv4 address and CIDR prefix parsing, prefix masks and overlap tests.
use vstd::prelude::*;

use crate::text::{
    all_digits, chars_of, digits_value, has_char, is_digit, parse_u32, parse_u32_chars, trim,
    trim_chars,
};

verus! {

broadcast use vstd::seq_lib::group_seq_properties;

/// Whether `i` is the first position of `c` in `s`.
pub open spec fn is_first_index(s: Seq<char>, c: char, i: int) -> bool {
    0 <= i < s.len() && s[i] == c && forall|j: int| 0 <= j < i ==> s[j] != c
}

/// The first position of `c` in `s`.
pub open spec fn first_index_of(s: Seq<char>, c: char) -> Option<int> {
    if has_char(s, c) {
        Some(choose|i: int| is_first_index(s, c, i))
    } else {
        None
    }
}

/// `str::split_once` on a character: the parts before and after its first occurrence.
pub open spec fn split_once(s: Seq<char>, c: char) -> Option<(Seq<char>, Seq<char>)> {
    match first_index_of(s, c) {
        Some(i) => Some((s.take(i), s.skip(i + 1))),
        None => None,
    }
}

proof fn lemma_first_index(s: Seq<char>, c: char, i: int)
    requires
        is_first_index(s, c, i),
    ensures
        first_index_of(s, c) == Some(i),
{
    assert(has_char(s, c));
    let k = choose|k: int| is_first_index(s, c, k);
    assert(is_first_index(s, c, k));
    if k < i {
        assert(s[k] != c);
    } else if k > i {
        assert(s[i] != c);
    }
}

/// Position of the first occurrence of `c`.
pub fn find_char(v: &Vec<char>, c: char) -> (r: Option<usize>)
    ensures
        match r {
            Some(i) => first_index_of(v@, c) == Some(i as int) && is_first_index(v@, c, i as int),
            None => first_index_of(v@, c) is None,
        },
{
    let mut i: usize = 0;
    while i < v.len()
        invariant
            i <= v@.len(),
            forall|j: int| 0 <= j < i ==> v@[j] != c,
        decreases v@.len() - i,
    {
        if v[i] == c {
            proof {
                lemma_first_index(v@, c, i as int);
            }
            return Some(i);
        }
        i = i + 1;
    }
    assert(!has_char(v@, c));
    None
}

/// Elements `from..to` of `v`.
pub fn slice_chars(v: &Vec<char>, from: usize, to: usize) -> (r: Vec<char>)
    requires
        from <= to <= v@.len(),
    ensures
        r@ == v@.subrange(from as int, to as int),
{
    let mut r: Vec<char> = Vec::new();
    let mut k: usize = from;
    while k < to
        invariant
            from <= k <= to <= v@.len(),
            r@ == v@.subrange(from as int, k as int),
        decreases to - k,
    {
        r.push(v[k]);
        assert(v@.subrange(from as int, k + 1) =~= v@.subrange(from as int, k as int).push(v@[k as int]));
        k = k + 1;
    }
    r
}

/// Executable form of [`split_once`].
pub fn split_once_chars(v: &Vec<char>, c: char) -> (r: Option<(Vec<char>, Vec<char>)>)
    ensures
        match r {
            Some((a, b)) => split_once(v@, c) == Some((a@, b@)),
            None => split_once(v@, c) is None,
        },
{
    match find_char(v, c) {
        Some(i) => {
            assert(i < v.len());
            let a = slice_chars(v, 0, i);
            let b = slice_chars(v, i + 1, v.len());
            assert(a@ =~= v@.take(i as int));
            assert(b@ =~= v@.skip(i + 1));
            Some((a, b))
        },
        None => None,
    }
}

/// One dotted-decimal octet: one to three ASCII digits, no leading zero, at most 255.
pub open spec fn octet(p: Seq<char>) -> Option<nat> {
    if 1 <= p.len() <= 3 && all_digits(p) && !(p.len() > 1 && p[0] == '0') && digits_value(p)
        <= 255 {
        Some(digits_value(p))
    } else {
        None
    }
}

/// `Ipv4Addr::from_str` followed by `u32::from`: four octets separated by dots,
/// combined most significant first.
pub open spec fn parse_ipv4(s: Seq<char>) -> Option<u32> {
    match split_once(s, '.') {
        Some((a, r1)) => match split_once(r1, '.') {
            Some((b, r2)) => match split_once(r2, '.') {
                Some((c, d)) => match (octet(a), octet(b), octet(c), octet(d)) {
                    (Some(x), Some(y), Some(z), Some(w)) => Some(
                        (x * 16777216 + y * 65536 + z * 256 + w) as u32,
                    ),
                    _ => None,
                },
                None => None,
            },
            None => None,
        },
        None => None,
    }
}

/// Executable form of [`octet`].
pub fn octet_chars(p: &Vec<char>) -> (r: Option<u32>)
    ensures
        match r {
            Some(x) => octet(p@) == Some(x as nat),
            None => octet(p@) is None,
        },
{
    if p.len() < 1 || p.len() > 3 {
        return None;
    }
    if p.len() > 1 && p[0] == '0' {
        return None;
    }
    match parse_u32_chars(p) {
        Some(x) => {
            if p[0] == '+' {
                assert(!is_digit(p@[0]));
                assert(!all_digits(p@));
                return None;
            }
            assert(p@.skip(0) =~= p@);
            if x <= 255 {
                Some(x)
            } else {
                None
            }
        },
        None => {
            assert(p@.len() > 0 && p@[0] != '+' ==> p@.skip(0) =~= p@);
            proof {
                if p@[0] != '+' {
                    assert(p@.skip(0) =~= p@);
                }
            }
            None
        },
    }
}

/// Parses a dotted-decimal IPv4 address into its 32-bit value.
pub fn parse_ipv4_chars(s: &Vec<char>) -> (r: Option<u32>)
    ensures
        r == parse_ipv4(s@),
{
    let (a, r1) = match split_once_chars(s, '.') {
        Some(x) => x,
        None => return None,
    };
    let (b, r2) = match split_once_chars(&r1, '.') {
        Some(x) => x,
        None => return None,
    };
    let (c, d) = match split_once_chars(&r2, '.') {
        Some(x) => x,
        None => return None,
    };
    let x = match octet_chars(&a) {
        Some(v) => v,
        None => return None,
    };
    let y = match octet_chars(&b) {
        Some(v) => v,
        None => return None,
    };
    let z = match octet_chars(&c) {
        Some(v) => v,
        None => return None,
    };
    let w = match octet_chars(&d) {
        Some(v) => v,
        None => return None,
    };
    Some(x * 16777216 + y * 65536 + z * 256 + w)
}

/// `parse_cidr`: `ip/len` with surrounding whitespace allowed around both
/// parts and `len <= 32`, as (network value, prefix length).
pub open spec fn parse_cidr(s: Seq<char>) -> Option<(u32, u32)> {
    match split_once(s, '/') {
        Some((ip, len)) => match (parse_ipv4(trim(ip)), parse_u32(trim(len))) {
            (Some(n), Some(l)) => if l <= 32 {
                Some((n, l))
            } else {
                None
            },
            _ => None,
        },
        None => None,
    }
}

/// Parses a CIDR prefix such as `192.168.1.0/24`.
pub fn parse_cidr_str(s: &str) -> (r: Option<(u32, u32)>)
    ensures
        r == parse_cidr(s@),
{
    let v = chars_of(s);
    let (ip, len) = match split_once_chars(&v, '/') {
        Some(x) => x,
        None => return None,
    };
    let n = match parse_ipv4_chars(&trim_chars(&ip)) {
        Some(n) => n,
        None => return None,
    };
    let l = match parse_u32_chars(&trim_chars(&len)) {
        Some(l) => l,
        None => return None,
    };
    if l > 32 {
        None
    } else {
        Some((n, l))
    }
}

/// The netmask of a prefix length (`len <= 32`).
pub open spec fn prefix_mask(len: u32) -> u32 {
    if len == 0 {
        0
    } else {
        (0xffff_ffffu32 << ((32 - len) as u32)) as u32
    }
}

/// Executable form of [`prefix_mask`].
pub fn mask_of(len: u32) -> (m: u32)
    requires
        len <= 32,
    ensures
        m == prefix_mask(len),
{
    if len == 0 {
        0
    } else {
        0xffff_ffffu32 << (32 - len)
    }
}

/// Whether two prefixes share addresses: equal under the shorter mask.
pub open spec fn cidr_overlaps(na: u32, pa: u32, nb: u32, pb: u32) -> bool {
    let m = prefix_mask(if pa <= pb { pa } else { pb });
    (na & m) == (nb & m)
}

/// Whether the prefixes `na/pa` and `nb/pb` overlap (the shorter prefix
/// length must be a valid one; the longer one is not used).
pub fn cidr_overlap(na: u32, pa: u32, nb: u32, pb: u32) -> (r: bool)
    requires
        pa <= 32 || pb <= 32,
    ensures
        r == cidr_overlaps(na, pa, nb, pb),
{
    let min_len = if pa <= pb { pa } else { pb };
    let m = mask_of(min_len);
    (na & m) == (nb & m)
}

/// Overlap does not depend on the order of the two prefixes.
pub proof fn lemma_cidr_overlap_symmetric(na: u32, pa: u32, nb: u32, pb: u32)
    ensures
        cidr_overlaps(na, pa, nb, pb) == cidr_overlaps(nb, pb, na, pa),
{
}

/// Every prefix overlaps itself.
pub proof fn lemma_cidr_overlap_reflexive(n: u32, p: u32)
    ensures
        cidr_overlaps(n, p, n, p),
{
}

/// A prefix of length zero overlaps every prefix.
pub proof fn lemma_cidr_default_route_overlaps_all(na: u32, nb: u32, pb: u32)
    ensures
        cidr_overlaps(na, 0, nb, pb),
{
    assert((na & 0u32) == 0u32 && (nb & 0u32) == 0u32) by (bit_vector);
}

/// A prefix mask of length `len` is `len` one bits followed by zeros: the
/// complement of all ones shifted right by `len` (so `/30` gives
/// `255.255.255.252` and `/25` gives `255.255.255.128`).
pub proof fn lemma_prefix_mask_leading_ones(len: u32)
    requires
        len <= 32,
    ensures
        prefix_mask(len) == !(0xffff_ffffu32 >> len),
{
    if len == 0 {
        assert(!(0xffff_ffffu32 >> 0u32) == 0u32) by (bit_vector);
    } else {
        assert((0xffff_ffffu32 << ((32 - len) as u32)) as u32 == !(0xffff_ffffu32 >> len))
            by (bit_vector)
            requires
                1 <= len <= 32,
        ;
    }
}

} // verus!
