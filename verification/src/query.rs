//! Lookup of a query parameter in a raw query string, as the HTTP front end
//! performs it: the query is split on `&`; a pair supplies the name either as
//! a `name=` prefix or as the bare pair itself; the value is the segment
//! between the first `=` and the second (empty when there is no `=`); the
//! value is then decoded by turning `+` into a space, resolving `%XX` escapes,
//! and decoding the bytes as UTF-8, lossily.

use vstd::prelude::*;
use crate::bytes::{find_from, spec_find, is_prefix, find_byte, bytes_eq, starts_with, subvec};
use crate::unicode::{utf8_lossy, lossy_utf8};

verus! {

/// `&`
pub const AMP: u8 = 0x26;

/// `=`
pub const EQUALS: u8 = 0x3d;

/// `+`
pub const PLUS: u8 = 0x2b;

/// ` `
pub const SPACE: u8 = 0x20;

/// `%`
pub const PERCENT: u8 = 0x25;

/// Whether one `&`-separated pair supplies the parameter `name`: it either
/// starts with `name=` or is exactly the bare name.
pub open spec fn pair_matches(pair: Seq<u8>, name: Seq<u8>) -> bool {
    is_prefix(name + seq![EQUALS], pair) || pair == name
}

/// The raw value carried by a pair: the segment strictly between the first
/// `=` and the second one (or the end), and empty when the pair has no `=`.
pub open spec fn pair_value(pair: Seq<u8>) -> Seq<u8> {
    match spec_find(pair, EQUALS) {
        None => Seq::<u8>::empty(),
        Some(i) => {
            let rest = pair.subrange(i + 1, pair.len() as int);
            match spec_find(rest, EQUALS) {
                None => rest,
                Some(j) => rest.subrange(0, j),
            }
        },
    }
}

/// The raw (still encoded) value of the first pair at or after `pos` that
/// supplies `name`, scanning the `&`-separated pairs of `q` left to right.
pub open spec fn raw_param_from(q: Seq<u8>, name: Seq<u8>, pos: int) -> Option<Seq<u8>>
    decreases q.len() - pos,
        when 0 <= pos <= q.len()
        via raw_param_from_decreases
{
    let end = match find_from(q, AMP, pos) {
        Some(i) => i,
        None => q.len() as int,
    };
    let pair = q.subrange(pos, end);
    if pair_matches(pair, name) {
        Some(pair_value(pair))
    } else if end == q.len() {
        None
    } else {
        raw_param_from(q, name, end + 1)
    }
}

/// Position and contents of the first occurrence of `c` at or after `i`.
pub proof fn lemma_find_from(s: Seq<u8>, c: u8, i: int)
    requires
        0 <= i <= s.len(),
    ensures
        match find_from(s, c, i) {
            Some(j) => i <= j < s.len() && s[j] == c && (forall|k: int|
                i <= k < j ==> s[k] != c),
            None => forall|k: int| i <= k < s.len() ==> s[k] != c,
        },
    decreases s.len() - i,
{
    if i < s.len() && s[i] != c {
        lemma_find_from(s, c, i + 1);
    }
}

#[via_fn]
proof fn raw_param_from_decreases(q: Seq<u8>, name: Seq<u8>, pos: int) {
    lemma_find_from(q, AMP, pos);
}

/// Whether `b` is an ASCII hexadecimal digit.
pub open spec fn is_hex_digit(b: u8) -> bool {
    (0x30 <= b <= 0x39) || (0x41 <= b <= 0x46) || (0x61 <= b <= 0x66)
}

/// Numeric value of an ASCII hexadecimal digit.
pub open spec fn hex_value(b: u8) -> u8 {
    if 0x30 <= b <= 0x39 {
        (b - 0x30) as u8
    } else if 0x41 <= b <= 0x46 {
        (b - 0x41 + 10) as u8
    } else if 0x61 <= b <= 0x66 {
        (b - 0x61 + 10) as u8
    } else {
        0
    }
}

/// `s` with every `+` replaced by a space.
pub open spec fn plus_to_space(s: Seq<u8>) -> Seq<u8> {
    s.map_values(|b: u8| if b == PLUS { SPACE } else { b })
}

/// Percent-decoding: a `%` followed by two hexadecimal digits becomes the
/// byte they denote; any other byte, a lone `%` included, passes unchanged.
pub open spec fn percent_decode(s: Seq<u8>) -> Seq<u8>
    decreases s.len(),
{
    if s.len() == 0 {
        Seq::<u8>::empty()
    } else if s[0] == PERCENT && s.len() >= 3 && is_hex_digit(s[1]) && is_hex_digit(s[2]) {
        seq![(hex_value(s[1]) * 16 + hex_value(s[2])) as u8] + percent_decode(
            s.subrange(3, s.len() as int),
        )
    } else {
        seq![s[0]] + percent_decode(s.subrange(1, s.len() as int))
    }
}

/// The decoded value of query parameter `name` in the raw query string `q`,
/// if any pair supplies it.
pub open spec fn spec_query_param(q: Seq<u8>, name: Seq<u8>) -> Option<Seq<u8>> {
    match raw_param_from(q, name, 0) {
        Some(raw) => Some(utf8_lossy(percent_decode(plus_to_space(raw)))),
        None => None,
    }
}

/// `s` with every `+` replaced by a space.
pub fn plus_to_space_vec(s: &Vec<u8>) -> (r: Vec<u8>)
    ensures
        r@ == plus_to_space(s@),
{
    let mut r: Vec<u8> = Vec::new();
    let mut i: usize = 0;
    while i < s.len()
        invariant
            0 <= i <= s@.len(),
            r@ == plus_to_space(s@.subrange(0, i as int)),
        decreases s@.len() - i,
    {
        if s[i] == PLUS {
            r.push(SPACE);
        } else {
            r.push(s[i]);
        }
        proof {
            assert(s@.subrange(0, i + 1).map_values(
                |b: u8| if b == PLUS { SPACE } else { b },
            ) =~= s@.subrange(0, i as int).map_values(|b: u8| if b == PLUS { SPACE } else { b })
                + seq![if s@[i as int] == PLUS { SPACE } else { s@[i as int] }]);
        }
        i = i + 1;
    }
    proof {
        assert(s@.subrange(0, s@.len() as int) =~= s@);
    }
    r
}

/// Percent-decode `s`, resolving each `%XX` escape to its byte.
pub fn percent_decode_vec(s: &Vec<u8>) -> (r: Vec<u8>)
    ensures
        r@ == percent_decode(s@),
{
    let mut r: Vec<u8> = Vec::new();
    let mut i: usize = 0;
    proof {
        assert(s@.subrange(0, s@.len() as int) =~= s@);
        assert(Seq::<u8>::empty() + percent_decode(s@) =~= percent_decode(s@));
    }
    while i < s.len()
        invariant
            0 <= i <= s@.len(),
            percent_decode(s@) == r@ + percent_decode(s@.subrange(i as int, s@.len() as int)),
        decreases s@.len() - i,
    {
        let ghost pre = r@;
        let ghost tail = s@.subrange(i as int, s@.len() as int);
        if s[i] == PERCENT && s.len() - i >= 3 && hex_digit_value(s[i + 1]).is_some()
            && hex_digit_value(s[i + 2]).is_some() {
            let hi = hex_digit_value(s[i + 1]).unwrap();
            let lo = hex_digit_value(s[i + 2]).unwrap();
            r.push(hi * 16 + lo);
            proof {
                assert(tail.len() >= 3 && tail[0] == PERCENT && is_hex_digit(tail[1])
                    && is_hex_digit(tail[2]));
                assert(tail.subrange(3, tail.len() as int) =~= s@.subrange(
                    i + 3,
                    s@.len() as int,
                ));
                assert(r@ =~= pre + seq![(hex_value(tail[1]) * 16 + hex_value(tail[2])) as u8]);
            }
            i = i + 3;
        } else {
            r.push(s[i]);
            proof {
                assert(!(tail[0] == PERCENT && tail.len() >= 3 && is_hex_digit(tail[1])
                    && is_hex_digit(tail[2])));
                assert(tail.subrange(1, tail.len() as int) =~= s@.subrange(
                    i + 1,
                    s@.len() as int,
                ));
                assert(r@ =~= pre + seq![tail[0]]);
            }
            i = i + 1;
        }
    }
    proof {
        assert(s@.subrange(s@.len() as int, s@.len() as int) =~= Seq::<u8>::empty());
    }
    r
}

/// Numeric value of an ASCII hexadecimal digit, `None` for any other byte.
pub fn hex_digit_value(b: u8) -> (r: Option<u8>)
    ensures
        r is Some <==> is_hex_digit(b),
        is_hex_digit(b) ==> r == Some(hex_value(b)),
{
    if 0x30 <= b && b <= 0x39 {
        Some(b - 0x30)
    } else if 0x41 <= b && b <= 0x46 {
        Some(b - 0x41 + 10)
    } else if 0x61 <= b && b <= 0x66 {
        Some(b - 0x61 + 10)
    } else {
        None
    }
}

/// Decoded value of query parameter `name` in the raw query string `q`:
/// the first `&`-separated pair that supplies the name wins, and its raw
/// value is `+`-unescaped, percent-decoded and lossily UTF-8 decoded.
pub fn query_param(q: &Vec<u8>, name: &Vec<u8>) -> (r: Option<Vec<u8>>)
    ensures
        match spec_query_param(q@, name@) {
            Some(v) => r is Some && r->0@ == v,
            None => r is None,
        },
{
    let mut pattern = name.clone();
    pattern.push(EQUALS);
    proof {
        assert(pattern@ =~= name@ + seq![EQUALS]);
    }
    let mut pos: usize = 0;
    loop
        invariant
            0 <= pos <= q@.len(),
            pattern@ == name@ + seq![EQUALS],
            raw_param_from(q@, name@, 0) == raw_param_from(q@, name@, pos as int),
        decreases q@.len() - pos,
    {
        proof {
            lemma_find_from(q@, AMP, pos as int);
        }
        let end = match find_byte_from(q, AMP, pos) {
            Some(i) => i,
            None => q.len(),
        };
        assert(pos <= end <= q@.len());
        assert(end == match find_from(q@, AMP, pos as int) {
            Some(i) => i,
            None => q@.len() as int,
        });
        let pair = subvec(q, pos, end);
        let matched = starts_with(&pair, &pattern) || bytes_eq(&pair, name);
        if matched {
            assert(raw_param_from(q@, name@, pos as int) == Some(pair_value(pair@)));
            let raw = pair_value_vec(&pair);
            let decoded = lossy_utf8(percent_decode_vec(&plus_to_space_vec(&raw)));
            return Some(decoded);
        }
        if end == q.len() {
            assert(raw_param_from(q@, name@, pos as int) is None);
            return None;
        }
        assert(raw_param_from(q@, name@, pos as int) == raw_param_from(q@, name@, end + 1));
        pos = end + 1;
    }
}

/// First occurrence of `c` in `s` at or after `from`.
pub fn find_byte_from(s: &Vec<u8>, c: u8, from: usize) -> (r: Option<usize>)
    requires
        from <= s@.len(),
    ensures
        match r {
            Some(i) => find_from(s@, c, from as int) == Some(i as int) && from <= i < s@.len(),
            None => find_from(s@, c, from as int) is None,
        },
{
    let mut i: usize = from;
    while i < s.len()
        invariant
            from <= i <= s@.len(),
            find_from(s@, c, from as int) == find_from(s@, c, i as int),
        decreases s@.len() - i,
    {
        if s[i] == c {
            return Some(i);
        }
        assert(find_from(s@, c, i as int) == find_from(s@, c, i + 1));
        i = i + 1;
    }
    None
}

/// The raw value carried by one `&`-separated pair.
pub fn pair_value_vec(pair: &Vec<u8>) -> (r: Vec<u8>)
    ensures
        r@ == pair_value(pair@),
{
    proof {
        lemma_find_from(pair@, EQUALS, 0);
    }
    match find_byte(pair, EQUALS) {
        None => Vec::new(),
        Some(i) => {
            let n = pair.len();
            let rest = subvec(pair, i + 1, n);
            proof {
                lemma_find_from(rest@, EQUALS, 0);
            }
            match find_byte(&rest, EQUALS) {
                None => rest,
                Some(j) => subvec(&rest, 0, j),
            }
        },
    }
}

} // verus!

