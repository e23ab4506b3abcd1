//! Token search in header values: a value is a comma-separated list whose
//! items are trimmed of ASCII whitespace and compared ignoring ASCII case.

use vstd::prelude::*;

verus! {

use crate::bytes::{eq_ci, lower_byte, to_lower};
use crate::headers::Headers;

/// ASCII whitespace, as the upgrade-detection rule trims it.
pub open spec fn is_ws(b: u8) -> bool {
    b == 9 || b == 10 || b == 12 || b == 13 || b == 32
}

/// Position `m` is preceded only by whitespace back to a comma or the start.
pub open spec fn left_delim(v: Seq<u8>, m: int) -> bool
    decreases m,
{
    if m <= 0 {
        true
    } else if v[m - 1] == 44 {
        true
    } else if is_ws(v[m - 1]) {
        left_delim(v, m - 1)
    } else {
        false
    }
}

/// Position `m` is followed only by whitespace up to a comma or the end.
pub open spec fn right_delim(v: Seq<u8>, m: int) -> bool
    decreases v.len() - m,
{
    if m >= v.len() {
        true
    } else if v[m] == 44 {
        true
    } else if is_ws(v[m]) {
        right_delim(v, m + 1)
    } else {
        false
    }
}

/// The token stands at position `m` of the list `v`: it matches ignoring
/// ASCII case, and nothing but whitespace separates it from the enclosing
/// commas (or the ends of the value).
pub open spec fn token_at(v: Seq<u8>, tok: Seq<u8>, m: int) -> bool {
    &&& 0 <= m
    &&& m + tok.len() <= v.len()
    &&& eq_ci(v.subrange(m, m + tok.len() as int), tok)
    &&& left_delim(v, m)
    &&& right_delim(v, m + tok.len() as int)
}

/// The comma-separated list `v` carries the token as one of its items.
pub open spec fn has_token(v: Seq<u8>, tok: Seq<u8>) -> bool {
    exists|m: int| token_at(v, tok, m)
}

/// Some entry named `name` carries the token in its value.
pub open spec fn header_has_token(
    h: Seq<(Seq<u8>, Seq<u8>)>,
    name: Seq<u8>,
    tok: Seq<u8>,
) -> bool {
    exists|i: int|
        0 <= i < h.len() && eq_ci(#[trigger] h[i].0, name) && has_token(h[i].1, tok)
}

/// Whether the byte is ASCII whitespace.
fn is_ws_byte(b: u8) -> (r: bool)
    ensures
        r == is_ws(b),
{
    b == 9 || b == 10 || b == 12 || b == 13 || b == 32
}

/// Scan left from `m`: only whitespace up to a comma or the start.
fn left_delimited(v: &[u8], m: usize) -> (r: bool)
    requires
        m <= v@.len(),
    ensures
        r == left_delim(v@, m as int),
    decreases m,
{
    if m == 0 {
        true
    } else if v[m - 1] == 44 {
        true
    } else if is_ws_byte(v[m - 1]) {
        left_delimited(v, m - 1)
    } else {
        false
    }
}

/// Scan right from `m`: only whitespace up to a comma or the end.
fn right_delimited(v: &[u8], m: usize) -> (r: bool)
    requires
        m <= v@.len(),
    ensures
        r == right_delim(v@, m as int),
    decreases v@.len() - m,
{
    if m == v.len() {
        true
    } else if v[m] == 44 {
        true
    } else if is_ws_byte(v[m]) {
        right_delimited(v, m + 1)
    } else {
        false
    }
}

/// Compare `tok` against `v` at offset `m`, ignoring ASCII case.
fn matches_at(v: &[u8], m: usize, tok: &[u8]) -> (r: bool)
    requires
        m + tok@.len() <= v@.len(),
    ensures
        r == eq_ci(v@.subrange(m as int, m + tok@.len()), tok@),
{
    let ghost seg = v@.subrange(m as int, m + tok@.len());
    let vlen: usize = v.len();
    let tlen: usize = tok.len();
    let mut k: usize = 0;
    while k < tlen
        invariant
            vlen == v@.len(),
            tlen == tok@.len(),
            m + tlen <= vlen,
            seg == v@.subrange(m as int, m + tok@.len()),
            k <= tlen,
            forall|j: int| 0 <= j < k ==> lower_byte(seg[j]) == lower_byte(tok@[j]),
        decreases tok@.len() - k,
    {
        if to_lower(v[m + k]) != to_lower(tok[k]) {
            assert(crate::bytes::lower(seg)[k as int] != crate::bytes::lower(tok@)[k as int]);
            return false;
        }
        k = k + 1;
    }
    assert(crate::bytes::lower(seg) =~= crate::bytes::lower(tok@));
    true
}

/// Decide whether the token stands at position `m`.
fn token_at_pos(v: &[u8], m: usize, tok: &[u8]) -> (r: bool)
    requires
        m + tok@.len() <= v@.len(),
    ensures
        r == token_at(v@, tok@, m as int),
{
    let vlen: usize = v.len();
    assert(m + tok@.len() <= vlen);
    matches_at(v, m, tok) && left_delimited(v, m) && right_delimited(v, m + tok.len())
}

/// Search the comma-separated list `v` for the token.
pub fn value_has_token(v: &[u8], tok: &[u8]) -> (r: bool)
    ensures
        r == has_token(v@, tok@),
{
    if tok.len() > v.len() {
        assert(forall|m: int| !token_at(v@, tok@, m));
        return false;
    }
    let vlen: usize = v.len();
    let tlen: usize = tok.len();
    let last_start: usize = vlen - tlen;
    let mut m: usize = 0;
    while m < last_start
        invariant
            vlen == v@.len(),
            tlen == tok@.len(),
            tlen <= vlen,
            last_start == vlen - tlen,
            m <= last_start,
            forall|k: int| 0 <= k < m ==> !token_at(v@, tok@, k),
        decreases last_start - m,
    {
        if token_at_pos(v, m, tok) {
            return true;
        }
        m = m + 1;
    }
    if token_at_pos(v, last_start, tok) {
        return true;
    }
    assert(forall|k: int| !token_at(v@, tok@, k));
    false
}

/// Search every entry of the given name for the token.
pub fn headers_have_token(h: &Headers, name: &[u8], tok: &[u8]) -> (r: bool)
    ensures
        r == header_has_token(h@, name@, tok@),
{
    let mut i: usize = 0;
    while i < h.entries.len()
        invariant
            i <= h@.len(),
            h@.len() == h.entries@.len(),
            forall|k: int|
                0 <= k < i ==> !(eq_ci(#[trigger] h@[k].0, name@) && has_token(h@[k].1, tok@)),
        decreases h@.len() - i,
    {
        if crate::bytes::eq_ignore_case(h.entries[i].name.as_slice(), name) {
            if value_has_token(h.entries[i].value.as_slice(), tok) {
                assert(eq_ci(h@[i as int].0, name@) && has_token(h@[i as int].1, tok@));
                return true;
            }
        }
        assert(!(eq_ci(h@[i as int].0, name@) && has_token(h@[i as int].1, tok@)));
        i = i + 1;
    }
    false
}

} // verus!
