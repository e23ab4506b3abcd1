//! The header injector: set-or-replace of the two cross-origin-isolation
//! headers on a response's header mapping, and the proof that applying it
//! twice changes nothing further.

use vstd::prelude::*;

verus! {

use crate::bytes::{ascii_of, ascii_bytes, eq_ci, lower};
use crate::headers::{Headers, set_value, remove_name, lemma_remove_push, lemma_remove_remove};

/// Name of the opener-policy header.
pub open spec fn coop_name() -> Seq<u8> {
    ascii_of("Cross-Origin-Opener-Policy"@)
}

/// Value the injector gives the opener-policy header.
pub open spec fn coop_value() -> Seq<u8> {
    ascii_of("same-origin"@)
}

/// Name of the embedder-policy header.
pub open spec fn coep_name() -> Seq<u8> {
    ascii_of("Cross-Origin-Embedder-Policy"@)
}

/// Value the injector gives the embedder-policy header.
pub open spec fn coep_value() -> Seq<u8> {
    ascii_of("require-corp"@)
}

/// A header mapping after injection: both isolation headers set-or-replaced,
/// each present exactly once, every other entry kept in order.
pub open spec fn injected(h: Seq<(Seq<u8>, Seq<u8>)>) -> Seq<(Seq<u8>, Seq<u8>)> {
    set_value(set_value(h, coop_name(), coop_value()), coep_name(), coep_value())
}

/// The head of a response on its way back to the caller: the status code
/// and the header mapping. The body streams through the caller untouched.
pub struct ResponseHead {
    pub status: u16,
    pub headers: Headers,
}

/// Set the two cross-origin-isolation headers on a response header mapping,
/// overwriting any value they already had and never duplicating them.
pub fn inject_isolation_headers(h: &mut Headers)
    ensures
        final(h)@ == injected(old(h)@),
{
    proof {
        reveal_strlit("Cross-Origin-Opener-Policy");
        reveal_strlit("same-origin");
        reveal_strlit("Cross-Origin-Embedder-Policy");
        reveal_strlit("require-corp");
        assert(vstd::string::is_ascii("Cross-Origin-Opener-Policy"));
        assert(vstd::string::is_ascii("same-origin"));
        assert(vstd::string::is_ascii("Cross-Origin-Embedder-Policy"));
        assert(vstd::string::is_ascii("require-corp"));
    }
    let coop = ascii_bytes("Cross-Origin-Opener-Policy");
    let coop_val = ascii_bytes("same-origin");
    let coep = ascii_bytes("Cross-Origin-Embedder-Policy");
    let coep_val = ascii_bytes("require-corp");
    h.set(coop.as_slice(), coop_val.as_slice());
    h.set(coep.as_slice(), coep_val.as_slice());
}

/// Prepare a backend response head for the caller: the status code is kept
/// as it came, and only the two isolation headers change in the mapping.
pub fn forwarded_response_head(head: ResponseHead) -> (r: ResponseHead)
    ensures
        r.status == head.status,
        r.headers@ == injected(head.headers@),
{
    let ResponseHead { status, mut headers } = head;
    inject_isolation_headers(&mut headers);
    ResponseHead { status, headers }
}

/// The two injected header names differ, even ignoring ASCII case.
proof fn lemma_names_differ()
    ensures
        !eq_ci(coop_name(), coep_name()),
        !eq_ci(coep_name(), coop_name()),
{
    reveal_strlit("Cross-Origin-Opener-Policy");
    reveal_strlit("Cross-Origin-Embedder-Policy");
    assert(coop_name().len() == 26);
    assert(coep_name().len() == 28);
    assert(lower(coop_name()).len() != lower(coep_name()).len());
}

/// Law: header injection is idempotent. Injecting into an already-injected
/// mapping yields the same mapping: the same two header values, never a
/// duplicated entry.
pub proof fn lemma_inject_idempotent(h: Seq<(Seq<u8>, Seq<u8>)>)
    ensures
        injected(injected(h)) == injected(h),
{
    lemma_names_differ();
    let a = coop_name();
    let va = coop_value();
    let b = coep_name();
    let vb = coep_value();
    let ra = remove_name(h, a);
    let rba = remove_name(ra, b);

    // One injection: every old entry under either name leaves, then the two
    // new entries go on the end.
    lemma_remove_push(ra, b, (a, va));
    assert(injected(h) == rba.push((a, va)).push((b, vb)));

    // Stripping the opener-policy name from the injected mapping removes
    // only the entry the injection appended.
    lemma_remove_push(rba.push((a, va)), a, (b, vb));
    lemma_remove_push(rba, a, (a, va));
    lemma_remove_remove(ra, b, a);
    lemma_remove_remove(h, a, b);
    assert(remove_name(rba, a) == rba);
    assert(set_value(injected(h), a, va) == rba.push((b, vb)).push((a, va)));

    // The second injection's embedder-policy step puts the two appended
    // entries back in the same order as after the first injection.
    lemma_remove_push(rba.push((b, vb)), b, (a, va));
    lemma_remove_push(rba, b, (b, vb));
    lemma_remove_remove(ra, b, b);
    assert(remove_name(rba, b) == rba);
    assert(injected(injected(h)) == rba.push((a, va)).push((b, vb)));
}

} // verus!
