//! The header mapping: an order-preserving list of name/value pairs with
//! ASCII-case-insensitive names, and the canonical set-or-replace operation.

use vstd::prelude::*;

verus! {

use crate::bytes::{eq_ci, eq_ignore_case, copy_bytes};

/// One header entry: a name and a value, both byte strings.
pub struct Header {
    pub name: Vec<u8>,
    pub value: Vec<u8>,
}

impl View for Header {
    type V = (Seq<u8>, Seq<u8>);

    open spec fn view(&self) -> (Seq<u8>, Seq<u8>) {
        (self.name@, self.value@)
    }
}

/// A header mapping. Names compare ASCII-case-insensitively; the order of
/// entries, and duplicates under one name, are preserved.
pub struct Headers {
    pub entries: Vec<Header>,
}

impl View for Headers {
    type V = Seq<(Seq<u8>, Seq<u8>)>;

    open spec fn view(&self) -> Seq<(Seq<u8>, Seq<u8>)> {
        Seq::new(self.entries@.len(), |i: int| self.entries@[i]@)
    }
}

/// Whether some entry carries the given name.
pub open spec fn has_name(h: Seq<(Seq<u8>, Seq<u8>)>, name: Seq<u8>) -> bool {
    exists|i: int| 0 <= i < h.len() && eq_ci(#[trigger] h[i].0, name)
}

/// The value of the first entry named `name` from position `i` on.
pub open spec fn first_value_from(
    h: Seq<(Seq<u8>, Seq<u8>)>,
    name: Seq<u8>,
    i: int,
) -> Option<Seq<u8>>
    decreases h.len() - i,
{
    if i < 0 || i >= h.len() {
        None
    } else if eq_ci(h[i].0, name) {
        Some(h[i].1)
    } else {
        first_value_from(h, name, i + 1)
    }
}

/// The value of the first entry named `name`, if any.
pub open spec fn first_value(h: Seq<(Seq<u8>, Seq<u8>)>, name: Seq<u8>) -> Option<Seq<u8>> {
    first_value_from(h, name, 0)
}

/// The mapping without the entries named `name`.
pub open spec fn remove_name(h: Seq<(Seq<u8>, Seq<u8>)>, name: Seq<u8>) -> Seq<(Seq<u8>, Seq<u8>)>
    decreases h.len(),
{
    if h.len() == 0 {
        Seq::empty()
    } else if eq_ci(h.last().0, name) {
        remove_name(h.drop_last(), name)
    } else {
        remove_name(h.drop_last(), name).push(h.last())
    }
}

/// The mapping after a canonical set-or-replace of `name` to `value`:
/// every old entry under that name leaves, one new entry enters at the end.
pub open spec fn set_value(
    h: Seq<(Seq<u8>, Seq<u8>)>,
    name: Seq<u8>,
    value: Seq<u8>,
) -> Seq<(Seq<u8>, Seq<u8>)> {
    remove_name(h, name).push((name, value))
}

/// Removing commutes with adding an entry under a different name.
pub proof fn lemma_remove_push(
    h: Seq<(Seq<u8>, Seq<u8>)>,
    name: Seq<u8>,
    e: (Seq<u8>, Seq<u8>),
)
    ensures
        remove_name(h.push(e), name) == if eq_ci(e.0, name) {
            remove_name(h, name)
        } else {
            remove_name(h, name).push(e)
        },
{
    assert(h.push(e).drop_last() =~= h);
    assert(h.push(e).last() == e);
}

/// Removing one name, then another, removes both; the order does not matter,
/// and removing the same name twice is the same as removing it once.
pub proof fn lemma_remove_remove(h: Seq<(Seq<u8>, Seq<u8>)>, a: Seq<u8>, b: Seq<u8>)
    ensures
        remove_name(remove_name(h, a), b) == remove_name(remove_name(h, b), a),
        remove_name(remove_name(h, a), a) == remove_name(h, a),
    decreases h.len(),
{
    if h.len() > 0 {
        lemma_remove_remove(h.drop_last(), a, b);
        let e = h.last();
        lemma_remove_push(remove_name(h.drop_last(), a), b, e);
        lemma_remove_push(remove_name(h.drop_last(), b), a, e);
        lemma_remove_push(remove_name(h.drop_last(), a), a, e);
        lemma_remove_push(remove_name(remove_name(h.drop_last(), a), b), a, e);
        lemma_remove_push(remove_name(remove_name(h.drop_last(), b), a), b, e);
    }
}

impl Headers {
    /// An empty mapping.
    pub fn new() -> (h: Headers)
        ensures
            h@ == Seq::<(Seq<u8>, Seq<u8>)>::empty(),
    {
        let h = Headers { entries: Vec::new() };
        assert(h@ =~= Seq::<(Seq<u8>, Seq<u8>)>::empty());
        h
    }

    /// Append one entry at the end, after any existing duplicates.
    pub fn push(&mut self, name: Vec<u8>, value: Vec<u8>)
        ensures
            final(self)@ == old(self)@.push((name@, value@)),
    {
        let ghost before = self@;
        let ghost e = (name@, value@);
        self.entries.push(Header { name, value });
        assert(self@ =~= before.push(e));
    }

    /// Number of entries.
    pub fn len(&self) -> (n: usize)
        ensures
            n == self@.len(),
    {
        self.entries.len()
    }

    /// Whether some entry carries the given name.
    pub fn contains_name(&self, name: &[u8]) -> (r: bool)
        ensures
            r == has_name(self@, name@),
    {
        let mut i: usize = 0;
        while i < self.entries.len()
            invariant
                i <= self@.len(),
                self@.len() == self.entries@.len(),
                forall|k: int| 0 <= k < i ==> !eq_ci(#[trigger] self@[k].0, name@),
            decreases self@.len() - i,
        {
            if eq_ignore_case(self.entries[i].name.as_slice(), name) {
                assert(eq_ci(self@[i as int].0, name@));
                return true;
            }
            i = i + 1;
        }
        false
    }

    /// The value of the first entry with the given name, copied out.
    pub fn get_first(&self, name: &[u8]) -> (r: Option<Vec<u8>>)
        ensures
            match r {
                Some(v) => first_value(self@, name@) == Some(v@),
                None => first_value(self@, name@) is None,
            },
    {
        let mut i: usize = 0;
        while i < self.entries.len()
            invariant
                i <= self@.len(),
                self@.len() == self.entries@.len(),
                first_value(self@, name@) == first_value_from(self@, name@, i as int),
            decreases self@.len() - i,
        {
            if eq_ignore_case(self.entries[i].name.as_slice(), name) {
                assert(eq_ci(self@[i as int].0, name@));
                return Some(copy_bytes(self.entries[i].value.as_slice()));
            }
            assert(!eq_ci(self@[i as int].0, name@));
            i = i + 1;
        }
        None
    }

    /// Canonical set-or-replace: drop every entry under `name`, keeping the
    /// rest in order, then append one entry `name: value` at the end.
    pub fn set(&mut self, name: &[u8], value: &[u8])
        ensures
            final(self)@ == set_value(old(self)@, name@, value@),
    {
        let ghost before = self@;
        let mut kept: Vec<Header> = Vec::new();
        let mut i: usize = 0;
        while i < self.entries.len()
            invariant
                i <= before.len(),
                before.len() == self.entries@.len(),
                self@ == before,
                Seq::new(kept@.len(), |k: int| kept@[k]@) == remove_name(
                    before.subrange(0, i as int),
                    name@,
                ),
            decreases before.len() - i,
        {
            let ghost kept_before = Seq::new(kept@.len(), |k: int| kept@[k]@);
            proof {
                assert(before.subrange(0, i + 1 as int).drop_last() =~= before.subrange(
                    0,
                    i as int,
                ));
                assert(before.subrange(0, i + 1 as int).last() == before[i as int]);
            }
            if !eq_ignore_case(self.entries[i].name.as_slice(), name) {
                let entry = Header {
                    name: copy_bytes(self.entries[i].name.as_slice()),
                    value: copy_bytes(self.entries[i].value.as_slice()),
                };
                assert(entry@ == before[i as int]);
                kept.push(entry);
                assert(Seq::new(kept@.len(), |k: int| kept@[k]@) =~= kept_before.push(
                    before[i as int],
                ));
            }
            i = i + 1;
        }
        proof {
            assert(before.subrange(0, before.len() as int) =~= before);
        }
        kept.push(Header { name: copy_bytes(name), value: copy_bytes(value) });
        self.entries = kept;
        assert(self@ =~= set_value(before, name@, value@));
    }
}

} // verus!
