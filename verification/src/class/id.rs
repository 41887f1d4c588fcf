use vstd::prelude::*;

verus! {

/// An opaque identity distinguishing class descriptors. Two descriptors
/// denote the same runtime type exactly when their `Id`s are equal;
/// identity is never recomputed from structure, so two structurally equal
/// descriptors built separately stay distinct types.
#[derive(Clone, Copy, Debug, PartialEq, Eq, Structural)]
pub struct Id {
    value: u64,
}

/// A monotonic counter handing out fresh identities, starting at 1.
/// Identities drawn from one source are never repeated.
pub struct IdSource {
    next: u64,
}

impl Id {
    pub closed spec fn spec_value(&self) -> u64 {
        self.value
    }

    /// Draws a fresh identity and advances the source.
    pub fn new(source: &mut IdSource) -> (id: Id)
        requires
            old(source).spec_next() < u64::MAX,
        ensures
            id.spec_value() == old(source).spec_next(),
            final(source).spec_next() == old(source).spec_next() + 1,
    {
        let value = source.next;
        source.next = source.next + 1;
        Id { value }
    }
}

/// Equality of identities is exactly equality of their counter values.
pub proof fn lemma_id_eq(a: Id, b: Id)
    ensures
        (a == b) <==> a.spec_value() == b.spec_value(),
{
}

impl IdSource {
    pub closed spec fn spec_next(&self) -> u64 {
        self.next
    }

    pub fn new() -> (source: IdSource)
        ensures
            source.spec_next() == 1,
    {
        IdSource { next: 1 }
    }
}

} // verus!
