//! A small plain-data type shared between tasks, with an in-place transform.

use vstd::prelude::*;

verus! {

/// A value with an identifier and a fixed payload of four bytes.
#[derive(Clone, Copy, Debug, PartialEq, Eq)]
pub struct SharedType {
    id: u8,
    array: [u8; 4],
}

impl SharedType {
    /// The identifier, for use in contracts.
    pub closed spec fn spec_id(&self) -> u8 {
        self.id
    }

    /// The payload bytes, for use in contracts.
    pub closed spec fn spec_array(&self) -> Seq<u8> {
        self.array@
    }

    /// Builds a value with the given identifier and the payload `[0, 1, 2, 3]`.
    pub fn new(id: u8) -> (r: Self)
        ensures
            r.spec_id() == id,
            r.spec_array() == seq![0u8, 1u8, 2u8, 3u8],
    {
        let r = Self { id, array: [0, 1, 2, 3] };
        proof {
            assert(r.array@ =~= seq![0u8, 1u8, 2u8, 3u8]);
        }
        r
    }

    /// The identifier.
    pub fn id(&self) -> (r: u8)
        ensures
            r == self.spec_id(),
    {
        self.id
    }

    /// The payload bytes.
    pub fn array(&self) -> (r: &[u8; 4])
        ensures
            r@ == self.spec_array(),
    {
        &self.array
    }
}

/// Increments the identifier and every payload byte by one.
pub fn transform_shared_type(shared: &mut SharedType)
    requires
        old(shared).spec_id() < 255,
        forall|i: int| 0 <= i < 4 ==> old(shared).spec_array()[i] < 255,
    ensures
        final(shared).spec_id() == old(shared).spec_id() + 1,
        final(shared).spec_array().len() == 4,
        forall|i: int| 0 <= i < 4
            ==> final(shared).spec_array()[i] == old(shared).spec_array()[i] + 1,
{
    shared.id = shared.id + 1;
    let a = shared.array;
    proof {
        assert(a@ == old(shared).spec_array());
        assert(a@[0] < 255 && a@[1] < 255 && a@[2] < 255 && a@[3] < 255);
    }
    shared.array = [a[0] + 1, a[1] + 1, a[2] + 1, a[3] + 1];
}

} // verus!
