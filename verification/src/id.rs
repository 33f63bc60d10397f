//! Twelve-byte identities of owners, tasks, groups and recipients.

use vstd::prelude::*;

verus! {

/// A globally unique, sortable identity: twelve raw bytes.
///
/// Two identities are the same exactly when their bytes are.
#[derive(Clone, Copy, Debug, Eq, Hash)]
pub struct Id {
    pub raw: [u8; 12],
}

impl PartialEq for Id {
    fn eq(&self, other: &Self) -> (r: bool) {
        let mut i: usize = 0;
        while i < 12
            invariant
                i <= 12,
                forall|j: int| 0 <= j < i ==> self.raw[j] == other.raw[j],
            decreases 12 - i,
        {
            if self.raw[i] != other.raw[i] {
                return false;
            }
            i += 1;
        }
        assert(self.raw =~= other.raw);
        true
    }
}

impl vstd::std_specs::cmp::PartialEqSpecImpl for Id {
    open spec fn obeys_eq_spec() -> bool {
        true
    }

    open spec fn eq_spec(&self, other: &Self) -> bool {
        *self == *other
    }
}

impl Id {
    /// Whether this identity sorts before `other`: the order of the bytes, the first
    /// that differs deciding. It is the order in which the store pages through rows.
    pub open spec fn below(self, other: Id) -> bool {
        exists|i: int|
            0 <= i < 12 && self.raw[i] < other.raw[i] && forall|j: int|
                0 <= j < i ==> self.raw[j] == other.raw[j]
    }

    /// Whether every byte is zero.
    pub open spec fn is_nil(self) -> bool {
        forall|i: int| 0 <= i < 12 ==> self.raw[i] == 0u8
    }

    /// The identity whose bytes are all zero: what a record holds before one is set.
    pub closed spec fn nil() -> Id {
        choose|id: Id| id.is_nil()
    }

    /// The all-zero identity.
    pub fn zero() -> (id: Id)
        ensures
            id == Id::nil(),
            id.is_nil(),
    {
        let id = Id { raw: [0u8; 12] };
        proof {
            assert(id.is_nil());
            assert(Id::nil().is_nil());
            assert(id.raw =~= Id::nil().raw);
        }
        id
    }

    /// The identity made of the given bytes.
    pub fn from_raw(raw: [u8; 12]) -> (id: Id)
        ensures
            id.raw == raw,
    {
        Id { raw }
    }
}

impl Default for Id {
    fn default() -> (id: Id)
        ensures
            id == Id::nil(),
    {
        Id::zero()
    }
}

/// Draws a fresh identity from `xid::new`.
///
/// The bytes depend on the clock, the machine, the process and a counter, so nothing is
/// claimed about them. `xid::new` panics when the system clock reads earlier than the
/// Unix epoch.
#[verifier::external_body]
pub(crate) fn new_id() -> (id: Id) {
    Id { raw: xid::new().0 }
}

} // verus!
