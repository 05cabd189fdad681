//! Identities of the parties and records that take part in a match.

use vstd::prelude::*;

verus! {

/// A 32-byte identity: the address of a party's wallet or of a record.
///
/// Two identities are the same exactly when all their bytes agree. The
/// identity whose bytes are all zero is the sentinel for "nobody": it fills
/// the opponent and winner slots of a match until they are taken.
#[derive(Clone, Copy, Debug, Eq)]
pub struct Identity {
    pub bytes: [u8; 32],
}

impl PartialEq for Identity {
    fn eq(&self, other: &Identity) -> (same: bool) {
        let mut i: usize = 0;
        while i < 32
            invariant
                i <= 32,
                forall|j: int| 0 <= j < i ==> self.bytes[j] == other.bytes[j],
            decreases 32 - i,
        {
            if self.bytes[i] != other.bytes[i] {
                return false;
            }
            i += 1;
        }
        assert(self.bytes =~= other.bytes);
        true
    }
}

impl vstd::std_specs::cmp::PartialEqSpecImpl for Identity {
    open spec fn obeys_eq_spec() -> bool {
        true
    }

    open spec fn eq_spec(&self, other: &Identity) -> bool {
        *self == *other
    }
}

impl Identity {
    /// The sentinel, as a specification value.
    pub open spec fn nobody() -> Identity {
        Identity { bytes: vstd::array::spec_array_fill_for_copy_type::<u8, 32>(0u8) }
    }

    /// Whether this is the sentinel.
    pub open spec fn is_nobody(self) -> bool {
        forall|i: int| 0 <= i < 32 ==> self.bytes[i] == 0u8
    }

    /// Builds an identity from its bytes.
    pub fn new(bytes: [u8; 32]) -> (id: Identity)
        ensures
            id.bytes == bytes,
    {
        Identity { bytes }
    }

    /// The sentinel that stands for an empty slot.
    pub fn unset() -> (id: Identity)
        ensures
            id == Identity::nobody(),
            id.is_nobody(),
    {
        let id = Identity { bytes: [0u8; 32] };
        proof {
            Identity::nobody_is_unique(id);
        }
        id
    }

    /// Tells whether this identity is the sentinel.
    pub fn is_unset(&self) -> (unset: bool)
        ensures
            unset == self.is_nobody(),
            unset == (*self == Identity::nobody()),
    {
        let mut i: usize = 0;
        while i < 32
            invariant
                i <= 32,
                forall|j: int| 0 <= j < i ==> self.bytes[j] == 0u8,
            decreases 32 - i,
        {
            if self.bytes[i] != 0 {
                proof {
                    Identity::nobody_is_unique(*self);
                }
                return false;
            }
            i += 1;
        }
        proof {
            Identity::nobody_is_unique(*self);
        }
        true
    }

    /// An identity is the sentinel exactly when every byte of it is zero.
    pub proof fn nobody_is_unique(id: Identity)
        ensures
            id.is_nobody() <==> id == Identity::nobody(),
    {
        let zero = Identity::nobody();
        assert(forall|i: int| 0 <= i < 32 ==> zero.bytes[i] == 0u8);
        if id.is_nobody() {
            assert(id.bytes =~= zero.bytes);
        }
    }
}

impl Default for Identity {
    fn default() -> (id: Identity)
        ensures
            id == Identity::nobody(),
    {
        Identity::unset()
    }
}

} // verus!
