//! The addresses at which the ledger holds funds.

use crate::identity::Identity;
use vstd::prelude::*;

verus! {

/// Where funds are held: in the wallet of a party, in the custody of a
/// match, or in the platform's record.
///
/// The address of a match is given by its identifier alone, and that of the
/// platform's record is fixed, so that anybody can find either without an
/// index. No two matches share an address, and no party's wallet is the
/// address of a record.
#[derive(Clone, Copy, Debug, Eq)]
pub enum Address {
    /// The wallet of the party with this identity.
    Party(Identity),
    /// The custody of the match with this identifier.
    Match(u64),
    /// The platform's record.
    Platform,
}

impl PartialEq for Address {
    fn eq(&self, other: &Address) -> (same: bool) {
        match (self, other) {
            (Address::Party(a), Address::Party(b)) => a == b,
            (Address::Match(a), Address::Match(b)) => a == b,
            (Address::Platform, Address::Platform) => true,
            _ => false,
        }
    }
}

impl vstd::std_specs::cmp::PartialEqSpecImpl for Address {
    open spec fn obeys_eq_spec() -> bool {
        true
    }

    open spec fn eq_spec(&self, other: &Address) -> bool {
        *self == *other
    }
}

} // verus!
