//! The origin resolver: converts the per-call origin selector into the
//! concrete acting identity, rejecting the reserved selector outright.

use vstd::prelude::*;

use crate::codec::clone_bytes;

verus! {

/// The origin selector carried as the first field of every mutating call's
/// payload.  `Caller` is reserved: no handler ever executes on behalf of the
/// upstream caller, and supplying it is reported as an outcome code, never
/// executed.  `Address` acts as the bridge's own delegated identity.
#[derive(Debug, Copy, Clone, PartialEq, Eq, Structural)]
pub enum Origin {
    Caller,
    Address,
}

impl Default for Origin {
    /// The only origin a handler will act under.
    fn default() -> (r: Self)
        ensures
            r == Origin::Address,
    {
        Origin::Address
    }
}

/// What resolving an origin yields: the acting identity for `Address`,
/// rejection for the reserved `Caller`.
pub open spec fn spec_resolve(origin: Origin, bridge_address: Seq<u8>) -> Option<Seq<u8>> {
    match origin {
        Origin::Caller => None,
        Origin::Address => Some(bridge_address),
    }
}

/// Resolves the decoded origin selector against the bridge's own address.
/// `Caller` always fails; `Address` always yields the bridge address.
pub fn resolve(origin: Origin, bridge_address: &Vec<u8>) -> (r: Option<Vec<u8>>)
    ensures
        r matches Some(id) ==> Some(id@) == spec_resolve(origin, bridge_address@),
        r is Some <==> spec_resolve(origin, bridge_address@) is Some,
{
    match origin {
        Origin::Caller => None,
        Origin::Address => {
            let id = clone_bytes(bridge_address);
            Some(id)
        }
    }
}

} // verus!
