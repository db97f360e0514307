//! The block-number provider bridge: a one-opcode table through which a
//! contract reads the current relay block number.  Its single handler is a
//! query with an empty payload; the host answers with the block number, which
//! the dispatcher encodes back to the caller.

use vstd::prelude::*;

use crate::codec::FieldType;
use crate::meter::CostRule;
use crate::registry::HandlerDescriptor;
use crate::registry::Registry;
use crate::registry::spec_lookup;
use crate::registry::lemma_lookup_total;

verus! {

/// Reads the current relay block number; the payload is empty.
pub const OP_RELAY_CHAIN_BLOCK_NUMBER: u16 = 1;

/// The flat cost of reading the block number.
pub const BLOCK_NUMBER_COST: u64 = 100;

/// The outcome space of this bridge: it exposes no domain errors, so only
/// the bridge's own two conditions join success.
#[derive(Debug, Copy, Clone, PartialEq, Eq, Structural)]
pub enum Outcome {
    /// Success
    Success,
    /// Origin Caller is not supported.
    OriginCannotBeCaller,
    /// Unknown error.
    RuntimeError,
}

/// The fixed integer each outcome stands for.
pub open spec fn provider_outcome_code(o: Outcome) -> u32 {
    match o {
        Outcome::Success => 0,
        Outcome::OriginCannotBeCaller => 98,
        Outcome::RuntimeError => 99,
    }
}

impl Outcome {
    /// The integer this outcome stands for on the wire.
    pub fn code(&self) -> (r: u32)
        ensures
            r == provider_outcome_code(*self),
    {
        match self {
            Outcome::Success => 0,
            Outcome::OriginCannotBeCaller => 98,
            Outcome::RuntimeError => 99,
        }
    }
}

/// Builds this bridge's one-entry handler table: the block-number query is
/// registered exactly once and every other opcode is unknown.
pub fn block_number_registry() -> (r: Registry)
    ensures
        r.wf(),
        r.descriptors@.len() == 1,
        r.descriptors@[0].opcode == OP_RELAY_CHAIN_BLOCK_NUMBER,
        !r.descriptors@[0].mutating,
        r.descriptors@[0].shape@.len() == 0,
        r.descriptors@[0].cost == CostRule::Fixed(BLOCK_NUMBER_COST),
        forall|op: u16| (spec_lookup(r.descriptors@, op) is Some) <==> op
            == OP_RELAY_CHAIN_BLOCK_NUMBER,
{
    let mut ds: Vec<HandlerDescriptor> = Vec::new();
    let shape: Vec<FieldType> = Vec::new();
    ds.push(
        HandlerDescriptor {
            opcode: OP_RELAY_CHAIN_BLOCK_NUMBER,
            mutating: false,
            shape,
            cost: CostRule::Fixed(BLOCK_NUMBER_COST),
        },
    );
    let reg = Registry { descriptors: ds };
    proof {
        assert forall|op: u16| (spec_lookup(reg.descriptors@, op) is Some) <==> op
            == OP_RELAY_CHAIN_BLOCK_NUMBER by {
            lemma_lookup_total(reg.descriptors@, op);
        }
    }
    reg
}

} // verus!
