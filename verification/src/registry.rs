//! The opcode registry: a total, read-only map from 16-bit opcodes to handler
//! descriptors.  It is built once at startup; lookup of an unregistered
//! opcode yields nothing, which the dispatcher turns into a protocol abort
//! before any cost is charged.

use vstd::prelude::*;

use crate::codec::FieldType;
use crate::meter::CostRule;

verus! {

/// One handler: its opcode, whether it mutates registry state, the ordered
/// field types of its payload (for a mutating handler these follow the
/// origin selector on the wire), and its cost rule.
#[derive(Debug)]
pub struct HandlerDescriptor {
    pub opcode: u16,
    pub mutating: bool,
    pub shape: Vec<FieldType>,
    pub cost: CostRule,
}

/// A descriptor is well formed when a linear cost rule points at one of its
/// own arguments.
pub open spec fn descriptor_wf(d: HandlerDescriptor) -> bool {
    match d.cost {
        CostRule::Fixed(c) => true,
        CostRule::Linear { base, each, arg } => arg < d.shape@.len(),
    }
}

/// The opcode registry, built once and never mutated afterwards.
pub struct Registry {
    pub descriptors: Vec<HandlerDescriptor>,
}

/// The descriptor registered first for `op`, if any.
pub open spec fn spec_lookup(ds: Seq<HandlerDescriptor>, op: u16) -> Option<HandlerDescriptor>
    decreases ds.len(),
{
    if ds.len() == 0 {
        Option::None
    } else if ds[0].opcode == op {
        Option::Some(ds[0])
    } else {
        spec_lookup(ds.drop_first(), op)
    }
}

impl Registry {
    /// Every opcode is registered at most once, and every descriptor is well
    /// formed.
    pub open spec fn wf(&self) -> bool {
        &&& forall|i: int, j: int|
            0 <= i < j < self.descriptors@.len() ==> self.descriptors@[i].opcode
                != self.descriptors@[j].opcode
        &&& forall|i: int|
            0 <= i < self.descriptors@.len() ==> descriptor_wf(#[trigger] self.descriptors@[i])
    }

    /// Finds the descriptor registered for `opcode`, or nothing: lookup is
    /// total, deterministic, and never mutates the registry.
    pub fn lookup(&self, opcode: u16) -> (r: Option<&HandlerDescriptor>)
        ensures
            r matches Some(d) ==> spec_lookup(self.descriptors@, opcode) == Option::Some(*d),
            r is None ==> spec_lookup(self.descriptors@, opcode) is None,
    {
        let mut i: usize = 0;
        proof {
            assert(self.descriptors@.skip(0) =~= self.descriptors@);
        }
        while i < self.descriptors.len()
            invariant
                i <= self.descriptors@.len(),
                spec_lookup(self.descriptors@, opcode) == spec_lookup(
                    self.descriptors@.skip(i as int),
                    opcode,
                ),
                forall|k: int| 0 <= k < i ==> self.descriptors@[k].opcode != opcode,
            decreases self.descriptors@.len() - i,
        {
            proof {
                assert(self.descriptors@.skip(i as int)[0] == self.descriptors@[i as int]);
                assert(self.descriptors@.skip(i as int).drop_first() =~= self.descriptors@.skip(
                    i + 1,
                ));
            }
            if self.descriptors[i].opcode == opcode {
                return Some(&self.descriptors[i]);
            }
            i = i + 1;
        }
        proof {
            assert(self.descriptors@.skip(self.descriptors@.len() as int).len() == 0);
        }
        None
    }
}

/// Lookup totality: for every opcode, lookup yields the registered descriptor
/// exactly when one is registered, and nothing otherwise.
pub proof fn lemma_lookup_total(ds: Seq<HandlerDescriptor>, op: u16)
    ensures
        (spec_lookup(ds, op) is Some) <==> (exists|i: int|
            0 <= i < ds.len() && ds[i].opcode == op),
        spec_lookup(ds, op) matches Some(d) ==> d.opcode == op && ds.contains(d),
    decreases ds.len(),
{
    if ds.len() > 0 {
        lemma_lookup_total(ds.drop_first(), op);
        if ds[0].opcode == op {
            assert(ds.contains(ds[0]));
        } else {
            if spec_lookup(ds.drop_first(), op) is Some {
                let d = spec_lookup(ds.drop_first(), op)->0;
                assert(ds.drop_first().contains(d));
                let k = choose|k: int|
                    0 <= k < ds.drop_first().len() && ds.drop_first()[k] == d;
                assert(ds[k + 1] == d);
                assert(ds.contains(d));
            }
            if exists|i: int| 0 <= i < ds.len() && ds[i].opcode == op {
                let i = choose|i: int| 0 <= i < ds.len() && ds[i].opcode == op;
                assert(ds.drop_first()[i - 1].opcode == op);
            }
        }
    }
}

/// Lookup determinism: the registry is read-only, so any two lookups of the
/// same opcode in the same registry agree.
pub proof fn lemma_lookup_deterministic(
    ds: Seq<HandlerDescriptor>,
    op: u16,
    r1: Option<HandlerDescriptor>,
    r2: Option<HandlerDescriptor>,
)
    requires
        r1 == spec_lookup(ds, op),
        r2 == spec_lookup(ds, op),
    ensures
        r1 == r2,
{
}

} // verus!
