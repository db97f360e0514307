//! The cost meter gate: computes a handler's cost from its decoded arguments
//! and charges it against the call's remaining budget before any effect runs.
//! Charging either deducts the cost or reports exhaustion; an exhausted call
//! is aborted as a whole.

use vstd::prelude::*;

use crate::codec::Val;
use crate::codec::Value;
use crate::codec::vals_of;
use crate::codec::lemma_vals_of;

verus! {

/// How a handler's cost follows from its decoded arguments: a constant, or a
/// base charge plus a per-unit charge on the size of one argument (a batch's
/// element count, a byte string's length, a declared read bound).
#[derive(Debug, Copy, Clone, PartialEq, Eq, Structural)]
pub enum CostRule {
    Fixed(u64),
    Linear { base: u64, each: u64, arg: usize },
}

/// The size a linear cost rule reads from an argument: the length of a byte
/// string or sequence, the magnitude of an integer, zero otherwise.
pub open spec fn spec_arg_size(v: Val) -> nat {
    match v {
        Val::U8(x) => x as nat,
        Val::U16(x) => x as nat,
        Val::U32(x) => x as nat,
        Val::U64(x) => x as nat,
        Val::U128(x) => x as nat,
        Val::Compact(x) => x as nat,
        Val::Bytes(bs) => bs.len(),
        Val::List(vs) => vs.len(),
        _ => 0,
    }
}

/// Clamps a mathematical size into the cost scalar's range.
pub open spec fn sat64(n: nat) -> u64 {
    if n > u64::MAX {
        u64::MAX
    } else {
        n as u64
    }
}

/// The cost a rule assigns to a decoded argument list, saturating at the top
/// of the scalar's range.  An argument index outside the list reads size
/// zero.
pub open spec fn spec_cost(rule: CostRule, args: Seq<Val>) -> u64 {
    match rule {
        CostRule::Fixed(c) => c,
        CostRule::Linear { base, each, arg } => {
            let size = if arg < args.len() {
                spec_arg_size(args[arg as int])
            } else {
                0
            };
            sat64((base + each * size) as nat)
        },
    }
}

/// The clamped size of one decoded argument.
pub fn arg_size(v: &Value) -> (r: u64)
    ensures
        r == sat64(spec_arg_size(v@)),
{
    match v {
        Value::U8(x) => *x as u64,
        Value::U16(x) => *x as u64,
        Value::U32(x) => *x as u64,
        Value::U64(x) => *x,
        Value::U128(x) => {
            if *x > u64::MAX as u128 {
                u64::MAX
            } else {
                *x as u64
            }
        },
        Value::Compact(x) => *x as u64,
        Value::Bytes(bs) => bs.len() as u64,
        Value::List(vs) => {
            proof {
                lemma_vals_of(vs@);
            }
            vs.len() as u64
        },
        _ => 0,
    }
}

/// Computes the cost of a call from its rule and decoded arguments.
pub fn cost_of(rule: &CostRule, args: &Vec<Value>) -> (r: u64)
    ensures
        r == spec_cost(*rule, vals_of(args@)),
{
    proof {
        lemma_vals_of(args@);
    }
    match rule {
        CostRule::Fixed(c) => *c,
        CostRule::Linear { base, each, arg } => {
            let size: u64 = if *arg < args.len() {
                arg_size(&args[*arg])
            } else {
                0
            };
            let ghost spec_size = if *arg < args@.len() {
                spec_arg_size(vals_of(args@)[*arg as int])
            } else {
                0
            };
            proof {
                lemma_sat_cost(*base, *each, spec_size);
            }
            let product: u64 = match each.checked_mul(size) {
                Some(p) => p,
                None => u64::MAX,
            };
            base.saturating_add(product)
        },
    }
}

/// The saturating product-and-sum computed on clamped sizes equals the
/// clamped mathematical cost.
proof fn lemma_sat_cost(base: u64, each: u64, size: nat)
    ensures
        ({
            let clamped = sat64(size);
            let product = if each * clamped > u64::MAX {
                u64::MAX
            } else {
                (each * clamped) as u64
            };
            sat64((base + product) as nat) == sat64((base + each * size) as nat)
        }),
{
    let clamped = sat64(size);
    if size > u64::MAX {
        assert(clamped == u64::MAX);
        if each == 0 {
            assert(each * clamped == 0);
            assert(each * size == 0);
        } else {
            assert(each * clamped >= clamped) by (nonlinear_arith)
                requires
                    each >= 1,
            ;
            assert(each * size >= size) by (nonlinear_arith)
                requires
                    each >= 1,
            ;
        }
    } else {
        assert(clamped == size);
    }
}

/// Charges `cost` against `budget`: the remaining budget if it suffices,
/// exhaustion otherwise.
pub fn charge(budget: u64, cost: u64) -> (r: Option<u64>)
    ensures
        cost <= budget ==> r == Some((budget - cost) as u64),
        cost > budget ==> r is None,
{
    if cost <= budget {
        Some(budget - cost)
    } else {
        None
    }
}

} // verus!
