//! The dispatcher: reads the opcode, looks up the handler, decodes the
//! payload against its shape, resolves the origin of a mutating call, and
//! charges the cost — in that order — before any effect may run.  The
//! registry effect itself is performed by the host: `prepare` either aborts
//! the call, completes it with the origin-rejection outcome, or hands back a
//! fully decoded, charged call for the host to execute; `complete_mutating`
//! and `complete_query` then map the effect's result into an outcome code and
//! output bytes.  Every error exit is fail-closed: an unknown opcode, a
//! malformed or truncated payload, and an exhausted budget abort the call as
//! a whole, distinct from every outcome code.

use vstd::prelude::*;

use crate::codec::Val;
use crate::codec::Value;
use crate::codec::vals_of;
use crate::codec::decode_shape;
use crate::codec::spec_decode_shape;
use crate::codec::spec_encode_val;
use crate::codec::encodable;
use crate::codec::encode_to_vec;
use crate::codec::lemma_shape_prefix_fails;
use crate::meter::spec_cost;
use crate::meter::cost_of;
use crate::meter::charge;
use crate::origin::Origin;
use crate::origin::resolve;
use crate::outcome::DomainError;
use crate::outcome::Outcome;
use crate::outcome::outcome_of;
use crate::outcome::outcome_code;
use crate::registry::Registry;
use crate::registry::HandlerDescriptor;
use crate::registry::spec_lookup;

verus! {

/// A call-level failure: the bridge itself rejected the call.  Distinct from
/// every outcome code; no cost has been charged against the registry's work
/// and no effect has run when one of these is reported.
#[derive(Debug, Copy, Clone, PartialEq, Eq, Structural)]
pub enum AbortReason {
    /// No handler is registered for the opcode.
    UnknownOpcode,
    /// The payload is truncated, malformed, or carries trailing bytes.
    DecodeFailed,
    /// The handler's cost exceeds the remaining budget.
    BudgetExhausted,
}

/// A decoded, origin-resolved, charged call, ready for the host to execute
/// against the registry.
#[derive(Debug)]
pub struct PendingCall {
    pub opcode: u16,
    pub mutating: bool,
    /// The acting identity of a mutating call; a query carries none.
    pub identity: Option<Vec<u8>>,
    /// The decoded arguments, the origin selector excluded.
    pub args: Vec<Value>,
    /// The cost charged for this call.
    pub cost: u64,
    /// The budget left once the cost is charged.
    pub remaining: u64,
}

/// The mathematical model of a `PendingCall`.
pub struct CallModel {
    pub opcode: u16,
    pub mutating: bool,
    pub identity: Option<Seq<u8>>,
    pub args: Seq<Val>,
    pub cost: u64,
    pub remaining: u64,
}

impl View for PendingCall {
    type V = CallModel;

    open spec fn view(&self) -> CallModel {
        CallModel {
            opcode: self.opcode,
            mutating: self.mutating,
            identity: match self.identity {
                Option::Some(id) => Option::Some(id@),
                Option::None => Option::None,
            },
            args: vals_of(self.args@),
            cost: self.cost,
            remaining: self.remaining,
        }
    }
}

/// What preparing a call yields: a protocol abort, a completed call carrying
/// the origin-rejection outcome, or a pending effect.
#[derive(Debug)]
pub enum Prepared {
    Abort(AbortReason),
    Rejected,
    Invoke(PendingCall),
}

/// The mathematical model of a `Prepared`.
pub enum Step {
    Abort(AbortReason),
    Rejected,
    Invoke(CallModel),
}

impl View for Prepared {
    type V = Step;

    open spec fn view(&self) -> Step {
        match self {
            Prepared::Abort(a) => Step::Abort(*a),
            Prepared::Rejected => Step::Rejected,
            Prepared::Invoke(c) => Step::Invoke(c@),
        }
    }
}

/// What follows once the handler is known and the origin is resolved:
/// decode the remaining payload in full, compute the cost, charge it.
pub open spec fn spec_prepare_decoded(
    d: HandlerDescriptor,
    op: u16,
    payload: Seq<u8>,
    start: int,
    budget: u64,
    identity: Option<Seq<u8>>,
) -> Step {
    match spec_decode_shape(d.shape@, payload, start) {
        Option::None => Step::Abort(AbortReason::DecodeFailed),
        Option::Some((args, end)) => if end != payload.len() {
            Step::Abort(AbortReason::DecodeFailed)
        } else {
            let cost = spec_cost(d.cost, args);
            if cost > budget {
                Step::Abort(AbortReason::BudgetExhausted)
            } else {
                Step::Invoke(
                    CallModel {
                        opcode: op,
                        mutating: d.mutating,
                        identity,
                        args,
                        cost,
                        remaining: (budget - cost) as u64,
                    },
                )
            }
        },
    }
}

/// The dispatcher's whole decision on one call envelope, before the effect:
/// look the opcode up, resolve the origin of a mutating call from the first
/// payload byte, decode the rest byte-exactly, and charge the cost.
pub open spec fn spec_prepare(
    ds: Seq<HandlerDescriptor>,
    op: u16,
    payload: Seq<u8>,
    budget: u64,
    bridge: Seq<u8>,
) -> Step {
    match spec_lookup(ds, op) {
        Option::None => Step::Abort(AbortReason::UnknownOpcode),
        Option::Some(d) => if d.mutating {
            if payload.len() < 1 {
                Step::Abort(AbortReason::DecodeFailed)
            } else if payload[0] == 0 {
                Step::Rejected
            } else if payload[0] != 1 {
                Step::Abort(AbortReason::DecodeFailed)
            } else {
                spec_prepare_decoded(d, op, payload, 1, budget, Option::Some(bridge))
            }
        } else {
            spec_prepare_decoded(d, op, payload, 0, budget, Option::None)
        },
    }
}

/// Prepares one call: exactly the decision `spec_prepare` describes, for
/// every opcode, payload and budget.
pub fn prepare(
    reg: &Registry,
    opcode: u16,
    payload: &Vec<u8>,
    budget: u64,
    bridge_address: &Vec<u8>,
) -> (r: Prepared)
    ensures
        r@ == spec_prepare(reg.descriptors@, opcode, payload@, budget, bridge_address@),
{
    let d = match reg.lookup(opcode) {
        Some(d) => d,
        None => {
            return Prepared::Abort(AbortReason::UnknownOpcode);
        },
    };
    let start: usize;
    let identity: Option<Vec<u8>>;
    if d.mutating {
        if payload.len() < 1 {
            return Prepared::Abort(AbortReason::DecodeFailed);
        }
        let selector = payload[0];
        if selector > 1 {
            return Prepared::Abort(AbortReason::DecodeFailed);
        }
        let sel = if selector == 0 {
            Origin::Caller
        } else {
            Origin::Address
        };
        match resolve(sel, bridge_address) {
            None => {
                return Prepared::Rejected;
            },
            Some(id) => {
                identity = Some(id);
            },
        }
        start = 1;
    } else {
        identity = None;
        start = 0;
    }
    match decode_shape(&d.shape, payload, start) {
        None => Prepared::Abort(AbortReason::DecodeFailed),
        Some((args, end)) => {
            if end != payload.len() {
                return Prepared::Abort(AbortReason::DecodeFailed);
            }
            let cost = cost_of(&d.cost, &args);
            match charge(budget, cost) {
                None => Prepared::Abort(AbortReason::BudgetExhausted),
                Some(remaining) => Prepared::Invoke(
                    PendingCall { opcode, mutating: d.mutating, identity, args, cost, remaining },
                ),
            }
        },
    }
}

/// The outcome and output of a completed mutating call: code `0` with the
/// encoded result exactly on success, the error's own code with empty output
/// on a domain failure.
pub fn complete_mutating(result: Result<Value, DomainError>) -> (r: (u32, Vec<u8>))
    requires
        result matches Ok(v) ==> encodable(v@),
    ensures
        result matches Ok(v) ==> r.0 == 0 && r.1@ == spec_encode_val(v@),
        result matches Err(e) ==> r.0 == outcome_code(outcome_of(e)) && r.1@ == Seq::<
            u8,
        >::empty(),
        r.0 == 0 <==> result is Ok,
{
    match result {
        Ok(v) => {
            let out = encode_to_vec(&v);
            (0u32, out)
        },
        Err(e) => {
            let outcome = Outcome::from(e);
            let code = outcome.code();
            proof {
                assert(outcome_code(outcome_of(e)) != 0);
            }
            let empty: Vec<u8> = Vec::new();
            (code, empty)
        },
    }
}

/// The outcome and output of a completed query: queries cannot fail once
/// their payload decodes, so the code is always `0` and the output is exactly
/// the encoding of the registry's read.
pub fn complete_query(value: &Value) -> (r: (u32, Vec<u8>))
    requires
        encodable(value@),
    ensures
        r.0 == 0,
        r.1@ == spec_encode_val(value@),
{
    let out = encode_to_vec(value);
    (0u32, out)
}

/// What always holds of a prepared effect: the call is charged before it is
/// handed out (its cost fits the budget and the remaining budget accounts for
/// it exactly), a mutating call acts only as the bridge's own address after
/// an explicit allowed selector, a query carries no identity, and the
/// arguments are the byte-exact decoding of the whole payload.
pub proof fn lemma_prepare_invariants(
    ds: Seq<HandlerDescriptor>,
    op: u16,
    payload: Seq<u8>,
    budget: u64,
    bridge: Seq<u8>,
)
    ensures
        spec_lookup(ds, op) is None ==> spec_prepare(ds, op, payload, budget, bridge)
            == Step::Abort(AbortReason::UnknownOpcode),
        spec_prepare(ds, op, payload, budget, bridge) matches Step::Invoke(c) ==> {
            &&& spec_lookup(ds, op) matches Option::Some(d) && {
                &&& c.opcode == op
                &&& c.mutating == d.mutating
                &&& c.cost == spec_cost(d.cost, c.args)
                &&& c.cost <= budget
                &&& c.remaining == budget - c.cost
                &&& (d.mutating ==> payload.len() >= 1 && payload[0] == 1 && c.identity
                    == Option::Some(bridge) && spec_decode_shape(d.shape@, payload, 1)
                    == Option::Some((c.args, payload.len() as int)))
                &&& (!d.mutating ==> c.identity is None && spec_decode_shape(d.shape@, payload, 0)
                    == Option::Some((c.args, payload.len() as int)))
            }
        },
{
}

/// Charge-before-effect: when a registered handler's payload decodes in full
/// but its cost exceeds the supplied budget, the call aborts as exhausted and
/// no effect is ever handed to the host.
pub proof fn lemma_charge_before_effect(
    ds: Seq<HandlerDescriptor>,
    op: u16,
    payload: Seq<u8>,
    budget: u64,
    bridge: Seq<u8>,
    d: HandlerDescriptor,
    args: Seq<Val>,
)
    requires
        spec_lookup(ds, op) == Option::Some(d),
        d.mutating ==> payload.len() >= 1 && payload[0] == 1,
        spec_decode_shape(
            d.shape@,
            payload,
            if d.mutating {
                1int
            } else {
                0int
            },
        ) == Option::Some((args, payload.len() as int)),
        spec_cost(d.cost, args) > budget,
    ensures
        spec_prepare(ds, op, payload, budget, bridge) == Step::Abort(
            AbortReason::BudgetExhausted,
        ),
{
}

/// Origin fail-closed: a mutating call whose payload selects the reserved
/// origin completes with the rejection outcome, whatever the rest of the
/// payload holds and whatever the budget — no cost is charged and no effect
/// is invoked.
pub proof fn lemma_origin_fail_closed(
    ds: Seq<HandlerDescriptor>,
    op: u16,
    payload: Seq<u8>,
    budget: u64,
    bridge: Seq<u8>,
)
    requires
        spec_lookup(ds, op) matches Option::Some(d) && d.mutating,
        payload.len() >= 1,
        payload[0] == 0,
    ensures
        spec_prepare(ds, op, payload, budget, bridge) == Step::Rejected,
{
}

/// Queries skip origin resolution: a call to a read-only handler is never
/// rejected on origin grounds, and it can fail only as a protocol abort — a
/// decode failure or exhaustion — never with an error outcome.
pub proof fn lemma_query_skips_origin(
    ds: Seq<HandlerDescriptor>,
    op: u16,
    payload: Seq<u8>,
    budget: u64,
    bridge: Seq<u8>,
)
    requires
        spec_lookup(ds, op) matches Option::Some(d) && !d.mutating,
    ensures
        spec_prepare(ds, op, payload, budget, bridge) != Step::Rejected,
        spec_prepare(ds, op, payload, budget, bridge) != Step::Abort(
            AbortReason::UnknownOpcode,
        ),
{
}

/// Decode fail-closed: truncating a payload that would have reached the
/// effect, by at least one byte, turns the call into a decode abort — never
/// a default-valued decode, whatever budget the truncated call carries.
pub proof fn lemma_decode_fail_closed(
    ds: Seq<HandlerDescriptor>,
    op: u16,
    payload: Seq<u8>,
    budget: u64,
    budget2: u64,
    bridge: Seq<u8>,
    j: int,
)
    requires
        spec_prepare(ds, op, payload, budget, bridge) is Invoke,
        0 <= j < payload.len(),
    ensures
        spec_prepare(ds, op, payload.take(j), budget2, bridge) == Step::Abort(
            AbortReason::DecodeFailed,
        ),
{
    let d = spec_lookup(ds, op)->0;
    let t = payload.take(j);
    if d.mutating {
        let (args, end) = spec_decode_shape(d.shape@, payload, 1)->Some_0;
        if j >= 1 {
            assert(t[0] == 1);
            lemma_shape_prefix_fails(d.shape@, payload, 1, j);
        }
    } else {
        let (args, end) = spec_decode_shape(d.shape@, payload, 0)->Some_0;
        lemma_shape_prefix_fails(d.shape@, payload, 0, j);
    }
}

} // verus!
