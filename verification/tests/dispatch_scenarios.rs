//! End-to-end dispatch scenarios: the bridge prepares each call, a small
//! in-memory registry stands in for the host's store, and the completion
//! functions map results into outcome codes and output bytes.

use std::collections::HashMap;

use chain_extension_bridge::codec::Value;
use chain_extension_bridge::dispatch::AbortReason;
use chain_extension_bridge::dispatch::PendingCall;
use chain_extension_bridge::dispatch::Prepared;
use chain_extension_bridge::dispatch::complete_mutating;
use chain_extension_bridge::dispatch::complete_query;
use chain_extension_bridge::dispatch::prepare;
use chain_extension_bridge::outcome::DomainError;
use chain_extension_bridge::outcome::Outcome;
use chain_extension_bridge::uniques::OP_CREATE;
use chain_extension_bridge::uniques::OP_MINT;
use chain_extension_bridge::uniques::OP_OWNER;
use chain_extension_bridge::uniques::OP_REDEPOSIT;
use chain_extension_bridge::uniques::uniques_registry;

use parity_scale_codec::Encode;

/// The host's store, as far as these scenarios read it.
#[derive(Default)]
struct Store {
    collections: HashMap<u32, Vec<u8>>,
    owners: HashMap<(u32, u32), Vec<u8>>,
}

impl Store {
    /// Executes a prepared mutating call against the store, as the host
    /// would, returning the registry's own result.
    fn execute(&mut self, call: &PendingCall) -> Result<Value, DomainError> {
        assert!(call.mutating, "queries are read through `read`");
        match call.opcode {
            OP_CREATE => match (&call.args[0], &call.args[1]) {
                (Value::U32(collection), Value::Address(admin)) => {
                    if self.collections.contains_key(collection) {
                        return Err(DomainError::InUse);
                    }
                    self.collections.insert(*collection, admin.clone());
                    Ok(Value::Unit)
                }
                _ => unreachable!("the bridge decoded against the create shape"),
            },
            OP_MINT => match (&call.args[0], &call.args[1], &call.args[2]) {
                (Value::U32(collection), Value::U32(item), Value::Address(owner)) => {
                    if !self.collections.contains_key(collection) {
                        return Err(DomainError::UnknownCollection);
                    }
                    if self.owners.contains_key(&(*collection, *item)) {
                        return Err(DomainError::AlreadyExists);
                    }
                    self.owners.insert((*collection, *item), owner.clone());
                    Ok(Value::Unit)
                }
                _ => unreachable!("the bridge decoded against the mint shape"),
            },
            OP_REDEPOSIT => Ok(Value::Unit),
            _ => Err(DomainError::Other),
        }
    }

    /// Answers a prepared query, as the host would; queries cannot fail.
    fn read(&self, call: &PendingCall) -> Value {
        assert!(!call.mutating);
        match call.opcode {
            OP_OWNER => match (&call.args[0], &call.args[1]) {
                (Value::U32(collection), Value::U32(item)) => {
                    match self.owners.get(&(*collection, *item)) {
                        Some(owner) => {
                            Value::OptionVal(Some(Box::new(Value::Address(owner.clone()))))
                        }
                        None => Value::OptionVal(None),
                    }
                }
                _ => unreachable!("the bridge decoded against the owner shape"),
            },
            _ => Value::Unit,
        }
    }
}

fn bridge_address() -> Vec<u8> {
    vec![0xEE; 32]
}

fn admin_address() -> Vec<u8> {
    vec![0x11; 32]
}

/// origin byte ++ collection id ++ admin address: the create payload.
fn create_payload(origin: u8, collection: u32) -> Vec<u8> {
    let mut payload = vec![origin];
    payload.extend_from_slice(&collection.encode());
    payload.extend_from_slice(&admin_address());
    payload
}

#[test]
fn create_with_allowed_origin_succeeds() {
    let reg = uniques_registry();
    let mut store = Store::default();
    let payload = create_payload(1, 7);

    match prepare(&reg, OP_CREATE, &payload, 10_000, &bridge_address()) {
        Prepared::Invoke(call) => {
            assert!(call.mutating);
            assert_eq!(call.identity, Some(bridge_address()));
            assert_eq!(call.args, vec![Value::U32(7), Value::Address(admin_address())]);
            assert_eq!(call.cost, 1_000);
            assert_eq!(call.remaining, 9_000);
            let result = store.execute(&call);
            let (code, output) = complete_mutating(result);
            assert_eq!(code, 0);
            assert_eq!(output, Vec::<u8>::new());
        }
        other => panic!("expected an effect, got {other:?}"),
    }
    assert_eq!(store.collections.get(&7), Some(&admin_address()));
}

#[test]
fn create_with_reserved_origin_is_rejected_without_effect() {
    let reg = uniques_registry();
    let store = Store::default();
    let payload = create_payload(0, 7);

    match prepare(&reg, OP_CREATE, &payload, 10_000, &bridge_address()) {
        Prepared::Rejected => {
            let (code, output) = (Outcome::OriginCannotBeCaller.code(), Vec::<u8>::new());
            assert_eq!(code, 98);
            assert_eq!(output, Vec::<u8>::new());
        }
        other => panic!("expected origin rejection, got {other:?}"),
    }
    assert!(store.collections.is_empty(), "no collection may be created");
}

#[test]
fn reserved_origin_wins_over_a_garbage_remainder() {
    // Whatever follows the selector, a reserved origin completes with the
    // rejection outcome rather than a decode abort.
    let reg = uniques_registry();
    let payload = vec![0u8, 0xFF, 0xFF];
    match prepare(&reg, OP_CREATE, &payload, 10_000, &bridge_address()) {
        Prepared::Rejected => {}
        other => panic!("expected origin rejection, got {other:?}"),
    }
}

#[test]
fn owner_query_on_unknown_pair_encodes_absence() {
    let reg = uniques_registry();
    let store = Store::default();
    let mut payload = 9u32.encode();
    payload.extend_from_slice(&4u32.encode());

    match prepare(&reg, OP_OWNER, &payload, 10_000, &bridge_address()) {
        Prepared::Invoke(call) => {
            assert!(!call.mutating);
            assert_eq!(call.identity, None);
            let value = store.read(&call);
            let (code, output) = complete_query(&value);
            assert_eq!(code, 0);
            assert_eq!(output, vec![0u8], "the encoding of an absent value");
        }
        other => panic!("expected a query, got {other:?}"),
    }
}

#[test]
fn unregistered_opcode_aborts_the_call() {
    let reg = uniques_registry();
    let payload = create_payload(1, 7);
    match prepare(&reg, 77, &payload, 10_000, &bridge_address()) {
        Prepared::Abort(AbortReason::UnknownOpcode) => {}
        other => panic!("expected a protocol abort, got {other:?}"),
    }
}

#[test]
fn oversized_redeposit_batch_exhausts_the_budget() {
    let reg = uniques_registry();
    let store = Store::default();
    let items: Vec<u32> = (0..10).collect();
    let mut payload = vec![1u8];
    payload.extend_from_slice(&3u32.encode());
    payload.extend_from_slice(&items.encode());

    // cost = 1000 + 100 * 10 = 2000 > 1500: the effect never runs.
    match prepare(&reg, OP_REDEPOSIT, &payload, 1_500, &bridge_address()) {
        Prepared::Abort(AbortReason::BudgetExhausted) => {}
        other => panic!("expected exhaustion, got {other:?}"),
    }
    assert!(store.collections.is_empty());
    assert!(store.owners.is_empty());
}

#[test]
fn affordable_redeposit_batch_is_charged_exactly() {
    let reg = uniques_registry();
    let items: Vec<u32> = (0..10).collect();
    let mut payload = vec![1u8];
    payload.extend_from_slice(&3u32.encode());
    payload.extend_from_slice(&items.encode());

    match prepare(&reg, OP_REDEPOSIT, &payload, 2_000, &bridge_address()) {
        Prepared::Invoke(call) => {
            assert_eq!(call.cost, 2_000);
            assert_eq!(call.remaining, 0);
        }
        other => panic!("expected an effect, got {other:?}"),
    }
}

#[test]
fn truncated_payload_aborts_as_a_decode_failure() {
    let reg = uniques_registry();
    let payload = create_payload(1, 7);
    match prepare(&reg, OP_CREATE, &payload, 10_000, &bridge_address()) {
        Prepared::Invoke(_) => {}
        other => panic!("the full payload must reach the effect, got {other:?}"),
    }
    for cut in 0..payload.len() {
        let prefix: Vec<u8> = payload[..cut].to_vec();
        match prepare(&reg, OP_CREATE, &prefix, 10_000, &bridge_address()) {
            Prepared::Abort(AbortReason::DecodeFailed) => {}
            other => panic!("prefix of length {cut}: expected a decode abort, got {other:?}"),
        }
    }
}

#[test]
fn trailing_bytes_abort_as_a_decode_failure() {
    let reg = uniques_registry();
    let mut payload = create_payload(1, 7);
    payload.push(0);
    match prepare(&reg, OP_CREATE, &payload, 10_000, &bridge_address()) {
        Prepared::Abort(AbortReason::DecodeFailed) => {}
        other => panic!("expected a decode abort, got {other:?}"),
    }
}

#[test]
fn domain_error_maps_to_its_stable_code() {
    let reg = uniques_registry();
    let mut store = Store::default();
    store.collections.insert(7, admin_address());
    let payload = create_payload(1, 7);

    match prepare(&reg, OP_CREATE, &payload, 10_000, &bridge_address()) {
        Prepared::Invoke(call) => {
            let result = store.execute(&call);
            let (code, output) = complete_mutating(result);
            assert_eq!(code, 6, "InUse has outcome code 6");
            assert_eq!(output, Vec::<u8>::new());
        }
        other => panic!("expected an effect, got {other:?}"),
    }
}

#[test]
fn owner_query_after_mint_encodes_the_owner() {
    let reg = uniques_registry();
    let mut store = Store::default();

    let create = create_payload(1, 7);
    match prepare(&reg, OP_CREATE, &create, 10_000, &bridge_address()) {
        Prepared::Invoke(call) => {
            assert!(store.execute(&call).is_ok());
        }
        other => panic!("expected an effect, got {other:?}"),
    }

    let mut mint = vec![1u8];
    mint.extend_from_slice(&7u32.encode());
    mint.extend_from_slice(&4u32.encode());
    mint.extend_from_slice(&admin_address());
    match prepare(&reg, OP_MINT, &mint, 10_000, &bridge_address()) {
        Prepared::Invoke(call) => {
            let (code, _) = complete_mutating(store.execute(&call));
            assert_eq!(code, 0);
        }
        other => panic!("expected an effect, got {other:?}"),
    }

    let mut query = 7u32.encode();
    query.extend_from_slice(&4u32.encode());
    match prepare(&reg, OP_OWNER, &query, 10_000, &bridge_address()) {
        Prepared::Invoke(call) => {
            let (code, output) = complete_query(&store.read(&call));
            assert_eq!(code, 0);
            let mut expected = vec![1u8];
            expected.extend_from_slice(&admin_address());
            assert_eq!(output, expected, "the encoding of a present owner");
        }
        other => panic!("expected a query, got {other:?}"),
    }

    // Minting the same item again refuses with its own stable code.
    match prepare(&reg, OP_MINT, &mint, 10_000, &bridge_address()) {
        Prepared::Invoke(call) => {
            let (code, output) = complete_mutating(store.execute(&call));
            assert_eq!(code, 3, "AlreadyExists has outcome code 3");
            assert_eq!(output, Vec::<u8>::new());
        }
        other => panic!("expected an effect, got {other:?}"),
    }
}

#[test]
fn success_code_is_zero_exactly_on_success() {
    let (code, _) = complete_mutating(Ok(Value::Unit));
    assert_eq!(code, 0);
    let (code, _) = complete_mutating(Err(DomainError::Frozen));
    assert_ne!(code, 0);
}
