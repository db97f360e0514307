//! The outcome mapping table and the opcode registry's lookup behaviour.

use chain_extension_bridge::block_number;
use chain_extension_bridge::block_number::OP_RELAY_CHAIN_BLOCK_NUMBER;
use chain_extension_bridge::block_number::block_number_registry;
use chain_extension_bridge::codec::Value;
use chain_extension_bridge::dispatch::Prepared;
use chain_extension_bridge::dispatch::complete_query;
use chain_extension_bridge::dispatch::prepare;
use chain_extension_bridge::origin::Origin;
use chain_extension_bridge::origin::resolve;
use chain_extension_bridge::outcome::DomainError;
use chain_extension_bridge::outcome::Outcome;
use chain_extension_bridge::uniques::uniques_registry;

use parity_scale_codec::Encode;

#[test]
fn every_named_error_has_its_own_code() {
    let table: Vec<(DomainError, u32)> = vec![
        (DomainError::NoPermission, 1),
        (DomainError::UnknownCollection, 2),
        (DomainError::AlreadyExists, 3),
        (DomainError::WrongOwner, 4),
        (DomainError::BadWitness, 5),
        (DomainError::InUse, 6),
        (DomainError::Frozen, 7),
        (DomainError::WrongDelegate, 8),
        (DomainError::NoDelegate, 9),
        (DomainError::Unapproved, 10),
        (DomainError::Unaccepted, 11),
        (DomainError::Locked, 12),
        (DomainError::MaxSupplyReached, 13),
        (DomainError::MaxSupplyAlreadySet, 14),
        (DomainError::MaxSupplyTooSmall, 15),
        (DomainError::UnknownItem, 16),
        (DomainError::NotForSale, 17),
        (DomainError::BidTooLow, 18),
    ];
    let mut seen: Vec<u32> = Vec::new();
    for (error, expected) in table {
        let code = Outcome::from(error).code();
        assert_eq!(code, expected, "{error:?}");
        assert!(!seen.contains(&code), "codes must be distinct");
        seen.push(code);
    }
}

#[test]
fn same_error_always_yields_the_same_code() {
    for _ in 0..3 {
        assert_eq!(Outcome::from(DomainError::Frozen), Outcome::Frozen);
        assert_eq!(Outcome::from(DomainError::Frozen).code(), 7);
    }
}

#[test]
fn unmapped_error_collapses_to_the_catch_all() {
    assert_eq!(Outcome::from(DomainError::Other), Outcome::RuntimeError);
    assert_eq!(Outcome::from(DomainError::Other).code(), 99);
}

#[test]
fn bridge_outcome_codes_are_fixed() {
    assert_eq!(Outcome::Success.code(), 0);
    assert_eq!(Outcome::OriginCannotBeCaller.code(), 98);
    assert_eq!(Outcome::RuntimeError.code(), 99);
    assert_eq!(block_number::Outcome::Success.code(), 0);
    assert_eq!(block_number::Outcome::OriginCannotBeCaller.code(), 98);
    assert_eq!(block_number::Outcome::RuntimeError.code(), 99);
}

#[test]
fn default_origin_is_the_bridge_address() {
    assert_eq!(Origin::default(), Origin::Address);
}

#[test]
fn resolving_origins() {
    let bridge: Vec<u8> = vec![0xEE; 32];
    assert_eq!(resolve(Origin::Address, &bridge), Some(bridge.clone()));
    assert_eq!(resolve(Origin::Caller, &bridge), None);
}

#[test]
fn lookup_is_total_and_repeatable() {
    let reg = uniques_registry();
    for op in 0u16..40 {
        let first = reg.lookup(op).map(|d| d.opcode);
        let second = reg.lookup(op).map(|d| d.opcode);
        assert_eq!(first, second, "repeated lookups must agree");
        if (1..=31).contains(&op) {
            assert_eq!(first, Some(op), "opcode {op} is registered");
        } else {
            assert_eq!(first, None, "opcode {op} is not registered");
        }
    }
}

#[test]
fn block_number_read_round_trips() {
    let reg = block_number_registry();
    let empty: Vec<u8> = Vec::new();
    let bridge: Vec<u8> = vec![0xEE; 32];
    match prepare(&reg, OP_RELAY_CHAIN_BLOCK_NUMBER, &empty, 1_000, &bridge) {
        Prepared::Invoke(call) => {
            assert!(!call.mutating);
            assert!(call.args.is_empty());
            // The host answers with the block number; the bridge encodes it.
            let (code, output) = complete_query(&Value::U32(42));
            assert_eq!(code, 0);
            assert_eq!(output, 42u32.encode());
        }
        other => panic!("expected a query, got {other:?}"),
    }
}
