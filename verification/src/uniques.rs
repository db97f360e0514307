//! The handler table of the item/collection registry bridge: one declarative
//! descriptor per operation, in place of per-opcode hand-written control
//! flow.  Mutating handlers carry an origin selector as their first wire
//! field; their remaining fields are listed here.  Queries carry no origin
//! and cannot fail once their payload decodes.

use vstd::prelude::*;

use crate::codec::FieldType;
use crate::meter::CostRule;
use crate::registry::HandlerDescriptor;
use crate::registry::Registry;
use crate::registry::descriptor_wf;
use crate::registry::spec_lookup;
use crate::registry::lemma_lookup_total;

verus! {

/// Creates a collection: (collection, admin).
pub const OP_CREATE: u16 = 1;

/// Transfers an item: (collection, item, destination).
pub const OP_TRANSFER: u16 = 2;

/// Mints an item: (collection, item, owner).
pub const OP_MINT: u16 = 3;

/// Re-evaluates the deposits of a batch of items: (collection, items).
pub const OP_REDEPOSIT: u16 = 4;

/// Burns an item: (collection, item, optional expected owner).
pub const OP_BURN: u16 = 5;

/// Destroys a collection: (collection, witness counts).
pub const OP_DESTROY: u16 = 6;

/// Approves a delegate for one item: (collection, item, delegate).
pub const OP_APPROVE_TRANSFER: u16 = 7;

/// Cancels an approval: (collection, item, optional expected delegate).
pub const OP_CANCEL_APPROVAL: u16 = 8;

/// Freezes an item: (collection, item).
pub const OP_FREEZE: u16 = 9;

/// Thaws an item: (collection, item).
pub const OP_THAW: u16 = 10;

/// Freezes a collection: (collection).
pub const OP_FREEZE_COLLECTION: u16 = 11;

/// Thaws a collection: (collection).
pub const OP_THAW_COLLECTION: u16 = 12;

/// Transfers a collection's ownership: (collection, new owner).
pub const OP_TRANSFER_OWNERSHIP: u16 = 13;

/// Sets a collection's team: (collection, issuer, admin, freezer).
pub const OP_SET_TEAM: u16 = 14;

/// Sets an attribute: (collection, optional item, key, value).
pub const OP_SET_ATTRIBUTE: u16 = 15;

/// Clears an attribute: (collection, optional item, key).
pub const OP_CLEAR_ATTRIBUTE: u16 = 16;

/// Sets an item's metadata: (collection, item, data, freeze flag).
pub const OP_SET_METADATA: u16 = 17;

/// Clears an item's metadata: (collection, item).
pub const OP_CLEAR_METADATA: u16 = 18;

/// Sets a collection's metadata: (collection, data, freeze flag).
pub const OP_SET_COLLECTION_METADATA: u16 = 19;

/// Clears a collection's metadata: (collection).
pub const OP_CLEAR_COLLECTION_METADATA: u16 = 20;

/// Accepts (or withdraws acceptance of) an incoming ownership transfer:
/// (optional collection).
pub const OP_SET_ACCEPT_OWNERSHIP: u16 = 21;

/// Caps a collection's supply: (collection, max supply).
pub const OP_SET_COLLECTION_MAX_SUPPLY: u16 = 22;

/// Reads an item's owner: (collection, item).
pub const OP_OWNER: u16 = 23;

/// Reads a collection's owner: (collection).
pub const OP_COLLECTION_OWNER: u16 = 24;

/// Reads an item's attribute: (collection, item, key).
pub const OP_ATTRIBUTE: u16 = 25;

/// Reads a collection's attribute: (collection, key).
pub const OP_COLLECTION_ATTRIBUTE: u16 = 26;

/// Reads whether an item can be transferred: (collection, item).
pub const OP_CAN_TRANSFER: u16 = 27;

/// Lists all collections: (read bound).
pub const OP_COLLECTIONS: u16 = 28;

/// Lists a collection's items: (collection, read bound).
pub const OP_ITEMS: u16 = 29;

/// Lists an account's items across collections: (owner, read bound).
pub const OP_OWNED: u16 = 30;

/// Lists an account's items in one collection: (owner, collection, read
/// bound).
pub const OP_OWNED_IN_COLLECTION: u16 = 31;

/// The longest attribute key accepted on the wire.
pub const KEY_LIMIT: u32 = 32;

/// The longest attribute value accepted on the wire.
pub const VALUE_LIMIT: u32 = 64;

/// The longest metadata string accepted on the wire.
pub const STRING_LIMIT: u32 = 128;

/// The flat cost of one mutating operation.
pub const WRITE_COST: u64 = 1_000;

/// The base cost of a batch or witness-scaled mutating operation.
pub const BATCH_BASE_COST: u64 = 1_000;

/// The added cost of each element of a batch or witness.
pub const BATCH_ITEM_COST: u64 = 100;

/// The flat cost of one query.
pub const READ_COST: u64 = 200;

/// The added cost of each entry a bounded enumeration may read.
pub const READ_ITEM_COST: u64 = 10;

/// The declarative handler table itself, slot by slot: whether the handler
/// at index `i` (opcode `i + 1`) mutates, its field shapes, and its cost
/// rule.  `uniques_registry` builds exactly this table.
pub open spec fn uniques_table(i: int) -> (bool, Seq<FieldType>, CostRule) {
    if i == 0 {
        (true, Seq::empty().push(FieldType::U32).push(FieldType::Address), CostRule::Fixed(WRITE_COST))
    } else if i == 1 {
        (true, Seq::empty().push(FieldType::U32).push(FieldType::U32).push(FieldType::Address), CostRule::Fixed(WRITE_COST))
    } else if i == 2 {
        (true, Seq::empty().push(FieldType::U32).push(FieldType::U32).push(FieldType::Address), CostRule::Fixed(WRITE_COST))
    } else if i == 3 {
        (true, Seq::empty().push(FieldType::U32).push(FieldType::ListOf(Box::new(FieldType::U32))), CostRule::Linear { base: BATCH_BASE_COST, each: BATCH_ITEM_COST, arg: 1 })
    } else if i == 4 {
        (true, Seq::empty().push(FieldType::U32).push(FieldType::U32).push(FieldType::OptionOf(Box::new(FieldType::Address))), CostRule::Fixed(WRITE_COST))
    } else if i == 5 {
        (true, Seq::empty().push(FieldType::U32).push(FieldType::Compact).push(FieldType::Compact).push(FieldType::Compact), CostRule::Linear { base: BATCH_BASE_COST, each: BATCH_ITEM_COST, arg: 1 })
    } else if i == 6 {
        (true, Seq::empty().push(FieldType::U32).push(FieldType::U32).push(FieldType::Address), CostRule::Fixed(WRITE_COST))
    } else if i == 7 {
        (true, Seq::empty().push(FieldType::U32).push(FieldType::U32).push(FieldType::OptionOf(Box::new(FieldType::Address))), CostRule::Fixed(WRITE_COST))
    } else if i == 8 {
        (true, Seq::empty().push(FieldType::U32).push(FieldType::U32), CostRule::Fixed(WRITE_COST))
    } else if i == 9 {
        (true, Seq::empty().push(FieldType::U32).push(FieldType::U32), CostRule::Fixed(WRITE_COST))
    } else if i == 10 {
        (true, Seq::empty().push(FieldType::U32), CostRule::Fixed(WRITE_COST))
    } else if i == 11 {
        (true, Seq::empty().push(FieldType::U32), CostRule::Fixed(WRITE_COST))
    } else if i == 12 {
        (true, Seq::empty().push(FieldType::U32).push(FieldType::Address), CostRule::Fixed(WRITE_COST))
    } else if i == 13 {
        (true, Seq::empty().push(FieldType::U32).push(FieldType::Address).push(FieldType::Address).push(FieldType::Address), CostRule::Fixed(WRITE_COST))
    } else if i == 14 {
        (true, Seq::empty().push(FieldType::U32).push(FieldType::OptionOf(Box::new(FieldType::U32))).push(FieldType::Bytes(KEY_LIMIT)).push(FieldType::Bytes(VALUE_LIMIT)), CostRule::Fixed(WRITE_COST))
    } else if i == 15 {
        (true, Seq::empty().push(FieldType::U32).push(FieldType::OptionOf(Box::new(FieldType::U32))).push(FieldType::Bytes(KEY_LIMIT)), CostRule::Fixed(WRITE_COST))
    } else if i == 16 {
        (true, Seq::empty().push(FieldType::U32).push(FieldType::U32).push(FieldType::Bytes(STRING_LIMIT)).push(FieldType::Bool), CostRule::Fixed(WRITE_COST))
    } else if i == 17 {
        (true, Seq::empty().push(FieldType::U32).push(FieldType::U32), CostRule::Fixed(WRITE_COST))
    } else if i == 18 {
        (true, Seq::empty().push(FieldType::U32).push(FieldType::Bytes(STRING_LIMIT)).push(FieldType::Bool), CostRule::Fixed(WRITE_COST))
    } else if i == 19 {
        (true, Seq::empty().push(FieldType::U32), CostRule::Fixed(WRITE_COST))
    } else if i == 20 {
        (true, Seq::empty().push(FieldType::OptionOf(Box::new(FieldType::U32))), CostRule::Fixed(WRITE_COST))
    } else if i == 21 {
        (true, Seq::empty().push(FieldType::U32).push(FieldType::U32), CostRule::Fixed(WRITE_COST))
    } else if i == 22 {
        (false, Seq::empty().push(FieldType::U32).push(FieldType::U32), CostRule::Fixed(READ_COST))
    } else if i == 23 {
        (false, Seq::empty().push(FieldType::U32), CostRule::Fixed(READ_COST))
    } else if i == 24 {
        (false, Seq::empty().push(FieldType::U32).push(FieldType::U32).push(FieldType::Bytes(KEY_LIMIT)), CostRule::Fixed(READ_COST))
    } else if i == 25 {
        (false, Seq::empty().push(FieldType::U32).push(FieldType::Bytes(KEY_LIMIT)), CostRule::Fixed(READ_COST))
    } else if i == 26 {
        (false, Seq::empty().push(FieldType::U32).push(FieldType::U32), CostRule::Fixed(READ_COST))
    } else if i == 27 {
        (false, Seq::empty().push(FieldType::U32), CostRule::Linear { base: READ_COST, each: READ_ITEM_COST, arg: 0 })
    } else if i == 28 {
        (false, Seq::empty().push(FieldType::U32).push(FieldType::U32), CostRule::Linear { base: READ_COST, each: READ_ITEM_COST, arg: 1 })
    } else if i == 29 {
        (false, Seq::empty().push(FieldType::Address).push(FieldType::U32), CostRule::Linear { base: READ_COST, each: READ_ITEM_COST, arg: 1 })
    } else if i == 30 {
        (false, Seq::empty().push(FieldType::Address).push(FieldType::U32).push(FieldType::U32), CostRule::Linear { base: READ_COST, each: READ_ITEM_COST, arg: 2 })
    } else {
        (false, Seq::empty(), CostRule::Fixed(0))
    }
}

/// Opcodes strictly ascend along the table.
pub open spec fn opcodes_ascending(ds: Seq<HandlerDescriptor>) -> bool {
    forall|i: int, j: int| 0 <= i < j < ds.len() ==> ds[i].opcode < ds[j].opcode
}

/// Appends one descriptor to a table built in ascending opcode order.
fn add_handler(
    ds: &mut Vec<HandlerDescriptor>,
    opcode: u16,
    mutating: bool,
    shape: Vec<FieldType>,
    cost: CostRule,
)
    requires
        match cost {
            CostRule::Linear { base, each, arg } => arg < shape@.len(),
            CostRule::Fixed(c) => true,
        },
        opcodes_ascending(old(ds)@),
        forall|i: int| 0 <= i < old(ds)@.len() ==> old(ds)@[i].opcode < opcode,
        forall|i: int| 0 <= i < old(ds)@.len() ==> descriptor_wf(#[trigger] old(ds)@[i]),
    ensures
        final(ds)@.len() == old(ds)@.len() + 1,
        forall|i: int| 0 <= i < old(ds)@.len() ==> final(ds)@[i] == old(ds)@[i],
        final(ds)@[old(ds)@.len() as int].opcode == opcode,
        final(ds)@[old(ds)@.len() as int].mutating == mutating,
        final(ds)@[old(ds)@.len() as int].shape@ == shape@,
        final(ds)@[old(ds)@.len() as int].cost == cost,
        opcodes_ascending(final(ds)@),
        forall|i: int| 0 <= i < final(ds)@.len() ==> final(ds)@[i].opcode <= opcode,
        forall|i: int| 0 <= i < final(ds)@.len() ==> descriptor_wf(#[trigger] final(ds)@[i]),
{
    ds.push(HandlerDescriptor { opcode, mutating, shape, cost });
}

/// Builds the registry's whole handler table, once, at startup: each opcode
/// is registered exactly once, opcodes outside the table are unknown, and
/// the table is never mutated afterwards.
#[verifier::rlimit(100)]
pub fn uniques_registry() -> (r: Registry)
    ensures
        r.wf(),
        r.descriptors@.len() == 31,
        forall|i: int| 0 <= i < 31 ==> (#[trigger] r.descriptors@[i].opcode) == i + 1,
        forall|i: int| 0 <= i < 31 ==> (#[trigger] r.descriptors@[i].mutating) == uniques_table(i).0,
        forall|i: int| 0 <= i < 31 ==> (#[trigger] r.descriptors@[i].shape@) == uniques_table(i).1,
        forall|i: int| 0 <= i < 31 ==> (#[trigger] r.descriptors@[i].cost) == uniques_table(i).2,
        forall|op: u16| (spec_lookup(r.descriptors@, op) is Some) <==> (1 <= op <= 31),
{
    let mut ds: Vec<HandlerDescriptor> = Vec::new();

    let mut shape: Vec<FieldType> = Vec::new();
    shape.push(FieldType::U32);
    shape.push(FieldType::Address);
    add_handler(&mut ds, OP_CREATE, true, shape, CostRule::Fixed(WRITE_COST));

    let mut shape: Vec<FieldType> = Vec::new();
    shape.push(FieldType::U32);
    shape.push(FieldType::U32);
    shape.push(FieldType::Address);
    add_handler(&mut ds, OP_TRANSFER, true, shape, CostRule::Fixed(WRITE_COST));

    let mut shape: Vec<FieldType> = Vec::new();
    shape.push(FieldType::U32);
    shape.push(FieldType::U32);
    shape.push(FieldType::Address);
    add_handler(&mut ds, OP_MINT, true, shape, CostRule::Fixed(WRITE_COST));

    let mut shape: Vec<FieldType> = Vec::new();
    shape.push(FieldType::U32);
    shape.push(FieldType::ListOf(Box::new(FieldType::U32)));
    add_handler(
        &mut ds,
        OP_REDEPOSIT,
        true,
        shape,
        CostRule::Linear { base: BATCH_BASE_COST, each: BATCH_ITEM_COST, arg: 1 },
    );

    let mut shape: Vec<FieldType> = Vec::new();
    shape.push(FieldType::U32);
    shape.push(FieldType::U32);
    shape.push(FieldType::OptionOf(Box::new(FieldType::Address)));
    add_handler(&mut ds, OP_BURN, true, shape, CostRule::Fixed(WRITE_COST));

    let mut shape: Vec<FieldType> = Vec::new();
    shape.push(FieldType::U32);
    shape.push(FieldType::Compact);
    shape.push(FieldType::Compact);
    shape.push(FieldType::Compact);
    add_handler(
        &mut ds,
        OP_DESTROY,
        true,
        shape,
        CostRule::Linear { base: BATCH_BASE_COST, each: BATCH_ITEM_COST, arg: 1 },
    );

    let mut shape: Vec<FieldType> = Vec::new();
    shape.push(FieldType::U32);
    shape.push(FieldType::U32);
    shape.push(FieldType::Address);
    add_handler(&mut ds, OP_APPROVE_TRANSFER, true, shape, CostRule::Fixed(WRITE_COST));

    let mut shape: Vec<FieldType> = Vec::new();
    shape.push(FieldType::U32);
    shape.push(FieldType::U32);
    shape.push(FieldType::OptionOf(Box::new(FieldType::Address)));
    add_handler(&mut ds, OP_CANCEL_APPROVAL, true, shape, CostRule::Fixed(WRITE_COST));

    let mut shape: Vec<FieldType> = Vec::new();
    shape.push(FieldType::U32);
    shape.push(FieldType::U32);
    add_handler(&mut ds, OP_FREEZE, true, shape, CostRule::Fixed(WRITE_COST));

    let mut shape: Vec<FieldType> = Vec::new();
    shape.push(FieldType::U32);
    shape.push(FieldType::U32);
    add_handler(&mut ds, OP_THAW, true, shape, CostRule::Fixed(WRITE_COST));

    let mut shape: Vec<FieldType> = Vec::new();
    shape.push(FieldType::U32);
    add_handler(&mut ds, OP_FREEZE_COLLECTION, true, shape, CostRule::Fixed(WRITE_COST));

    let mut shape: Vec<FieldType> = Vec::new();
    shape.push(FieldType::U32);
    add_handler(&mut ds, OP_THAW_COLLECTION, true, shape, CostRule::Fixed(WRITE_COST));

    let mut shape: Vec<FieldType> = Vec::new();
    shape.push(FieldType::U32);
    shape.push(FieldType::Address);
    add_handler(&mut ds, OP_TRANSFER_OWNERSHIP, true, shape, CostRule::Fixed(WRITE_COST));

    let mut shape: Vec<FieldType> = Vec::new();
    shape.push(FieldType::U32);
    shape.push(FieldType::Address);
    shape.push(FieldType::Address);
    shape.push(FieldType::Address);
    add_handler(&mut ds, OP_SET_TEAM, true, shape, CostRule::Fixed(WRITE_COST));

    let mut shape: Vec<FieldType> = Vec::new();
    shape.push(FieldType::U32);
    shape.push(FieldType::OptionOf(Box::new(FieldType::U32)));
    shape.push(FieldType::Bytes(KEY_LIMIT));
    shape.push(FieldType::Bytes(VALUE_LIMIT));
    add_handler(&mut ds, OP_SET_ATTRIBUTE, true, shape, CostRule::Fixed(WRITE_COST));

    let mut shape: Vec<FieldType> = Vec::new();
    shape.push(FieldType::U32);
    shape.push(FieldType::OptionOf(Box::new(FieldType::U32)));
    shape.push(FieldType::Bytes(KEY_LIMIT));
    add_handler(&mut ds, OP_CLEAR_ATTRIBUTE, true, shape, CostRule::Fixed(WRITE_COST));

    let mut shape: Vec<FieldType> = Vec::new();
    shape.push(FieldType::U32);
    shape.push(FieldType::U32);
    shape.push(FieldType::Bytes(STRING_LIMIT));
    shape.push(FieldType::Bool);
    add_handler(&mut ds, OP_SET_METADATA, true, shape, CostRule::Fixed(WRITE_COST));

    let mut shape: Vec<FieldType> = Vec::new();
    shape.push(FieldType::U32);
    shape.push(FieldType::U32);
    add_handler(&mut ds, OP_CLEAR_METADATA, true, shape, CostRule::Fixed(WRITE_COST));

    let mut shape: Vec<FieldType> = Vec::new();
    shape.push(FieldType::U32);
    shape.push(FieldType::Bytes(STRING_LIMIT));
    shape.push(FieldType::Bool);
    add_handler(&mut ds, OP_SET_COLLECTION_METADATA, true, shape, CostRule::Fixed(WRITE_COST));

    let mut shape: Vec<FieldType> = Vec::new();
    shape.push(FieldType::U32);
    add_handler(&mut ds, OP_CLEAR_COLLECTION_METADATA, true, shape, CostRule::Fixed(WRITE_COST));

    let mut shape: Vec<FieldType> = Vec::new();
    shape.push(FieldType::OptionOf(Box::new(FieldType::U32)));
    add_handler(&mut ds, OP_SET_ACCEPT_OWNERSHIP, true, shape, CostRule::Fixed(WRITE_COST));

    let mut shape: Vec<FieldType> = Vec::new();
    shape.push(FieldType::U32);
    shape.push(FieldType::U32);
    add_handler(&mut ds, OP_SET_COLLECTION_MAX_SUPPLY, true, shape, CostRule::Fixed(WRITE_COST));

    let mut shape: Vec<FieldType> = Vec::new();
    shape.push(FieldType::U32);
    shape.push(FieldType::U32);
    add_handler(&mut ds, OP_OWNER, false, shape, CostRule::Fixed(READ_COST));

    let mut shape: Vec<FieldType> = Vec::new();
    shape.push(FieldType::U32);
    add_handler(&mut ds, OP_COLLECTION_OWNER, false, shape, CostRule::Fixed(READ_COST));

    let mut shape: Vec<FieldType> = Vec::new();
    shape.push(FieldType::U32);
    shape.push(FieldType::U32);
    shape.push(FieldType::Bytes(KEY_LIMIT));
    add_handler(&mut ds, OP_ATTRIBUTE, false, shape, CostRule::Fixed(READ_COST));

    let mut shape: Vec<FieldType> = Vec::new();
    shape.push(FieldType::U32);
    shape.push(FieldType::Bytes(KEY_LIMIT));
    add_handler(&mut ds, OP_COLLECTION_ATTRIBUTE, false, shape, CostRule::Fixed(READ_COST));

    let mut shape: Vec<FieldType> = Vec::new();
    shape.push(FieldType::U32);
    shape.push(FieldType::U32);
    add_handler(&mut ds, OP_CAN_TRANSFER, false, shape, CostRule::Fixed(READ_COST));

    let mut shape: Vec<FieldType> = Vec::new();
    shape.push(FieldType::U32);
    add_handler(
        &mut ds,
        OP_COLLECTIONS,
        false,
        shape,
        CostRule::Linear { base: READ_COST, each: READ_ITEM_COST, arg: 0 },
    );

    let mut shape: Vec<FieldType> = Vec::new();
    shape.push(FieldType::U32);
    shape.push(FieldType::U32);
    add_handler(
        &mut ds,
        OP_ITEMS,
        false,
        shape,
        CostRule::Linear { base: READ_COST, each: READ_ITEM_COST, arg: 1 },
    );

    let mut shape: Vec<FieldType> = Vec::new();
    shape.push(FieldType::Address);
    shape.push(FieldType::U32);
    add_handler(
        &mut ds,
        OP_OWNED,
        false,
        shape,
        CostRule::Linear { base: READ_COST, each: READ_ITEM_COST, arg: 1 },
    );

    let mut shape: Vec<FieldType> = Vec::new();
    shape.push(FieldType::Address);
    shape.push(FieldType::U32);
    shape.push(FieldType::U32);
    add_handler(
        &mut ds,
        OP_OWNED_IN_COLLECTION,
        false,
        shape,
        CostRule::Linear { base: READ_COST, each: READ_ITEM_COST, arg: 2 },
    );

    let reg = Registry { descriptors: ds };
    proof {
        assert(forall|i: int|
            0 <= i < 31 ==> (#[trigger] reg.descriptors@[i].opcode) == i + 1);
        assert forall|op: u16| (spec_lookup(reg.descriptors@, op) is Some) <==> (1 <= op
            <= 31) by {
            lemma_lookup_total(reg.descriptors@, op);
            if 1 <= op && op <= 31 {
                assert(reg.descriptors@[op - 1].opcode == op);
            }
        }
    }
    reg
}

} // verus!
