//! The outcome mapper: a total function from the registry's domain errors,
//! plus the bridge's own two conditions (success and origin rejection), into
//! a small stable integer outcome space.  Every named error has its own code;
//! an error the bridge does not distinguish collapses to the catch-all code,
//! so a completed call always yields some valid outcome.

use vstd::prelude::*;

verus! {

/// A failure reason reported by the registry collaborator.  The named
/// variants are the reasons this bridge distinguishes; `Other` stands for any
/// reason it does not (for instance one introduced by a newer registry).
#[derive(Debug, Copy, Clone, PartialEq, Eq, Structural)]
pub enum DomainError {
    NoPermission,
    UnknownCollection,
    AlreadyExists,
    WrongOwner,
    BadWitness,
    InUse,
    Frozen,
    WrongDelegate,
    NoDelegate,
    Unapproved,
    Unaccepted,
    Locked,
    MaxSupplyReached,
    MaxSupplyAlreadySet,
    MaxSupplyTooSmall,
    UnknownItem,
    NotForSale,
    BidTooLow,
    Other,
}

/// The outcome reported to the calling contract on every completed call.
#[derive(Debug, Copy, Clone, PartialEq, Eq, Structural)]
pub enum Outcome {
    /// Success
    Success,
    /// The signing account has no permission to do the operation.
    NoPermission,
    /// The given collection ID is unknown.
    UnknownCollection,
    /// The item ID has already been used for an item.
    AlreadyExists,
    /// The owner turned out to be different to what was expected.
    WrongOwner,
    /// Invalid witness data given.
    BadWitness,
    /// The item ID is already taken.
    InUse,
    /// The item or collection is frozen.
    Frozen,
    /// The delegate turned out to be different to what was expected.
    WrongDelegate,
    /// There is no delegate approved.
    NoDelegate,
    /// No approval exists that would allow the transfer.
    Unapproved,
    /// The named owner has not signed that ownership of the collection is
    /// acceptable.
    Unaccepted,
    /// The item is locked.
    Locked,
    /// All items have been minted.
    MaxSupplyReached,
    /// The max supply has already been set.
    MaxSupplyAlreadySet,
    /// The provided max supply is less than the amount of items a collection
    /// already has.
    MaxSupplyTooSmall,
    /// The given item ID is unknown.
    UnknownItem,
    /// Item is not for sale.
    NotForSale,
    /// The provided bid is too low.
    BidTooLow,
    /// Origin Caller is not supported.
    OriginCannotBeCaller,
    /// Unknown error.
    RuntimeError,
}

/// The explicit association from every named domain error to its outcome;
/// anything else collapses to the catch-all.
pub open spec fn outcome_of(e: DomainError) -> Outcome {
    match e {
        DomainError::NoPermission => Outcome::NoPermission,
        DomainError::UnknownCollection => Outcome::UnknownCollection,
        DomainError::AlreadyExists => Outcome::AlreadyExists,
        DomainError::WrongOwner => Outcome::WrongOwner,
        DomainError::BadWitness => Outcome::BadWitness,
        DomainError::InUse => Outcome::InUse,
        DomainError::Frozen => Outcome::Frozen,
        DomainError::WrongDelegate => Outcome::WrongDelegate,
        DomainError::NoDelegate => Outcome::NoDelegate,
        DomainError::Unapproved => Outcome::Unapproved,
        DomainError::Unaccepted => Outcome::Unaccepted,
        DomainError::Locked => Outcome::Locked,
        DomainError::MaxSupplyReached => Outcome::MaxSupplyReached,
        DomainError::MaxSupplyAlreadySet => Outcome::MaxSupplyAlreadySet,
        DomainError::MaxSupplyTooSmall => Outcome::MaxSupplyTooSmall,
        DomainError::UnknownItem => Outcome::UnknownItem,
        DomainError::NotForSale => Outcome::NotForSale,
        DomainError::BidTooLow => Outcome::BidTooLow,
        DomainError::Other => Outcome::RuntimeError,
    }
}

/// Whether the bridge's mapping table names this error explicitly.
pub open spec fn is_mapped(e: DomainError) -> bool {
    !(e is Other)
}

/// The fixed integer each outcome stands for: `0` is success, `1` to `18`
/// are the named domain errors, `98` is origin rejection, `99` the catch-all.
pub open spec fn outcome_code(o: Outcome) -> u32 {
    match o {
        Outcome::Success => 0,
        Outcome::NoPermission => 1,
        Outcome::UnknownCollection => 2,
        Outcome::AlreadyExists => 3,
        Outcome::WrongOwner => 4,
        Outcome::BadWitness => 5,
        Outcome::InUse => 6,
        Outcome::Frozen => 7,
        Outcome::WrongDelegate => 8,
        Outcome::NoDelegate => 9,
        Outcome::Unapproved => 10,
        Outcome::Unaccepted => 11,
        Outcome::Locked => 12,
        Outcome::MaxSupplyReached => 13,
        Outcome::MaxSupplyAlreadySet => 14,
        Outcome::MaxSupplyTooSmall => 15,
        Outcome::UnknownItem => 16,
        Outcome::NotForSale => 17,
        Outcome::BidTooLow => 18,
        Outcome::OriginCannotBeCaller => 98,
        Outcome::RuntimeError => 99,
    }
}

impl Outcome {
    /// The integer this outcome stands for on the wire.
    pub fn code(&self) -> (r: u32)
        ensures
            r == outcome_code(*self),
    {
        match self {
            Outcome::Success => 0,
            Outcome::NoPermission => 1,
            Outcome::UnknownCollection => 2,
            Outcome::AlreadyExists => 3,
            Outcome::WrongOwner => 4,
            Outcome::BadWitness => 5,
            Outcome::InUse => 6,
            Outcome::Frozen => 7,
            Outcome::WrongDelegate => 8,
            Outcome::NoDelegate => 9,
            Outcome::Unapproved => 10,
            Outcome::Unaccepted => 11,
            Outcome::Locked => 12,
            Outcome::MaxSupplyReached => 13,
            Outcome::MaxSupplyAlreadySet => 14,
            Outcome::MaxSupplyTooSmall => 15,
            Outcome::UnknownItem => 16,
            Outcome::NotForSale => 17,
            Outcome::BidTooLow => 18,
            Outcome::OriginCannotBeCaller => 98,
            Outcome::RuntimeError => 99,
        }
    }
}

impl From<DomainError> for Outcome {
    /// Maps a domain error through the explicit table.
    fn from(e: DomainError) -> (r: Self) {
        match e {
            DomainError::NoPermission => Outcome::NoPermission,
            DomainError::UnknownCollection => Outcome::UnknownCollection,
            DomainError::AlreadyExists => Outcome::AlreadyExists,
            DomainError::WrongOwner => Outcome::WrongOwner,
            DomainError::BadWitness => Outcome::BadWitness,
            DomainError::InUse => Outcome::InUse,
            DomainError::Frozen => Outcome::Frozen,
            DomainError::WrongDelegate => Outcome::WrongDelegate,
            DomainError::NoDelegate => Outcome::NoDelegate,
            DomainError::Unapproved => Outcome::Unapproved,
            DomainError::Unaccepted => Outcome::Unaccepted,
            DomainError::Locked => Outcome::Locked,
            DomainError::MaxSupplyReached => Outcome::MaxSupplyReached,
            DomainError::MaxSupplyAlreadySet => Outcome::MaxSupplyAlreadySet,
            DomainError::MaxSupplyTooSmall => Outcome::MaxSupplyTooSmall,
            DomainError::UnknownItem => Outcome::UnknownItem,
            DomainError::NotForSale => Outcome::NotForSale,
            DomainError::BidTooLow => Outcome::BidTooLow,
            DomainError::Other => Outcome::RuntimeError,
        }
    }
}

impl vstd::std_specs::convert::FromSpecImpl<DomainError> for Outcome {
    open spec fn obeys_from_spec() -> bool {
        true
    }

    open spec fn from_spec(e: DomainError) -> Outcome {
        outcome_of(e)
    }
}

/// Outcome stability: mapping is a function of the error value alone, so the
/// same domain error always yields the same outcome and the same code, on
/// every call and under every handler.
pub proof fn lemma_outcome_stable(e1: DomainError, e2: DomainError)
    requires
        e1 == e2,
    ensures
        outcome_of(e1) == outcome_of(e2),
        outcome_code(outcome_of(e1)) == outcome_code(outcome_of(e2)),
{
}

/// The mapping from domain errors to outcomes is injective: distinct errors
/// never share an outcome, so an outcome code identifies the error.
pub proof fn lemma_outcome_injective(e1: DomainError, e2: DomainError)
    requires
        outcome_of(e1) == outcome_of(e2),
    ensures
        e1 == e2,
{
}

/// Outcome codes are themselves distinct: no two outcomes share an integer.
pub proof fn lemma_code_injective(o1: Outcome, o2: Outcome)
    requires
        outcome_code(o1) == outcome_code(o2),
    ensures
        o1 == o2,
{
}

/// Catch-all coverage: an error the mapping table does not name yields
/// exactly the catch-all code, never a panic and never a protocol abort.
pub proof fn lemma_unmapped_catch_all(e: DomainError)
    requires
        !is_mapped(e),
    ensures
        outcome_of(e) == Outcome::RuntimeError,
        outcome_code(outcome_of(e)) == 99,
{
}

/// A named domain error never maps to the catch-all, to success, or to the
/// origin-rejection code: its code lies in the per-error band.
pub proof fn lemma_mapped_code_band(e: DomainError)
    requires
        is_mapped(e),
    ensures
        1 <= outcome_code(outcome_of(e)) <= 18,
{
}

} // verus!
