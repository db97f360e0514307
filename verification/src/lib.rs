//! A host-call dispatch bridge: a narrow, metered interface through which
//! sandboxed contract code invokes a fixed set of privileged operations
//! against a host-owned item/collection registry.
//!
//! The bridge is table-driven: an opcode registry maps each 16-bit opcode to
//! a declarative handler descriptor (argument shape, cost rule, mutability),
//! a wire codec decodes the call payload against that shape, an origin
//! resolver rejects the reserved origin selector, and a cost meter charges
//! the call before any effect may run.  Registry effects themselves are
//! performed by the host; the dispatcher hands it a fully decoded, charged
//! call and maps the result into a small stable outcome-code space.

pub mod block_number;
pub mod codec;
pub mod dispatch;
pub mod meter;
pub mod origin;
pub mod outcome;
pub mod registry;
pub mod uniques;
