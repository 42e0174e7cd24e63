//! Signal bundles of the transaction-port contract.
//!
//! Every component speaks the same request/response protocol on both of its
//! sides.  A requester-facing port carries enable, address, write flag, write
//! data and a per-byte write mask toward the component, and ready, read data
//! and read-data-valid back to the consumer.  A request is accepted exactly
//! when enable and ready hold in the same cycle; a read is answered by one
//! read-data-valid pulse, possibly the same cycle, possibly arbitrarily
//! later.  The backing-store-facing port has the identical shape with the
//! roles reversed.

use vstd::prelude::*;

verus! {

/// Requester-side input signals: what the consumer drives toward a component
/// during one cycle.
#[derive(Clone, Copy, PartialEq, Eq, Structural, Debug)]
pub struct ReqInputs {
    pub enable: bool,
    pub addr: u32,
    /// Write flag of the port shape.  The caches in this crate are read-only
    /// and ignore it: a write never produces read-data-valid.
    pub write: bool,
    pub write_data: u128,
    pub write_byte_enable: u16,
}

/// Requester-side output signals: what a component drives back toward its
/// consumer during one cycle.
#[derive(Clone, Copy, PartialEq, Eq, Structural, Debug)]
pub struct ReqOutputs {
    pub ready: bool,
    pub read_data: u128,
    pub read_data_valid: bool,
}

/// Backing-store-side input signals: what the backing store drives toward a
/// component during one cycle.
#[derive(Clone, Copy, PartialEq, Eq, Structural, Debug)]
pub struct BackingInputs {
    pub ready: bool,
    pub read_data: u128,
    pub read_data_valid: bool,
}

/// Backing-store-side output signals: what a component drives toward its
/// backing store during one cycle.  The caches never write: `write`,
/// `write_data` and `write_byte_enable` are hard-wired off.
#[derive(Clone, Copy, PartialEq, Eq, Structural, Debug)]
pub struct BackingOutputs {
    pub enable: bool,
    pub addr: u32,
    pub write: bool,
    pub write_data: u128,
    pub write_byte_enable: u16,
}

} // verus!
