//! Cycle-level model of the read-side caching subsystem of a small graphics
//! system-on-chip: a direct-mapped, read-only cache engine (`ReadCache`), a
//! byte-to-line adapter with a one-entry sample latch (`BlockCache`), and a
//! four-lane quad-synchronizing composition (`TexCache`).
//!
//! Every stateful component is modelled as a record of its registers and row
//! storage together with two functions: `outputs`, the combinational signals
//! the component drives during a cycle, and `step`, the register update at the
//! clock edge.  Both are specified exactly by spec-level transition functions
//! over the component's view, so the behaviour of each component is pinned
//! down cycle by cycle.  The backing memory and the fan-in interconnect are
//! external collaborators: they appear only through the per-cycle input
//! signals and the protocol assumptions stated in each component's
//! `inputs_wf`.

pub mod block_cache;
pub mod port;
pub mod read_cache;
pub mod tex_cache;
