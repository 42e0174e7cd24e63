//! Single-bank, direct-mapped, read-only cache engine.
//!
//! The engine owns one tag/valid/data store, one in-flight request slot and
//! one invalidation sweep.  It is a three-state machine:
//!
//! - `Invalidating`: clears one row's valid bit per cycle through the sweep
//!   cursor; entered at reset and whenever an invalidate is accepted; rejects
//!   all requests; leaves for `Active` once the cursor passes the last row.
//! - `Active`: accepts a new request when none is in flight, or the in-flight
//!   one resolves as a hit this cycle.  On acceptance the row's valid bit,
//!   tag and line are fetched into snapshot registers; one cycle later the
//!   request resolves as hit or miss.  On a miss a backing-store read is
//!   issued and the engine moves to `MissReturn`.
//! - `MissReturn`: waits for the backing store's read-data-valid; on arrival
//!   the row is refilled, the data is returned to the requester the same
//!   cycle, and the engine moves back to `Active`.
//!
//! Row storage is read and written like a synchronous memory: a write
//! committed in a cycle is not visible to that cycle's read, which returns
//! the previous contents.  The one observable consequence — a read for
//! address A accepted the same cycle A's refill completes would see stale
//! tag/valid data and spuriously miss — is detected and recorded for one
//! cycle as the hazard shadow, which forces hit detection and returned data
//! onto the forwarded refill value the following cycle.

use crate::port::{BackingInputs, BackingOutputs, ReqInputs, ReqOutputs};
use vstd::arithmetic::div_mod::lemma_fundamental_div_mod;
use vstd::arithmetic::power2::*;
use vstd::prelude::*;

verus! {

/// The three control states of the engine.
#[derive(Clone, Copy, PartialEq, Eq, Structural, Debug)]
pub enum CacheState {
    Invalidating,
    Active,
    MissReturn,
}

/// Input signals sampled by a `ReadCache` during one cycle.
#[derive(Clone, Copy, PartialEq, Eq, Structural, Debug)]
pub struct ReadCacheInputs {
    /// Requester-facing signals.  The address is a line address.
    pub req: ReqInputs,
    /// Sampled to request a full invalidation sweep.
    pub invalidate: bool,
    /// Backing-store-facing signals.
    pub backing: BackingInputs,
}

/// Output signals driven by a `ReadCache` during one cycle.
#[derive(Clone, Copy, PartialEq, Eq, Structural, Debug)]
pub struct ReadCacheOutputs {
    pub req: ReqOutputs,
    pub backing: BackingOutputs,
}

/// Mathematical view of a `ReadCache`: the registers as plain values and the
/// row storage as sequences.
#[verifier::ext_equal]
pub struct ReadCacheView {
    pub data_bits: u32,
    pub addr_bits: u32,
    pub index_bits: u32,
    pub rows: u32,
    pub state: CacheState,
    pub invalidate_queued: bool,
    pub sweep_cursor: u32,
    pub issue_occupied: bool,
    pub issue_addr: u32,
    pub hazard_shadow: bool,
    pub shadow_line: u128,
    pub fetched_valid: bool,
    pub fetched_tag: u32,
    pub fetched_line: u128,
    pub valid_bits: Seq<bool>,
    pub tags: Seq<u32>,
    pub lines: Seq<u128>,
}

/// Cycle-level model of the cache engine.
///
/// `outputs` gives the combinational signals driven during a cycle and
/// `step` the register update at the clock edge; both are pinned down by
/// `ReadCacheView::outputs_spec` and `ReadCacheView::step_spec`.
pub struct ReadCache {
    /// Width of a line in bits; lines are stored in the low bits of a `u128`.
    pub data_bits: u32,
    /// Width of a request address in bits.
    pub addr_bits: u32,
    /// Width of a row index in bits; the tag is the remaining high part of
    /// the address.
    pub index_bits: u32,
    /// Number of storage rows, `2^index_bits`.
    pub rows: u32,
    pub state: CacheState,
    /// An invalidate accepted while a request was in flight, remembered
    /// until the sweep can start.
    pub invalidate_queued: bool,
    /// Row the sweep clears this cycle; only meaningful while invalidating.
    pub sweep_cursor: u32,
    /// Whether the in-flight request slot is occupied.
    pub issue_occupied: bool,
    /// Full address of the in-flight request.
    pub issue_addr: u32,
    /// One-cycle flag: the address just refilled is exactly the address of
    /// the request accepted that cycle, whose storage read came back stale.
    pub hazard_shadow: bool,
    /// Line forwarded by the hazard shadow path.
    pub shadow_line: u128,
    /// Valid bit fetched from storage when the in-flight request was
    /// accepted.
    pub fetched_valid: bool,
    /// Tag fetched from storage when the in-flight request was accepted.
    pub fetched_tag: u32,
    /// Line fetched from storage when the in-flight request was accepted.
    pub fetched_line: u128,
    /// Per-row valid bits.
    pub valid_bits: Vec<bool>,
    /// Per-row tags.
    pub tags: Vec<u32>,
    /// Per-row line payloads.
    pub lines: Vec<u128>,
}

impl View for ReadCache {
    type V = ReadCacheView;

    open spec fn view(&self) -> ReadCacheView {
        ReadCacheView {
            data_bits: self.data_bits,
            addr_bits: self.addr_bits,
            index_bits: self.index_bits,
            rows: self.rows,
            state: self.state,
            invalidate_queued: self.invalidate_queued,
            sweep_cursor: self.sweep_cursor,
            issue_occupied: self.issue_occupied,
            issue_addr: self.issue_addr,
            hazard_shadow: self.hazard_shadow,
            shadow_line: self.shadow_line,
            fetched_valid: self.fetched_valid,
            fetched_tag: self.fetched_tag,
            fetched_line: self.fetched_line,
            valid_bits: self.valid_bits@,
            tags: self.tags@,
            lines: self.lines@,
        }
    }
}

impl ReadCacheView {
    /// Row index a request address maps to: its low `index_bits` bits.
    pub open spec fn index_of(self, addr: u32) -> int {
        addr as int % self.rows as int
    }

    /// Tag of a request address: its high `addr_bits - index_bits` bits.
    pub open spec fn tag_of(self, addr: u32) -> int {
        addr as int / self.rows as int
    }

    /// An invalidate is requested this cycle or was queued earlier.
    pub open spec fn will_invalidate(self, inp: ReadCacheInputs) -> bool {
        inp.invalidate || self.invalidate_queued
    }

    /// Whether the fetched row snapshot (or the hazard shadow) certifies the
    /// in-flight address as cached.
    pub open spec fn snapshot_hit(self) -> bool {
        (self.fetched_valid && self.fetched_tag == self.tag_of(self.issue_addr))
            || self.hazard_shadow
    }

    /// The in-flight request resolves as a hit this cycle.
    pub open spec fn hit(self) -> bool {
        self.issue_occupied && self.snapshot_hit()
    }

    /// The in-flight request resolves as a miss this cycle.
    pub open spec fn miss(self) -> bool {
        self.issue_occupied && !self.snapshot_hit()
    }

    /// A new request can be accepted: the engine is active and the slot is
    /// free or frees this cycle, or the pending refill completes this cycle —
    /// and no invalidate is requested or queued.
    pub open spec fn can_accept(self, inp: ReadCacheInputs) -> bool {
        (match self.state {
            CacheState::Active => !self.issue_occupied || self.hit(),
            CacheState::MissReturn => inp.backing.read_data_valid,
            CacheState::Invalidating => false,
        }) && !self.will_invalidate(inp)
    }

    /// A new request is accepted: enable and ready in the same cycle.
    pub open spec fn accepts(self, inp: ReadCacheInputs) -> bool {
        self.can_accept(inp) && inp.req.enable
    }

    /// The in-flight request resolves this cycle, as a hit or by refill
    /// completion.
    pub open spec fn resolves(self, inp: ReadCacheInputs) -> bool {
        inp.backing.read_data_valid || self.hit()
    }

    /// An invalidation sweep starts this cycle: one is requested or queued
    /// and no request is in flight.
    pub open spec fn start_sweep(self, inp: ReadCacheInputs) -> bool {
        self.will_invalidate(inp) && !self.issue_occupied
    }

    /// Structural well-formedness: widths are consistent, storage has one
    /// entry per row, every stored value fits its width, and the control
    /// state is coherent with the in-flight slot.
    pub open spec fn wf(self) -> bool {
        &&& 1 <= self.data_bits <= 128
        &&& 1 <= self.index_bits
        &&& self.index_bits < self.addr_bits
        &&& self.addr_bits <= 32
        &&& self.rows == pow2(self.index_bits as nat)
        &&& 2 <= self.rows <= 0x8000_0000u32
        &&& self.valid_bits.len() == self.rows
        &&& self.tags.len() == self.rows
        &&& self.lines.len() == self.rows
        &&& self.sweep_cursor < self.rows
        &&& (self.issue_addr as nat) < pow2(self.addr_bits as nat)
        &&& (self.shadow_line as nat) < pow2(self.data_bits as nat)
        &&& (self.fetched_line as nat) < pow2(self.data_bits as nat)
        &&& forall|i: int|
            0 <= i < self.lines.len() ==> (#[trigger] self.lines[i] as nat) < pow2(
                self.data_bits as nat,
            )
        &&& (self.state is Invalidating ==> !self.issue_occupied)
        &&& (self.state is MissReturn ==> self.issue_occupied)
        &&& (self.state is MissReturn ==> !self.snapshot_hit())
    }

    /// Per-cycle input discipline: signals fit their port widths, and the
    /// backing store answers each accepted read with exactly one
    /// read-data-valid pulse — so a pulse can only arrive while the engine
    /// is waiting for one.
    pub open spec fn inputs_wf(self, inp: ReadCacheInputs) -> bool {
        &&& (inp.req.addr as nat) < pow2(self.addr_bits as nat)
        &&& (inp.backing.read_data as nat) < pow2(self.data_bits as nat)
        &&& (inp.backing.read_data_valid ==> self.state is MissReturn)
    }

    /// The signals driven during a cycle, as a function of the registered
    /// state and this cycle's inputs.
    pub open spec fn outputs_spec(self, inp: ReadCacheInputs) -> ReadCacheOutputs {
        ReadCacheOutputs {
            req: ReqOutputs {
                ready: self.can_accept(inp),
                read_data: if inp.backing.read_data_valid {
                    inp.backing.read_data
                } else if self.hazard_shadow {
                    self.shadow_line
                } else {
                    self.fetched_line
                },
                read_data_valid: inp.backing.read_data_valid || self.hit(),
            },
            backing: BackingOutputs {
                enable: self.state is Active && self.miss(),
                addr: self.issue_addr,
                write: false,
                write_data: 0,
                write_byte_enable: 0,
            },
        }
    }

    /// The registered state after the clock edge, as a function of the state
    /// before it and the cycle's inputs.
    pub open spec fn step_spec(self, inp: ReadCacheInputs) -> ReadCacheView {
        let accept = self.accepts(inp);
        let rdv = inp.backing.read_data_valid;
        let idx_new = self.index_of(inp.req.addr);
        let idx_fill = self.index_of(self.issue_addr);
        ReadCacheView {
            data_bits: self.data_bits,
            addr_bits: self.addr_bits,
            index_bits: self.index_bits,
            rows: self.rows,
            state: if self.start_sweep(inp) {
                CacheState::Invalidating
            } else {
                match self.state {
                    CacheState::Invalidating => if self.sweep_cursor == self.rows - 1 {
                        CacheState::Active
                    } else {
                        CacheState::Invalidating
                    },
                    CacheState::Active => if self.miss() && inp.backing.ready {
                        CacheState::MissReturn
                    } else {
                        CacheState::Active
                    },
                    CacheState::MissReturn => if rdv {
                        CacheState::Active
                    } else {
                        CacheState::MissReturn
                    },
                }
            },
            invalidate_queued: if self.start_sweep(inp) || self.state is Invalidating {
                false
            } else if inp.invalidate {
                true
            } else {
                self.invalidate_queued
            },
            sweep_cursor: if self.start_sweep(inp) {
                0
            } else {
                ((self.sweep_cursor as int + 1) % (self.rows as int)) as u32
            },
            issue_occupied: if rdv || !self.miss() {
                accept
            } else {
                self.issue_occupied
            },
            issue_addr: if accept {
                inp.req.addr
            } else {
                self.issue_addr
            },
            hazard_shadow: rdv && inp.req.enable && inp.req.addr == self.issue_addr,
            shadow_line: inp.backing.read_data,
            fetched_valid: if accept {
                self.valid_bits[idx_new]
            } else {
                self.fetched_valid
            },
            fetched_tag: if accept {
                self.tags[idx_new]
            } else {
                self.fetched_tag
            },
            fetched_line: if accept {
                self.lines[idx_new]
            } else {
                self.fetched_line
            },
            valid_bits: if rdv {
                self.valid_bits.update(idx_fill, true)
            } else if self.state is Invalidating {
                self.valid_bits.update(self.sweep_cursor as int, false)
            } else {
                self.valid_bits
            },
            tags: if rdv {
                self.tags.update(idx_fill, self.tag_of(self.issue_addr) as u32)
            } else {
                self.tags
            },
            lines: if rdv {
                self.lines.update(idx_fill, inp.backing.read_data)
            } else {
                self.lines
            },
        }
    }

    /// Address `a` currently occupies its row: the row it maps to is valid
    /// and holds its tag.
    pub open spec fn caches(self, a: u32) -> bool {
        self.valid_bits[self.index_of(a)] && self.tags[self.index_of(a)] == self.tag_of(a)
    }

    /// The storage and the snapshot registers agree with a backing memory
    /// `mem`: every valid row holds the backing data of the address it
    /// caches, and whatever certifies the in-flight request as a hit — the
    /// fetched snapshot or the hazard shadow — carries the backing data of
    /// the in-flight address.
    ///
    /// The backing store of this engine is read-only, so `mem` is constant;
    /// a row is only ever written by a refill, which copies `mem` at the
    /// refilled address.  Under this invariant, data returned to the
    /// requester is never stale or uninitialized.
    pub open spec fn coherent(self, mem: spec_fn(u32) -> u128) -> bool {
        &&& forall|a: u32|
            (a as nat) < pow2(self.addr_bits as nat) && #[trigger] self.caches(a)
                ==> self.lines[self.index_of(a)] == mem(a)
        &&& (self.state is Active && self.issue_occupied && self.fetched_valid
            && self.fetched_tag == self.tag_of(self.issue_addr) ==> self.fetched_line == mem(
            self.issue_addr,
        ))
        &&& (self.state is Active && self.issue_occupied && self.hazard_shadow
            ==> self.shadow_line == mem(self.issue_addr))
    }

    /// This cycle's backing response, if any, carries the backing data of
    /// the in-flight address — the request the engine issued for it.
    pub open spec fn backing_answers(self, inp: ReadCacheInputs, mem: spec_fn(u32) -> u128) -> bool {
        inp.backing.read_data_valid ==> inp.backing.read_data == mem(self.issue_addr)
    }

    /// Rows the sweep has passed are already invalid.
    pub open spec fn sweep_progress(self) -> bool {
        self.state is Invalidating ==> forall|i: int|
            0 <= i < self.sweep_cursor ==> !self.valid_bits[i]
    }

    /// The state after feeding `trace` to the engine cycle by cycle.
    pub open spec fn run(self, trace: Seq<ReadCacheInputs>) -> ReadCacheView
        decreases trace.len(),
    {
        if trace.len() == 0 {
            self
        } else {
            self.step_spec(trace[0]).run(trace.drop_first())
        }
    }

    /// Every cycle of `trace` respects the port widths and the backing
    /// protocol, relative to the state the engine actually reaches at that
    /// cycle.
    pub open spec fn trace_ok(self, trace: Seq<ReadCacheInputs>, mem: spec_fn(u32) -> u128) -> bool
        decreases trace.len(),
    {
        trace.len() == 0 || {
            &&& self.inputs_wf(trace[0])
            &&& self.backing_answers(trace[0], mem)
            &&& self.step_spec(trace[0]).trace_ok(trace.drop_first(), mem)
        }
    }

    /// The state at reset: invalidating from row zero, nothing in flight,
    /// nothing queued, all storage cleared.
    pub open spec fn reset(data_bits: u32, addr_bits: u32, index_bits: u32) -> ReadCacheView {
        ReadCacheView {
            data_bits,
            addr_bits,
            index_bits,
            rows: pow2(index_bits as nat) as u32,
            state: CacheState::Invalidating,
            invalidate_queued: false,
            sweep_cursor: 0,
            issue_occupied: false,
            issue_addr: 0,
            hazard_shadow: false,
            shadow_line: 0,
            fetched_valid: false,
            fetched_tag: 0,
            fetched_line: 0,
            valid_bits: Seq::new(pow2(index_bits as nat), |i: int| false),
            tags: Seq::new(pow2(index_bits as nat), |i: int| 0u32),
            lines: Seq::new(pow2(index_bits as nat), |i: int| 0u128),
        }
    }
}

impl ReadCache {
    /// Builds an engine at its reset state.
    ///
    /// `data_bits` is the line width, `addr_bits` the request address width
    /// and `index_bits` the row-index width; the tag takes the remaining
    /// `addr_bits - index_bits` high bits of the address.
    pub fn new(data_bits: u32, addr_bits: u32, index_bits: u32) -> (c: ReadCache)
        requires
            1 <= data_bits <= 128,
            1 <= index_bits,
            index_bits < addr_bits,
            addr_bits <= 32,
        ensures
            c@ == ReadCacheView::reset(data_bits, addr_bits, index_bits),
            c@.wf(),
    {
        proof {
            lemma2_to64();
        }
        let mut rows: u32 = 1;
        let mut i: u32 = 0;
        while i < index_bits
            invariant
                i <= index_bits <= 31,
                rows == pow2(i as nat),
            decreases index_bits - i,
        {
            proof {
                lemma_pow2_strictly_increases(i as nat, 31);
                lemma2_to64();
                lemma_pow2_unfold((i + 1) as nat);
            }
            rows = rows * 2;
            i = i + 1;
        }
        proof {
            if index_bits < 31 {
                lemma_pow2_strictly_increases(index_bits as nat, 31);
            }
            lemma_pow2_strictly_increases(0, index_bits as nat);
            lemma2_to64();
        }
        let mut valid_bits: Vec<bool> = Vec::new();
        let mut tags: Vec<u32> = Vec::new();
        let mut lines: Vec<u128> = Vec::new();
        let mut j: u32 = 0;
        while j < rows
            invariant
                j <= rows,
                valid_bits@ =~= Seq::new(j as nat, |i: int| false),
                tags@ =~= Seq::new(j as nat, |i: int| 0u32),
                lines@ =~= Seq::new(j as nat, |i: int| 0u128),
            decreases rows - j,
        {
            valid_bits.push(false);
            tags.push(0);
            lines.push(0);
            j = j + 1;
        }
        let c = ReadCache {
            data_bits,
            addr_bits,
            index_bits,
            rows,
            state: CacheState::Invalidating,
            invalidate_queued: false,
            sweep_cursor: 0,
            issue_occupied: false,
            issue_addr: 0,
            hazard_shadow: false,
            shadow_line: 0,
            fetched_valid: false,
            fetched_tag: 0,
            fetched_line: 0,
            valid_bits,
            tags,
            lines,
        };
        proof {
            lemma_pow2_pos(data_bits as nat);
            lemma_pow2_pos(addr_bits as nat);
            assert(c@ =~= ReadCacheView::reset(data_bits, addr_bits, index_bits));
        }
        c
    }

    /// The signals the engine drives during the current cycle.
    pub fn outputs(&self, inp: &ReadCacheInputs) -> (o: ReadCacheOutputs)
        requires
            self@.wf(),
            self@.inputs_wf(*inp),
        ensures
            o == self@.outputs_spec(*inp),
    {
        let can_accept = self.can_accept(inp);
        let hit = self.issue_occupied && self.snapshot_hit();
        ReadCacheOutputs {
            req: ReqOutputs {
                ready: can_accept,
                read_data: if inp.backing.read_data_valid {
                    inp.backing.read_data
                } else if self.hazard_shadow {
                    self.shadow_line
                } else {
                    self.fetched_line
                },
                read_data_valid: inp.backing.read_data_valid || hit,
            },
            backing: BackingOutputs {
                enable: matches!(self.state, CacheState::Active) && self.issue_occupied
                    && !self.snapshot_hit(),
                addr: self.issue_addr,
                write: false,
                write_data: 0,
                write_byte_enable: 0,
            },
        }
    }

    /// Advances the registers by one clock edge.
    pub fn step(&mut self, inp: &ReadCacheInputs)
        requires
            old(self)@.wf(),
            old(self)@.inputs_wf(*inp),
        ensures
            final(self)@ == old(self)@.step_spec(*inp),
            final(self)@.wf(),
    {
        let accept = self.can_accept(inp) && inp.req.enable;
        let rdv = inp.backing.read_data_valid;
        let miss = self.issue_occupied && !self.snapshot_hit();
        let start_sweep = (inp.invalidate || self.invalidate_queued) && !self.issue_occupied;
        let idx_new = (inp.req.addr % self.rows) as usize;
        let idx_fill = (self.issue_addr % self.rows) as usize;

        let next_state = if start_sweep {
            CacheState::Invalidating
        } else {
            match self.state {
                CacheState::Invalidating => if self.sweep_cursor == self.rows - 1 {
                    CacheState::Active
                } else {
                    CacheState::Invalidating
                },
                CacheState::Active => if miss && inp.backing.ready {
                    CacheState::MissReturn
                } else {
                    CacheState::Active
                },
                CacheState::MissReturn => if rdv {
                    CacheState::Active
                } else {
                    CacheState::MissReturn
                },
            }
        };
        let next_invalidate_queued = if start_sweep || matches!(self.state, CacheState::Invalidating) {
            false
        } else if inp.invalidate {
            true
        } else {
            self.invalidate_queued
        };
        let next_sweep_cursor = if start_sweep {
            0
        } else {
            (self.sweep_cursor + 1) % self.rows
        };
        let next_issue_occupied = if rdv || !miss {
            accept
        } else {
            self.issue_occupied
        };
        let next_issue_addr = if accept {
            inp.req.addr
        } else {
            self.issue_addr
        };
        let next_hazard_shadow = rdv && inp.req.enable && inp.req.addr == self.issue_addr;
        if accept {
            self.fetched_valid = self.valid_bits[idx_new];
            self.fetched_tag = self.tags[idx_new];
            self.fetched_line = self.lines[idx_new];
        }
        if rdv {
            self.valid_bits.set(idx_fill, true);
            self.tags.set(idx_fill, self.issue_addr / self.rows);
            self.lines.set(idx_fill, inp.backing.read_data);
        } else if matches!(self.state, CacheState::Invalidating) {
            self.valid_bits.set(self.sweep_cursor as usize, false);
        }
        self.state = next_state;
        self.invalidate_queued = next_invalidate_queued;
        self.sweep_cursor = next_sweep_cursor;
        self.issue_occupied = next_issue_occupied;
        self.issue_addr = next_issue_addr;
        self.hazard_shadow = next_hazard_shadow;
        self.shadow_line = inp.backing.read_data;
        proof {
            assert(self@ =~= old(self)@.step_spec(*inp));
        }
    }

    /// Runs one full cycle: returns the signals driven during the cycle and
    /// advances the registers past its clock edge.
    pub fn cycle(&mut self, inp: &ReadCacheInputs) -> (o: ReadCacheOutputs)
        requires
            old(self)@.wf(),
            old(self)@.inputs_wf(*inp),
        ensures
            o == old(self)@.outputs_spec(*inp),
            final(self)@ == old(self)@.step_spec(*inp),
            final(self)@.wf(),
    {
        let o = self.outputs(inp);
        self.step(inp);
        o
    }

    fn can_accept(&self, inp: &ReadCacheInputs) -> (r: bool)
        requires
            self@.wf(),
        ensures
            r == self@.can_accept(*inp),
    {
        (match self.state {
            CacheState::Active => !self.issue_occupied || (self.issue_occupied
                && self.snapshot_hit()),
            CacheState::MissReturn => inp.backing.read_data_valid,
            CacheState::Invalidating => false,
        }) && !(inp.invalidate || self.invalidate_queued)
    }

    fn snapshot_hit(&self) -> (r: bool)
        requires
            self@.wf(),
        ensures
            r == self@.snapshot_hit(),
    {
        (self.fetched_valid && self.fetched_tag == self.issue_addr / self.rows)
            || self.hazard_shadow
    }
}

/// Law: data the engine returns is exactly the backing data of the in-flight
/// address — the data its refill brought, never stale or uninitialized — and
/// one cycle preserves coherence with the (constant, read-only) backing
/// memory.  An address that was refilled and not invalidated since satisfies
/// `caches`, so a read of it is answered from that refill.
pub proof fn lemma_returned_data_is_refill_data(
    v: ReadCacheView,
    inp: ReadCacheInputs,
    mem: spec_fn(u32) -> u128,
)
    requires
        v.wf(),
        v.coherent(mem),
        v.inputs_wf(inp),
        v.backing_answers(inp, mem),
    ensures
        v.outputs_spec(inp).req.read_data_valid ==> v.issue_occupied && v.outputs_spec(
            inp,
        ).req.read_data == mem(v.issue_addr),
        v.step_spec(inp).coherent(mem),
{
    let v1 = v.step_spec(inp);
    let rdv = inp.backing.read_data_valid;
    let idx_fill = v.index_of(v.issue_addr);
    assert forall|a: u32|
        (a as nat) < pow2(v1.addr_bits as nat) && #[trigger] v1.caches(a) implies v1.lines[v1.index_of(
        a,
    )] == mem(a) by {
        lemma_fundamental_div_mod(a as int, v.rows as int);
        if rdv {
            if v.index_of(a) == idx_fill {
                lemma_fundamental_div_mod(v.issue_addr as int, v.rows as int);
                assert(v.tag_of(a) == v.tag_of(v.issue_addr));
                assert(a == v.issue_addr);
            } else {
                assert(v.caches(a));
            }
        } else {
            assert(v.caches(a));
        }
    }
    if v.accepts(inp) && v1.fetched_valid && v1.fetched_tag == v1.tag_of(v1.issue_addr) {
        assert(v.caches(inp.req.addr));
    }
}

/// At reset the engine is coherent with any backing memory and its sweep
/// has nothing behind it: no row claims to cache anything yet.
pub proof fn lemma_reset_coherent(
    data_bits: u32,
    addr_bits: u32,
    index_bits: u32,
    mem: spec_fn(u32) -> u128,
)
    requires
        1 <= index_bits,
        index_bits < addr_bits,
        addr_bits <= 32,
    ensures
        ReadCacheView::reset(data_bits, addr_bits, index_bits).coherent(mem),
        ReadCacheView::reset(data_bits, addr_bits, index_bits).sweep_progress(),
{
    let v = ReadCacheView::reset(data_bits, addr_bits, index_bits);
    assert forall|a: u32|
        (a as nat) < pow2(v.addr_bits as nat) && #[trigger] v.caches(a) implies v.lines[v.index_of(
        a,
    )] == mem(a) by {
        if index_bits < 31 {
            lemma_pow2_strictly_increases(index_bits as nat, 31);
        }
        lemma2_to64();
        assert(0 <= v.index_of(a) < v.valid_bits.len());
        assert(!v.caches(a));
    }
}

/// One cycle keeps the engine well-formed, whatever the (protocol-
/// respecting) inputs.
pub proof fn lemma_step_preserves_wf(v: ReadCacheView, inp: ReadCacheInputs)
    requires
        v.wf(),
        v.inputs_wf(inp),
    ensures
        v.step_spec(inp).wf(),
{
}

/// Law (whole executions): however long the engine runs, coherence with the
/// read-only backing memory is preserved — so at every cycle of every
/// execution, data returned to the requester is the backing data of the
/// then-in-flight address, by `lemma_returned_data_is_refill_data`.
pub proof fn lemma_execution_preserves_coherence(
    v: ReadCacheView,
    trace: Seq<ReadCacheInputs>,
    mem: spec_fn(u32) -> u128,
)
    requires
        v.wf(),
        v.coherent(mem),
        v.trace_ok(trace, mem),
    ensures
        v.run(trace).wf(),
        v.run(trace).coherent(mem),
    decreases trace.len(),
{
    if trace.len() > 0 {
        lemma_step_preserves_wf(v, trace[0]);
        lemma_returned_data_is_refill_data(v, trace[0], mem);
        lemma_execution_preserves_coherence(v.step_spec(trace[0]), trace.drop_first(), mem);
    }
}

/// Law: a read for an address accepted the same cycle that address's refill
/// completes returns the fresh value with hit timing — valid output the very
/// next cycle, carrying the refilled data — and triggers no second
/// backing-store read.  The hazard shadow carries the value past the
/// stale-read window of the row storage.
pub proof fn lemma_refill_coincident_read_hits(
    v: ReadCacheView,
    inp: ReadCacheInputs,
    inp2: ReadCacheInputs,
    mem: spec_fn(u32) -> u128,
)
    requires
        v.wf(),
        v.coherent(mem),
        v.inputs_wf(inp),
        v.backing_answers(inp, mem),
        v.state is MissReturn,
        inp.backing.read_data_valid,
        inp.req.enable,
        inp.req.addr == v.issue_addr,
        !v.will_invalidate(inp),
        v.step_spec(inp).inputs_wf(inp2),
    ensures
        v.accepts(inp),
        v.step_spec(inp).hazard_shadow,
        v.step_spec(inp).outputs_spec(inp2).req.read_data_valid,
        v.step_spec(inp).outputs_spec(inp2).req.read_data == inp.backing.read_data,
        v.step_spec(inp).outputs_spec(inp2).req.read_data == mem(v.issue_addr),
        !v.step_spec(inp).outputs_spec(inp2).backing.enable,
{
}

/// Law: a read accepted for an address that occupies its row resolves as a
/// hit on the following cycle, returns that address's backing data, and
/// issues no backing-store read.
pub proof fn lemma_cached_read_hits(
    v: ReadCacheView,
    inp: ReadCacheInputs,
    inp2: ReadCacheInputs,
    mem: spec_fn(u32) -> u128,
)
    requires
        v.wf(),
        v.coherent(mem),
        v.inputs_wf(inp),
        v.backing_answers(inp, mem),
        v.accepts(inp),
        v.caches(inp.req.addr),
        v.step_spec(inp).inputs_wf(inp2),
    ensures
        v.step_spec(inp).hit(),
        v.step_spec(inp).outputs_spec(inp2).req.read_data_valid,
        v.step_spec(inp).outputs_spec(inp2).req.read_data == mem(inp.req.addr),
        !v.step_spec(inp).outputs_spec(inp2).backing.enable,
{
}

/// Law: at most one request occupies the pipeline at a time.  A new request
/// is accepted only when the slot is free or the in-flight one resolves this
/// very cycle (a back-to-back hit or a completing refill), and the slot
/// afterwards is occupied exactly by an acceptance or by a still-unresolved
/// request.
pub proof fn lemma_single_request_in_flight(v: ReadCacheView, inp: ReadCacheInputs)
    requires
        v.wf(),
        v.inputs_wf(inp),
    ensures
        v.accepts(inp) ==> !v.issue_occupied || v.resolves(inp),
        v.step_spec(inp).issue_occupied == (v.accepts(inp) || (v.issue_occupied && !v.resolves(
            inp,
        ))),
{
}

/// Law: the invalidation sweep clears one row per cycle and, once the cursor
/// passes the last row, every row's valid bit is false and the engine
/// returns to `Active`.
pub proof fn lemma_sweep_clears_all_rows(v: ReadCacheView, inp: ReadCacheInputs)
    requires
        v.wf(),
        v.inputs_wf(inp),
        v.sweep_progress(),
    ensures
        v.step_spec(inp).sweep_progress(),
        v.state is Invalidating && v.sweep_cursor == v.rows - 1 && !v.will_invalidate(inp)
            ==> v.step_spec(inp).state is Active && (forall|i: int|
            0 <= i < v.rows ==> !v.step_spec(inp).valid_bits[i]),
{
    let v1 = v.step_spec(inp);
    if v1.state is Invalidating {
        assert forall|i: int| 0 <= i < v1.sweep_cursor implies !v1.valid_bits[i] by {
            if !v.start_sweep(inp) {
                assert(v.state is Invalidating);
                assert(v.sweep_cursor != v.rows - 1);
                vstd::arithmetic::div_mod::lemma_small_mod(
                    (v.sweep_cursor + 1) as nat,
                    v.rows as nat,
                );
                assert(i < v.sweep_cursor || i == v.sweep_cursor);
            }
        }
    }
}

/// Law: after a sweep has cleared every row, the next accepted request — to
/// any address, cached before or not — is a guaranteed miss: no data is
/// returned the following cycle and a backing-store read is issued for the
/// request's address.
pub proof fn lemma_read_after_sweep_misses(
    v: ReadCacheView,
    inp: ReadCacheInputs,
    inp2: ReadCacheInputs,
)
    requires
        v.wf(),
        v.inputs_wf(inp),
        v.state is Active,
        forall|i: int| 0 <= i < v.rows ==> !v.valid_bits[i],
        v.accepts(inp),
        v.step_spec(inp).inputs_wf(inp2),
    ensures
        v.step_spec(inp).miss(),
        !v.step_spec(inp).outputs_spec(inp2).req.read_data_valid,
        v.step_spec(inp).outputs_spec(inp2).backing.enable,
        v.step_spec(inp).outputs_spec(inp2).backing.addr == inp.req.addr,
{
}

/// Law: an invalidate that arrives while a request is in flight is queued,
/// not acted on: no new request is accepted from that cycle on, the sweep
/// does not start while the request is unresolved, and once the request
/// resolves the slot empties and the sweep begins at row zero on the cycle
/// after resolution.
pub proof fn lemma_invalidate_defers_until_resolution(
    v: ReadCacheView,
    inp: ReadCacheInputs,
    inp2: ReadCacheInputs,
)
    requires
        v.wf(),
        v.inputs_wf(inp),
        v.issue_occupied,
        v.will_invalidate(inp),
        v.step_spec(inp).inputs_wf(inp2),
    ensures
        !v.accepts(inp),
        !(v.step_spec(inp).state is Invalidating),
        v.step_spec(inp).invalidate_queued,
        v.resolves(inp) ==> !v.step_spec(inp).issue_occupied,
        v.resolves(inp) ==> !v.step_spec(inp).accepts(inp2),
        v.resolves(inp) ==> v.step_spec(inp).step_spec(inp2).state is Invalidating
            && v.step_spec(inp).step_spec(inp2).sweep_cursor == 0,
{
}

} // verus!
