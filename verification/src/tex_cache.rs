//! Four-lane texture-sampling cache.
//!
//! A `TexCache` owns four `BlockCache` lanes — one per sample of a 2x2 quad
//! — and one quad-level occupancy flag.  A new quad is accepted only when
//! every lane is ready and either no quad is in flight or all four of its
//! samples are delivered this very cycle: acceptance of the next quad may
//! overlap delivery of the current one's result, but never while any lane is
//! still pending.  Per-fragment shading metadata accompanying the request is
//! latched into forwarding registers at issue time and re-exposed alongside
//! the eventual samples.  Output is valid only when all four lanes are
//! simultaneously valid; the slowest lane gates the others, which hold their
//! sample latches until it catches up.
//!
//! The four lanes reach the backing memory through an external fan-in
//! interconnect, out of scope here: the model exposes one backing-store
//! port per lane and assumes the interconnect returns each lane's own
//! responses undisturbed by the others' traffic.

use crate::block_cache::{
    core_inputs, lemma_samples_are_backing_pixels, line_pixel, BlockCache, BlockCacheInputs,
    BlockCacheOutputs, BlockCacheView,
};
use crate::port::{BackingInputs, BackingOutputs};
use vstd::prelude::*;

verus! {

/// Per-fragment shading state accompanying a quad: latched at issue time,
/// forwarded unchanged, and re-exposed with the quad's samples.
#[derive(Clone, Copy, PartialEq, Eq, Structural, Debug)]
pub struct FragmentMetadata {
    /// Tile-relative pixel address of the fragment.
    pub tile_addr: u32,
    pub r: u16,
    pub g: u16,
    pub b: u16,
    pub a: u16,
    pub z: u16,
    pub depth_test_result: bool,
    pub s_fract: u16,
    pub one_minus_s_fract: u16,
    pub t_fract: u16,
    pub one_minus_t_fract: u16,
}

/// Input signals sampled by a `TexCache` during one cycle.
#[derive(Clone, Copy, PartialEq, Eq, Structural, Debug)]
pub struct TexCacheInputs {
    /// Sampled to request a full invalidation sweep of every lane.
    pub invalidate: bool,
    /// A quad is requested; it is accepted when `in_ready` is high the same
    /// cycle.
    pub in_valid: bool,
    /// Pixel address sampled by lane 0.
    pub in_addr0: u32,
    pub in_addr1: u32,
    pub in_addr2: u32,
    pub in_addr3: u32,
    /// Metadata driven at issue time.
    pub meta: FragmentMetadata,
    /// Backing-store responses routed to lane 0 by the interconnect.
    pub backing0: BackingInputs,
    pub backing1: BackingInputs,
    pub backing2: BackingInputs,
    pub backing3: BackingInputs,
}

/// Output signals driven by a `TexCache` during one cycle.
#[derive(Clone, Copy, PartialEq, Eq, Structural, Debug)]
pub struct TexCacheOutputs {
    pub in_ready: bool,
    /// All four samples of the in-flight quad are valid this cycle.
    pub out_valid: bool,
    /// Sample delivered by lane 0.
    pub out_value0: u32,
    pub out_value1: u32,
    pub out_value2: u32,
    pub out_value3: u32,
    /// The forwarded metadata, as latched when the quad was issued.
    pub meta: FragmentMetadata,
    /// Backing-store requests of lane 0, toward the interconnect.
    pub backing0: BackingOutputs,
    pub backing1: BackingOutputs,
    pub backing2: BackingOutputs,
    pub backing3: BackingOutputs,
}

/// Mathematical view of a `TexCache`.
#[verifier::ext_equal]
pub struct TexCacheView {
    pub issue_occupied: bool,
    pub lane0: BlockCacheView,
    pub lane1: BlockCacheView,
    pub lane2: BlockCacheView,
    pub lane3: BlockCacheView,
    pub meta: FragmentMetadata,
}

/// Cycle-level model of the four-lane cache.
pub struct TexCache {
    /// Whether a quad is in flight.
    pub issue_occupied: bool,
    pub lane0: BlockCache,
    pub lane1: BlockCache,
    pub lane2: BlockCache,
    pub lane3: BlockCache,
    /// Forwarding registers: the metadata latched with the in-flight quad.
    pub meta: FragmentMetadata,
}

impl View for TexCache {
    type V = TexCacheView;

    open spec fn view(&self) -> TexCacheView {
        TexCacheView {
            issue_occupied: self.issue_occupied,
            lane0: self.lane0@,
            lane1: self.lane1@,
            lane2: self.lane2@,
            lane3: self.lane3@,
            meta: self.meta,
        }
    }
}

impl TexCacheView {
    /// The input bundle lane 0 samples, given the quad-level issue strobe.
    /// No lane output depends on the strobe, so probing with `issue` false
    /// reads the lane's signals for the cycle.
    pub open spec fn lane0_in(self, inp: TexCacheInputs, issue: bool) -> BlockCacheInputs {
        BlockCacheInputs {
            invalidate: inp.invalidate,
            issue,
            in_addr: inp.in_addr0,
            backing: inp.backing0,
        }
    }

    pub open spec fn lane1_in(self, inp: TexCacheInputs, issue: bool) -> BlockCacheInputs {
        BlockCacheInputs {
            invalidate: inp.invalidate,
            issue,
            in_addr: inp.in_addr1,
            backing: inp.backing1,
        }
    }

    pub open spec fn lane2_in(self, inp: TexCacheInputs, issue: bool) -> BlockCacheInputs {
        BlockCacheInputs {
            invalidate: inp.invalidate,
            issue,
            in_addr: inp.in_addr2,
            backing: inp.backing2,
        }
    }

    pub open spec fn lane3_in(self, inp: TexCacheInputs, issue: bool) -> BlockCacheInputs {
        BlockCacheInputs {
            invalidate: inp.invalidate,
            issue,
            in_addr: inp.in_addr3,
            backing: inp.backing3,
        }
    }

    /// Every lane can accept an issue this cycle.
    pub open spec fn all_ready(self, inp: TexCacheInputs) -> bool {
        &&& self.lane0.outputs_spec(self.lane0_in(inp, false)).in_ready
        &&& self.lane1.outputs_spec(self.lane1_in(inp, false)).in_ready
        &&& self.lane2.outputs_spec(self.lane2_in(inp, false)).in_ready
        &&& self.lane3.outputs_spec(self.lane3_in(inp, false)).in_ready
    }

    /// Every lane delivers a valid sample this cycle.
    pub open spec fn all_samples_valid(self, inp: TexCacheInputs) -> bool {
        &&& self.lane0.outputs_spec(self.lane0_in(inp, false)).return_data_valid
        &&& self.lane1.outputs_spec(self.lane1_in(inp, false)).return_data_valid
        &&& self.lane2.outputs_spec(self.lane2_in(inp, false)).return_data_valid
        &&& self.lane3.outputs_spec(self.lane3_in(inp, false)).return_data_valid
    }

    /// The in-flight quad's response is delivered this cycle.
    pub open spec fn out_valid(self, inp: TexCacheInputs) -> bool {
        self.issue_occupied && self.all_samples_valid(inp)
    }

    /// A new quad can be accepted: every lane is ready and no quad is in
    /// flight, or the in-flight one's samples are all delivered this very
    /// cycle.
    pub open spec fn can_accept(self, inp: TexCacheInputs) -> bool {
        self.all_ready(inp) && (!self.issue_occupied || self.all_samples_valid(inp))
    }

    /// A new quad is accepted: requested and acceptable in the same cycle.
    pub open spec fn accepts(self, inp: TexCacheInputs) -> bool {
        self.can_accept(inp) && inp.in_valid
    }

    /// Structural well-formedness of the four lanes.
    pub open spec fn wf(self) -> bool {
        &&& self.lane0.wf()
        &&& self.lane1.wf()
        &&& self.lane2.wf()
        &&& self.lane3.wf()
    }

    /// Per-cycle input discipline of the four lanes.
    pub open spec fn inputs_wf(self, inp: TexCacheInputs) -> bool {
        &&& self.lane0.inputs_wf(self.lane0_in(inp, false))
        &&& self.lane1.inputs_wf(self.lane1_in(inp, false))
        &&& self.lane2.inputs_wf(self.lane2_in(inp, false))
        &&& self.lane3.inputs_wf(self.lane3_in(inp, false))
    }

    /// The signals driven during a cycle.
    pub open spec fn outputs_spec(self, inp: TexCacheInputs) -> TexCacheOutputs {
        TexCacheOutputs {
            in_ready: self.can_accept(inp),
            out_valid: self.out_valid(inp),
            out_value0: self.lane0.outputs_spec(self.lane0_in(inp, false)).return_data,
            out_value1: self.lane1.outputs_spec(self.lane1_in(inp, false)).return_data,
            out_value2: self.lane2.outputs_spec(self.lane2_in(inp, false)).return_data,
            out_value3: self.lane3.outputs_spec(self.lane3_in(inp, false)).return_data,
            meta: self.meta,
            backing0: self.lane0.outputs_spec(self.lane0_in(inp, false)).backing,
            backing1: self.lane1.outputs_spec(self.lane1_in(inp, false)).backing,
            backing2: self.lane2.outputs_spec(self.lane2_in(inp, false)).backing,
            backing3: self.lane3.outputs_spec(self.lane3_in(inp, false)).backing,
        }
    }

    /// The registered state after the clock edge: lanes step with the issue
    /// strobe, the occupancy flag follows acceptance and delivery, the
    /// forwarding registers latch at issue.
    pub open spec fn step_spec(self, inp: TexCacheInputs) -> TexCacheView {
        let accept = self.accepts(inp);
        TexCacheView {
            issue_occupied: if accept {
                true
            } else if self.out_valid(inp) {
                false
            } else {
                self.issue_occupied
            },
            lane0: self.lane0.step_spec(self.lane0_in(inp, accept)),
            lane1: self.lane1.step_spec(self.lane1_in(inp, accept)),
            lane2: self.lane2.step_spec(self.lane2_in(inp, accept)),
            lane3: self.lane3.step_spec(self.lane3_in(inp, accept)),
            meta: if accept {
                inp.meta
            } else {
                self.meta
            },
        }
    }

    /// Every lane agrees with the backing memory: the engines' rows and
    /// snapshots and the adapters' sample latches all carry backing data.
    pub open spec fn lanes_coherent(self, mem: spec_fn(u32) -> u128) -> bool {
        &&& self.lane0.read_cache.coherent(mem)
        &&& self.lane0.sample_coherent(mem)
        &&& self.lane1.read_cache.coherent(mem)
        &&& self.lane1.sample_coherent(mem)
        &&& self.lane2.read_cache.coherent(mem)
        &&& self.lane2.sample_coherent(mem)
        &&& self.lane3.read_cache.coherent(mem)
        &&& self.lane3.sample_coherent(mem)
    }

    /// This cycle's backing responses, lane by lane, carry the backing data
    /// of each lane's in-flight line — what the fan-in interconnect owes
    /// when it returns each lane's own responses undisturbed.
    pub open spec fn backing_answers(self, inp: TexCacheInputs, mem: spec_fn(u32) -> u128) -> bool {
        &&& self.lane0.read_cache.backing_answers(core_inputs(self.lane0_in(inp, false)), mem)
        &&& self.lane1.read_cache.backing_answers(core_inputs(self.lane1_in(inp, false)), mem)
        &&& self.lane2.read_cache.backing_answers(core_inputs(self.lane2_in(inp, false)), mem)
        &&& self.lane3.read_cache.backing_answers(core_inputs(self.lane3_in(inp, false)), mem)
    }

    /// The state at reset.
    pub open spec fn reset(word_addr_bits: u32) -> TexCacheView {
        TexCacheView {
            issue_occupied: false,
            lane0: BlockCacheView::reset(word_addr_bits),
            lane1: BlockCacheView::reset(word_addr_bits),
            lane2: BlockCacheView::reset(word_addr_bits),
            lane3: BlockCacheView::reset(word_addr_bits),
            meta: FragmentMetadata {
                tile_addr: 0,
                r: 0,
                g: 0,
                b: 0,
                a: 0,
                z: 0,
                depth_test_result: false,
                s_fract: 0,
                one_minus_s_fract: 0,
                t_fract: 0,
                one_minus_t_fract: 0,
            },
        }
    }
}

impl TexCache {
    /// Builds a four-lane cache at its reset state; every lane carries
    /// `word_addr_bits`-bit line addresses.
    pub fn new(word_addr_bits: u32) -> (c: TexCache)
        requires
            4 <= word_addr_bits <= 30,
        ensures
            c@ == TexCacheView::reset(word_addr_bits),
            c@.wf(),
    {
        let c = TexCache {
            issue_occupied: false,
            lane0: BlockCache::new(word_addr_bits),
            lane1: BlockCache::new(word_addr_bits),
            lane2: BlockCache::new(word_addr_bits),
            lane3: BlockCache::new(word_addr_bits),
            meta: FragmentMetadata {
                tile_addr: 0,
                r: 0,
                g: 0,
                b: 0,
                a: 0,
                z: 0,
                depth_test_result: false,
                s_fract: 0,
                one_minus_s_fract: 0,
                t_fract: 0,
                one_minus_t_fract: 0,
            },
        };
        proof {
            assert(c@ =~= TexCacheView::reset(word_addr_bits));
        }
        c
    }

    /// The signals the cache drives during the current cycle.
    pub fn outputs(&self, inp: &TexCacheInputs) -> (o: TexCacheOutputs)
        requires
            self@.wf(),
            self@.inputs_wf(*inp),
        ensures
            o == self@.outputs_spec(*inp),
    {
        let l0 = self.lane0.outputs(&lane_in(inp, inp.in_addr0, inp.backing0, false));
        let l1 = self.lane1.outputs(&lane_in(inp, inp.in_addr1, inp.backing1, false));
        let l2 = self.lane2.outputs(&lane_in(inp, inp.in_addr2, inp.backing2, false));
        let l3 = self.lane3.outputs(&lane_in(inp, inp.in_addr3, inp.backing3, false));
        let all_ready = l0.in_ready && l1.in_ready && l2.in_ready && l3.in_ready;
        let all_valid = l0.return_data_valid && l1.return_data_valid && l2.return_data_valid
            && l3.return_data_valid;
        TexCacheOutputs {
            in_ready: all_ready && (!self.issue_occupied || all_valid),
            out_valid: self.issue_occupied && all_valid,
            out_value0: l0.return_data,
            out_value1: l1.return_data,
            out_value2: l2.return_data,
            out_value3: l3.return_data,
            meta: self.meta,
            backing0: l0.backing,
            backing1: l1.backing,
            backing2: l2.backing,
            backing3: l3.backing,
        }
    }

    /// Advances the registers by one clock edge.
    pub fn step(&mut self, inp: &TexCacheInputs)
        requires
            old(self)@.wf(),
            old(self)@.inputs_wf(*inp),
        ensures
            final(self)@ == old(self)@.step_spec(*inp),
            final(self)@.wf(),
    {
        let l0 = self.lane0.outputs(&lane_in(inp, inp.in_addr0, inp.backing0, false));
        let l1 = self.lane1.outputs(&lane_in(inp, inp.in_addr1, inp.backing1, false));
        let l2 = self.lane2.outputs(&lane_in(inp, inp.in_addr2, inp.backing2, false));
        let l3 = self.lane3.outputs(&lane_in(inp, inp.in_addr3, inp.backing3, false));
        let all_ready = l0.in_ready && l1.in_ready && l2.in_ready && l3.in_ready;
        let all_valid = l0.return_data_valid && l1.return_data_valid && l2.return_data_valid
            && l3.return_data_valid;
        let out_valid = self.issue_occupied && all_valid;
        let accept = all_ready && (!self.issue_occupied || all_valid) && inp.in_valid;
        self.lane0.step(&lane_in(inp, inp.in_addr0, inp.backing0, accept));
        self.lane1.step(&lane_in(inp, inp.in_addr1, inp.backing1, accept));
        self.lane2.step(&lane_in(inp, inp.in_addr2, inp.backing2, accept));
        self.lane3.step(&lane_in(inp, inp.in_addr3, inp.backing3, accept));
        self.issue_occupied = if accept {
            true
        } else if out_valid {
            false
        } else {
            self.issue_occupied
        };
        if accept {
            self.meta = inp.meta;
        }
        proof {
            assert(self@ =~= old(self)@.step_spec(*inp));
        }
    }

    /// Runs one full cycle: returns the signals driven during the cycle and
    /// advances the registers past its clock edge.
    pub fn cycle(&mut self, inp: &TexCacheInputs) -> (o: TexCacheOutputs)
        requires
            old(self)@.wf(),
            old(self)@.inputs_wf(*inp),
        ensures
            o == old(self)@.outputs_spec(*inp),
            final(self)@ == old(self)@.step_spec(*inp),
            final(self)@.wf(),
    {
        let o = self.outputs(inp);
        self.step(inp);
        o
    }
}

/// Builds one lane's input bundle.
fn lane_in(inp: &TexCacheInputs, in_addr: u32, backing: BackingInputs, issue: bool) -> (r:
    BlockCacheInputs)
    ensures
        r == (BlockCacheInputs { invalidate: inp.invalidate, issue, in_addr, backing }),
{
    BlockCacheInputs { invalidate: inp.invalidate, issue, in_addr, backing }
}

/// Law: the quad-level output is valid only when all four lanes deliver a
/// valid sample simultaneously for the in-flight quad, and the metadata
/// exposed with the samples is exactly the forwarding registers' latched
/// copy — never this cycle's metadata inputs.
pub proof fn lemma_output_gated_on_all_lanes(v: TexCacheView, inp: TexCacheInputs)
    requires
        v.wf(),
        v.inputs_wf(inp),
    ensures
        v.outputs_spec(inp).out_valid ==> v.issue_occupied && v.all_samples_valid(inp),
        v.outputs_spec(inp).meta == v.meta,
{
}

/// Law: forwarded metadata exactly matches what was latched at issue,
/// regardless of per-lane latency: the forwarding registers change only in
/// the cycle a new quad is accepted, when they latch that quad's metadata
/// inputs.
pub proof fn lemma_metadata_latched_at_issue(v: TexCacheView, inp: TexCacheInputs)
    requires
        v.wf(),
        v.inputs_wf(inp),
    ensures
        v.accepts(inp) ==> v.step_spec(inp).meta == inp.meta,
        !v.accepts(inp) ==> v.step_spec(inp).meta == v.meta,
{
}

/// At reset all four lanes are coherent with any backing memory.
pub proof fn lemma_reset_coherent(word_addr_bits: u32, mem: spec_fn(u32) -> u128)
    requires
        4 <= word_addr_bits <= 30,
    ensures
        TexCacheView::reset(word_addr_bits).lanes_coherent(mem),
{
    crate::block_cache::lemma_reset_coherent(word_addr_bits, mem);
}

/// Law: when the quad response is valid, each of the four samples is the
/// selected sub-word of the backing line at that lane's latched request —
/// all four lanes answer for the same, in-flight quad, with backing data —
/// and per-lane coherence with the backing memory is preserved cycle by
/// cycle.
pub proof fn lemma_quad_samples_are_backing_pixels(
    v: TexCacheView,
    inp: TexCacheInputs,
    mem: spec_fn(u32) -> u128,
)
    requires
        v.wf(),
        v.inputs_wf(inp),
        v.lanes_coherent(mem),
        v.backing_answers(inp, mem),
    ensures
        v.outputs_spec(inp).out_valid ==> {
            &&& v.outputs_spec(inp).out_value0 == line_pixel(
                mem(v.lane0.read_cache.issue_addr),
                v.lane0.pixel_sel,
            )
            &&& v.outputs_spec(inp).out_value1 == line_pixel(
                mem(v.lane1.read_cache.issue_addr),
                v.lane1.pixel_sel,
            )
            &&& v.outputs_spec(inp).out_value2 == line_pixel(
                mem(v.lane2.read_cache.issue_addr),
                v.lane2.pixel_sel,
            )
            &&& v.outputs_spec(inp).out_value3 == line_pixel(
                mem(v.lane3.read_cache.issue_addr),
                v.lane3.pixel_sel,
            )
        },
        v.step_spec(inp).lanes_coherent(mem),
{
    let accept = v.accepts(inp);
    lemma_samples_are_backing_pixels(v.lane0, v.lane0_in(inp, false), mem);
    lemma_samples_are_backing_pixels(v.lane1, v.lane1_in(inp, false), mem);
    lemma_samples_are_backing_pixels(v.lane2, v.lane2_in(inp, false), mem);
    lemma_samples_are_backing_pixels(v.lane3, v.lane3_in(inp, false), mem);
    lemma_samples_are_backing_pixels(v.lane0, v.lane0_in(inp, accept), mem);
    lemma_samples_are_backing_pixels(v.lane1, v.lane1_in(inp, accept), mem);
    lemma_samples_are_backing_pixels(v.lane2, v.lane2_in(inp, accept), mem);
    lemma_samples_are_backing_pixels(v.lane3, v.lane3_in(inp, accept), mem);
}

/// Law: at most one quad is in flight across the whole cache.  A quad is
/// accepted only when every lane is ready and no quad is in flight or the
/// in-flight one is delivered this very cycle — never while any lane is
/// still pending — and the occupancy flag afterwards records exactly an
/// acceptance or a still-undelivered quad.
pub proof fn lemma_single_quad_in_flight(v: TexCacheView, inp: TexCacheInputs)
    requires
        v.wf(),
        v.inputs_wf(inp),
    ensures
        v.accepts(inp) ==> v.all_ready(inp) && (!v.issue_occupied || v.out_valid(inp)),
        v.step_spec(inp).issue_occupied == (v.accepts(inp) || (v.issue_occupied && !v.out_valid(
            inp,
        ))),
{
}

} // verus!
