//! Byte-granular adapter around one `ReadCache`.
//!
//! A `BlockCache` translates a pixel address into a line address (the low
//! two bits select one of the four 32-bit sub-words packed per 128-bit line)
//! and latches the sub-word select at issue time.  When the underlying
//! engine returns a line, the selected sub-word is extracted and captured in
//! a one-entry sample latch: once produced, a sample stays valid and holds
//! its value until overwritten by the next issued request's result, so the
//! consumer need not sample the exact production cycle.  Acceptance is
//! gated solely by the underlying engine's readiness.

use crate::port::{BackingInputs, BackingOutputs, ReqInputs};
use crate::read_cache::{ReadCache, ReadCacheInputs, ReadCacheView};
use vstd::arithmetic::div_mod::lemma_fundamental_div_mod;
use vstd::arithmetic::power2::*;
use vstd::prelude::*;

verus! {

/// Input signals sampled by a `BlockCache` during one cycle.
#[derive(Clone, Copy, PartialEq, Eq, Structural, Debug)]
pub struct BlockCacheInputs {
    /// Sampled to request a full invalidation sweep of the underlying engine.
    pub invalidate: bool,
    /// Issue strobe: a request is issued when it holds while `in_ready` is
    /// driven high.
    pub issue: bool,
    /// Pixel address, two bits wider than the underlying line address.
    pub in_addr: u32,
    /// Backing-store-facing signals, 128-bit lines.
    pub backing: BackingInputs,
}

/// Output signals driven by a `BlockCache` during one cycle.
#[derive(Clone, Copy, PartialEq, Eq, Structural, Debug)]
pub struct BlockCacheOutputs {
    pub in_ready: bool,
    /// The current sample: the sub-word produced this cycle, or the latched
    /// one.
    pub return_data: u32,
    pub return_data_valid: bool,
    pub backing: BackingOutputs,
}

/// Mathematical view of a `BlockCache`.
#[verifier::ext_equal]
pub struct BlockCacheView {
    pub read_cache: ReadCacheView,
    pub pixel_sel: u8,
    pub return_buffer_occupied: bool,
    pub return_buffer_pixel: u32,
}

/// Cycle-level model of the adapter.
pub struct BlockCache {
    /// The wrapped cache engine: 128-bit lines, direct-mapped.
    pub read_cache: ReadCache,
    /// Sub-word select of the last issued request, latched at issue time.
    pub pixel_sel: u8,
    /// Whether the sample latch holds a produced sample.
    pub return_buffer_occupied: bool,
    /// The latched sample.
    pub return_buffer_pixel: u32,
}

impl View for BlockCache {
    type V = BlockCacheView;

    open spec fn view(&self) -> BlockCacheView {
        BlockCacheView {
            read_cache: self.read_cache@,
            pixel_sel: self.pixel_sel,
            return_buffer_occupied: self.return_buffer_occupied,
            return_buffer_pixel: self.return_buffer_pixel,
        }
    }
}

/// The 32-bit sub-word `sel` of a 128-bit line; sub-word 0 sits in the low
/// bits.
pub open spec fn line_pixel(line: u128, sel: u8) -> u32 {
    if sel == 0 {
        (line % 0x1_0000_0000) as u32
    } else if sel == 1 {
        ((line / 0x1_0000_0000) % 0x1_0000_0000) as u32
    } else if sel == 2 {
        ((line / 0x1_0000_0000_0000_0000) % 0x1_0000_0000) as u32
    } else {
        ((line / 0x1_0000_0000_0000_0000_0000_0000) % 0x1_0000_0000) as u32
    }
}

/// The signals the adapter drives into its engine: the pixel address with
/// its low two bits dropped, the issue strobe as enable, and the backing
/// signals passed through.
pub open spec fn core_inputs(inp: BlockCacheInputs) -> ReadCacheInputs {
    ReadCacheInputs {
        req: ReqInputs {
            enable: inp.issue,
            addr: (inp.in_addr as int / 4) as u32,
            write: false,
            write_data: 0,
            write_byte_enable: 0,
        },
        invalidate: inp.invalidate,
        backing: inp.backing,
    }
}

impl BlockCacheView {
    /// Structural well-formedness: the engine is well-formed, carries
    /// 128-bit lines, leaves two address bits of headroom for the sub-word
    /// select, and the latched select names one of the four sub-words.
    pub open spec fn wf(self) -> bool {
        &&& self.read_cache.wf()
        &&& self.read_cache.data_bits == 128
        &&& self.read_cache.addr_bits <= 30
        &&& self.pixel_sel < 4
    }

    /// Per-cycle input discipline: the pixel address fits its port width and
    /// the backing store answers only a waiting engine.
    pub open spec fn inputs_wf(self, inp: BlockCacheInputs) -> bool {
        &&& (inp.in_addr as nat) < pow2((self.read_cache.addr_bits + 2) as nat)
        &&& (inp.backing.read_data_valid ==> self.read_cache.state is MissReturn)
    }

    /// The signals driven during a cycle.
    pub open spec fn outputs_spec(self, inp: BlockCacheInputs) -> BlockCacheOutputs {
        let out = self.read_cache.outputs_spec(core_inputs(inp));
        BlockCacheOutputs {
            in_ready: out.req.ready,
            return_data: if out.req.read_data_valid {
                line_pixel(out.req.read_data, self.pixel_sel)
            } else {
                self.return_buffer_pixel
            },
            return_data_valid: out.req.read_data_valid || self.return_buffer_occupied,
            backing: out.backing,
        }
    }

    /// The registered state after the clock edge.
    pub open spec fn step_spec(self, inp: BlockCacheInputs) -> BlockCacheView {
        let out = self.read_cache.outputs_spec(core_inputs(inp));
        BlockCacheView {
            read_cache: self.read_cache.step_spec(core_inputs(inp)),
            pixel_sel: if inp.issue {
                (inp.in_addr as int % 4) as u8
            } else {
                self.pixel_sel
            },
            return_buffer_occupied: if inp.issue {
                false
            } else if out.req.read_data_valid {
                true
            } else {
                self.return_buffer_occupied
            },
            return_buffer_pixel: if out.req.read_data_valid {
                line_pixel(out.req.read_data, self.pixel_sel)
            } else {
                self.return_buffer_pixel
            },
        }
    }

    /// A sample held in the latch agrees with the backing memory: it is the
    /// selected sub-word of the backing line at the request that produced
    /// it, whose line address and sub-word select are still latched in the
    /// engine and the adapter (both are only overwritten by the next issue,
    /// which also empties the latch).
    pub open spec fn sample_coherent(self, mem: spec_fn(u32) -> u128) -> bool {
        self.return_buffer_occupied ==> self.return_buffer_pixel == line_pixel(
            mem(self.read_cache.issue_addr),
            self.pixel_sel,
        )
    }

    /// The state at reset.
    pub open spec fn reset(word_addr_bits: u32) -> BlockCacheView {
        BlockCacheView {
            read_cache: ReadCacheView::reset(128, word_addr_bits, (word_addr_bits - 3) as u32),
            pixel_sel: 0,
            return_buffer_occupied: false,
            return_buffer_pixel: 0,
        }
    }
}

/// The adapter's input discipline satisfies the engine's: port widths carry
/// over and the backing protocol is shared.
proof fn lemma_core_inputs_wf(v: BlockCacheView, inp: BlockCacheInputs)
    requires
        v.wf(),
        v.inputs_wf(inp),
    ensures
        v.read_cache.inputs_wf(core_inputs(inp)),
{
    lemma_pow2_adds(v.read_cache.addr_bits as nat, 2);
    lemma2_to64();
    lemma_fundamental_div_mod(inp.in_addr as int, 4);
    lemma_pow2_adds(64, 64);
    assert((inp.backing.read_data as nat) < pow2(64) * pow2(64));
}

impl BlockCache {
    /// Builds an adapter at its reset state.  `word_addr_bits` is the line
    /// address width of the wrapped engine; its row index takes all but the
    /// top three of those bits, and pixel addresses are two bits wider.
    pub fn new(word_addr_bits: u32) -> (c: BlockCache)
        requires
            4 <= word_addr_bits <= 30,
        ensures
            c@ == BlockCacheView::reset(word_addr_bits),
            c@.wf(),
    {
        let c = BlockCache {
            read_cache: ReadCache::new(128, word_addr_bits, word_addr_bits - 3),
            pixel_sel: 0,
            return_buffer_occupied: false,
            return_buffer_pixel: 0,
        };
        proof {
            assert(c@ =~= BlockCacheView::reset(word_addr_bits));
        }
        c
    }

    /// The signals the adapter drives during the current cycle.
    pub fn outputs(&self, inp: &BlockCacheInputs) -> (o: BlockCacheOutputs)
        requires
            self@.wf(),
            self@.inputs_wf(*inp),
        ensures
            o == self@.outputs_spec(*inp),
    {
        proof {
            lemma_core_inputs_wf(self@, *inp);
        }
        let core_in = to_core_inputs(inp);
        let out = self.read_cache.outputs(&core_in);
        BlockCacheOutputs {
            in_ready: out.req.ready,
            return_data: if out.req.read_data_valid {
                extract_pixel(out.req.read_data, self.pixel_sel)
            } else {
                self.return_buffer_pixel
            },
            return_data_valid: out.req.read_data_valid || self.return_buffer_occupied,
            backing: out.backing,
        }
    }

    /// Advances the registers by one clock edge.
    pub fn step(&mut self, inp: &BlockCacheInputs)
        requires
            old(self)@.wf(),
            old(self)@.inputs_wf(*inp),
        ensures
            final(self)@ == old(self)@.step_spec(*inp),
            final(self)@.wf(),
    {
        proof {
            lemma_core_inputs_wf(old(self)@, *inp);
        }
        let core_in = to_core_inputs(inp);
        let out = self.read_cache.outputs(&core_in);
        if out.req.read_data_valid {
            self.return_buffer_pixel = extract_pixel(out.req.read_data, self.pixel_sel);
        }
        self.return_buffer_occupied = if inp.issue {
            false
        } else if out.req.read_data_valid {
            true
        } else {
            self.return_buffer_occupied
        };
        if inp.issue {
            self.pixel_sel = (inp.in_addr % 4) as u8;
        }
        self.read_cache.step(&core_in);
        proof {
            assert(self@ =~= old(self)@.step_spec(*inp));
        }
    }

    /// Runs one full cycle: returns the signals driven during the cycle and
    /// advances the registers past its clock edge.
    pub fn cycle(&mut self, inp: &BlockCacheInputs) -> (o: BlockCacheOutputs)
        requires
            old(self)@.wf(),
            old(self)@.inputs_wf(*inp),
        ensures
            o == old(self)@.outputs_spec(*inp),
            final(self)@ == old(self)@.step_spec(*inp),
            final(self)@.wf(),
    {
        let o = self.outputs(inp);
        self.step(inp);
        o
    }
}

/// Builds the engine-facing input bundle.
fn to_core_inputs(inp: &BlockCacheInputs) -> (r: ReadCacheInputs)
    ensures
        r == core_inputs(*inp),
{
    ReadCacheInputs {
        req: ReqInputs {
            enable: inp.issue,
            addr: inp.in_addr / 4,
            write: false,
            write_data: 0,
            write_byte_enable: 0,
        },
        invalidate: inp.invalidate,
        backing: inp.backing,
    }
}

/// Extracts the 32-bit sub-word `sel` of a 128-bit line.
fn extract_pixel(line: u128, sel: u8) -> (p: u32)
    requires
        sel < 4,
    ensures
        p == line_pixel(line, sel),
{
    if sel == 0 {
        (line % 0x1_0000_0000) as u32
    } else if sel == 1 {
        ((line / 0x1_0000_0000) % 0x1_0000_0000) as u32
    } else if sel == 2 {
        ((line / 0x1_0000_0000_0000_0000) % 0x1_0000_0000) as u32
    } else {
        ((line / 0x1_0000_0000_0000_0000_0000_0000) % 0x1_0000_0000) as u32
    }
}

/// At reset the adapter is coherent with any backing memory: the engine
/// caches nothing and the sample latch is empty.
pub proof fn lemma_reset_coherent(word_addr_bits: u32, mem: spec_fn(u32) -> u128)
    requires
        4 <= word_addr_bits <= 30,
    ensures
        BlockCacheView::reset(word_addr_bits).read_cache.coherent(mem),
        BlockCacheView::reset(word_addr_bits).sample_coherent(mem),
{
    crate::read_cache::lemma_reset_coherent(
        128,
        word_addr_bits,
        (word_addr_bits - 3) as u32,
        mem,
    );
}

/// Law: every valid sample the adapter exposes — produced this cycle or
/// held in the latch — is the selected sub-word of the backing line at the
/// latched request's pixel address, never stale or uninitialized; and this
/// coherence, like the engine's, is preserved cycle by cycle.
pub proof fn lemma_samples_are_backing_pixels(
    v: BlockCacheView,
    inp: BlockCacheInputs,
    mem: spec_fn(u32) -> u128,
)
    requires
        v.wf(),
        v.inputs_wf(inp),
        v.read_cache.coherent(mem),
        v.sample_coherent(mem),
        v.read_cache.backing_answers(core_inputs(inp), mem),
    ensures
        v.outputs_spec(inp).return_data_valid ==> v.outputs_spec(inp).return_data == line_pixel(
            mem(v.read_cache.issue_addr),
            v.pixel_sel,
        ),
        v.step_spec(inp).read_cache.coherent(mem),
        v.step_spec(inp).sample_coherent(mem),
{
    lemma_core_inputs_wf(v, inp);
    crate::read_cache::lemma_returned_data_is_refill_data(v.read_cache, core_inputs(inp), mem);
}

/// Law: once produced, a sample stays valid and holds its value until the
/// next issued request's result overwrites it — a consumer that samples any
/// later cycle before the next issue reads the same sample.
pub proof fn lemma_sample_latch_holds(v: BlockCacheView, inp: BlockCacheInputs)
    requires
        v.wf(),
        v.inputs_wf(inp),
        v.return_buffer_occupied,
        !inp.issue,
        !v.read_cache.resolves(core_inputs(inp)),
    ensures
        v.outputs_spec(inp).return_data_valid,
        v.outputs_spec(inp).return_data == v.return_buffer_pixel,
        v.step_spec(inp).return_buffer_occupied,
        v.step_spec(inp).return_buffer_pixel == v.return_buffer_pixel,
{
}

} // verus!
