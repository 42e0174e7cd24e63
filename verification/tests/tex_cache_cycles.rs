// Cycle-by-cycle scenarios for the four-lane texture cache: quad gating,
// metadata forwarding, and the slowest lane gating the others.

use tex_cache::port::{BackingInputs, BackingOutputs};
use tex_cache::tex_cache::{FragmentMetadata, TexCache, TexCacheInputs, TexCacheOutputs};

/// Deterministic backing store answering each accepted read after a fixed
/// latency; one per lane, standing in for the fan-in interconnect's
/// undisturbed per-lane service.
struct Backing {
    mem: Vec<u128>,
    latency: u32,
    pending: Option<(u32, u32)>,
    accepted_reads: u32,
}

impl Backing {
    fn new(mem: Vec<u128>, latency: u32) -> Backing {
        assert!(latency >= 1);
        Backing { mem, latency, pending: None, accepted_reads: 0 }
    }

    fn drive(&self) -> BackingInputs {
        match self.pending {
            Some((addr, 0)) => BackingInputs {
                ready: false,
                read_data: self.mem[addr as usize],
                read_data_valid: true,
            },
            Some(_) => BackingInputs { ready: false, read_data: 0, read_data_valid: false },
            None => BackingInputs { ready: true, read_data: 0, read_data_valid: false },
        }
    }

    fn step(&mut self, out: &BackingOutputs) {
        match self.pending {
            Some((_, 0)) => {
                self.pending = None;
            }
            Some((a, n)) => {
                self.pending = Some((a, n - 1));
            }
            None => {
                if out.enable && !out.write {
                    self.accepted_reads += 1;
                    self.pending = Some((out.addr, self.latency - 1));
                }
            }
        }
    }
}

fn pack_line(p0: u32, p1: u32, p2: u32, p3: u32) -> u128 {
    (p0 as u128) | ((p1 as u128) << 32) | ((p2 as u128) << 64) | ((p3 as u128) << 96)
}

/// Texture memory whose pixel at word `w`, sub-word `s` reads `w * 16 + s`.
fn texture() -> Vec<u128> {
    (0..32u32).map(|w| pack_line(w * 16, w * 16 + 1, w * 16 + 2, w * 16 + 3)).collect()
}

fn meta_tagged(tag: u16) -> FragmentMetadata {
    FragmentMetadata {
        tile_addr: tag as u32 + 7,
        r: tag,
        g: tag.wrapping_add(1),
        b: tag.wrapping_add(2),
        a: tag.wrapping_add(3),
        z: tag.wrapping_add(4),
        depth_test_result: tag % 2 == 0,
        s_fract: tag.wrapping_add(5),
        one_minus_s_fract: tag.wrapping_add(6),
        t_fract: tag.wrapping_add(7),
        one_minus_t_fract: tag.wrapping_add(8),
    }
}

fn run_cycle(
    c: &mut TexCache,
    bks: &mut [Backing; 4],
    in_valid: bool,
    addrs: [u32; 4],
    meta: FragmentMetadata,
    invalidate: bool,
) -> TexCacheOutputs {
    let inp = TexCacheInputs {
        invalidate,
        in_valid,
        in_addr0: addrs[0],
        in_addr1: addrs[1],
        in_addr2: addrs[2],
        in_addr3: addrs[3],
        meta,
        backing0: bks[0].drive(),
        backing1: bks[1].drive(),
        backing2: bks[2].drive(),
        backing3: bks[3].drive(),
    };
    let out = c.cycle(&inp);
    bks[0].step(&out.backing0);
    bks[1].step(&out.backing1);
    bks[2].step(&out.backing2);
    bks[3].step(&out.backing3);
    out
}

/// Issues a quad once every lane is ready and waits for the joint response.
fn read_quad(
    c: &mut TexCache,
    bks: &mut [Backing; 4],
    addrs: [u32; 4],
    meta: FragmentMetadata,
) -> TexCacheOutputs {
    let mut cycles = 0u32;
    loop {
        let out = run_cycle(c, bks, true, addrs, meta, false);
        cycles += 1;
        assert!(cycles < 1000, "quad never accepted");
        if out.in_ready {
            break;
        }
    }
    loop {
        // Later cycles carry other metadata on the inputs, which must not
        // bleed into the forwarded copy.
        let out = run_cycle(c, bks, false, [0; 4], meta_tagged(0x5a5), false);
        cycles += 1;
        assert!(cycles < 1000, "quad never answered");
        if out.out_valid {
            return out;
        }
    }
}

// A quad misses on all four lanes, each lane refills through its own
// backing port, and the response carries the four samples with the
// issue-time metadata.
#[test]
fn quad_of_four_misses_resolves_together() {
    let mut c = TexCache::new(5);
    let mut bks = [
        Backing::new(texture(), 1),
        Backing::new(texture(), 2),
        Backing::new(texture(), 3),
        Backing::new(texture(), 4),
    ];
    let addrs = [2 * 4, 5 * 4 + 1, 9 * 4 + 2, 14 * 4 + 3];
    let m = meta_tagged(40);
    let out = read_quad(&mut c, &mut bks, addrs, m);
    assert_eq!(out.out_value0, 2 * 16);
    assert_eq!(out.out_value1, 5 * 16 + 1);
    assert_eq!(out.out_value2, 9 * 16 + 2);
    assert_eq!(out.out_value3, 14 * 16 + 3);
    assert_eq!(out.meta, m);
    assert_eq!(bks[0].accepted_reads, 1);
    assert_eq!(bks[1].accepted_reads, 1);
    assert_eq!(bks[2].accepted_reads, 1);
    assert_eq!(bks[3].accepted_reads, 1);
}

// Scenario D: a quad where lane 0 misses and lanes 1 to 3 hit — the hit
// lanes hold their samples until lane 0's refill completes, then all four
// outputs and the originally latched metadata become valid together.
#[test]
fn scenario_slowest_lane_gates_quad() {
    let mut c = TexCache::new(5);
    let mut bks = [
        Backing::new(texture(), 6),
        Backing::new(texture(), 1),
        Backing::new(texture(), 1),
        Backing::new(texture(), 1),
    ];
    // Prime lanes 1 to 3 with the words their second requests will hit.
    let first = [1 * 4, 6 * 4, 10 * 4, 13 * 4];
    let out = read_quad(&mut c, &mut bks, first, meta_tagged(1));
    assert_eq!(out.meta, meta_tagged(1));
    assert_eq!(bks[0].accepted_reads, 1);
    // Second quad: lane 0 reads an uncached word, lanes 1 to 3 re-read
    // their cached words (other sub-words of the same lines).
    let second = [21 * 4 + 1, 6 * 4 + 1, 10 * 4 + 2, 13 * 4 + 3];
    let m2 = meta_tagged(77);
    let mut cycles = 0u32;
    loop {
        let out = run_cycle(&mut c, &mut bks, true, second, m2, false);
        cycles += 1;
        assert!(cycles < 100);
        if out.in_ready {
            break;
        }
    }
    // While lane 0's refill is outstanding the quad output stays invalid,
    // even though lanes 1 to 3 already produced their samples.
    let mut waited = 0u32;
    let answer = loop {
        let out = run_cycle(&mut c, &mut bks, false, [0; 4], meta_tagged(0x111), false);
        if out.out_valid {
            break out;
        }
        waited += 1;
        assert!(waited < 100);
    };
    // Lane 0 was the slowest: several wait cycles passed.
    assert!(waited >= 3);
    assert_eq!(answer.out_value0, 21 * 16 + 1);
    assert_eq!(answer.out_value1, 6 * 16 + 1);
    assert_eq!(answer.out_value2, 10 * 16 + 2);
    assert_eq!(answer.out_value3, 13 * 16 + 3);
    // The forwarded metadata is the issue-time copy, not a later input.
    assert_eq!(answer.meta, m2);
    // Lanes 1 to 3 hit: no new backing traffic; lane 0 refilled once more.
    assert_eq!(bks[0].accepted_reads, 2);
    assert_eq!(bks[1].accepted_reads, 1);
    assert_eq!(bks[2].accepted_reads, 1);
    assert_eq!(bks[3].accepted_reads, 1);
}

// No quad is accepted while one is in flight; acceptance may coincide only
// with the cycle the in-flight quad's response is delivered.
#[test]
fn quad_acceptance_waits_for_delivery() {
    let mut c = TexCache::new(5);
    let mut bks = [
        Backing::new(texture(), 3),
        Backing::new(texture(), 3),
        Backing::new(texture(), 3),
        Backing::new(texture(), 3),
    ];
    let addrs = [0, 4, 8, 12];
    let m = meta_tagged(9);
    let mut cycles = 0u32;
    loop {
        let out = run_cycle(&mut c, &mut bks, true, addrs, m, false);
        cycles += 1;
        assert!(cycles < 100);
        if out.in_ready {
            break;
        }
    }
    // Keep requesting another quad while the first is in flight.
    let next = [16, 20, 24, 28];
    let mut accepted_early = false;
    let mut delivered = false;
    for _ in 0..20 {
        let out = run_cycle(&mut c, &mut bks, true, next, meta_tagged(10), false);
        if out.out_valid {
            // Delivery of the first quad; overlap acceptance is allowed
            // from this cycle on.
            assert_eq!(out.meta, m);
            delivered = true;
            break;
        }
        if out.in_ready {
            accepted_early = true;
        }
    }
    assert!(delivered);
    assert!(!accepted_early);
}

// An invalidate reaches all four lanes: after the sweep, a repeated quad
// refills every lane again.
#[test]
fn invalidate_sweeps_all_lanes() {
    let mut c = TexCache::new(5);
    let mut bks = [
        Backing::new(texture(), 1),
        Backing::new(texture(), 1),
        Backing::new(texture(), 1),
        Backing::new(texture(), 1),
    ];
    let addrs = [3 * 4, 7 * 4, 11 * 4, 15 * 4];
    read_quad(&mut c, &mut bks, addrs, meta_tagged(2));
    read_quad(&mut c, &mut bks, addrs, meta_tagged(3));
    // Cached: the repeat cost no backing traffic.
    assert_eq!(bks[0].accepted_reads, 1);
    assert_eq!(bks[3].accepted_reads, 1);
    run_cycle(&mut c, &mut bks, false, [0; 4], meta_tagged(0), true);
    let out = read_quad(&mut c, &mut bks, addrs, meta_tagged(4));
    assert_eq!(out.out_value0, 3 * 16);
    assert_eq!(out.out_value3, 15 * 16);
    assert_eq!(bks[0].accepted_reads, 2);
    assert_eq!(bks[1].accepted_reads, 2);
    assert_eq!(bks[2].accepted_reads, 2);
    assert_eq!(bks[3].accepted_reads, 2);
}
