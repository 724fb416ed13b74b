//! Physical memory protection: the configuration word that grants the
//! scheduled process, and only it, access to its memory region.
use vstd::prelude::*;

use crate::bitfield::{BinaryOperations, Byte, bit_spec, lemma_from_view};

verus! {

/// Number of region entries that `pmpcfg0` configures.
pub const PMP_ENTRIES: usize = 8;

/// Region entries reserved ahead of the process regions: devices, then the kernel.
pub const RESERVED_REGIONS: usize = 2;

/// Number of process regions that `pmpcfg0` can describe.
pub const USER_REGIONS: usize = 6;

/// Upper bounds (top-of-range, in bytes) of the regions seeded at boot:
/// devices, kernel, first user program, second user program.
pub const DEVICE_END: usize = 0x8000_0000;
pub const KERNEL_END: usize = 0x8010_0000;
pub const USER1_END: usize = 0x8020_0000;
pub const USER2_END: usize = 0x8030_0000;
pub const MEMORY_END: usize = 0x8040_0000;

/// The configuration byte of region `r` in a `pmpcfg0` value.
pub open spec fn cfg_byte(cfg: u64, r: nat) -> u8 {
    ((cfg >> (8 * r) as u64) & 0xff) as u8
}

/// Whether region `r` grants any of read, write or execute.
pub open spec fn region_enabled(cfg: u64, r: nat) -> bool {
    cfg_byte(cfg, r) & 0x7 != 0
}

/// The configuration that grants process region `idx` read, write, execute and
/// top-of-range addressing, and leaves every other entry off.
pub open spec fn process_config(cfg: u64, idx: nat) -> bool {
    forall|r: nat|
        r < PMP_ENTRIES ==> #[trigger] cfg_byte(cfg, r) == if r == idx + RESERVED_REGIONS {
            0x0fu8
        } else {
            0u8
        }
}

/// The `pmpcfg0` word that grants process region `idx` read, write, execute
/// and top-of-range addressing, with every other entry off.
pub open spec fn pmp_word(idx: nat) -> u64 {
    0x0fu64 << (8 * (idx + RESERVED_REGIONS)) as u64
}

/// Exactly one process region, the one at `idx`, is permission-enabled, and
/// neither reserved region is.
pub open spec fn exclusive(cfg: u64, idx: nat) -> bool {
    forall|r: nat|
        r < PMP_ENTRIES ==> (#[trigger] region_enabled(cfg, r) <==> r == idx + RESERVED_REGIONS)
}

/// The configuration word of one process is exclusive to that process.
pub proof fn lemma_process_config_exclusive(cfg: u64, idx: nat)
    requires
        process_config(cfg, idx),
    ensures
        exclusive(cfg, idx),
{
    assert forall|r: nat| r < PMP_ENTRIES implies (#[trigger] region_enabled(cfg, r) <==> r
        == idx + RESERVED_REGIONS) by {
        assert(cfg_byte(cfg, r) == if r == idx + RESERVED_REGIONS {
            0x0fu8
        } else {
            0u8
        });
        assert(0x0fu8 & 0x7 != 0) by (bit_vector);
        assert(0u8 & 0x7 == 0) by (bit_vector);
    }
}

/// Equal bytes at all eight positions make equal words.
proof fn lemma_word_from_bytes(x: u64, y: u64)
    requires
        forall|r: nat| r < 8 ==> #[trigger] cfg_byte(x, r) == cfg_byte(y, r),
    ensures
        x == y,
{
    assert(cfg_byte(x, 0nat) == cfg_byte(y, 0nat));
    assert(cfg_byte(x, 1nat) == cfg_byte(y, 1nat));
    assert(cfg_byte(x, 2nat) == cfg_byte(y, 2nat));
    assert(cfg_byte(x, 3nat) == cfg_byte(y, 3nat));
    assert(cfg_byte(x, 4nat) == cfg_byte(y, 4nat));
    assert(cfg_byte(x, 5nat) == cfg_byte(y, 5nat));
    assert(cfg_byte(x, 6nat) == cfg_byte(y, 6nat));
    assert(cfg_byte(x, 7nat) == cfg_byte(y, 7nat));
    assert(x == y) by (bit_vector)
        requires
            ((x >> 0u64) & 0xff) as u8 == ((y >> 0u64) & 0xff) as u8,
            ((x >> 8u64) & 0xff) as u8 == ((y >> 8u64) & 0xff) as u8,
            ((x >> 16u64) & 0xff) as u8 == ((y >> 16u64) & 0xff) as u8,
            ((x >> 24u64) & 0xff) as u8 == ((y >> 24u64) & 0xff) as u8,
            ((x >> 32u64) & 0xff) as u8 == ((y >> 32u64) & 0xff) as u8,
            ((x >> 40u64) & 0xff) as u8 == ((y >> 40u64) & 0xff) as u8,
            ((x >> 48u64) & 0xff) as u8 == ((y >> 48u64) & 0xff) as u8,
            ((x >> 56u64) & 0xff) as u8 == ((y >> 56u64) & 0xff) as u8,
    ;
}

/// The process word has the byte pattern of a process configuration.
proof fn lemma_pmp_word_config(idx: nat)
    requires
        idx < USER_REGIONS,
    ensures
        process_config(pmp_word(idx), idx),
{
    let t = (8 * (idx + RESERVED_REGIONS)) as u64;
    assert forall|r: nat| r < PMP_ENTRIES implies #[trigger] cfg_byte(pmp_word(idx), r) == if r
        == idx + RESERVED_REGIONS {
        0x0fu8
    } else {
        0u8
    } by {
        let s = (8 * r) as u64;
        assert(((0x0fu64 << t) >> s) & 0xff == if s == t { 0x0fu64 } else { 0u64 })
            by (bit_vector)
            requires
                t < 64,
                s < 64,
                t % 8 == 0,
                s % 8 == 0,
        ;
    }
}

/// The word of a process region enables that region alone.
pub proof fn lemma_pmp_word_exclusive(idx: nat)
    requires
        idx < USER_REGIONS,
    ensures
        exclusive(pmp_word(idx), idx),
{
    lemma_pmp_word_config(idx);
    lemma_process_config_exclusive(pmp_word(idx), idx);
}

/// Eight bits equal position by position make equal bytes.
proof fn lemma_byte_from_bits(x: u8, y: u8)
    requires
        forall|i: nat| i < 8 ==> #[trigger] x.bit(i) == y.bit(i),
    ensures
        x == y,
{
    assert(x.bit(0) == y.bit(0));
    assert(x.bit(1) == y.bit(1));
    assert(x.bit(2) == y.bit(2));
    assert(x.bit(3) == y.bit(3));
    assert(x.bit(4) == y.bit(4));
    assert(x.bit(5) == y.bit(5));
    assert(x.bit(6) == y.bit(6));
    assert(x.bit(7) == y.bit(7));
    assert(x == y) by (bit_vector)
        requires
            ((x >> 0u8) & 1 == 1) == ((y >> 0u8) & 1 == 1),
            ((x >> 1u8) & 1 == 1) == ((y >> 1u8) & 1 == 1),
            ((x >> 2u8) & 1 == 1) == ((y >> 2u8) & 1 == 1),
            ((x >> 3u8) & 1 == 1) == ((y >> 3u8) & 1 == 1),
            ((x >> 4u8) & 1 == 1) == ((y >> 4u8) & 1 == 1),
            ((x >> 5u8) & 1 == 1) == ((y >> 5u8) & 1 == 1),
            ((x >> 6u8) & 1 == 1) == ((y >> 6u8) & 1 == 1),
            ((x >> 7u8) & 1 == 1) == ((y >> 7u8) & 1 == 1),
    ;
}

/// The `pmpcfg0` register as its eight configuration bytes.
struct Pmpcfg([Byte; 8]);

impl Pmpcfg {
    /// All entries off.
    fn new() -> (r: Self)
        ensures
            forall|i: int| 0 <= i < 8 ==> (#[trigger] r.0[i])@ == 0u8,
    {
        let zero = Byte::from(0u8);
        let bytes = [zero; 8];
        proof {
            broadcast use vstd::array::axiom_spec_array_fill_for_copy_type;

            lemma_from_view(0u8);
            assert(zero@ == 0u8);
        }
        Pmpcfg(bytes)
    }

    /// Grants entry `at` read, write and execute with top-of-range addressing.
    fn set_rwx(&mut self, at: usize)
        requires
            at < 8,
        ensures
            final(self).0[at as int]@ == old(self).0[at as int]@ | 0x0f,
            forall|i: int| 0 <= i < 8 && i != at ==> final(self).0[i] == old(self).0[i],
    {
        let b0 = self.0[at];
        let mut reg = b0;
        reg.at(0, true);  // R
        reg.at(1, true);  // W
        reg.at(2, true);  // X
        reg.at(3, true);  // A: top of range
        proof {
            let x = b0@;
            let y = (x | 0x0f) as u8;
            assert forall|i: nat| i < 8 implies #[trigger] reg@.bit(i) == y.bit(i) by {
                assert(bit_spec(reg, i) == reg@.bit(i));
                let j = i as u8;
                assert(((x | 0x0f) >> j) & 1 == if j < 4 { 1u8 } else { (x >> j) & 1 })
                    by (bit_vector)
                    requires
                        j < 8,
                ;
            }
            lemma_byte_from_bits(reg@, y);
        }
        self.0[at] = reg;
    }

    /// The register value: entry `r` in bits `8 * r` to `8 * r + 7`.
    fn to_u64(&self) -> (r: u64)
        ensures
            forall|i: nat| i < 8 ==> #[trigger] cfg_byte(r, i) == self.0[i as int]@,
    {
        let mut acc: u64 = 0;
        let mut i: usize = 0;
        assert forall|k: nat| k < 8 implies #[trigger] cfg_byte(0, k) == 0 by {
            let s = (8 * k) as u64;
            assert((0u64 >> s) & 0xff == 0) by (bit_vector);
        }
        while i < 8
            invariant
                i <= 8,
                forall|k: nat| k < i ==> #[trigger] cfg_byte(acc, k) == self.0[k as int]@,
                forall|k: nat| i <= k < 8 ==> #[trigger] cfg_byte(acc, k) == 0,
            decreases 8 - i,
        {
            let b = self.0[i].get();
            let shift: u64 = 8 * i as u64;
            let next = acc | ((b as u64) << shift);
            proof {
                assert(cfg_byte(acc, i as nat) == 0);
                assert((acc >> shift) & 0xff < 256) by (bit_vector);
                assert forall|k: nat| k < 8 implies #[trigger] cfg_byte(next, k) == if k == i {
                    b
                } else {
                    cfg_byte(acc, k)
                } by {
                    let s = (8 * k) as u64;
                    assert(((acc | ((b as u64) << shift)) >> s) & 0xff == if s == shift {
                        b as u64
                    } else {
                        (acc >> s) & 0xff
                    }) by (bit_vector)
                        requires
                            shift < 64,
                            s < 64,
                            shift % 8 == 0,
                            s % 8 == 0,
                            (acc >> shift) & 0xff == 0,
                    ;
                }
            }
            acc = next;
            i = i + 1;
        }
        acc
    }
}

/// The `pmpcfg0` value that makes process region `idx` the only accessible one.
pub fn switch_prog_pmp(idx: usize) -> (r: u64)
    requires
        idx < USER_REGIONS,
    ensures
        r == pmp_word(idx as nat),
        process_config(r, idx as nat),
        exclusive(r, idx as nat),
{
    let prog_index = idx + RESERVED_REGIONS;
    let mut pmpcfg0 = Pmpcfg::new();
    pmpcfg0.set_rwx(prog_index);
    let r = pmpcfg0.to_u64();
    proof {
        assert(0u8 | 0x0f == 0x0fu8) by (bit_vector);
        assert forall|k: nat| k < PMP_ENTRIES implies #[trigger] cfg_byte(r, k) == if k == idx
            + RESERVED_REGIONS {
            0x0fu8
        } else {
            0u8
        } by {
            assert(cfg_byte(r, k) == pmpcfg0.0[k as int]@);
        }
        lemma_process_config_exclusive(r, idx as nat);
        lemma_pmp_word_config(idx as nat);
        lemma_word_from_bytes(r, pmp_word(idx as nat));
    }
    r
}

} // verus!
