use vstd::prelude::*;

verus! {

/// Mask applied to each 512MB segment, indexed by the top three address bits.
/// KUSEG (2048MB) and KSEG2 (1024MB) are passed through unchanged; KSEG0 and
/// KSEG1 both fold onto the low 512MB of physical memory.
pub const REGION_MASKS: [u32; 8] = [
    0xFFFF_FFFF, 0xFFFF_FFFF, 0xFFFF_FFFF, 0xFFFF_FFFF,
    0x7FFF_FFFF,
    0x1FFF_FFFF,
    0xFFFF_FFFF, 0xFFFF_FFFF,
];

/// The mask of the segment that holds `addr`.
pub open spec fn region_mask(addr: u32) -> u32 {
    let seg = addr >> 29u32;
    if seg == 4 {
        0x7FFF_FFFFu32
    } else if seg == 5 {
        0x1FFF_FFFFu32
    } else {
        0xFFFF_FFFFu32
    }
}

/// Physical address of the virtual address `addr`.
pub open spec fn spec_mask(addr: u32) -> u32 {
    addr & region_mask(addr)
}

/// Map a virtual address to the physical address handed to the bus or cache.
pub fn mask(addr: u32) -> (r: u32)
    ensures
        r == spec_mask(addr),
{
    let seg = addr >> 29u32;
    assert(seg < 8) by (bit_vector)
        requires
            seg == addr >> 29u32,
    ;
    addr & REGION_MASKS[seg as usize]
}

/// The kernel segments fold onto the low 512MB; the user segment is the identity.
pub proof fn lemma_segment_mapping(off: u32)
    requires
        off < 0x2000_0000,
    ensures
        spec_mask(0x8000_0000u32 | off) == off,
        spec_mask(0xA000_0000u32 | off) == off,
        spec_mask(off) == off,
{
    assert(((0x8000_0000u32 | off) >> 29u32) == 4 && ((0x8000_0000u32 | off) & 0x7FFF_FFFFu32) == off)
        by (bit_vector)
        requires
            off < 0x2000_0000,
    ;
    assert(((0xA000_0000u32 | off) >> 29u32) == 5 && ((0xA000_0000u32 | off) & 0x1FFF_FFFFu32) == off)
        by (bit_vector)
        requires
            off < 0x2000_0000,
    ;
    assert((off >> 29u32) == 0 && (off & 0xFFFF_FFFFu32) == off) by (bit_vector)
        requires
            off < 0x2000_0000,
    ;
}

} // verus!
