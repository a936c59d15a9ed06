use vstd::prelude::*;

pub mod cpu;
pub mod isa;
pub mod map;

verus! {

/// The emulated system: the CPU core, its scratchpad and cache control.
pub struct Psx {
    pub cpu: cpu::Cpu,
    pub scratchpad: ScratchPad,
    /// Cache control register (FFFE0130h); only the code-cache enable bit is read here.
    pub cache_control: u32,
}

impl Psx {
    pub open spec fn wf(&self) -> bool {
        self.cpu.wf() && self.scratchpad.wf()
    }

    pub open spec fn spec_code_cache_enabled(&self) -> bool {
        self.cache_control & 0x800 != 0
    }

    pub fn new() -> (r: Self)
        ensures
            r.wf(),
            r.cpu.is_reset(),
            r.cache_control == 0,
            forall|j: int| 0 <= j < SCRATCHPAD_SIZE ==> r.scratchpad.dat@[j] == 0,
    {
        Psx { cpu: cpu::Cpu::new(), scratchpad: ScratchPad::new(), cache_control: 0 }
    }

    /// Whether the instruction cache is enabled.
    pub fn code_cache_enabled(&self) -> (r: bool)
        ensures
            r == self.spec_code_cache_enabled(),
    {
        self.cache_control & 0x800 != 0
    }
}

/// Scratchpad size in bytes (1KB).
pub const SCRATCHPAD_SIZE: usize = 1024;

/// Physical address of the first scratchpad byte.
pub const SCRATCHPAD_BASE: u32 = 0x1f80_0000;

/// The scratchpad offset of a physical address, if the address falls in the
/// scratchpad; other addresses belong to main memory and devices.
pub fn scratchpad_offset(addr: u32) -> (r: Option<u32>)
    ensures
        r == if SCRATCHPAD_BASE <= addr < SCRATCHPAD_BASE + SCRATCHPAD_SIZE {
            Some((addr - SCRATCHPAD_BASE) as u32)
        } else {
            None::<u32>
        },
{
    if addr >= SCRATCHPAD_BASE && addr - SCRATCHPAD_BASE < SCRATCHPAD_SIZE as u32 {
        Some(addr - SCRATCHPAD_BASE)
    } else {
        None
    }
}

/// Supported bus widths.
#[derive(Clone, Copy, Debug, PartialEq, Eq, Structural)]
pub enum BusWidth {
    Byte,
    Word,
    DoubleWord,
}

impl BusWidth {
    pub open spec fn spec_bytes(self) -> nat {
        match self {
            BusWidth::Byte => 1,
            BusWidth::Word => 2,
            BusWidth::DoubleWord => 4,
        }
    }

    /// Number of bytes moved by one transfer of this width.
    pub fn bytes(self) -> (r: usize)
        ensures
            r == self.spec_bytes(),
    {
        match self {
            BusWidth::Byte => 1,
            BusWidth::Word => 2,
            BusWidth::DoubleWord => 4,
        }
    }
}

/// The low `n` bytes of `v` (all of it for four bytes).
pub open spec fn truncate(v: u32, n: nat) -> u32 {
    if n == 1 {
        v & 0xff
    } else if n == 2 {
        v & 0xffff
    } else {
        v
    }
}

/// Values that can be moved over the bus with a given width.
pub trait Addressable: Sized {
    /// Width of a transfer of this type, in bytes.
    spec fn spec_width() -> nat;

    /// The value as it travels on the bus.
    spec fn spec_u32(&self) -> u32;

    fn width() -> (r: BusWidth)
        ensures
            r.spec_bytes() == Self::spec_width(),
    ;

    fn from_u32(val: u32) -> (r: Self)
        ensures
            r.spec_u32() == truncate(val, Self::spec_width()),
    ;

    fn as_u32(&self) -> (r: u32)
        ensures
            r == self.spec_u32(),
            r == truncate(r, Self::spec_width()),
    ;
}

impl Addressable for u8 {
    open spec fn spec_width() -> nat {
        1
    }

    open spec fn spec_u32(&self) -> u32 {
        *self as u32
    }

    fn width() -> (r: BusWidth) {
        BusWidth::Byte
    }

    fn from_u32(val: u32) -> (r: Self) {
        assert((val as u8) as u32 == val & 0xff) by (bit_vector);
        val as u8
    }

    fn as_u32(&self) -> (r: u32) {
        let v = *self;
        assert((v as u32) & 0xff == v as u32) by (bit_vector);
        v as u32
    }
}

impl Addressable for u16 {
    open spec fn spec_width() -> nat {
        2
    }

    open spec fn spec_u32(&self) -> u32 {
        *self as u32
    }

    fn width() -> (r: BusWidth) {
        BusWidth::Word
    }

    fn from_u32(val: u32) -> (r: Self) {
        assert((val as u16) as u32 == val & 0xffff) by (bit_vector);
        val as u16
    }

    fn as_u32(&self) -> (r: u32) {
        let v = *self;
        assert((v as u32) & 0xffff == v as u32) by (bit_vector);
        v as u32
    }
}

impl Addressable for u32 {
    open spec fn spec_width() -> nat {
        4
    }

    open spec fn spec_u32(&self) -> u32 {
        *self
    }

    fn width() -> (r: BusWidth) {
        BusWidth::DoubleWord
    }

    fn from_u32(val: u32) -> (r: Self) {
        val
    }

    fn as_u32(&self) -> (r: u32) {
        *self
    }
}

/// Byte `i` (little-endian) of `v`.
pub open spec fn byte_of(v: u32, i: nat) -> u8 {
    ((v >> (8 * i) as u32) & 0xff) as u8
}

/// Position in the scratchpad of byte `i` of a transfer at `offset`.
pub open spec fn pad_index(offset: u32, i: nat) -> int {
    ((offset as int) + i) % (SCRATCHPAD_SIZE as int)
}

/// The first `n` bytes at `offset`, packed little-endian.
pub open spec fn pack(dat: Seq<u8>, offset: u32, n: nat) -> u32
    decreases n,
{
    if n == 0 {
        0
    } else {
        pack(dat, offset, (n - 1) as nat) | ((dat[pad_index(offset, (n - 1) as nat)] as u32) << (8 * (n - 1)) as u32)
    }
}

/// Whether scratchpad byte `j` is written by an `n`-byte store at `offset`.
pub open spec fn in_window(offset: u32, n: nat, j: int) -> bool {
    exists|i: nat| i < n && pad_index(offset, i) == j
}

/// 1KB of fast local memory. Offsets wrap within its size.
pub struct ScratchPad {
    pub dat: Vec<u8>,
}

impl ScratchPad {
    pub open spec fn wf(&self) -> bool {
        self.dat@.len() == SCRATCHPAD_SIZE
    }

    pub fn new() -> (r: Self)
        ensures
            r.wf(),
            forall|j: int| 0 <= j < SCRATCHPAD_SIZE ==> r.dat@[j] == 0,
    {
        ScratchPad { dat: vec![0u8; SCRATCHPAD_SIZE] }
    }

    /// Read a value from the scratchpad with the given width.
    pub fn load<W: Addressable>(&self, offset: u32) -> (r: W)
        requires
            self.wf(),
            W::spec_width() <= 4,
        ensures
            r.spec_u32() == truncate(pack(self.dat@, offset, W::spec_width()), W::spec_width()),
    {
        let n = W::width().bytes();
        let mut val: u32 = 0;
        let mut i: usize = 0;
        while i < n
            invariant
                n == W::spec_width(),
                n <= 4,
                i <= n,
                self.wf(),
                val == pack(self.dat@, offset, i as nat),
            decreases n - i,
        {
            let idx = (((offset as u64) + (i as u64)) % 1024) as usize;
            val = val | ((self.dat[idx] as u32) << ((8 * i) as u32));
            i = i + 1;
        }
        W::from_u32(val)
    }

    /// Write a value to the scratchpad with the given width.
    pub fn store<W: Addressable>(&mut self, offset: u32, val: W)
        requires
            old(self).wf(),
            W::spec_width() <= 4,
        ensures
            final(self).wf(),
            forall|i: nat| #![trigger pad_index(offset, i)]
                i < W::spec_width() ==> final(self).dat@[pad_index(offset, i)] == byte_of(val.spec_u32(), i),
            forall|j: int|
                0 <= j < SCRATCHPAD_SIZE && !in_window(offset, W::spec_width(), j)
                    ==> #[trigger] final(self).dat@[j] == old(self).dat@[j],
    {
        let n = W::width().bytes();
        let v = val.as_u32();
        let mut i: usize = 0;
        while i < n
            invariant
                n == W::spec_width(),
                n <= 4,
                i <= n,
                v == val.spec_u32(),
                self.wf(),
                forall|k: nat| #![trigger pad_index(offset, k)]
                    k < i ==> self.dat@[pad_index(offset, k)] == byte_of(v, k),
                forall|j: int|
                    0 <= j < SCRATCHPAD_SIZE && !in_window(offset, i as nat, j)
                        ==> #[trigger] self.dat@[j] == old(self).dat@[j],
            decreases n - i,
        {
            let idx = (((offset as u64) + (i as u64)) % 1024) as usize;
            let sh = (8 * i) as u32;
            let x = (v >> sh) & 0xff;
            assert(x < 256) by (bit_vector)
                requires
                    x == (v >> sh) & 0xff,
            ;
            let b = x as u8;
            proof {
                assert forall|k: nat| #![trigger pad_index(offset, k)] k < i implies pad_index(offset, k) != idx by {
                    assert(pad_index(offset, k) == ((offset as int) + k) % 1024);
                }
            }
            self.dat.set(idx, b);
            proof {
                assert(pad_index(offset, i as nat) == idx);
                assert forall|j: int|
                    0 <= j < SCRATCHPAD_SIZE && !in_window(offset, (i + 1) as nat, j) implies
                        #[trigger] self.dat@[j] == old(self).dat@[j] by {
                    if !in_window(offset, i as nat, j) {
                        if j == idx {
                            assert(in_window(offset, (i + 1) as nat, j));
                        }
                    } else {
                        let k = choose|k: nat| k < i && pad_index(offset, k) == j;
                        assert(in_window(offset, (i + 1) as nat, j));
                    }
                }
            }
            i = i + 1;
        }
    }
}

/// Scratchpad round trip: once the four bytes of `v` are stored at `offset`,
/// a word read there gives `v`, a halfword read gives its low half, and a
/// byte read at any of the four positions gives that byte, little-endian.
pub proof fn lemma_scratchpad_round_trip(dat: Seq<u8>, offset: u32, v: u32)
    requires
        dat.len() == SCRATCHPAD_SIZE,
        forall|i: nat| #![trigger pad_index(offset, i)] i < 4 ==> dat[pad_index(offset, i)] == byte_of(v, i),
    ensures
        truncate(pack(dat, offset, 4), 4) == v,
        truncate(pack(dat, offset, 2), 2) == v & 0xffff,
        forall|k: nat, o: u32| #![trigger pad_index(offset, k), pad_index(o, 0)]
            k < 4 && pad_index(o, 0) == pad_index(offset, k) ==> truncate(pack(dat, o, 1), 1) == byte_of(v, k) as u32,
{
    let b0 = dat[pad_index(offset, 0)];
    let b1 = dat[pad_index(offset, 1)];
    let b2 = dat[pad_index(offset, 2)];
    let b3 = dat[pad_index(offset, 3)];
    assert(b0 == byte_of(v, 0) && b1 == byte_of(v, 1) && b2 == byte_of(v, 2) && b3 == byte_of(v, 3));
    reveal_with_fuel(pack, 5);
    assert(pack(dat, offset, 4) == (0u32 | ((b0 as u32) << 0u32)) | ((b1 as u32) << 8u32) | ((b2 as u32) << 16u32) | ((b3 as u32) << 24u32));
    assert(pack(dat, offset, 2) == (0u32 | ((b0 as u32) << 0u32)) | ((b1 as u32) << 8u32));
    assert(
        b0 == ((v >> 0u32) & 0xff) as u8 && b1 == ((v >> 8u32) & 0xff) as u8
        && b2 == ((v >> 16u32) & 0xff) as u8 && b3 == ((v >> 24u32) & 0xff) as u8
        ==> ((0u32 | ((b0 as u32) << 0u32)) | ((b1 as u32) << 8u32) | ((b2 as u32) << 16u32) | ((b3 as u32) << 24u32)) == v
            && ((0u32 | ((b0 as u32) << 0u32)) | ((b1 as u32) << 8u32)) & 0xffff == v & 0xffff
    ) by (bit_vector);
    assert forall|k: nat, o: u32| #![trigger pad_index(offset, k), pad_index(o, 0)]
        k < 4 && pad_index(o, 0) == pad_index(offset, k) implies truncate(pack(dat, o, 1), 1) == byte_of(v, k) as u32 by {
        let b = dat[pad_index(o, 0)];
        assert(pack(dat, o, 1) == 0u32 | ((b as u32) << 0u32));
        assert((0u32 | ((b as u32) << 0u32)) & 0xff == b as u32) by (bit_vector);
    }
}

} // verus!
