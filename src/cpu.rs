use vstd::prelude::*;

use crate::map::{mask, spec_mask};
use crate::isa::{effect, execute, extend, extend_exec, CpuError, MemAccess};
use crate::{BusWidth, Psx};

verus! {

/// Initial value of the program counter.
pub const RESET_PC: u32 = 0xbfc0_0000;

/// Number of instruction cache lines.
pub const ICACHE_LINES: usize = 256;

// ---------------------------------------------------------------------------
// Instruction fields

pub open spec fn spec_op(w: u32) -> u32 {
    (w >> 26u32) & 0x3f
}

pub open spec fn spec_funct(w: u32) -> u32 {
    w & 0x3f
}

pub open spec fn spec_rs(w: u32) -> usize {
    ((w >> 21u32) & 0x1f) as usize
}

pub open spec fn spec_rt(w: u32) -> usize {
    ((w >> 16u32) & 0x1f) as usize
}

pub open spec fn spec_rd(w: u32) -> usize {
    ((w >> 11u32) & 0x1f) as usize
}

pub open spec fn spec_shamt(w: u32) -> u32 {
    (w >> 6u32) & 0x1f
}

/// The 16-bit immediate, zero-extended.
pub open spec fn spec_imm(w: u32) -> u32 {
    w & 0xffff
}

/// The 16-bit immediate, sign-extended.
pub open spec fn spec_simm(w: u32) -> u32 {
    if w & 0x8000 != 0 {
        (w & 0xffff) | 0xffff_0000
    } else {
        w & 0xffff
    }
}

/// The 26-bit jump target, aligned to a word.
pub open spec fn spec_jimm(w: u32) -> u32 {
    (w & 0x03ff_ffff) << 2u32
}

proof fn lemma_field_bounds(w: u32)
    ensures
        spec_rs(w) < 32,
        spec_rt(w) < 32,
        spec_rd(w) < 32,
        spec_shamt(w) < 32,
{
    assert(((w >> 21u32) & 0x1f) < 32 && ((w >> 16u32) & 0x1f) < 32 && ((w >> 11u32) & 0x1f) < 32
        && ((w >> 6u32) & 0x1f) < 32) by (bit_vector);
}

/// A raw 32-bit instruction word.
#[derive(Clone, Copy, Debug, PartialEq, Eq, Structural)]
pub struct Instruction(pub u32);

impl Instruction {
    pub fn new(i: u32) -> (r: Self)
        ensures
            r.0 == i,
    {
        Instruction(i)
    }

    /// Primary opcode, bits 31:26.
    pub fn op(self) -> (r: u32)
        ensures
            r == spec_op(self.0),
    {
        (self.0 >> 26u32) & 0x3f
    }

    /// Secondary opcode, bits 5:0.
    pub fn funct(self) -> (r: u32)
        ensures
            r == spec_funct(self.0),
    {
        self.0 & 0x3f
    }

    /// Source register, bits 25:21.
    pub fn rs(self) -> (r: usize)
        ensures
            r == spec_rs(self.0),
            r < 32,
    {
        proof { lemma_field_bounds(self.0); }
        ((self.0 >> 21u32) & 0x1f) as usize
    }

    /// Target register, bits 20:16.
    pub fn rt(self) -> (r: usize)
        ensures
            r == spec_rt(self.0),
            r < 32,
    {
        proof { lemma_field_bounds(self.0); }
        ((self.0 >> 16u32) & 0x1f) as usize
    }

    /// Destination register, bits 15:11.
    pub fn rd(self) -> (r: usize)
        ensures
            r == spec_rd(self.0),
            r < 32,
    {
        proof { lemma_field_bounds(self.0); }
        ((self.0 >> 11u32) & 0x1f) as usize
    }

    /// Shift amount, bits 10:6.
    pub fn shmat(self) -> (r: u32)
        ensures
            r == spec_shamt(self.0),
            r < 32,
    {
        proof { lemma_field_bounds(self.0); }
        (self.0 >> 6u32) & 0x1f
    }

    /// Immediate, sign-extended to 32 bits.
    pub fn simm(self) -> (r: u32)
        ensures
            r == spec_simm(self.0),
    {
        if self.0 & 0x8000 != 0 {
            (self.0 & 0xffff) | 0xffff_0000
        } else {
            self.0 & 0xffff
        }
    }

    /// Immediate, zero-extended to 32 bits.
    pub fn imm(self) -> (r: u32)
        ensures
            r == spec_imm(self.0),
    {
        self.0 & 0xffff
    }

    /// Jump target, shifted to a word boundary.
    pub fn jimm(self) -> (r: u32)
        ensures
            r == spec_jimm(self.0),
    {
        (self.0 & 0x03ff_ffff) << 2u32
    }
}


// ---------------------------------------------------------------------------
// Register file

/// `regs` after writing `v` to register `r`; register 0 stays zero.
pub open spec fn write_reg(regs: Seq<u32>, r: int, v: u32) -> Seq<u32> {
    if r == 0 {
        regs
    } else {
        regs.update(r, v)
    }
}

/// `regs` after an optional register write.
pub open spec fn apply_write(regs: Seq<u32>, w: Option<(usize, u32)>) -> Seq<u32> {
    match w {
        Some((r, v)) => write_reg(regs, r as int, v),
        None => regs,
    }
}

// ---------------------------------------------------------------------------
// Instruction cache

/// Cache line selected by an address: bits 11:4.
pub open spec fn line_of(pc: u32) -> int {
    ((pc >> 4u32) & 0xff) as int
}

/// Word selected within a line: bits 3:2.
pub open spec fn word_of(pc: u32) -> u32 {
    (pc >> 2u32) & 3
}

/// Tag of the block that holds an address.
pub open spec fn tag_of(pc: u32) -> u32 {
    pc & 0x7fff_f000
}

/// Whether an address lies in a cached segment (below KSEG1).
pub open spec fn cacheable(pc: u32) -> bool {
    pc < 0xa000_0000
}

/// Tag bits of a line's `info` word.
pub open spec fn info_tag(info: u32) -> u32 {
    info & 0xffff_f000
}

/// Valid bit `index` of a line's `info` word.
pub open spec fn info_valid(info: u32, index: u32) -> bool {
    (info >> index) & 1 == 1
}

/// Whether a line with this `info` holds the word at `pc`.
pub open spec fn info_hits(info: u32, pc: u32) -> bool {
    info_tag(info) == tag_of(pc) && info_valid(info, word_of(pc))
}

/// `info` of a line after a miss at `pc`: the new tag and a single valid word.
pub open spec fn fill_info(pc: u32) -> u32 {
    tag_of(pc) | (1u32 << word_of(pc))
}

proof fn lemma_cache_index_bounds(pc: u32)
    ensures
        0 <= line_of(pc) < 256,
        word_of(pc) < 4,
{
    assert(((pc >> 4u32) & 0xff) < 256 && ((pc >> 2u32) & 3) < 4) by (bit_vector);
}

/// Instruction cache line: tag and valid bits, and four cached words.
#[derive(Clone, Copy)]
pub struct ICacheLine {
    /// Bits 31:12 hold the tag, bits 3:0 one valid bit per word.
    pub info: u32,
    pub line: [Instruction; 4],
}

impl ICacheLine {
    pub fn new() -> (r: Self)
        ensures
            r.info == 0,
            forall|i: int| 0 <= i < 4 ==> r.line@[i] == Instruction(0),
    {
        ICacheLine { info: 0, line: [Instruction(0); 4] }
    }

    /// The tag bits.
    pub fn tag(&self) -> (r: u32)
        ensures
            r == info_tag(self.info),
    {
        self.info & 0xffff_f000
    }

    /// Whether the valid bit of word `index` is set.
    pub fn is_valid(&self, index: u32) -> (r: bool)
        requires
            index < 4,
        ensures
            r == info_valid(self.info, index),
    {
        (self.info >> index) & 1 == 1
    }
}

// ---------------------------------------------------------------------------
// CPU state

pub struct Cpu {
    /// General purpose registers.
    pub regs: Vec<u32>,
    /// Address of the instruction being executed.
    pub current_pc: u32,
    /// Address of the next instruction to fetch.
    pub pc: u32,
    /// Address of the instruction after that (branch delay).
    pub next_pc: u32,
    /// Load delay slot: a register and the value that will land in it.
    pub delayed_load: Option<(usize, u32)>,
    /// HI multiply/divide result.
    pub hi: u32,
    /// LO multiply/divide result.
    pub lo: u32,
    /// Instruction cache.
    pub icache: Vec<ICacheLine>,
}

impl Cpu {
    pub open spec fn wf(&self) -> bool {
        &&& self.regs@.len() == 32
        &&& self.regs@[0] == 0
        &&& self.icache@.len() == ICACHE_LINES
        &&& match self.delayed_load {
            Some((r, _)) => r < 32,
            None => true,
        }
    }

    /// The state right after reset: registers clear, execution at the reset vector.
    pub open spec fn is_reset(&self) -> bool {
        &&& self.wf()
        &&& forall|i: int| 0 <= i < 32 ==> self.regs@[i] == 0
        &&& self.current_pc == RESET_PC
        &&& self.pc == RESET_PC
        &&& self.next_pc == 0xbfc0_0004u32
        &&& self.delayed_load.is_none()
        &&& self.hi == 0
        &&& self.lo == 0
        &&& forall|i: int| 0 <= i < ICACHE_LINES ==> #[trigger] self.icache@[i].info == 0
        &&& forall|i: int, j: int|
            0 <= i < ICACHE_LINES && 0 <= j < 4 ==> #[trigger] self.icache@[i].line@[j] == Instruction(0)
    }

    pub fn new() -> (r: Self)
        ensures
            r.is_reset(),
    {
        let mut icache: Vec<ICacheLine> = Vec::new();
        let mut i: usize = 0;
        while i < ICACHE_LINES
            invariant
                i <= ICACHE_LINES,
                icache@.len() == i,
                forall|j: int| 0 <= j < i ==> #[trigger] icache@[j].info == 0,
                forall|j: int, k: int| 0 <= j < i && 0 <= k < 4 ==> #[trigger] icache@[j].line@[k] == Instruction(0),
            decreases ICACHE_LINES - i,
        {
            icache.push(ICacheLine::new());
            i = i + 1;
        }
        Cpu {
            regs: vec![0u32; 32],
            current_pc: RESET_PC,
            pc: RESET_PC,
            next_pc: RESET_PC.wrapping_add(4),
            delayed_load: None,
            hi: 0,
            lo: 0,
            icache,
        }
    }

    /// Set the given register; register 0 stays zero.
    pub fn set_reg(&mut self, reg: usize, val: u32)
        requires
            old(self).wf(),
            reg < 32,
        ensures
            final(self).wf(),
            final(self).regs@ == write_reg(old(self).regs@, reg as int, val),
            final(self).current_pc == old(self).current_pc,
            final(self).pc == old(self).pc,
            final(self).next_pc == old(self).next_pc,
            final(self).delayed_load == old(self).delayed_load,
            final(self).hi == old(self).hi,
            final(self).lo == old(self).lo,
            final(self).icache@ == old(self).icache@,
    {
        self.regs.set(reg, val);
        self.regs.set(0, 0);
        assert(self.regs@ =~= write_reg(old(self).regs@, reg as int, val));
    }

    /// Schedule a load to land in `reg` at the next commit, replacing any pending one.
    pub fn schedule_delayed_load(&mut self, reg: usize, val: u32)
        requires
            old(self).wf(),
            reg < 32,
        ensures
            final(self).wf(),
            final(self).delayed_load == Some((reg, val)),
            final(self).regs@ == old(self).regs@,
            final(self).current_pc == old(self).current_pc,
            final(self).pc == old(self).pc,
            final(self).next_pc == old(self).next_pc,
            final(self).hi == old(self).hi,
            final(self).lo == old(self).lo,
            final(self).icache@ == old(self).icache@,
    {
        self.delayed_load = Some((reg, val));
    }

    /// Perform the pending delayed load, if any, and clear the slot.
    pub fn delayed_load(&mut self)
        requires
            old(self).wf(),
        ensures
            final(self).wf(),
            final(self).regs@ == apply_write(old(self).regs@, old(self).delayed_load),
            final(self).delayed_load.is_none(),
            final(self).current_pc == old(self).current_pc,
            final(self).pc == old(self).pc,
            final(self).next_pc == old(self).next_pc,
            final(self).hi == old(self).hi,
            final(self).lo == old(self).lo,
            final(self).icache@ == old(self).icache@,
    {
        if let Some((reg, val)) = self.delayed_load {
            self.set_reg(reg, val);
            self.delayed_load = None;
        }
    }

    /// Value of register `reg` once the pending delayed load, if any, has landed.
    pub fn reg_after_load(&self, reg: usize) -> (r: u32)
        requires
            self.wf(),
            reg < 32,
        ensures
            r == apply_write(self.regs@, self.delayed_load)[reg as int],
    {
        match self.delayed_load {
            Some((d, v)) => if d == reg && d != 0 {
                v
            } else {
                self.regs[reg]
            },
            None => self.regs[reg],
        }
    }

    /// Read register `reg`.
    pub fn reg(&self, reg: usize) -> (r: u32)
        requires
            self.wf(),
            reg < 32,
        ensures
            r == self.regs@[reg as int],
    {
        self.regs[reg]
    }
}

// ---------------------------------------------------------------------------
// Instruction fetch

/// Outcome of an instruction fetch.
#[derive(Clone, Copy, Debug, PartialEq, Eq, Structural)]
pub enum Fetch {
    /// The instruction cache held the word: no bus access.
    Hit(Instruction),
    /// The word must be read from the bus at this physical address, then
    /// handed to `fill_instruction`.
    Miss(u32),
}

/// Whether a fetch at `pc` goes through the instruction cache.
pub open spec fn uses_cache(psx: &Psx, pc: u32) -> bool {
    psx.spec_code_cache_enabled() && cacheable(pc)
}

/// What a fetch at the CPU's `pc` yields.
pub open spec fn spec_fetch(psx: &Psx) -> Fetch {
    fetch_at(psx, psx.cpu.pc)
}

/// What a fetch at `pc` yields in the state `psx`.
pub open spec fn fetch_at(psx: &Psx, pc: u32) -> Fetch {
    let line = psx.cpu.icache@[line_of(pc)];
    if uses_cache(psx, pc) && info_hits(line.info, pc) {
        Fetch::Hit(line.line@[word_of(pc) as int])
    } else {
        Fetch::Miss(spec_mask(pc))
    }
}

/// Look up the instruction at the CPU's `pc`.
pub fn fetch_instruction(psx: &Psx) -> (r: Fetch)
    requires
        psx.wf(),
    ensures
        r == spec_fetch(psx),
{
    let pc = psx.cpu.pc;
    let cached = pc < 0xa000_0000;
    if cached && psx.code_cache_enabled() {
        proof { lemma_cache_index_bounds(pc); }
        let line = ((pc >> 4u32) & 0xff) as usize;
        let cache_line = psx.cpu.icache[line];
        let tag = pc & 0x7fff_f000;
        let index = (pc >> 2u32) & 3;
        if cache_line.tag() == tag && cache_line.is_valid(index) {
            return Fetch::Hit(cache_line.line[index as usize]);
        }
    }
    Fetch::Miss(mask(pc))
}

/// `after` is `before` once a missed fetch at `before.cpu.pc` has been
/// completed with `word`: only the selected cache line changes, and only when
/// the fetch goes through the cache.
pub open spec fn filled(before: &Psx, after: &Psx, word: u32) -> bool {
    let pc = before.cpu.pc;
    let k = line_of(pc);
    &&& after.scratchpad == before.scratchpad
    &&& after.cache_control == before.cache_control
    &&& after.cpu.regs == before.cpu.regs
    &&& after.cpu.current_pc == before.cpu.current_pc
    &&& after.cpu.pc == pc
    &&& after.cpu.next_pc == before.cpu.next_pc
    &&& after.cpu.delayed_load == before.cpu.delayed_load
    &&& after.cpu.hi == before.cpu.hi
    &&& after.cpu.lo == before.cpu.lo
    &&& after.cpu.icache@.len() == ICACHE_LINES
    &&& forall|i: int|
        0 <= i < ICACHE_LINES && !(uses_cache(before, pc) && i == k) ==> #[trigger] after.cpu.icache@[i]
            == before.cpu.icache@[i]
    &&& uses_cache(before, pc) ==> {
        let l = after.cpu.icache@[k];
        &&& l.info == fill_info(pc)
        &&& l.line@[word_of(pc) as int] == Instruction(word)
        &&& forall|j: int| 0 <= j < 4 && j != word_of(pc) ==> #[trigger] l.line@[j] == before.cpu.icache@[k].line@[j]
    }
}

/// Complete a missed fetch at the CPU's `pc` with the word read from the bus.
/// Where the fetch goes through the cache, the selected line takes the new
/// tag and holds this word as its only valid one.
pub fn fill_instruction(psx: &mut Psx, word: u32) -> (r: Instruction)
    requires
        old(psx).wf(),
    ensures
        final(psx).wf(),
        r == Instruction(word),
        filled(old(psx), final(psx), word),
{
    let pc = psx.cpu.pc;
    let instr = Instruction(word);
    let cached = pc < 0xa000_0000;
    if cached && psx.code_cache_enabled() {
        proof { lemma_cache_index_bounds(pc); }
        let line = ((pc >> 4u32) & 0xff) as usize;
        let old_line = psx.cpu.icache[line];
        let index = (pc >> 2u32) & 3;
        let words = [
            if index == 0 { instr } else { old_line.line[0] },
            if index == 1 { instr } else { old_line.line[1] },
            if index == 2 { instr } else { old_line.line[2] },
            if index == 3 { instr } else { old_line.line[3] },
        ];
        let new_line = ICacheLine { info: (pc & 0x7fff_f000) | (1u32 << index), line: words };
        psx.cpu.icache.set(line, new_line);
    }
    instr
}

// ---------------------------------------------------------------------------
// Execution

impl Cpu {
    /// Hand the value read for a `MemAccess::Load` to the CPU: it is extended
    /// to 32 bits and lands in `reg` at the next commit.
    pub fn complete_load(&mut self, reg: usize, width: BusWidth, is_signed: bool, value: u32)
        requires
            old(self).wf(),
            reg < 32,
        ensures
            final(self).wf(),
            final(self).delayed_load == Some((reg, extend(value, width, is_signed))),
            final(self).regs@ == old(self).regs@,
            final(self).current_pc == old(self).current_pc,
            final(self).pc == old(self).pc,
            final(self).next_pc == old(self).next_pc,
            final(self).hi == old(self).hi,
            final(self).lo == old(self).lo,
            final(self).icache@ == old(self).icache@,
    {
        let v = extend_exec(value, width, is_signed);
        self.schedule_delayed_load(reg, v);
    }
}

/// Execute one instruction, `instr`, fetched at the CPU's `pc`.
///
/// The pending delayed load lands first, then the instruction reads its
/// operands, computes, and writes its own result. So the instruction after
/// a load sees the loaded value. On a fault nothing changes, and the pending
/// load stays pending.
pub fn step(psx: &mut Psx, instr: Instruction) -> (r: Result<MemAccess, CpuError>)
    requires
        old(psx).wf(),
    ensures
        final(psx).wf(),
        ({
            let c = old(psx).cpu;
            let w = instr.0;
            let regs1 = apply_write(c.regs@, c.delayed_load);
            match effect(w, regs1[spec_rs(w) as int], regs1[spec_rt(w) as int], c.hi, c.lo, c.next_pc) {
                Err(e) => r == Err::<MemAccess, CpuError>(e) && *final(psx) == *old(psx),
                Ok(eff) => {
                    &&& r == Ok::<MemAccess, CpuError>(eff.access)
                    &&& final(psx).cpu.regs@ == apply_write(regs1, eff.write)
                    &&& final(psx).cpu.delayed_load.is_none()
                    &&& final(psx).cpu.current_pc == c.pc
                    &&& final(psx).cpu.pc == c.next_pc
                    &&& final(psx).cpu.next_pc == eff.next_pc
                    &&& final(psx).cpu.hi == eff.hi
                    &&& final(psx).cpu.lo == eff.lo
                    &&& final(psx).cpu.icache@ == c.icache@
                    &&& final(psx).scratchpad == old(psx).scratchpad
                    &&& final(psx).cache_control == old(psx).cache_control
                },
            }
        }),
{
    let a = psx.cpu.reg_after_load(instr.rs());
    let b = psx.cpu.reg_after_load(instr.rt());
    match execute(instr, a, b, psx.cpu.hi, psx.cpu.lo, psx.cpu.next_pc) {
        Err(e) => Err(e),
        Ok(eff) => {
            psx.cpu.delayed_load();
            if let Some((reg, val)) = eff.write {
                proof { lemma_field_bounds(instr.0); }
                psx.cpu.set_reg(reg, val);
            }
            psx.cpu.current_pc = psx.cpu.pc;
            psx.cpu.pc = psx.cpu.next_pc;
            psx.cpu.next_pc = eff.next_pc;
            psx.cpu.hi = eff.hi;
            psx.cpu.lo = eff.lo;
            Ok(eff.access)
        },
    }
}

// ---------------------------------------------------------------------------
// Properties

/// Register 0 stays zero whatever is written to it; a write to any other
/// register stores the value.
pub proof fn lemma_register_zero(regs: Seq<u32>, r: int, v: u32)
    requires
        regs.len() == 32,
        regs[0] == 0,
        0 <= r < 32,
    ensures
        write_reg(regs, r, v)[0] == 0,
        write_reg(regs, r, v).len() == 32,
        r != 0 ==> write_reg(regs, r, v)[r] == v,
{
}

/// Load delay: once a load of `v` into `r` has been scheduled, the next
/// instruction reads `v` from `r` (its operands are read after the load
/// lands), and `r` still holds `v` after that instruction, unless that
/// instruction writes `r` itself.
pub proof fn lemma_load_delay(regs: Seq<u32>, r: usize, v: u32, write: Option<(usize, u32)>)
    requires
        regs.len() == 32,
        0 < r < 32,
        match write {
            Some((d, _)) => d != r && d < 32,
            None => true,
        },
    ensures
        apply_write(regs, Some((r, v)))[r as int] == v,
        apply_write(apply_write(regs, Some((r, v))), write)[r as int] == v,
{
}

/// Cache behaviour: a line that was never filled misses; after a miss fills
/// a line for `pc`, fetching `pc` again hits; a different word of the same
/// block still misses; and filling the line for another block evicts `pc`.
pub proof fn lemma_icache_fill(pc: u32, pc2: u32)
    ensures
        !info_hits(0, pc),
        info_hits(fill_info(pc), pc),
        tag_of(pc2) == tag_of(pc) && word_of(pc2) != word_of(pc) ==> !info_hits(fill_info(pc), pc2),
        tag_of(pc2) != tag_of(pc) ==> !info_hits(fill_info(pc2), pc),
{
    assert(!(((0u32 >> ((pc >> 2u32) & 3)) & 1) == 1)) by (bit_vector);
    assert(((pc & 0x7fff_f000) | (1u32 << ((pc >> 2u32) & 3))) & 0xffff_f000 == pc & 0x7fff_f000
        && (((((pc & 0x7fff_f000) | (1u32 << ((pc >> 2u32) & 3))) >> ((pc >> 2u32) & 3)) & 1) == 1))
        by (bit_vector);
    assert(((pc2 >> 2u32) & 3) != ((pc >> 2u32) & 3)
        ==> (((((pc & 0x7fff_f000) | (1u32 << ((pc >> 2u32) & 3))) >> ((pc2 >> 2u32) & 3)) & 1) != 1))
        by (bit_vector);
    assert(((pc2 & 0x7fff_f000) | (1u32 << ((pc2 >> 2u32) & 3))) & 0xffff_f000 == pc2 & 0x7fff_f000)
        by (bit_vector);
}

/// Fetch after a miss: once a miss at `pc` has been filled with `word`,
/// fetching `pc` again hits without a bus read; fetching another word of the
/// same block still misses (one bus read); and fetching on that line with
/// another tag misses. Applied with the two addresses swapped, the last
/// clause says that filling the line for another block evicts `pc`.
pub proof fn lemma_fetch_after_fill(before: Psx, after: Psx, word: u32, pc2: u32)
    requires
        before.wf(),
        filled(&before, &after, word),
        uses_cache(&before, before.cpu.pc),
    ensures
        fetch_at(&after, before.cpu.pc) == Fetch::Hit(Instruction(word)),
        cacheable(pc2) && line_of(pc2) == line_of(before.cpu.pc) && tag_of(pc2) == tag_of(before.cpu.pc)
            && word_of(pc2) != word_of(before.cpu.pc) ==> fetch_at(&after, pc2) == Fetch::Miss(spec_mask(pc2)),
        cacheable(pc2) && line_of(pc2) == line_of(before.cpu.pc) && tag_of(pc2) != tag_of(before.cpu.pc)
            ==> fetch_at(&after, pc2) == Fetch::Miss(spec_mask(pc2)),
{
    let pc = before.cpu.pc;
    lemma_cache_index_bounds(pc);
    lemma_icache_fill(pc, pc2);
}

} // verus!
