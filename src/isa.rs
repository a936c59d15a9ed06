use vstd::prelude::*;

use crate::cpu::{spec_funct, spec_imm, spec_jimm, spec_op, spec_rd, spec_rt, spec_shamt, spec_simm, Instruction};
use crate::map::{mask, spec_mask};
use crate::{truncate, BusWidth};

verus! {

// ---------------------------------------------------------------------------
// 32-bit arithmetic

/// Addition modulo 2^32.
pub open spec fn wadd(a: u32, b: u32) -> u32 {
    ((a as int + b as int) % 0x1_0000_0000) as u32
}

/// Subtraction modulo 2^32.
pub open spec fn wsub(a: u32, b: u32) -> u32 {
    ((a as int - b as int) % 0x1_0000_0000) as u32
}

/// A word read as a two's complement signed integer.
pub open spec fn signed(a: u32) -> int {
    if a >= 0x8000_0000 {
        a as int - 0x1_0000_0000
    } else {
        a as int
    }
}

/// The low 32 bits of an integer.
pub open spec fn to_u32(x: int) -> u32 {
    (x % 0x1_0000_0000) as u32
}

pub open spec fn fits_i32(x: int) -> bool {
    -0x8000_0000 <= x < 0x8000_0000
}

/// Arithmetic (sign-filling) shift right.
pub open spec fn spec_sra(a: u32, s: u32) -> u32 {
    if a >= 0x8000_0000 {
        !((!a) >> s)
    } else {
        a >> s
    }
}

pub open spec fn abs(x: int) -> int {
    if x < 0 {
        -x
    } else {
        x
    }
}

/// HI and LO after a multiplication: the high and low halves of the 64-bit product.
pub open spec fn mult_hilo(a: u32, b: u32, is_signed: bool) -> (u32, u32) {
    let p = if is_signed {
        signed(a) * signed(b)
    } else {
        a as int * b as int
    };
    let u = p % 0x1_0000_0000_0000_0000;
    ((u / 0x1_0000_0000) as u32, (u % 0x1_0000_0000) as u32)
}

/// HI (remainder) and LO (quotient) after an unsigned division; division by
/// zero leaves the dividend in HI and all ones in LO.
pub open spec fn divu_hilo(n: u32, d: u32) -> (u32, u32) {
    if d == 0 {
        (n, 0xffff_ffffu32)
    } else {
        ((n % d) as u32, (n / d) as u32)
    }
}

/// HI (remainder) and LO (quotient) after a signed division that rounds
/// toward zero; division by zero leaves the dividend in HI and -1 or 1 in LO.
pub open spec fn div_hilo(n: u32, d: u32) -> (u32, u32) {
    let sn = signed(n);
    let sd = signed(d);
    if d == 0 {
        (n, if sn >= 0 { 0xffff_ffffu32 } else { 1u32 })
    } else {
        let q = abs(sn) / abs(sd);
        let r = abs(sn) % abs(sd);
        let quo = if (sn < 0) != (sd < 0) { -q } else { q };
        let rem = if sn < 0 { -r } else { r };
        (to_u32(rem), to_u32(quo))
    }
}

// ---------------------------------------------------------------------------
// Outcomes of one instruction

/// A fault raised by an instruction. The CPU state is left as it was.
#[derive(Clone, Copy, Debug, PartialEq, Eq, Structural)]
pub enum CpuError {
    /// No handler for this instruction word.
    ReservedInstruction(u32),
    /// Signed overflow in one of the trapping arithmetic forms.
    Overflow,
    /// A load or store address not aligned to its width.
    AddressError { addr: u32, store: bool },
    Syscall,
    Break,
}

/// A bus access that an instruction asks for.
#[derive(Clone, Copy, Debug, PartialEq, Eq, Structural)]
pub enum MemAccess {
    NoAccess,
    /// Read `width` bytes at the physical address `addr`, then hand the value
    /// to `Cpu::complete_load`; it lands in `reg` one instruction later.
    Load { addr: u32, width: BusWidth, reg: usize, signed: bool },
    /// Write the low `width` bytes of `value` at the physical address `addr`.
    Store { addr: u32, width: BusWidth, value: u32 },
}

/// What one instruction does to the CPU, given the values it reads.
#[derive(Clone, Copy)]
pub struct Effect {
    /// Register written at once, if any.
    pub write: Option<(usize, u32)>,
    pub hi: u32,
    pub lo: u32,
    /// Address of the instruction after the delay slot.
    pub next_pc: u32,
    pub access: MemAccess,
}

pub open spec fn aligned(addr: u32, width: BusWidth) -> bool {
    match width {
        BusWidth::Byte => true,
        BusWidth::Word => addr & 1 == 0,
        BusWidth::DoubleWord => addr & 3 == 0,
    }
}

/// A value loaded with `width`, zero- or sign-extended to 32 bits.
pub open spec fn extend(v: u32, width: BusWidth, is_signed: bool) -> u32 {
    match width {
        BusWidth::Byte => if is_signed && v & 0x80 != 0 {
            (v & 0xff) | 0xffff_ff00
        } else {
            v & 0xff
        },
        BusWidth::Word => if is_signed && v & 0x8000 != 0 {
            (v & 0xffff) | 0xffff_0000
        } else {
            v & 0xffff
        },
        BusWidth::DoubleWord => v,
    }
}

pub open spec fn write_to(r: usize, v: u32, hi: u32, lo: u32, pc: u32) -> Result<Effect, CpuError> {
    Ok(Effect { write: Some((r, v)), hi, lo, next_pc: wadd(pc, 4), access: MemAccess::NoAccess })
}

pub open spec fn set_hilo(hi: u32, lo: u32, pc: u32) -> Result<Effect, CpuError> {
    Ok(Effect { write: None, hi, lo, next_pc: wadd(pc, 4), access: MemAccess::NoAccess })
}

pub open spec fn jump(write: Option<(usize, u32)>, target: u32, hi: u32, lo: u32) -> Result<Effect, CpuError> {
    Ok(Effect { write, hi, lo, next_pc: target, access: MemAccess::NoAccess })
}

/// Target of a relative branch: the delay slot address plus the word offset.
pub open spec fn branch_target(w: u32, pc: u32, taken: bool) -> u32 {
    if taken {
        wadd(pc, spec_simm(w) << 2u32)
    } else {
        wadd(pc, 4)
    }
}

pub open spec fn load(w: u32, a: u32, width: BusWidth, is_signed: bool, hi: u32, lo: u32, pc: u32) -> Result<Effect, CpuError> {
    let addr = wadd(a, spec_simm(w));
    if aligned(addr, width) {
        Ok(Effect {
            write: None,
            hi,
            lo,
            next_pc: wadd(pc, 4),
            access: MemAccess::Load { addr: spec_mask(addr), width, reg: spec_rt(w), signed: is_signed },
        })
    } else {
        Err(CpuError::AddressError { addr, store: false })
    }
}

pub open spec fn store(w: u32, a: u32, b: u32, width: BusWidth, hi: u32, lo: u32, pc: u32) -> Result<Effect, CpuError> {
    let addr = wadd(a, spec_simm(w));
    if aligned(addr, width) {
        Ok(Effect {
            write: None,
            hi,
            lo,
            next_pc: wadd(pc, 4),
            access: MemAccess::Store { addr: spec_mask(addr), width, value: truncate(b, width.spec_bytes()) },
        })
    } else {
        Err(CpuError::AddressError { addr, store: true })
    }
}

/// Register-format instructions (primary opcode 0), selected by the function field.
pub open spec fn special_effect(w: u32, a: u32, b: u32, hi: u32, lo: u32, pc: u32) -> Result<Effect, CpuError> {
    let f = spec_funct(w);
    let rd = spec_rd(w);
    let sh = spec_shamt(w);
    if f == 0x00 {
        write_to(rd, b << sh, hi, lo, pc)
    } else if f == 0x02 {
        write_to(rd, b >> sh, hi, lo, pc)
    } else if f == 0x03 {
        write_to(rd, spec_sra(b, sh), hi, lo, pc)
    } else if f == 0x04 {
        write_to(rd, b << (a & 0x1f), hi, lo, pc)
    } else if f == 0x06 {
        write_to(rd, b >> (a & 0x1f), hi, lo, pc)
    } else if f == 0x07 {
        write_to(rd, spec_sra(b, a & 0x1f), hi, lo, pc)
    } else if f == 0x08 {
        jump(None, a, hi, lo)
    } else if f == 0x09 {
        jump(Some((rd, wadd(pc, 4))), a, hi, lo)
    } else if f == 0x0c {
        Err(CpuError::Syscall)
    } else if f == 0x0d {
        Err(CpuError::Break)
    } else if f == 0x10 {
        write_to(rd, hi, hi, lo, pc)
    } else if f == 0x11 {
        set_hilo(a, lo, pc)
    } else if f == 0x12 {
        write_to(rd, lo, hi, lo, pc)
    } else if f == 0x13 {
        set_hilo(hi, a, pc)
    } else if f == 0x18 {
        set_hilo(mult_hilo(a, b, true).0, mult_hilo(a, b, true).1, pc)
    } else if f == 0x19 {
        set_hilo(mult_hilo(a, b, false).0, mult_hilo(a, b, false).1, pc)
    } else if f == 0x1a {
        set_hilo(div_hilo(a, b).0, div_hilo(a, b).1, pc)
    } else if f == 0x1b {
        set_hilo(divu_hilo(a, b).0, divu_hilo(a, b).1, pc)
    } else if f == 0x20 {
        if fits_i32(signed(a) + signed(b)) {
            write_to(rd, wadd(a, b), hi, lo, pc)
        } else {
            Err(CpuError::Overflow)
        }
    } else if f == 0x21 {
        write_to(rd, wadd(a, b), hi, lo, pc)
    } else if f == 0x22 {
        if fits_i32(signed(a) - signed(b)) {
            write_to(rd, wsub(a, b), hi, lo, pc)
        } else {
            Err(CpuError::Overflow)
        }
    } else if f == 0x23 {
        write_to(rd, wsub(a, b), hi, lo, pc)
    } else if f == 0x24 {
        write_to(rd, a & b, hi, lo, pc)
    } else if f == 0x25 {
        write_to(rd, a | b, hi, lo, pc)
    } else if f == 0x26 {
        write_to(rd, a ^ b, hi, lo, pc)
    } else if f == 0x27 {
        write_to(rd, !(a | b), hi, lo, pc)
    } else if f == 0x2a {
        write_to(rd, if signed(a) < signed(b) { 1u32 } else { 0u32 }, hi, lo, pc)
    } else if f == 0x2b {
        write_to(rd, if a < b { 1u32 } else { 0u32 }, hi, lo, pc)
    } else {
        Err(CpuError::ReservedInstruction(w))
    }
}

/// What the instruction `w` does, where `a` and `b` are the values of its `rs`
/// and `rt` registers and `pc` is the address of its delay slot.
pub open spec fn effect(w: u32, a: u32, b: u32, hi: u32, lo: u32, pc: u32) -> Result<Effect, CpuError> {
    let op = spec_op(w);
    let rt = spec_rt(w);
    let si = spec_simm(w);
    let zi = spec_imm(w);
    if op == 0x00 {
        special_effect(w, a, b, hi, lo, pc)
    } else if op == 0x01 {
        let taken = if rt & 1 == 1 { signed(a) >= 0 } else { signed(a) < 0 };
        let link = if rt & 0x1e == 0x10 { Some((31usize, wadd(pc, 4))) } else { None };
        jump(link, branch_target(w, pc, taken), hi, lo)
    } else if op == 0x02 {
        jump(None, (pc & 0xf000_0000) | spec_jimm(w), hi, lo)
    } else if op == 0x03 {
        jump(Some((31usize, wadd(pc, 4))), (pc & 0xf000_0000) | spec_jimm(w), hi, lo)
    } else if op == 0x04 {
        jump(None, branch_target(w, pc, a == b), hi, lo)
    } else if op == 0x05 {
        jump(None, branch_target(w, pc, a != b), hi, lo)
    } else if op == 0x06 {
        jump(None, branch_target(w, pc, signed(a) <= 0), hi, lo)
    } else if op == 0x07 {
        jump(None, branch_target(w, pc, signed(a) > 0), hi, lo)
    } else if op == 0x08 {
        if fits_i32(signed(a) + signed(si)) {
            write_to(rt, wadd(a, si), hi, lo, pc)
        } else {
            Err(CpuError::Overflow)
        }
    } else if op == 0x09 {
        write_to(rt, wadd(a, si), hi, lo, pc)
    } else if op == 0x0a {
        write_to(rt, if signed(a) < signed(si) { 1u32 } else { 0u32 }, hi, lo, pc)
    } else if op == 0x0b {
        write_to(rt, if a < si { 1u32 } else { 0u32 }, hi, lo, pc)
    } else if op == 0x0c {
        write_to(rt, a & zi, hi, lo, pc)
    } else if op == 0x0d {
        write_to(rt, a | zi, hi, lo, pc)
    } else if op == 0x0e {
        write_to(rt, a ^ zi, hi, lo, pc)
    } else if op == 0x0f {
        write_to(rt, zi << 16u32, hi, lo, pc)
    } else if op == 0x20 {
        load(w, a, BusWidth::Byte, true, hi, lo, pc)
    } else if op == 0x21 {
        load(w, a, BusWidth::Word, true, hi, lo, pc)
    } else if op == 0x23 {
        load(w, a, BusWidth::DoubleWord, false, hi, lo, pc)
    } else if op == 0x24 {
        load(w, a, BusWidth::Byte, false, hi, lo, pc)
    } else if op == 0x25 {
        load(w, a, BusWidth::Word, false, hi, lo, pc)
    } else if op == 0x28 {
        store(w, a, b, BusWidth::Byte, hi, lo, pc)
    } else if op == 0x29 {
        store(w, a, b, BusWidth::Word, hi, lo, pc)
    } else if op == 0x2b {
        store(w, a, b, BusWidth::DoubleWord, hi, lo, pc)
    } else {
        Err(CpuError::ReservedInstruction(w))
    }
}

// ---------------------------------------------------------------------------
// Execution

fn add_wrapping(a: u32, b: u32) -> (r: u32)
    ensures
        r == wadd(a, b),
{
    a.wrapping_add(b)
}

fn sub_wrapping(a: u32, b: u32) -> (r: u32)
    ensures
        r == wsub(a, b),
{
    a.wrapping_sub(b)
}

fn to_signed(a: u32) -> (r: i64)
    ensures
        r == signed(a),
{
    if a >= 0x8000_0000 {
        a as i64 - 0x1_0000_0000
    } else {
        a as i64
    }
}

fn sra(a: u32, s: u32) -> (r: u32)
    requires
        s < 32,
    ensures
        r == spec_sra(a, s),
{
    if a >= 0x8000_0000 {
        !((!a) >> s)
    } else {
        a >> s
    }
}

fn mult(a: u32, b: u32, is_signed: bool) -> (r: (u32, u32))
    ensures
        r == mult_hilo(a, b, is_signed),
{
    let p: i128 = if is_signed {
        let sa = to_signed(a);
        let sb = to_signed(b);
        assert(-0x4000_0000_0000_0000 <= sa * sb <= 0x4000_0000_0000_0000) by (nonlinear_arith)
            requires
                -0x8000_0000 <= sa < 0x8000_0000,
                -0x8000_0000 <= sb < 0x8000_0000,
        ;
        (sa as i128) * (sb as i128)
    } else {
        assert(0 <= (a as int) * (b as int) < 0x1_0000_0000_0000_0000) by (nonlinear_arith)
            requires
                a < 0x1_0000_0000,
                b < 0x1_0000_0000,
        ;
        (a as i128) * (b as i128)
    };
    assert(-0x4000_0000_0000_0000 <= p < 0x1_0000_0000_0000_0000) by (nonlinear_arith)
        requires
            is_signed ==> p == signed(a) * signed(b),
            !is_signed ==> p == a as int * b as int,
            -0x8000_0000 <= signed(a) < 0x8000_0000,
            -0x8000_0000 <= signed(b) < 0x8000_0000,
            a < 0x1_0000_0000,
            b < 0x1_0000_0000,
    ;
    let u: i128 = if p < 0 { p + 0x1_0000_0000_0000_0000 } else { p };
    assert(u == p % 0x1_0000_0000_0000_0000);
    (((u / 0x1_0000_0000) as u32), ((u % 0x1_0000_0000) as u32))
}

fn divu(n: u32, d: u32) -> (r: (u32, u32))
    ensures
        r == divu_hilo(n, d),
{
    if d == 0 {
        (n, 0xffff_ffff)
    } else {
        (n % d, n / d)
    }
}

fn magnitude(a: u32) -> (r: u32)
    ensures
        r == abs(signed(a)),
{
    if a >= 0x8000_0000 {
        0u32.wrapping_sub(a)
    } else {
        a
    }
}

fn negate_if(x: u32, neg: bool) -> (r: u32)
    ensures
        r == to_u32(if neg { -(x as int) } else { x as int }),
{
    if neg {
        0u32.wrapping_sub(x)
    } else {
        x
    }
}

fn div(n: u32, d: u32) -> (r: (u32, u32))
    ensures
        r == div_hilo(n, d),
{
    if d == 0 {
        (n, if n < 0x8000_0000 { 0xffff_ffff } else { 1 })
    } else {
        let un = magnitude(n);
        let ud = magnitude(d);
        let q = un / ud;
        let rem = un % ud;
        let nneg = n >= 0x8000_0000;
        let dneg = d >= 0x8000_0000;
        (negate_if(rem, nneg), negate_if(q, nneg != dneg))
    }
}

fn aligned_exec(addr: u32, width: BusWidth) -> (r: bool)
    ensures
        r == aligned(addr, width),
{
    match width {
        BusWidth::Byte => true,
        BusWidth::Word => addr & 1 == 0,
        BusWidth::DoubleWord => addr & 3 == 0,
    }
}

fn truncate_exec(v: u32, width: BusWidth) -> (r: u32)
    ensures
        r == truncate(v, width.spec_bytes()),
{
    match width {
        BusWidth::Byte => v & 0xff,
        BusWidth::Word => v & 0xffff,
        BusWidth::DoubleWord => v,
    }
}

/// Zero- or sign-extend a value loaded with `width`.
pub fn extend_exec(v: u32, width: BusWidth, is_signed: bool) -> (r: u32)
    ensures
        r == extend(v, width, is_signed),
{
    match width {
        BusWidth::Byte => if is_signed && v & 0x80 != 0 {
            (v & 0xff) | 0xffff_ff00
        } else {
            v & 0xff
        },
        BusWidth::Word => if is_signed && v & 0x8000 != 0 {
            (v & 0xffff) | 0xffff_0000
        } else {
            v & 0xffff
        },
        BusWidth::DoubleWord => v,
    }
}

fn write_effect(r: usize, v: u32, hi: u32, lo: u32, pc: u32) -> (e: Result<Effect, CpuError>)
    ensures
        e == write_to(r, v, hi, lo, pc),
{
    Ok(Effect { write: Some((r, v)), hi, lo, next_pc: add_wrapping(pc, 4), access: MemAccess::NoAccess })
}

fn hilo_effect(hi: u32, lo: u32, pc: u32) -> (e: Result<Effect, CpuError>)
    ensures
        e == set_hilo(hi, lo, pc),
{
    Ok(Effect { write: None, hi, lo, next_pc: add_wrapping(pc, 4), access: MemAccess::NoAccess })
}

fn branch_exec(instr: Instruction, pc: u32, taken: bool) -> (r: u32)
    ensures
        r == branch_target(instr.0, pc, taken),
{
    if taken {
        add_wrapping(pc, instr.simm() << 2u32)
    } else {
        add_wrapping(pc, 4)
    }
}

fn load_effect(instr: Instruction, a: u32, width: BusWidth, is_signed: bool, hi: u32, lo: u32, pc: u32) -> (e: Result<Effect, CpuError>)
    ensures
        e == load(instr.0, a, width, is_signed, hi, lo, pc),
{
    let addr = add_wrapping(a, instr.simm());
    if aligned_exec(addr, width) {
        Ok(Effect {
            write: None,
            hi,
            lo,
            next_pc: add_wrapping(pc, 4),
            access: MemAccess::Load { addr: mask(addr), width, reg: instr.rt(), signed: is_signed },
        })
    } else {
        Err(CpuError::AddressError { addr, store: false })
    }
}

fn store_effect(instr: Instruction, a: u32, b: u32, width: BusWidth, hi: u32, lo: u32, pc: u32) -> (e: Result<Effect, CpuError>)
    ensures
        e == store(instr.0, a, b, width, hi, lo, pc),
{
    let addr = add_wrapping(a, instr.simm());
    if aligned_exec(addr, width) {
        Ok(Effect {
            write: None,
            hi,
            lo,
            next_pc: add_wrapping(pc, 4),
            access: MemAccess::Store { addr: mask(addr), width, value: truncate_exec(b, width) },
        })
    } else {
        Err(CpuError::AddressError { addr, store: true })
    }
}

fn execute_special(instr: Instruction, a: u32, b: u32, hi: u32, lo: u32, pc: u32) -> (r: Result<Effect, CpuError>)
    ensures
        r == special_effect(instr.0, a, b, hi, lo, pc),
{
    let f = instr.funct();
    let rd = instr.rd();
    let sh = instr.shmat();
    let sv = a & 0x1f;
    assert(sv < 32) by (bit_vector)
        requires
            sv == a & 0x1f,
    ;
    if f == 0x00 {
        write_effect(rd, b << sh, hi, lo, pc)
    } else if f == 0x02 {
        write_effect(rd, b >> sh, hi, lo, pc)
    } else if f == 0x03 {
        write_effect(rd, sra(b, sh), hi, lo, pc)
    } else if f == 0x04 {
        write_effect(rd, b << sv, hi, lo, pc)
    } else if f == 0x06 {
        write_effect(rd, b >> sv, hi, lo, pc)
    } else if f == 0x07 {
        write_effect(rd, sra(b, sv), hi, lo, pc)
    } else if f == 0x08 {
        Ok(Effect { write: None, hi, lo, next_pc: a, access: MemAccess::NoAccess })
    } else if f == 0x09 {
        Ok(Effect { write: Some((rd, add_wrapping(pc, 4))), hi, lo, next_pc: a, access: MemAccess::NoAccess })
    } else if f == 0x0c {
        Err(CpuError::Syscall)
    } else if f == 0x0d {
        Err(CpuError::Break)
    } else if f == 0x10 {
        write_effect(rd, hi, hi, lo, pc)
    } else if f == 0x11 {
        hilo_effect(a, lo, pc)
    } else if f == 0x12 {
        write_effect(rd, lo, hi, lo, pc)
    } else if f == 0x13 {
        hilo_effect(hi, a, pc)
    } else if f == 0x18 {
        let (h, l) = mult(a, b, true);
        hilo_effect(h, l, pc)
    } else if f == 0x19 {
        let (h, l) = mult(a, b, false);
        hilo_effect(h, l, pc)
    } else if f == 0x1a {
        let (h, l) = div(a, b);
        hilo_effect(h, l, pc)
    } else if f == 0x1b {
        let (h, l) = divu(a, b);
        hilo_effect(h, l, pc)
    } else if f == 0x20 {
        let sum = to_signed(a) + to_signed(b);
        if -0x8000_0000 <= sum && sum < 0x8000_0000 {
            write_effect(rd, add_wrapping(a, b), hi, lo, pc)
        } else {
            Err(CpuError::Overflow)
        }
    } else if f == 0x21 {
        write_effect(rd, add_wrapping(a, b), hi, lo, pc)
    } else if f == 0x22 {
        let diff = to_signed(a) - to_signed(b);
        if -0x8000_0000 <= diff && diff < 0x8000_0000 {
            write_effect(rd, sub_wrapping(a, b), hi, lo, pc)
        } else {
            Err(CpuError::Overflow)
        }
    } else if f == 0x23 {
        write_effect(rd, sub_wrapping(a, b), hi, lo, pc)
    } else if f == 0x24 {
        write_effect(rd, a & b, hi, lo, pc)
    } else if f == 0x25 {
        write_effect(rd, a | b, hi, lo, pc)
    } else if f == 0x26 {
        write_effect(rd, a ^ b, hi, lo, pc)
    } else if f == 0x27 {
        write_effect(rd, !(a | b), hi, lo, pc)
    } else if f == 0x2a {
        write_effect(rd, if to_signed(a) < to_signed(b) { 1 } else { 0 }, hi, lo, pc)
    } else if f == 0x2b {
        write_effect(rd, if a < b { 1 } else { 0 }, hi, lo, pc)
    } else {
        Err(CpuError::ReservedInstruction(instr.0))
    }
}

/// Compute what `instr` does, given the values `a` and `b` of its `rs` and
/// `rt` registers, HI and LO, and the address `pc` of its delay slot.
pub fn execute(instr: Instruction, a: u32, b: u32, hi: u32, lo: u32, pc: u32) -> (r: Result<Effect, CpuError>)
    ensures
        r == effect(instr.0, a, b, hi, lo, pc),
{
    let op = instr.op();
    let rt = instr.rt();
    let si = instr.simm();
    let zi = instr.imm();
    if op == 0x00 {
        execute_special(instr, a, b, hi, lo, pc)
    } else if op == 0x01 {
        let taken = if rt & 1 == 1 { to_signed(a) >= 0 } else { to_signed(a) < 0 };
        let link = if rt & 0x1e == 0x10 { Some((31usize, add_wrapping(pc, 4))) } else { None };
        Ok(Effect { write: link, hi, lo, next_pc: branch_exec(instr, pc, taken), access: MemAccess::NoAccess })
    } else if op == 0x02 {
        Ok(Effect { write: None, hi, lo, next_pc: (pc & 0xf000_0000) | instr.jimm(), access: MemAccess::NoAccess })
    } else if op == 0x03 {
        Ok(Effect {
            write: Some((31usize, add_wrapping(pc, 4))),
            hi,
            lo,
            next_pc: (pc & 0xf000_0000) | instr.jimm(),
            access: MemAccess::NoAccess,
        })
    } else if op == 0x04 {
        Ok(Effect { write: None, hi, lo, next_pc: branch_exec(instr, pc, a == b), access: MemAccess::NoAccess })
    } else if op == 0x05 {
        Ok(Effect { write: None, hi, lo, next_pc: branch_exec(instr, pc, a != b), access: MemAccess::NoAccess })
    } else if op == 0x06 {
        Ok(Effect { write: None, hi, lo, next_pc: branch_exec(instr, pc, to_signed(a) <= 0), access: MemAccess::NoAccess })
    } else if op == 0x07 {
        Ok(Effect { write: None, hi, lo, next_pc: branch_exec(instr, pc, to_signed(a) > 0), access: MemAccess::NoAccess })
    } else if op == 0x08 {
        let sum = to_signed(a) + to_signed(si);
        if -0x8000_0000 <= sum && sum < 0x8000_0000 {
            write_effect(rt, add_wrapping(a, si), hi, lo, pc)
        } else {
            Err(CpuError::Overflow)
        }
    } else if op == 0x09 {
        write_effect(rt, add_wrapping(a, si), hi, lo, pc)
    } else if op == 0x0a {
        write_effect(rt, if to_signed(a) < to_signed(si) { 1 } else { 0 }, hi, lo, pc)
    } else if op == 0x0b {
        write_effect(rt, if a < si { 1 } else { 0 }, hi, lo, pc)
    } else if op == 0x0c {
        write_effect(rt, a & zi, hi, lo, pc)
    } else if op == 0x0d {
        write_effect(rt, a | zi, hi, lo, pc)
    } else if op == 0x0e {
        write_effect(rt, a ^ zi, hi, lo, pc)
    } else if op == 0x0f {
        write_effect(rt, zi << 16u32, hi, lo, pc)
    } else if op == 0x20 {
        load_effect(instr, a, BusWidth::Byte, true, hi, lo, pc)
    } else if op == 0x21 {
        load_effect(instr, a, BusWidth::Word, true, hi, lo, pc)
    } else if op == 0x23 {
        load_effect(instr, a, BusWidth::DoubleWord, false, hi, lo, pc)
    } else if op == 0x24 {
        load_effect(instr, a, BusWidth::Byte, false, hi, lo, pc)
    } else if op == 0x25 {
        load_effect(instr, a, BusWidth::Word, false, hi, lo, pc)
    } else if op == 0x28 {
        store_effect(instr, a, b, BusWidth::Byte, hi, lo, pc)
    } else if op == 0x29 {
        store_effect(instr, a, b, BusWidth::Word, hi, lo, pc)
    } else if op == 0x2b {
        store_effect(instr, a, b, BusWidth::DoubleWord, hi, lo, pc)
    } else {
        Err(CpuError::ReservedInstruction(instr.0))
    }
}

// ---------------------------------------------------------------------------
// Properties

/// NOR writes the complement of the bitwise OR of its operands to `rd`.
pub proof fn lemma_nor(w: u32, a: u32, b: u32, hi: u32, lo: u32, pc: u32)
    requires
        spec_op(w) == 0,
        spec_funct(w) == 0x27,
    ensures
        effect(w, a, b, hi, lo, pc) == write_to(spec_rd(w), !(a | b), hi, lo, pc),
        !(a | b) == !a & !b,
{
    assert(!(a | b) == !a & !b) by (bit_vector);
}

} // verus!
