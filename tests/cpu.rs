use psx::cpu::{fetch_instruction, fill_instruction, step, Fetch, ICacheLine, Instruction, RESET_PC};
use psx::isa::{CpuError, MemAccess};
use psx::map::mask;
use psx::{BusWidth, Psx};

fn r_type(funct: u32, rs: u32, rt: u32, rd: u32, sh: u32) -> Instruction {
    Instruction::new((rs << 21) | (rt << 16) | (rd << 11) | (sh << 6) | funct)
}

fn i_type(op: u32, rs: u32, rt: u32, imm: u32) -> Instruction {
    Instruction::new((op << 26) | (rs << 21) | (rt << 16) | (imm & 0xffff))
}

fn with_regs(vals: &[(usize, u32)]) -> Psx {
    let mut psx = Psx::new();
    for &(r, v) in vals {
        psx.cpu.set_reg(r, v);
    }
    psx
}

fn run_alu(funct: u32, a: u32, b: u32) -> Result<u32, CpuError> {
    let mut psx = with_regs(&[(1, a), (2, b)]);
    step(&mut psx, r_type(funct, 1, 2, 3, 0))?;
    Ok(psx.cpu.regs[3])
}

#[test]
fn register_zero_stays_zero() {
    let mut psx = Psx::new();
    psx.cpu.set_reg(0, 0xdead_beef);
    assert_eq!(psx.cpu.reg(0), 0);
    psx.cpu.set_reg(5, 0xdead_beef);
    assert_eq!(psx.cpu.reg(5), 0xdead_beef);
    // An instruction that targets r0 leaves it zero as well.
    let mut psx = with_regs(&[(1, 7)]);
    step(&mut psx, i_type(0x09, 1, 0, 5)).unwrap();
    assert_eq!(psx.cpu.regs[0], 0);
}

#[test]
fn addu_wraps_without_fault() {
    assert_eq!(run_alu(0x21, 0xFFFF_FFFF, 1), Ok(0));
}

#[test]
fn subu_wraps() {
    assert_eq!(run_alu(0x23, 0, 1), Ok(0xFFFF_FFFF));
}

#[test]
fn slt_signed_and_sltu_unsigned() {
    assert_eq!(run_alu(0x2a, 0xFFFF_FFFF, 1), Ok(1));
    assert_eq!(run_alu(0x2b, 0xFFFF_FFFF, 1), Ok(0));
}

#[test]
fn nor_is_complement_of_or() {
    let pairs = [(0u32, 0u32), (0xF0F0_0000, 0x0000_0F0F), (0xFFFF_FFFF, 0x1234_5678), (0x8000_0001, 0x0000_0010)];
    for &(a, b) in pairs.iter() {
        assert_eq!(run_alu(0x27, a, b), Ok(!(a | b)));
    }
    assert_eq!(run_alu(0x27, 0xF0F0_0000, 0x0000_0F0F), Ok(0x0F0F_F0F0));
}

#[test]
fn bitwise_ops() {
    assert_eq!(run_alu(0x24, 0xFF00_FF00, 0x0FF0_0FF0), Ok(0x0F00_0F00));
    assert_eq!(run_alu(0x25, 0xFF00_0000, 0x0000_00FF), Ok(0xFF00_00FF));
    assert_eq!(run_alu(0x26, 0xFFFF_0000, 0xFF00_FF00), Ok(0x00FF_FF00));
}

#[test]
fn trapping_add_and_sub() {
    assert_eq!(run_alu(0x20, 0x7FFF_FFFF, 1), Err(CpuError::Overflow));
    assert_eq!(run_alu(0x20, 0xFFFF_FFFF, 1), Ok(0));
    assert_eq!(run_alu(0x22, 0x8000_0000, 1), Err(CpuError::Overflow));
    assert_eq!(run_alu(0x22, 5, 7), Ok(0xFFFF_FFFE));
    let mut psx = with_regs(&[(1, 0x7FFF_FFFF)]);
    assert_eq!(step(&mut psx, i_type(0x08, 1, 2, 1)), Err(CpuError::Overflow));
}

#[test]
fn fault_leaves_state_unchanged() {
    let mut psx = with_regs(&[(1, 0x7FFF_FFFF), (2, 1)]);
    psx.cpu.complete_load(4, BusWidth::DoubleWord, false, 99);
    let pc = psx.cpu.pc;
    assert_eq!(step(&mut psx, r_type(0x20, 1, 2, 3, 0)), Err(CpuError::Overflow));
    assert_eq!(psx.cpu.pc, pc);
    assert_eq!(psx.cpu.regs[4], 0);
    assert_eq!(psx.cpu.delayed_load, Some((4, 99)));
}

#[test]
fn reserved_syscall_break() {
    let w = 0xFC00_0000u32;
    let mut psx = Psx::new();
    assert_eq!(step(&mut psx, Instruction::new(w)), Err(CpuError::ReservedInstruction(w)));
    assert_eq!(step(&mut psx, r_type(0x3f, 0, 0, 0, 0)), Err(CpuError::ReservedInstruction(0x3f)));
    assert_eq!(step(&mut psx, r_type(0x0c, 0, 0, 0, 0)), Err(CpuError::Syscall));
    assert_eq!(step(&mut psx, r_type(0x0d, 0, 0, 0, 0)), Err(CpuError::Break));
}

#[test]
fn shifts() {
    let mut psx = with_regs(&[(2, 0x8000_00F0)]);
    step(&mut psx, r_type(0x00, 0, 2, 3, 4)).unwrap();
    assert_eq!(psx.cpu.regs[3], 0x0000_0F00);
    step(&mut psx, r_type(0x02, 0, 2, 3, 4)).unwrap();
    assert_eq!(psx.cpu.regs[3], 0x0800_000F);
    step(&mut psx, r_type(0x03, 0, 2, 3, 4)).unwrap();
    assert_eq!(psx.cpu.regs[3], 0xF800_000F);
    psx.cpu.set_reg(1, 0x24);
    step(&mut psx, r_type(0x07, 1, 2, 3, 0)).unwrap();
    assert_eq!(psx.cpu.regs[3], 0xF800_000F);
    step(&mut psx, r_type(0x04, 1, 2, 3, 0)).unwrap();
    assert_eq!(psx.cpu.regs[3], 0x0000_0F00);
    step(&mut psx, r_type(0x06, 1, 2, 3, 0)).unwrap();
    assert_eq!(psx.cpu.regs[3], 0x0800_000F);
}

#[test]
fn immediates() {
    let mut psx = with_regs(&[(1, 0x0000_00F0)]);
    step(&mut psx, i_type(0x09, 1, 2, 0xFFFF)).unwrap();
    assert_eq!(psx.cpu.regs[2], 0xEF);
    step(&mut psx, i_type(0x0d, 1, 2, 0xFF0F)).unwrap();
    assert_eq!(psx.cpu.regs[2], 0xFFFF);
    step(&mut psx, i_type(0x0e, 1, 2, 0x00FF)).unwrap();
    assert_eq!(psx.cpu.regs[2], 0x0F);
    step(&mut psx, i_type(0x0c, 1, 2, 0x0030)).unwrap();
    assert_eq!(psx.cpu.regs[2], 0x30);
    step(&mut psx, i_type(0x0f, 0, 2, 0x1234)).unwrap();
    assert_eq!(psx.cpu.regs[2], 0x1234_0000);
    // sltiu compares against the sign-extended immediate as unsigned.
    step(&mut psx, i_type(0x0b, 1, 2, 0xFFFF)).unwrap();
    assert_eq!(psx.cpu.regs[2], 1);
    step(&mut psx, i_type(0x0a, 1, 2, 0xFFFF)).unwrap();
    assert_eq!(psx.cpu.regs[2], 0);
}

#[test]
fn multiply_and_divide() {
    let mut psx = with_regs(&[(1, 0xFFFF_FFFF), (2, 2)]);
    step(&mut psx, r_type(0x19, 1, 2, 0, 0)).unwrap();
    assert_eq!((psx.cpu.hi, psx.cpu.lo), (1, 0xFFFF_FFFE));
    step(&mut psx, r_type(0x18, 1, 2, 0, 0)).unwrap();
    assert_eq!((psx.cpu.hi, psx.cpu.lo), (0xFFFF_FFFF, 0xFFFF_FFFE));
    step(&mut psx, r_type(0x10, 0, 0, 3, 0)).unwrap();
    step(&mut psx, r_type(0x12, 0, 0, 4, 0)).unwrap();
    assert_eq!((psx.cpu.regs[3], psx.cpu.regs[4]), (0xFFFF_FFFF, 0xFFFF_FFFE));

    let mut psx = with_regs(&[(1, 0xFFFF_FFF9), (2, 2)]);
    step(&mut psx, r_type(0x1a, 1, 2, 0, 0)).unwrap();
    assert_eq!((psx.cpu.hi, psx.cpu.lo), (0xFFFF_FFFF, 0xFFFF_FFFD));
    step(&mut psx, r_type(0x1b, 1, 2, 0, 0)).unwrap();
    assert_eq!((psx.cpu.hi, psx.cpu.lo), (1, 0x7FFF_FFFC));

    let mut psx = with_regs(&[(1, 7)]);
    step(&mut psx, r_type(0x1b, 1, 2, 0, 0)).unwrap();
    assert_eq!((psx.cpu.hi, psx.cpu.lo), (7, 0xFFFF_FFFF));
    step(&mut psx, r_type(0x1a, 1, 2, 0, 0)).unwrap();
    assert_eq!((psx.cpu.hi, psx.cpu.lo), (7, 0xFFFF_FFFF));
    psx.cpu.set_reg(1, 0x8000_0000);
    step(&mut psx, r_type(0x1a, 1, 2, 0, 0)).unwrap();
    assert_eq!((psx.cpu.hi, psx.cpu.lo), (0x8000_0000, 1));
    psx.cpu.set_reg(2, 0xFFFF_FFFF);
    step(&mut psx, r_type(0x1a, 1, 2, 0, 0)).unwrap();
    assert_eq!((psx.cpu.hi, psx.cpu.lo), (0, 0x8000_0000));
    psx.cpu.set_reg(5, 0x55);
    step(&mut psx, r_type(0x11, 5, 0, 0, 0)).unwrap();
    step(&mut psx, r_type(0x13, 5, 0, 0, 0)).unwrap();
    assert_eq!((psx.cpu.hi, psx.cpu.lo), (0x55, 0x55));
}

#[test]
fn delayed_load_ordering() {
    let mut psx = with_regs(&[(4, 0x11)]);
    // A load of 0x99 into r4, issued by the previous instruction.
    psx.cpu.complete_load(4, BusWidth::DoubleWord, false, 0x99);
    // Until the next step it has not landed.
    assert_eq!(psx.cpu.regs[4], 0x11);
    // The next instruction sees the loaded value.
    step(&mut psx, r_type(0x21, 4, 0, 5, 0)).unwrap();
    assert_eq!(psx.cpu.regs[5], 0x99);
    assert_eq!(psx.cpu.regs[4], 0x99);
    assert_eq!(psx.cpu.delayed_load, None);
    // addu $10, $9, $0 right after a load into $9.
    let mut psx = with_regs(&[(9, 7)]);
    psx.cpu.complete_load(9, BusWidth::DoubleWord, false, 0xABCD);
    step(&mut psx, Instruction::new(0x0120_5021)).unwrap();
    assert_eq!(psx.cpu.regs[10], 0xABCD);
    assert_eq!(psx.cpu.regs[9], 0xABCD);
}

#[test]
fn own_write_follows_delayed_load() {
    // The instruction's own result is written after the load lands.
    let mut psx = with_regs(&[(1, 3)]);
    psx.cpu.complete_load(4, BusWidth::DoubleWord, false, 0x99);
    step(&mut psx, i_type(0x09, 1, 4, 1)).unwrap();
    assert_eq!(psx.cpu.regs[4], 4);
}

#[test]
fn newer_delayed_load_replaces_older() {
    let mut psx = Psx::new();
    psx.cpu.schedule_delayed_load(4, 1);
    psx.cpu.schedule_delayed_load(5, 2);
    psx.cpu.delayed_load();
    assert_eq!(psx.cpu.regs[4], 0);
    assert_eq!(psx.cpu.regs[5], 2);
    assert_eq!(psx.cpu.delayed_load, None);
}

#[test]
fn loads_and_stores() {
    let mut psx = with_regs(&[(1, 0x8001_0000), (2, 0x1234_5678)]);
    assert_eq!(
        step(&mut psx, i_type(0x23, 1, 3, 4)),
        Ok(MemAccess::Load { addr: 0x0001_0004, width: BusWidth::DoubleWord, reg: 3, signed: false })
    );
    assert_eq!(
        step(&mut psx, i_type(0x29, 1, 2, 0xFFFE)),
        Ok(MemAccess::Store { addr: 0x0000_FFFE, width: BusWidth::Word, value: 0x5678 })
    );
    assert_eq!(
        step(&mut psx, i_type(0x28, 1, 2, 3)),
        Ok(MemAccess::Store { addr: 0x0001_0003, width: BusWidth::Byte, value: 0x78 })
    );
    assert_eq!(
        step(&mut psx, i_type(0x23, 1, 3, 2)),
        Err(CpuError::AddressError { addr: 0x8001_0002, store: false })
    );
    assert_eq!(
        step(&mut psx, i_type(0x29, 1, 2, 1)),
        Err(CpuError::AddressError { addr: 0x8001_0001, store: true })
    );
    let mut cpu = Psx::new().cpu;
    cpu.complete_load(3, BusWidth::Byte, true, 0x80);
    assert_eq!(cpu.delayed_load, Some((3, 0xFFFF_FF80)));
    cpu.complete_load(3, BusWidth::Byte, false, 0x180);
    assert_eq!(cpu.delayed_load, Some((3, 0x80)));
    cpu.complete_load(3, BusWidth::Word, true, 0x8001);
    assert_eq!(cpu.delayed_load, Some((3, 0xFFFF_8001)));
}

#[test]
fn branches_and_jumps() {
    let mut psx = with_regs(&[(1, 5), (2, 5)]);
    assert_eq!(psx.cpu.pc, RESET_PC);
    // beq taken: target is the delay slot plus the offset.
    step(&mut psx, i_type(0x04, 1, 2, 0x0010)).unwrap();
    assert_eq!(psx.cpu.current_pc, RESET_PC);
    assert_eq!(psx.cpu.pc, RESET_PC + 4);
    assert_eq!(psx.cpu.next_pc, RESET_PC + 4 + 0x40);
    // The delay slot executes, then the target.
    step(&mut psx, Instruction::new(0)).unwrap();
    assert_eq!(psx.cpu.pc, RESET_PC + 0x44);
    // bne not taken.
    step(&mut psx, i_type(0x05, 1, 2, 0x0010)).unwrap();
    assert_eq!(psx.cpu.next_pc, RESET_PC + 0x4c);
    // jal links the address after the delay slot.
    step(&mut psx, Instruction::new((0x03 << 26) | 0x0000_0100)).unwrap();
    assert_eq!(psx.cpu.next_pc, 0xB000_0400);
    assert_eq!(psx.cpu.regs[31], RESET_PC + 0x50);
    // jr jumps to a register.
    psx.cpu.set_reg(7, 0x8000_1000);
    step(&mut psx, r_type(0x08, 7, 0, 0, 0)).unwrap();
    assert_eq!(psx.cpu.next_pc, 0x8000_1000);
    // bltzal links even when not taken.
    step(&mut psx, i_type(0x01, 1, 0x10, 0x0004)).unwrap();
    assert_eq!(psx.cpu.regs[31], 0x8000_1000 + 4);
    // bgez taken backwards by one word from its delay slot.
    let pc = psx.cpu.next_pc;
    step(&mut psx, i_type(0x01, 1, 0x01, 0xFFFF)).unwrap();
    assert_eq!(psx.cpu.next_pc, pc - 4);
}

#[test]
fn decoder_fields() {
    let i = Instruction::new(0b100011_10101_01010_11001_00111_101101);
    assert_eq!(i.op(), 0b100011);
    assert_eq!(i.rs(), 0b10101);
    assert_eq!(i.rt(), 0b01010);
    assert_eq!(i.rd(), 0b11001);
    assert_eq!(i.shmat(), 0b00111);
    assert_eq!(i.funct(), 0b101101);
    assert_eq!(i.imm(), 0b11001_00111_101101);
    assert_eq!(i.simm(), 0xFFFF_0000 | 0b11001_00111_101101);
    assert_eq!(Instruction::new(0x7FFF).simm(), 0x7FFF);
    assert_eq!(i.jimm(), (0b10101_01010_11001_00111_101101) << 2);
}

#[test]
fn region_mapping() {
    assert_eq!(mask(0x8001_0000), 0x0001_0000);
    assert_eq!(mask(0xA001_0000), 0x0001_0000);
    assert_eq!(mask(0x0001_0000), 0x0001_0000);
    assert_eq!(mask(0xBFC0_0000), 0x1FC0_0000);
    assert_eq!(mask(0xFFFE_0130), 0xFFFE_0130);
}

#[test]
fn instruction_cache_hits_and_misses() {
    let mut psx = Psx::new();
    psx.cache_control = 0x800;
    assert!(psx.code_cache_enabled());
    psx.cpu.pc = 0x8000_0010;
    // First fetch misses: one bus read, at the physical address.
    assert_eq!(fetch_instruction(&psx), Fetch::Miss(0x0000_0010));
    assert_eq!(fill_instruction(&mut psx, 0x1111_1111), Instruction::new(0x1111_1111));
    // Second fetch of the same word hits.
    assert_eq!(fetch_instruction(&psx), Fetch::Hit(Instruction::new(0x1111_1111)));
    // Another word of the same line and tag misses.
    psx.cpu.pc = 0x8000_0014;
    assert_eq!(fetch_instruction(&psx), Fetch::Miss(0x0000_0014));
    fill_instruction(&mut psx, 0x2222_2222);
    assert_eq!(fetch_instruction(&psx), Fetch::Hit(Instruction::new(0x2222_2222)));
    // A different tag on the same line evicts the earlier word.
    psx.cpu.pc = 0x8000_1010;
    assert_eq!(fetch_instruction(&psx), Fetch::Miss(0x0000_1010));
    fill_instruction(&mut psx, 0x3333_3333);
    assert_eq!(fetch_instruction(&psx), Fetch::Hit(Instruction::new(0x3333_3333)));
    psx.cpu.pc = 0x8000_0010;
    assert_eq!(fetch_instruction(&psx), Fetch::Miss(0x0000_0010));
}

#[test]
fn uncached_fetch_bypasses_cache() {
    let mut psx = Psx::new();
    psx.cache_control = 0x800;
    psx.cpu.pc = 0xA000_0010;
    fill_instruction(&mut psx, 5);
    assert_eq!(fetch_instruction(&psx), Fetch::Miss(0x0000_0010));
    // With the cache disabled a cacheable address also goes to the bus.
    let mut psx = Psx::new();
    assert!(!psx.code_cache_enabled());
    psx.cpu.pc = 0x8000_0010;
    fill_instruction(&mut psx, 5);
    assert_eq!(fetch_instruction(&psx), Fetch::Miss(0x0000_0010));
}

#[test]
fn cache_line_accessors() {
    let line = ICacheLine::new();
    assert_eq!(line.tag(), 0);
    assert!(!line.is_valid(0));
    let line = ICacheLine { info: 0x1234_5000 | 0b0100, line: [Instruction::new(0); 4] };
    assert_eq!(line.tag(), 0x1234_5000);
    assert!(line.is_valid(2));
    assert!(!line.is_valid(1));
}

#[test]
fn scratchpad_address_decode() {
    assert_eq!(psx::scratchpad_offset(0x1f80_0000), Some(0));
    assert_eq!(psx::scratchpad_offset(0x1f80_03ff), Some(0x3ff));
    assert_eq!(psx::scratchpad_offset(0x1f80_0400), None);
    assert_eq!(psx::scratchpad_offset(0x1f7f_ffff), None);
    assert_eq!(psx::scratchpad_offset(0x0000_0010), None);
}

#[test]
fn reset_state() {
    let psx = Psx::new();
    assert_eq!(psx.cpu.pc, 0xBFC0_0000);
    assert_eq!(psx.cpu.current_pc, 0xBFC0_0000);
    assert_eq!(psx.cpu.next_pc, 0xBFC0_0004);
    assert!(psx.cpu.regs.iter().all(|&r| r == 0));
    assert_eq!((psx.cpu.hi, psx.cpu.lo), (0, 0));
}
