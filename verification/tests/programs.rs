//! Whole-instruction and whole-program behaviour through `cycle`:
//! fetch, dispatch, interrupts, the halt state and the fault path.

use lr35902::cpu::{Cpu, CpuError};
use lr35902::mmu::{Mbc0, Mmu, Port};
use lr35902::regs::{Register, WideRegister, Flag};

fn bus(bytes: &[u8]) -> Mbc0 {
    let mut mmu = Mbc0::new();
    for (i, b) in bytes.iter().enumerate() {
        mmu.write(i as u16, *b);
    }
    mmu
}

fn run(cpu: &mut Cpu, mmu: &mut Mbc0, steps: usize) -> usize {
    let mut total: usize = 0;
    for _ in 0..steps {
        total += cpu.cycle(mmu).expect("legal program");
    }
    total
}

#[test]
fn program_load_add() {
    // LD A,0x42; LD B,0x05; ADD A,B
    let mut cpu = Cpu::default();
    let mut mmu = bus(&[0x3E, 0x42, 0x06, 0x05, 0x80]);
    let cycles = run(&mut cpu, &mut mmu, 3);
    assert_eq!(20, cycles);
    assert_eq!(0x47, cpu.register(Register::A));
    assert_eq!(0x05, cpu.register(Register::B));
    assert_eq!(0x0005, cpu.pc);
    assert_eq!(false, cpu.flag(Flag::Zero));
    assert_eq!(false, cpu.flag(Flag::Negative));
    assert_eq!(false, cpu.flag(Flag::HalfCarry));
    assert_eq!(false, cpu.flag(Flag::Carry));
}

#[test]
fn program_inc_half_carry() {
    // LD A,0x0F; INC A
    let mut cpu = Cpu::default();
    let mut mmu = bus(&[0x3E, 0x0F, 0x3C]);
    run(&mut cpu, &mut mmu, 2);
    assert_eq!(0x10, cpu.register(Register::A));
    assert_eq!(false, cpu.flag(Flag::Zero));
    assert_eq!(false, cpu.flag(Flag::Negative));
    assert_eq!(true, cpu.flag(Flag::HalfCarry));
    assert_eq!(false, cpu.flag(Flag::Carry));
    assert_eq!(0x0003, cpu.pc);
}

#[test]
fn program_rra_forces_zero_clear() {
    // LD A,0x01; RRA with carry clear
    let mut cpu = Cpu::default();
    let mut mmu = bus(&[0x3E, 0x01, 0x1F]);
    run(&mut cpu, &mut mmu, 2);
    assert_eq!(0x00, cpu.register(Register::A));
    assert_eq!(false, cpu.flag(Flag::Zero));
    assert_eq!(false, cpu.flag(Flag::Negative));
    assert_eq!(false, cpu.flag(Flag::HalfCarry));
    assert_eq!(true, cpu.flag(Flag::Carry));
    assert_eq!(0x0003, cpu.pc);
}

#[test]
fn program_push_pop_af() {
    // LD SP,0xFFFE; LD A,0xAB; PUSH AF; POP AF
    let mut cpu = Cpu::default();
    let mut mmu = bus(&[0x31, 0xFE, 0xFF, 0x3E, 0xAB, 0xF5, 0xF1]);
    run(&mut cpu, &mut mmu, 4);
    assert_eq!(0xAB, cpu.register(Register::A));
    assert_eq!(0, cpu.wide_register(WideRegister::AF) & 0x000F);
    assert_eq!(0xFFFE, cpu.wide_register(WideRegister::SP));
    assert_eq!(0xAB, mmu.read(0xFFFD));
}

#[test]
fn program_jr_spin() {
    // JR -2 spins on its own opcode
    let mut cpu = Cpu::default();
    let mut mmu = bus(&[0x18, 0xFE]);
    let cycles = run(&mut cpu, &mut mmu, 1);
    assert_eq!(12, cycles);
    assert_eq!(0x0000, cpu.pc);
}

#[test]
fn program_jr_falls_through() {
    // JR +0 goes straight to the next instruction
    let mut cpu = Cpu::default();
    let mut mmu = bus(&[0x18, 0x00]);
    run(&mut cpu, &mut mmu, 1);
    assert_eq!(0x0002, cpu.pc);

    // JR +0x7F lands 0x7F bytes past the instruction's end
    let mut cpu = Cpu::default();
    let mut mmu = bus(&[0x18, 0x7F]);
    run(&mut cpu, &mut mmu, 1);
    assert_eq!(0x0081, cpu.pc);
}

#[test]
fn interrupt_vblank_dispatch() {
    let mut cpu = Cpu::default();
    let mut mmu = Mbc0::new();
    mmu.write(0xFFFF, 0x01);
    mmu.write(0xFF0F, 0x01);
    cpu.interrupts_enabled = true;
    cpu.set_wide_register(WideRegister::PC, 0x0100);
    cpu.set_wide_register(WideRegister::SP, 0xFFFE);
    let cycles = cpu.cycle(&mut mmu).unwrap();
    assert_eq!(20, cycles);
    assert_eq!(0x0040, cpu.pc);
    assert_eq!(0xFFFC, cpu.sp);
    assert_eq!(0x00, mmu.read(0xFFFC));
    assert_eq!(0x01, mmu.read(0xFFFD));
    assert_eq!(false, cpu.interrupts_enabled);
    assert_eq!(0x00, mmu.io_read(Port::IF));
}

#[test]
fn interrupt_priority_vblank_wins() {
    // both VBlank and Timer pending: VBlank is serviced, its bit alone
    // is cleared
    let mut cpu = Cpu::default();
    let mut mmu = Mbc0::new();
    mmu.write(0xFFFF, 0x05);
    mmu.write(0xFF0F, 0x05);
    cpu.interrupts_enabled = true;
    cpu.set_wide_register(WideRegister::PC, 0x1234);
    cpu.set_wide_register(WideRegister::SP, 0xFFFE);
    let cycles = cpu.cycle(&mut mmu).unwrap();
    assert_eq!(20, cycles);
    assert_eq!(0x0040, cpu.pc);
    assert_eq!(0x04, mmu.io_read(Port::IF));
    assert_eq!(false, cpu.interrupts_enabled);
    assert_eq!(0x34, mmu.read(0xFFFC));
    assert_eq!(0x12, mmu.read(0xFFFD));
}

#[test]
fn halted_idle_costs_four() {
    let mut cpu = Cpu::default();
    let mut mmu = Mbc0::new();
    cpu.halted = true;
    let cycles = cpu.cycle(&mut mmu).unwrap();
    assert_eq!(4, cycles);
    assert_eq!(true, cpu.halted);
    assert_eq!(0x0000, cpu.pc);
}

#[test]
fn halt_wake_without_ime() {
    let mut cpu = Cpu::default();
    let mut mmu = Mbc0::new();
    mmu.write(0xFFFF, 0x01);
    mmu.write(0xFF0F, 0x01);
    cpu.halted = true;
    cpu.interrupts_enabled = false;
    let cycles = cpu.cycle(&mut mmu).unwrap();
    assert_eq!(4, cycles);
    assert_eq!(false, cpu.halted);
    assert_eq!(0x0000, cpu.pc);
}

#[test]
fn halt_wake_with_ime_takes_vector() {
    let mut cpu = Cpu::default();
    let mut mmu = Mbc0::new();
    mmu.write(0xFFFF, 0x01);
    mmu.write(0xFF0F, 0x01);
    cpu.halted = true;
    cpu.interrupts_enabled = true;
    cpu.set_wide_register(WideRegister::SP, 0xFFFE);
    let cycles = cpu.cycle(&mut mmu).unwrap();
    assert_eq!(20, cycles);
    assert_eq!(false, cpu.halted);
    assert_eq!(0x0040, cpu.pc);
}

#[test]
fn illegal_opcode_fault() {
    let mut cpu = Cpu::default();
    let mut mmu = bus(&[0xD3]);
    let r = cpu.cycle(&mut mmu);
    assert_eq!(Err(CpuError::IllegalOpcode { opcode: 0xD3, at: 0x0000 }), r);
    assert_eq!(0x0000, cpu.pc);

    let mut cpu = Cpu::default();
    let mut mmu = bus(&[0x00, 0xFD]);
    cpu.cycle(&mut mmu).unwrap();
    let r = cpu.cycle(&mut mmu);
    assert_eq!(Err(CpuError::IllegalOpcode { opcode: 0xFD, at: 0x0001 }), r);
    assert_eq!(0x0001, cpu.pc);
}

#[test]
fn swap_twice_is_identity() {
    // SWAP A twice through the CB table
    let mut cpu = Cpu::default();
    let mut mmu = bus(&[0xCB, 0x37, 0xCB, 0x37]);
    cpu.set_register(Register::A, 0xAB);
    let cycles = cpu.cycle(&mut mmu).unwrap();
    assert_eq!(8, cycles);
    assert_eq!(0xBA, cpu.register(Register::A));
    assert_eq!(false, cpu.flag(Flag::Zero));
    assert_eq!(false, cpu.flag(Flag::Negative));
    assert_eq!(false, cpu.flag(Flag::HalfCarry));
    assert_eq!(false, cpu.flag(Flag::Carry));
    cpu.cycle(&mut mmu).unwrap();
    assert_eq!(0xAB, cpu.register(Register::A));
}

#[test]
fn rlc_rrc_round_trip() {
    // RLC A then RRC A restores A; the carry is bit 7 of the original
    let mut cpu = Cpu::default();
    let mut mmu = bus(&[0xCB, 0x07, 0xCB, 0x0F]);
    cpu.set_register(Register::A, 0x85);
    cpu.cycle(&mut mmu).unwrap();
    assert_eq!(0x0B, cpu.register(Register::A));
    assert_eq!(true, cpu.flag(Flag::Carry));
    cpu.cycle(&mut mmu).unwrap();
    assert_eq!(0x85, cpu.register(Register::A));
    assert_eq!(true, cpu.flag(Flag::Carry));
}

#[test]
fn bit_res_set_ops() {
    // BIT 7,A on a clear bit sets Z; SET 7,A then BIT 7,A clears Z;
    // RES 7,A restores the byte
    let mut cpu = Cpu::default();
    let mut mmu = bus(&[0xCB, 0x7F, 0xCB, 0xFF, 0xCB, 0x7F, 0xCB, 0xBF]);
    cpu.set_register(Register::A, 0x01);
    assert_eq!(8, cpu.cycle(&mut mmu).unwrap());
    assert_eq!(true, cpu.flag(Flag::Zero));
    assert_eq!(true, cpu.flag(Flag::HalfCarry));
    assert_eq!(false, cpu.flag(Flag::Negative));
    cpu.cycle(&mut mmu).unwrap();
    assert_eq!(0x81, cpu.register(Register::A));
    cpu.cycle(&mut mmu).unwrap();
    assert_eq!(false, cpu.flag(Flag::Zero));
    cpu.cycle(&mut mmu).unwrap();
    assert_eq!(0x01, cpu.register(Register::A));
}

#[test]
fn cb_memory_cycle_costs() {
    // RES 0,(HL) costs 16; BIT 0,(HL) costs 12
    let mut cpu = Cpu::default();
    let mut mmu = bus(&[0xCB, 0x86, 0xCB, 0x46]);
    cpu.set_wide_register(WideRegister::HL, 0x0010);
    mmu.write(0x0010, 0xFF);
    assert_eq!(16, cpu.cycle(&mut mmu).unwrap());
    assert_eq!(0xFE, mmu.read(0x0010));
    assert_eq!(12, cpu.cycle(&mut mmu).unwrap());
    assert_eq!(true, cpu.flag(Flag::Zero));
}

#[test]
fn sra_srl_shift_right() {
    // SRA B keeps bit 7, SRL B clears it; both move bit 0 into carry
    let mut cpu = Cpu::default();
    let mut mmu = bus(&[0xCB, 0x28, 0xCB, 0x38]);
    cpu.set_register(Register::B, 0x81);
    cpu.cycle(&mut mmu).unwrap();
    assert_eq!(0xC0, cpu.register(Register::B));
    assert_eq!(true, cpu.flag(Flag::Carry));
    cpu.cycle(&mut mmu).unwrap();
    assert_eq!(0x60, cpu.register(Register::B));
    assert_eq!(false, cpu.flag(Flag::Carry));
}

#[test]
fn ld_hl_sp_offset_flags() {
    // LD HL,SP+0x08 with SP=0xFFF8: HL wraps to 0, SP unchanged,
    // both half-carry and carry come from the unsigned low-byte sums
    let mut cpu = Cpu::default();
    let mut mmu = bus(&[0xF8, 0x08]);
    cpu.set_wide_register(WideRegister::SP, 0xFFF8);
    assert_eq!(12, cpu.cycle(&mut mmu).unwrap());
    assert_eq!(0x0000, cpu.wide_register(WideRegister::HL));
    assert_eq!(0xFFF8, cpu.wide_register(WideRegister::SP));
    assert_eq!(false, cpu.flag(Flag::Zero));
    assert_eq!(false, cpu.flag(Flag::Negative));
    assert_eq!(true, cpu.flag(Flag::HalfCarry));
    assert_eq!(true, cpu.flag(Flag::Carry));
    assert_eq!(0x0002, cpu.pc);
}

#[test]
fn register_pair_aliasing() {
    let mut cpu = Cpu::default();
    cpu.set_wide_register(WideRegister::BC, 0xDEAD);
    assert_eq!(0xDE, cpu.register(Register::B));
    assert_eq!(0xAD, cpu.register(Register::C));
    cpu.set_register(Register::D, 0x12);
    cpu.set_register(Register::E, 0x34);
    assert_eq!(0x1234, cpu.wide_register(WideRegister::DE));
    cpu.set_register(Register::H, 0xAB);
    cpu.set_register(Register::L, 0xCD);
    assert_eq!(0xABCD, cpu.wide_register(WideRegister::HL));
}

#[test]
fn af_low_nibble_always_zero() {
    let mut cpu = Cpu::default();
    cpu.set_wide_register(WideRegister::AF, 0xFFFF);
    assert_eq!(0xFFF0, cpu.wide_register(WideRegister::AF));
    assert_eq!(0xFF, cpu.register(Register::A));
    assert_eq!(true, cpu.flag(Flag::Zero));
    assert_eq!(true, cpu.flag(Flag::Carry));
    cpu.set_wide_register(WideRegister::AF, 0x120F);
    assert_eq!(0x1200, cpu.wide_register(WideRegister::AF));
}

#[test]
fn adc_sbc_flag_table() {
    // ADC: 0x0F + 0x00 + carry-in gives half-carry only
    let mut cpu = Cpu::default();
    cpu.set_register(Register::A, 0x0F);
    cpu.set_register(Register::B, 0x00);
    cpu.set_flag(Flag::Carry, true);
    cpu.add_carry(Register::B);
    assert_eq!(0x10, cpu.register(Register::A));
    assert_eq!(true, cpu.flag(Flag::HalfCarry));
    assert_eq!(false, cpu.flag(Flag::Carry));
    assert_eq!(false, cpu.flag(Flag::Negative));

    // SBC: 0x10 - 0x00 - carry-in borrows across the nibble
    let mut cpu = Cpu::default();
    cpu.set_register(Register::A, 0x10);
    cpu.set_register(Register::B, 0x00);
    cpu.set_flag(Flag::Carry, true);
    cpu.sub_carry(Register::B);
    assert_eq!(0x0F, cpu.register(Register::A));
    assert_eq!(true, cpu.flag(Flag::HalfCarry));
    assert_eq!(false, cpu.flag(Flag::Carry));
    assert_eq!(true, cpu.flag(Flag::Negative));
}

#[test]
fn halt_instruction_enters_halt() {
    let mut cpu = Cpu::default();
    let mut mmu = bus(&[0x76]);
    assert_eq!(4, cpu.cycle(&mut mmu).unwrap());
    assert_eq!(true, cpu.halted);
    assert_eq!(0x0001, cpu.pc);
}

#[test]
fn conditional_costs_through_cycle() {
    // RET Z not taken: 8; JP C,u16 not taken: 12; CALL NZ,u16 taken: 24
    let mut cpu = Cpu::default();
    let mut mmu = bus(&[0xC8, 0xDA, 0x00, 0x01, 0xC4, 0x10, 0x00]);
    cpu.set_wide_register(WideRegister::SP, 0xFFFE);
    assert_eq!(8, cpu.cycle(&mut mmu).unwrap());
    assert_eq!(0x0001, cpu.pc);
    assert_eq!(12, cpu.cycle(&mut mmu).unwrap());
    assert_eq!(0x0004, cpu.pc);
    assert_eq!(24, cpu.cycle(&mut mmu).unwrap());
    assert_eq!(0x0010, cpu.pc);
}

#[test]
fn stores_through_pairs_and_high_page() {
    // LD (BC),A then LDH (C),A through whole instructions
    let mut cpu = Cpu::default();
    let mut mmu = bus(&[0x02, 0xE2]);
    cpu.set_register(Register::A, 0x99);
    cpu.set_wide_register(WideRegister::BC, 0x4023);
    assert_eq!(8, cpu.cycle(&mut mmu).unwrap());
    assert_eq!(0x99, mmu.read(0x4023));
    assert_eq!(8, cpu.cycle(&mut mmu).unwrap());
    assert_eq!(0x99, mmu.read(0xFF23));
}

#[test]
fn reset_state() {
    let mut cpu = Cpu::new();
    assert_eq!(0x0000, cpu.pc);
    assert_eq!(0x0000, cpu.wide_register(WideRegister::SP));
    assert_eq!(0x0000, cpu.wide_register(WideRegister::AF));
    assert_eq!(0x0000, cpu.wide_register(WideRegister::BC));
    assert_eq!(0x0000, cpu.wide_register(WideRegister::DE));
    assert_eq!(0x0000, cpu.wide_register(WideRegister::HL));
    assert_eq!(false, cpu.halted);
    assert_eq!(false, cpu.stopped);
    assert_eq!(false, cpu.interrupts_enabled);
    assert_eq!(false, cpu.flag(Flag::Zero));
}

#[test]
fn io_ports_alias_memory() {
    let mut mmu = Mbc0::new();
    mmu.io_write(Port::IF, 0x1F);
    mmu.io_write(Port::IE, 0x15);
    assert_eq!(0x1F, mmu.read(0xFF0F));
    assert_eq!(0x15, mmu.read(0xFFFF));
    mmu.write(0xFF0F, 0x02);
    assert_eq!(0x02, mmu.io_read(Port::IF));
}
