//! Memory, stack and control-flow instruction behaviour.

use lr35902::cpu::Cpu;
use lr35902::mmu::{Mbc0, Mmu};
use lr35902::regs::{Register, WideRegister, Flag, Condition};

fn bus(bytes: &[u8]) -> Mbc0 {
    let mut mmu = Mbc0::new();
    for (i, b) in bytes.iter().enumerate() {
        mmu.write(i as u16, *b);
    }
    mmu
}

#[test]
fn read_wide_immediate() {
    let mut cpu = Cpu::default();
    let mmu = bus(&[0xAD, 0xDE]);
    assert_eq!(12, cpu.read_wide_immediate(WideRegister::BC, &mmu));
    assert_eq!(0xDEAD, cpu.wide_register(WideRegister::BC));
    assert_eq!(0x0002, cpu.pc);
}

#[test]
fn write_register() {
    let mut cpu = Cpu::default();
    cpu.set_wide_register(WideRegister::BC, 0x01);
    cpu.set_register(Register::A, 0x42);
    let mut mmu = bus(&[0x00, 0x00]);
    assert_eq!(8, cpu.write_register(WideRegister::BC, Register::A, &mut mmu));
    assert_eq!(0x42, mmu.read(0x01));
}

#[test]
fn read_immediate() {
    let mut cpu = Cpu::default();
    let mmu = bus(&[0x42]);
    assert_eq!(8, cpu.read_immediate(Register::B, &mmu));
    assert_eq!(0x42, cpu.register(Register::B));
    assert_eq!(0x0001, cpu.pc);
}

#[test]
fn write_stack_immediate() {
    let mut cpu = Cpu::default();
    let mut mmu = bus(&[0x03, 0x00, 0x00, 0x00, 0x00]);
    cpu.set_wide_register(WideRegister::SP, 0xDEAD);
    assert_eq!(20, cpu.write_stack_immediate(&mut mmu));
    assert_eq!(0xAD, mmu.read(0x03));
    assert_eq!(0xDE, mmu.read(0x04));
}

#[test]
fn read_register() {
    let mut cpu = Cpu::default();
    let mmu = bus(&[0x00, 0x00, 0x42]);
    cpu.set_wide_register(WideRegister::BC, 0x02);
    assert_eq!(8, cpu.read_register(WideRegister::BC, Register::A, &mmu));
    assert_eq!(0x42, cpu.register(Register::A));
}

#[test]
fn stop() {
    let mut cpu = Cpu::default();
    let mmu = bus(&[0x00]);
    cpu.stop(&mmu);
    assert_eq!(0x01, cpu.pc);
    assert_eq!(true, cpu.stopped);
}

#[test]
fn jr() {
    // the signed operand is added to the PC past the operand byte
    let mut cpu = Cpu::default();
    let mmu = bus(&[0x42]);
    assert_eq!(12, cpu.jr(&mmu));
    assert_eq!(0x0043, cpu.wide_register(WideRegister::PC));

    let mut cpu = Cpu::default();
    let mmu = bus(&[0x00, 0xFF]);
    cpu.set_wide_register(WideRegister::PC, 0x0001);
    assert_eq!(12, cpu.jr(&mmu));
    assert_eq!(0x0001, cpu.wide_register(WideRegister::PC));

    let mut cpu = Cpu::default();
    let mmu = bus(&[0xFF]);
    assert_eq!(12, cpu.jr(&mmu));
    assert_eq!(0x0000, cpu.wide_register(WideRegister::PC));
}

#[test]
fn jr_condition() {
    let mut cpu = Cpu::default();
    let mmu = bus(&[0x42]);
    assert_eq!(8, cpu.jr_condition(Condition::Zero, &mmu));
    assert_eq!(0x0001, cpu.wide_register(WideRegister::PC));

    let mut cpu = Cpu::default();
    let mmu = bus(&[0x42]);
    cpu.set_flag(Flag::Zero, true);
    assert_eq!(12, cpu.jr_condition(Condition::Zero, &mmu));
    assert_eq!(0x0043, cpu.wide_register(WideRegister::PC));

    let mut cpu = Cpu::default();
    let mmu = bus(&[0x42]);
    assert_eq!(12, cpu.jr_condition(Condition::NotZero, &mmu));
    assert_eq!(0x0043, cpu.wide_register(WideRegister::PC));

    let mut cpu = Cpu::default();
    let mmu = bus(&[0x42]);
    cpu.set_flag(Flag::Zero, true);
    assert_eq!(8, cpu.jr_condition(Condition::NotZero, &mmu));
    assert_eq!(0x0001, cpu.wide_register(WideRegister::PC));

    let mut cpu = Cpu::default();
    let mmu = bus(&[0x42]);
    assert_eq!(8, cpu.jr_condition(Condition::Carry, &mmu));
    assert_eq!(0x0001, cpu.wide_register(WideRegister::PC));

    let mut cpu = Cpu::default();
    let mmu = bus(&[0x42]);
    cpu.set_flag(Flag::Carry, true);
    assert_eq!(12, cpu.jr_condition(Condition::Carry, &mmu));
    assert_eq!(0x0043, cpu.wide_register(WideRegister::PC));

    let mut cpu = Cpu::default();
    let mmu = bus(&[0x42]);
    assert_eq!(12, cpu.jr_condition(Condition::NotCarry, &mmu));
    assert_eq!(0x0043, cpu.wide_register(WideRegister::PC));

    let mut cpu = Cpu::default();
    let mmu = bus(&[0x42]);
    cpu.set_flag(Flag::Carry, true);
    assert_eq!(8, cpu.jr_condition(Condition::NotCarry, &mmu));
    assert_eq!(0x0001, cpu.wide_register(WideRegister::PC));
}

#[test]
fn write_a_hli() {
    let mut cpu = Cpu::default();
    let mut mmu = bus(&[0x00]);
    cpu.set_register(Register::A, 0x42);
    assert_eq!(8, cpu.write_a_hli(&mut mmu));
    assert_eq!(0x0001, cpu.wide_register(WideRegister::HL));
    assert_eq!(0x42, mmu.read(0x0000));
}

#[test]
fn read_a_hli() {
    let mut cpu = Cpu::default();
    let mmu = bus(&[0x42]);
    assert_eq!(8, cpu.read_a_hli(&mmu));
    assert_eq!(0x0001, cpu.wide_register(WideRegister::HL));
    assert_eq!(0x42, cpu.register(Register::A));
}

#[test]
fn write_a_hld() {
    let mut cpu = Cpu::default();
    let mut mmu = bus(&[0x00]);
    cpu.set_register(Register::A, 0x42);
    assert_eq!(8, cpu.write_a_hld(&mut mmu));
    assert_eq!(0xFFFF, cpu.wide_register(WideRegister::HL));
    assert_eq!(0x42, mmu.read(0x0000));
}

#[test]
fn read_a_hld() {
    let mut cpu = Cpu::default();
    let mmu = bus(&[0x42]);
    assert_eq!(8, cpu.read_a_hld(&mmu));
    assert_eq!(0xFFFF, cpu.wide_register(WideRegister::HL));
    assert_eq!(0x42, cpu.register(Register::A));
}

#[test]
fn inc_mem() {
    let mut cpu = Cpu::default();
    let mut mmu = bus(&[0x00, 0x0F]);
    cpu.set_wide_register(WideRegister::HL, 0x0001);
    assert_eq!(12, cpu.inc_mem(&mut mmu));
    assert_eq!(0x10, mmu.read(0x0001));
    assert_eq!(false, cpu.flag(Flag::Negative));
    assert_eq!(true, cpu.flag(Flag::HalfCarry));
    assert_eq!(false, cpu.flag(Flag::Zero));

    let mut cpu = Cpu::default();
    let mut mmu = bus(&[0x00, 0xFF]);
    cpu.set_wide_register(WideRegister::HL, 0x0001);
    assert_eq!(12, cpu.inc_mem(&mut mmu));
    assert_eq!(0x00, mmu.read(0x0001));
    assert_eq!(false, cpu.flag(Flag::Negative));
    assert_eq!(true, cpu.flag(Flag::HalfCarry));
    assert_eq!(true, cpu.flag(Flag::Zero));

    let mut cpu = Cpu::default();
    let mut mmu = bus(&[0x00, 0x41]);
    cpu.set_wide_register(WideRegister::HL, 0x0001);
    assert_eq!(12, cpu.inc_mem(&mut mmu));
    assert_eq!(0x42, mmu.read(0x0001));
    assert_eq!(false, cpu.flag(Flag::Negative));
    assert_eq!(false, cpu.flag(Flag::HalfCarry));
    assert_eq!(false, cpu.flag(Flag::Zero));
}

#[test]
fn dec_mem() {
    let mut cpu = Cpu::default();
    let mut mmu = bus(&[0x00, 0x10]);
    cpu.set_wide_register(WideRegister::HL, 0x0001);
    assert_eq!(12, cpu.dec_mem(&mut mmu));
    assert_eq!(0x0F, mmu.read(0x0001));
    assert_eq!(true, cpu.flag(Flag::Negative));
    assert_eq!(true, cpu.flag(Flag::HalfCarry));
    assert_eq!(false, cpu.flag(Flag::Zero));

    let mut cpu = Cpu::default();
    let mut mmu = bus(&[0x00, 0x00]);
    cpu.set_wide_register(WideRegister::HL, 0x0001);
    assert_eq!(12, cpu.dec_mem(&mut mmu));
    assert_eq!(0xFF, mmu.read(0x0001));
    assert_eq!(true, cpu.flag(Flag::Negative));
    assert_eq!(true, cpu.flag(Flag::HalfCarry));
    assert_eq!(false, cpu.flag(Flag::Zero));

    let mut cpu = Cpu::default();
    let mut mmu = bus(&[0x00, 0x01]);
    cpu.set_wide_register(WideRegister::HL, 0x0001);
    assert_eq!(12, cpu.dec_mem(&mut mmu));
    assert_eq!(0x00, mmu.read(0x0001));
    assert_eq!(true, cpu.flag(Flag::Negative));
    assert_eq!(false, cpu.flag(Flag::HalfCarry));
    assert_eq!(true, cpu.flag(Flag::Zero));
}

#[test]
fn write_mem_immediate() {
    let mut cpu = Cpu::default();
    let mut mmu = bus(&[0x42, 0x00, 0x00, 0x00]);
    cpu.set_wide_register(WideRegister::HL, 0x0002);
    assert_eq!(12, cpu.write_mem_immediate(&mut mmu));
    assert_eq!(0x42, mmu.read(0x0002));
}

#[test]
fn ret() {
    let mut cpu = Cpu::default();
    let mmu = bus(&[0x00, 0x00, 0x00, 0x00, 0x02, 0x00]);
    cpu.set_wide_register(WideRegister::SP, 0x0004);
    assert_eq!(16, cpu.ret(&mmu));
    assert_eq!(0x0006, cpu.wide_register(WideRegister::SP));
    assert_eq!(0x0002, cpu.wide_register(WideRegister::PC));
}

#[test]
fn ret_condition() {
    let mut cpu = Cpu::default();
    let mmu = bus(&[0x00, 0x00, 0x00, 0x00, 0x02, 0x00]);
    cpu.set_wide_register(WideRegister::SP, 0x0004);
    cpu.set_flag(Flag::Zero, true);
    assert_eq!(20, cpu.ret_condition(Condition::Zero, &mmu));
    assert_eq!(0x0006, cpu.wide_register(WideRegister::SP));
    assert_eq!(0x0002, cpu.wide_register(WideRegister::PC));

    let mut cpu = Cpu::default();
    let mmu = bus(&[0x00, 0x00, 0x00, 0x00, 0x02, 0x00]);
    cpu.set_wide_register(WideRegister::SP, 0x0004);
    cpu.set_flag(Flag::Zero, false);
    assert_eq!(8, cpu.ret_condition(Condition::Zero, &mmu));
    assert_eq!(0x0004, cpu.wide_register(WideRegister::SP));
    assert_eq!(0x0000, cpu.wide_register(WideRegister::PC));

    let mut cpu = Cpu::default();
    let mmu = bus(&[0x00, 0x00, 0x00, 0x00, 0x02, 0x00]);
    cpu.set_wide_register(WideRegister::SP, 0x0004);
    cpu.set_flag(Flag::Carry, true);
    assert_eq!(8, cpu.ret_condition(Condition::NotCarry, &mmu));
    assert_eq!(0x0004, cpu.wide_register(WideRegister::SP));
    assert_eq!(0x0000, cpu.wide_register(WideRegister::PC));

    let mut cpu = Cpu::default();
    let mmu = bus(&[0x00, 0x00, 0x00, 0x00, 0x02, 0x00]);
    cpu.set_wide_register(WideRegister::SP, 0x0004);
    cpu.set_flag(Flag::Carry, false);
    assert_eq!(20, cpu.ret_condition(Condition::NotCarry, &mmu));
    assert_eq!(0x0006, cpu.wide_register(WideRegister::SP));
    assert_eq!(0x0002, cpu.wide_register(WideRegister::PC));
}

#[test]
fn pop_wide() {
    let mut cpu = Cpu::default();
    let mmu = bus(&[0x00, 0x00, 0x00, 0x00, 0xEF, 0xBE]);
    cpu.set_wide_register(WideRegister::SP, 0x0004);
    assert_eq!(12, cpu.pop_wide(WideRegister::DE, &mmu));
    assert_eq!(0xBEEF, cpu.wide_register(WideRegister::DE));
    assert_eq!(0x0006, cpu.wide_register(WideRegister::SP));
}

#[test]
fn push_wide() {
    let mut cpu = Cpu::default();
    let mut mmu = bus(&[0x00, 0x00, 0x00, 0x00, 0x00, 0x00]);
    cpu.set_wide_register(WideRegister::HL, 0xBEEF);
    cpu.set_wide_register(WideRegister::SP, 0x0006);
    assert_eq!(16, cpu.push_wide(WideRegister::HL, &mut mmu));
    assert_eq!(0x0004, cpu.wide_register(WideRegister::SP));
    assert_eq!(0xEF, mmu.read(0x0004));
    assert_eq!(0xBE, mmu.read(0x0005));
}

#[test]
fn jmp_condition() {
    let mut cpu = Cpu::default();
    let mmu = bus(&[0x04, 0x00, 0x00, 0x00, 0x00, 0x00]);
    assert_eq!(16, cpu.jmp_condition(Condition::NotCarry, &mmu));
    assert_eq!(0x0004, cpu.wide_register(WideRegister::PC));

    let mut cpu = Cpu::default();
    let mmu = bus(&[0x04, 0x00, 0x00, 0x00, 0x00, 0x00]);
    cpu.set_flag(Flag::Carry, true);
    assert_eq!(12, cpu.jmp_condition(Condition::NotCarry, &mmu));
    assert_eq!(0x0002, cpu.wide_register(WideRegister::PC));
}

#[test]
fn jmp() {
    let mut cpu = Cpu::default();
    let mmu = bus(&[0x04, 0x00, 0x00, 0x00, 0x00, 0x00]);
    assert_eq!(16, cpu.jmp(&mmu));
    assert_eq!(0x0004, cpu.wide_register(WideRegister::PC));
}

#[test]
fn call_condition() {
    let mut cpu = Cpu::default();
    let mut mmu = bus(&[0x03, 0x00, 0x00, 0x00, 0x00, 0x00, 0x00, 0x00]);
    cpu.set_wide_register(WideRegister::SP, 0x0008);
    assert_eq!(24, cpu.call_condition(Condition::NotZero, &mut mmu));
    assert_eq!(0x0003, cpu.wide_register(WideRegister::PC));
    assert_eq!(0x0006, cpu.wide_register(WideRegister::SP));
    assert_eq!(0x02, mmu.read(0x0006));
    assert_eq!(0x00, mmu.read(0x0007));

    let mut cpu = Cpu::default();
    let mut mmu = bus(&[0x03, 0x00, 0x00, 0x00, 0x00, 0x00, 0x00, 0x00]);
    cpu.set_wide_register(WideRegister::SP, 0x0008);
    cpu.set_flag(Flag::Zero, true);
    assert_eq!(12, cpu.call_condition(Condition::NotZero, &mut mmu));
    assert_eq!(0x0002, cpu.wide_register(WideRegister::PC));
    assert_eq!(0x0008, cpu.wide_register(WideRegister::SP));
    assert_eq!(0x00, mmu.read(0x0006));
    assert_eq!(0x00, mmu.read(0x0007));
}

#[test]
fn call() {
    let mut cpu = Cpu::default();
    let mut mmu = bus(&[0x03, 0x00, 0x00, 0x00, 0x00, 0x00, 0x00, 0x00]);
    cpu.set_wide_register(WideRegister::SP, 0x0008);
    assert_eq!(24, cpu.call(&mut mmu));
    assert_eq!(0x0003, cpu.wide_register(WideRegister::PC));
    assert_eq!(0x0006, cpu.wide_register(WideRegister::SP));
    assert_eq!(0x02, mmu.read(0x0006));
    assert_eq!(0x00, mmu.read(0x0007));
}

#[test]
fn add_immediate() {
    let mut cpu = Cpu::default();
    let mmu = bus(&[0x02]);
    cpu.set_register(Register::A, 0x0F);
    assert_eq!(8, cpu.add_immediate(&mmu));
    assert_eq!(0x11, cpu.register(Register::A));
    assert_eq!(false, cpu.flag(Flag::Zero));
    assert_eq!(true, cpu.flag(Flag::HalfCarry));
    assert_eq!(false, cpu.flag(Flag::Negative));
    assert_eq!(false, cpu.flag(Flag::Carry));

    let mut cpu = Cpu::default();
    let mmu = bus(&[0x02]);
    cpu.set_register(Register::A, 0xFF);
    assert_eq!(8, cpu.add_immediate(&mmu));
    assert_eq!(0x01, cpu.register(Register::A));
    assert_eq!(false, cpu.flag(Flag::Zero));
    assert_eq!(true, cpu.flag(Flag::HalfCarry));
    assert_eq!(false, cpu.flag(Flag::Negative));
    assert_eq!(true, cpu.flag(Flag::Carry));

    let mut cpu = Cpu::default();
    let mmu = bus(&[0xFF]);
    cpu.set_register(Register::A, 0x01);
    assert_eq!(8, cpu.add_immediate(&mmu));
    assert_eq!(0x00, cpu.register(Register::A));
    assert_eq!(true, cpu.flag(Flag::Zero));
    assert_eq!(true, cpu.flag(Flag::HalfCarry));
    assert_eq!(false, cpu.flag(Flag::Negative));
    assert_eq!(true, cpu.flag(Flag::Carry));
}

#[test]
fn add_carry_immediate() {
    let mut cpu = Cpu::default();
    let mmu = bus(&[0x01]);
    cpu.set_register(Register::A, 0x0E);
    cpu.set_flag(Flag::Carry, true);
    assert_eq!(8, cpu.add_carry_immediate(&mmu));
    assert_eq!(0x10, cpu.register(Register::A));
    assert_eq!(false, cpu.flag(Flag::Zero));
    assert_eq!(true, cpu.flag(Flag::HalfCarry));
    assert_eq!(false, cpu.flag(Flag::Negative));
    assert_eq!(false, cpu.flag(Flag::Carry));

    let mut cpu = Cpu::default();
    let mmu = bus(&[0x01]);
    cpu.set_register(Register::A, 0xFE);
    cpu.set_flag(Flag::Carry, true);
    assert_eq!(8, cpu.add_carry_immediate(&mmu));
    assert_eq!(0x00, cpu.register(Register::A));
    assert_eq!(true, cpu.flag(Flag::Zero));
    assert_eq!(true, cpu.flag(Flag::HalfCarry));
    assert_eq!(false, cpu.flag(Flag::Negative));
    assert_eq!(true, cpu.flag(Flag::Carry));

    let mut cpu = Cpu::default();
    let mmu = bus(&[0x01]);
    cpu.set_register(Register::A, 0xFE);
    cpu.set_flag(Flag::Carry, false);
    assert_eq!(8, cpu.add_carry_immediate(&mmu));
    assert_eq!(0xFF, cpu.register(Register::A));
    assert_eq!(false, cpu.flag(Flag::Zero));
    assert_eq!(false, cpu.flag(Flag::HalfCarry));
    assert_eq!(false, cpu.flag(Flag::Negative));
    assert_eq!(false, cpu.flag(Flag::Carry));
}

#[test]
fn sub_immediate() {
    let mut cpu = Cpu::default();
    let mmu = bus(&[0x02]);
    cpu.set_register(Register::A, 0x10);
    assert_eq!(8, cpu.sub_immediate(&mmu));
    assert_eq!(0x0E, cpu.register(Register::A));
    assert_eq!(false, cpu.flag(Flag::Zero));
    assert_eq!(true, cpu.flag(Flag::HalfCarry));
    assert_eq!(true, cpu.flag(Flag::Negative));
    assert_eq!(false, cpu.flag(Flag::Carry));

    let mut cpu = Cpu::default();
    let mmu = bus(&[0x02]);
    cpu.set_register(Register::A, 0x00);
    assert_eq!(8, cpu.sub_immediate(&mmu));
    assert_eq!(0xFE, cpu.register(Register::A));
    assert_eq!(false, cpu.flag(Flag::Zero));
    assert_eq!(true, cpu.flag(Flag::HalfCarry));
    assert_eq!(true, cpu.flag(Flag::Negative));
    assert_eq!(true, cpu.flag(Flag::Carry));

    let mut cpu = Cpu::default();
    let mmu = bus(&[0xFF]);
    cpu.set_register(Register::A, 0x01);
    assert_eq!(8, cpu.sub_immediate(&mmu));
    assert_eq!(0x02, cpu.register(Register::A));
    assert_eq!(false, cpu.flag(Flag::Zero));
    assert_eq!(true, cpu.flag(Flag::HalfCarry));
    assert_eq!(true, cpu.flag(Flag::Negative));
    assert_eq!(true, cpu.flag(Flag::Carry));
}

#[test]
fn sub_carry_immediate() {
    let mut cpu = Cpu::default();
    let mmu = bus(&[0x01]);
    cpu.set_register(Register::A, 0x11);
    cpu.set_flag(Flag::Carry, true);
    assert_eq!(8, cpu.sub_carry_immediate(&mmu));
    assert_eq!(0x0F, cpu.register(Register::A));
    assert_eq!(false, cpu.flag(Flag::Zero));
    assert_eq!(true, cpu.flag(Flag::HalfCarry));
    assert_eq!(true, cpu.flag(Flag::Negative));
    assert_eq!(false, cpu.flag(Flag::Carry));

    let mut cpu = Cpu::default();
    let mmu = bus(&[0xFF]);
    cpu.set_register(Register::A, 0x00);
    cpu.set_flag(Flag::Carry, true);
    assert_eq!(8, cpu.sub_carry_immediate(&mmu));
    assert_eq!(0x00, cpu.register(Register::A));
    assert_eq!(true, cpu.flag(Flag::Zero));
    assert_eq!(true, cpu.flag(Flag::HalfCarry));
    assert_eq!(true, cpu.flag(Flag::Negative));
    assert_eq!(true, cpu.flag(Flag::Carry));

    let mut cpu = Cpu::default();
    let mmu = bus(&[0xFF]);
    cpu.set_register(Register::A, 0x00);
    cpu.set_flag(Flag::Carry, false);
    assert_eq!(8, cpu.sub_carry_immediate(&mmu));
    assert_eq!(0x01, cpu.register(Register::A));
    assert_eq!(false, cpu.flag(Flag::Zero));
    assert_eq!(true, cpu.flag(Flag::HalfCarry));
    assert_eq!(true, cpu.flag(Flag::Negative));
    assert_eq!(true, cpu.flag(Flag::Carry));
}

#[test]
fn and_immediate() {
    let mut cpu = Cpu::default();
    let mmu = bus(&[0x0F]);
    cpu.set_register(Register::A, 0x55);
    assert_eq!(8, cpu.and_immediate(&mmu));
    assert_eq!(0x05, cpu.register(Register::A));
    assert_eq!(0x0001, cpu.pc);
    assert_eq!(false, cpu.flag(Flag::Zero));
    assert_eq!(true, cpu.flag(Flag::HalfCarry));
    assert_eq!(false, cpu.flag(Flag::Negative));
    assert_eq!(false, cpu.flag(Flag::Carry));
}

#[test]
fn or_immediate() {
    let mut cpu = Cpu::default();
    let mmu = bus(&[0x0F]);
    cpu.set_register(Register::A, 0x50);
    assert_eq!(8, cpu.or_immediate(&mmu));
    assert_eq!(0x5F, cpu.register(Register::A));
    assert_eq!(0x0001, cpu.pc);
    assert_eq!(false, cpu.flag(Flag::Zero));
    assert_eq!(false, cpu.flag(Flag::HalfCarry));
    assert_eq!(false, cpu.flag(Flag::Negative));
    assert_eq!(false, cpu.flag(Flag::Carry));
}

#[test]
fn xor_immediate() {
    let mut cpu = Cpu::default();
    let mmu = bus(&[0xFF]);
    cpu.set_register(Register::A, 0x55);
    assert_eq!(8, cpu.xor_immediate(&mmu));
    assert_eq!(0xAA, cpu.register(Register::A));
    assert_eq!(0x0001, cpu.pc);
    assert_eq!(false, cpu.flag(Flag::Zero));
    assert_eq!(false, cpu.flag(Flag::HalfCarry));
    assert_eq!(false, cpu.flag(Flag::Negative));
    assert_eq!(false, cpu.flag(Flag::Carry));
}

#[test]
fn cp_immediate() {
    let mut cpu = Cpu::default();
    let mmu = bus(&[0x42]);
    cpu.set_register(Register::A, 0x42);
    assert_eq!(8, cpu.cp_immediate(&mmu));
    assert_eq!(0x42, cpu.register(Register::A));
    assert_eq!(0x0001, cpu.pc);
    assert_eq!(true, cpu.flag(Flag::Zero));
    assert_eq!(false, cpu.flag(Flag::HalfCarry));
    assert_eq!(true, cpu.flag(Flag::Negative));
    assert_eq!(false, cpu.flag(Flag::Carry));
}

#[test]
fn rst() {
    let mut cpu = Cpu::default();
    let mut mmu = bus(&[0x00, 0x00, 0x00, 0x00, 0x00, 0x00, 0x00, 0x00]);
    cpu.set_wide_register(WideRegister::SP, 0x0008);
    cpu.set_wide_register(WideRegister::PC, 0x0001);
    assert_eq!(16, cpu.rst(0x0003, &mut mmu));
    assert_eq!(0x0003, cpu.wide_register(WideRegister::PC));
    assert_eq!(0x0006, cpu.wide_register(WideRegister::SP));
    assert_eq!(0x01, mmu.read(0x0006));
    assert_eq!(0x00, mmu.read(0x0007));
}

#[test]
fn reti() {
    let mut cpu = Cpu::default();
    let mmu = bus(&[0x00, 0x00, 0x00, 0x00, 0x02, 0x00]);
    cpu.set_wide_register(WideRegister::SP, 0x0004);
    cpu.interrupts_enabled = false;
    assert_eq!(16, cpu.reti(&mmu));
    assert_eq!(true, cpu.interrupts_enabled);
    assert_eq!(0x0006, cpu.wide_register(WideRegister::SP));
    assert_eq!(0x0002, cpu.wide_register(WideRegister::PC));
}

#[test]
fn write_high_immediate() {
    let mut cpu = Cpu::default();
    let mut mmu = bus(&[0x04]);
    cpu.set_register(Register::A, 0x42);
    assert_eq!(12, cpu.write_high_immediate(Register::A, &mut mmu));
    assert_eq!(0x42, mmu.read(0xFF04));
}

#[test]
fn write_high_register() {
    let mut cpu = Cpu::default();
    let mut mmu = Mbc0::new();
    cpu.set_register(Register::A, 0x42);
    cpu.set_register(Register::C, 0xBE);
    assert_eq!(8, cpu.write_high_register(Register::C, Register::A, &mut mmu));
    assert_eq!(0x42, mmu.read(0xFFBE));
}

#[test]
fn read_high_immediate() {
    let mut cpu = Cpu::default();
    let mut mmu = bus(&[0x04]);
    mmu.write(0xFF04, 0x42);
    assert_eq!(12, cpu.read_high_immediate(Register::A, &mut mmu));
    assert_eq!(0x42, cpu.register(Register::A));
    assert_eq!(0x0001, cpu.pc);
}

#[test]
fn read_high_register() {
    let mut cpu = Cpu::default();
    let mut mmu = Mbc0::new();
    mmu.write(0xFFBE, 0x42);
    cpu.set_register(Register::C, 0xBE);
    assert_eq!(8, cpu.read_high_register(Register::C, Register::A, &mut mmu));
    assert_eq!(0x42, cpu.register(Register::A));
}

#[test]
fn write_register_immediate() {
    let mut cpu = Cpu::default();
    let mut mmu = bus(&[0x04, 0x00, 0x00, 0x00, 0x00]);
    cpu.set_register(Register::A, 0x42);
    assert_eq!(16, cpu.write_register_immediate(Register::A, &mut mmu));
    assert_eq!(0x42, mmu.read(0x0004));
    assert_eq!(0x0002, cpu.pc);
}

#[test]
fn read_register_immediate() {
    let mut cpu = Cpu::default();
    let mut mmu = bus(&[0x04, 0x00, 0x00, 0x00, 0x42]);
    assert_eq!(16, cpu.read_register_immediate(Register::A, &mut mmu));
    assert_eq!(0x42, cpu.register(Register::A));
    assert_eq!(0x0002, cpu.pc);
}
