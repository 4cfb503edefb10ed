//! The LR35902 processor core: the packed register file, the ALU
//! instruction handlers, the two 256-entry dispatch tables and the
//! interrupt servicer.

use vstd::prelude::*;
use crate::regs::{Register, WideRegister, Flag, Condition, Flags, CpuView};
use crate::arith::{lemma_split16, lemma_wrap16_add, wadd8, wsub8, wadd16, wsub16, wrap16};
use crate::alu;
use crate::mmu::{Mmu, Port, word_at, stack_push};
use vstd::arithmetic::div_mod::lemma_mod_add_multiples_vanish;

verus! {

/// The processor state: six 16-bit register cells and the three mode bits.
///
/// `af` packs the accumulator with the flag byte, `bc`, `de` and `hl` pack
/// the six general registers pairwise.  The mathematical view of a value of
/// this type is a [`CpuView`], which names every 8-bit half and flag bit.
#[derive(Default)]
pub struct Cpu {
    pub pc: u16,
    pub sp: u16,
    pub af: u16,
    pub bc: u16,
    pub de: u16,
    pub hl: u16,

    pub interrupts_enabled: bool,

    pub stopped: bool,

    pub halted: bool,
}

impl View for Cpu {
    type V = CpuView;

    open spec fn view(&self) -> CpuView {
        CpuView {
            pc: self.pc,
            sp: self.sp,
            a: (self.af / 0x100) as u8,
            flags: Flags {
                z: self.af / 0x80 % 2 == 1,
                n: self.af / 0x40 % 2 == 1,
                h: self.af / 0x20 % 2 == 1,
                c: self.af / 0x10 % 2 == 1,
            },
            b: (self.bc / 0x100) as u8,
            c: (self.bc % 0x100) as u8,
            d: (self.de / 0x100) as u8,
            e: (self.de % 0x100) as u8,
            h: (self.hl / 0x100) as u8,
            l: (self.hl % 0x100) as u8,
            ime: self.interrupts_enabled,
            halted: self.halted,
            stopped: self.stopped,
        }
    }
}

/// The bit-7..4 flag values of a 16-bit cell depend only on its low byte.
proof fn lemma_flag_bits_low(x: u16, y: u16)
    requires
        x % 0x100 == y % 0x100,
    ensures
        x / 0x80 % 2 == y / 0x80 % 2,
        x / 0x40 % 2 == y / 0x40 % 2,
        x / 0x20 % 2 == y / 0x20 % 2,
        x / 0x10 % 2 == y / 0x10 % 2,
        x % 0x10 == y % 0x10,
{
    assert(x % 0x100 == y % 0x100 ==> x / 0x80 % 2 == y / 0x80 % 2 && x / 0x40 % 2 == y / 0x40
        % 2 && x / 0x20 % 2 == y / 0x20 % 2 && x / 0x10 % 2 == y / 0x10 % 2 && x % 0x10 == y
        % 0x10) by (bit_vector);
}


/// Any of the five low bits set makes the masked value nonzero, and
/// none set makes it zero.
proof fn lemma_low_five_bits(x: u8)
    ensures
        x & 0x01 != 0 ==> x & 0x1F != 0,
        x & 0x02 != 0 ==> x & 0x1F != 0,
        x & 0x04 != 0 ==> x & 0x1F != 0,
        x & 0x08 != 0 ==> x & 0x1F != 0,
        x & 0x10 != 0 ==> x & 0x1F != 0,
        (x & 0x01 == 0 && x & 0x02 == 0 && x & 0x04 == 0 && x & 0x08 == 0 && x & 0x10 == 0)
            ==> x & 0x1F == 0,
{
    assert((x & 0x01 != 0 ==> x & 0x1F != 0) && (x & 0x02 != 0 ==> x & 0x1F != 0) && (x & 0x04
        != 0 ==> x & 0x1F != 0) && (x & 0x08 != 0 ==> x & 0x1F != 0) && (x & 0x10 != 0 ==> x
        & 0x1F != 0) && ((x & 0x01 == 0 && x & 0x02 == 0 && x & 0x04 == 0 && x & 0x08 == 0 && x
        & 0x10 == 0) ==> x & 0x1F == 0)) by (bit_vector);
}

/// The fault a step can surface: the fetched byte was one of the
/// hardware-undefined opcode slots.  Nothing is executed and no state
/// changes; `at` is the address the byte was fetched from.
#[derive(Copy, Clone, PartialEq, Eq, Structural, Debug)]
pub enum CpuError {
    IllegalOpcode { opcode: u8, at: u16 },
}


/// The 8-bit operand of the instruction grids, decoded from a 3-bit
/// index; index 6 (the memory operand) is handled by the caller.
fn reg_from_index(i: u8) -> (r: Register)
    ensures
        r == crate::step::reg_of(i),
{
    if i == 0 {
        Register::B
    } else if i == 1 {
        Register::C
    } else if i == 2 {
        Register::D
    } else if i == 3 {
        Register::E
    } else if i == 4 {
        Register::H
    } else if i == 5 {
        Register::L
    } else {
        Register::A
    }
}

/// The register pair of the 0x00..0x3F block, decoded from bits 5..4.
fn pair_from_index(i: u8) -> (r: WideRegister)
    ensures
        r == crate::step::pair_of(i),
{
    if i == 0 {
        WideRegister::BC
    } else if i == 1 {
        WideRegister::DE
    } else if i == 2 {
        WideRegister::HL
    } else {
        WideRegister::SP
    }
}

/// The stack pair of the 0xC0..0xFF block, decoded from bits 5..4.
fn stack_pair_from_index(i: u8) -> (r: WideRegister)
    ensures
        r == crate::step::stack_pair_of(i),
{
    if i == 0 {
        WideRegister::BC
    } else if i == 1 {
        WideRegister::DE
    } else if i == 2 {
        WideRegister::HL
    } else {
        WideRegister::AF
    }
}

/// The branch condition, decoded from bits 4..3.
fn cond_from_index(i: u8) -> (r: Condition)
    ensures
        r == crate::step::cond_of(i),
{
    if i == 0 {
        Condition::NotZero
    } else if i == 1 {
        Condition::Zero
    } else if i == 2 {
        Condition::NotCarry
    } else {
        Condition::Carry
    }
}

impl Cpu {
    /// The packed flag register keeps its low nibble clear.
    pub open spec fn wf(self) -> bool {
        self.af % 0x10 == 0
    }

    /// A core in the reset state: every register cell zero, interrupts
    /// disabled, neither halted nor stopped.
    pub fn new() -> (cpu: Cpu)
        ensures
            cpu@ == CpuView::reset(),
            cpu.wf(),
    {
        Cpu {
            pc: 0,
            sp: 0,
            af: 0,
            bc: 0,
            de: 0,
            hl: 0,
            interrupts_enabled: false,
            stopped: false,
            halted: false,
        }
    }

    /// Reads one ALU flag out of F.
    pub fn flag(&self, flag: Flag) -> (value: bool)
        ensures
            value == self@.flags.flag(flag),
    {
        match flag {
            Flag::Zero => self.af / 0x80 % 2 == 1,
            Flag::Negative => self.af / 0x40 % 2 == 1,
            Flag::HalfCarry => self.af / 0x20 % 2 == 1,
            Flag::Carry => self.af / 0x10 % 2 == 1,
        }
    }

    /// Replaces the four flag bits at once, leaving A and the low nibble
    /// of F untouched.
    fn set_f(&mut self, z: bool, n: bool, h: bool, c: bool)
        ensures
            final(self)@ == (CpuView { flags: (Flags { z, n, h, c }), ..old(self)@ }),
            final(self).af % 0x10 == old(self).af % 0x10,
    {
        let bits: u16 = (if z {
            0x80
        } else {
            0
        }) + (if n {
            0x40
        } else {
            0
        }) + (if h {
            0x20
        } else {
            0
        }) + (if c {
            0x10
        } else {
            0
        });
        let a0: u16 = self.af;
        self.af = a0 / 0x100 * 0x100 + a0 % 0x10 + bits;
        proof {
            let a1: u16 = self.af;
            assert(a1 == a0 / 0x100 * 0x100 + a0 % 0x10 + (if z {
                0x80int
            } else {
                0int
            }) + (if n {
                0x40int
            } else {
                0int
            }) + (if h {
                0x20int
            } else {
                0int
            }) + (if c {
                0x10int
            } else {
                0int
            }) ==> a1 / 0x100 == a0 / 0x100 && a1 % 0x10 == a0 % 0x10 && (a1 / 0x80 % 2 == 1)
                == z && (a1 / 0x40 % 2 == 1) == n && (a1 / 0x20 % 2 == 1) == h && (a1 / 0x10 % 2
                == 1) == c) by (bit_vector);
        }
    }

    /// Sets or clears one ALU flag.
    pub fn set_flag(&mut self, flag: Flag, value: bool)
        ensures
            final(self)@ == old(self)@.with_flags(old(self)@.flags.with_flag(flag, value)),
            final(self).af % 0x10 == old(self).af % 0x10,
    {
        let z = self.flag(Flag::Zero);
        let n = self.flag(Flag::Negative);
        let h = self.flag(Flag::HalfCarry);
        let c = self.flag(Flag::Carry);
        match flag {
            Flag::Zero => self.set_f(value, n, h, c),
            Flag::Negative => self.set_f(z, value, h, c),
            Flag::HalfCarry => self.set_f(z, n, value, c),
            Flag::Carry => self.set_f(z, n, h, value),
        }
    }

    /// Reads one of the seven 8-bit registers.
    pub fn register(&self, reg: Register) -> (value: u8)
        ensures
            value == self@.get8(reg),
    {
        match reg {
            Register::A => (self.af / 0x100) as u8,
            Register::B => (self.bc / 0x100) as u8,
            Register::C => (self.bc % 0x100) as u8,
            Register::D => (self.de / 0x100) as u8,
            Register::E => (self.de % 0x100) as u8,
            Register::H => (self.hl / 0x100) as u8,
            Register::L => (self.hl % 0x100) as u8,
        }
    }

    /// Writes one of the seven 8-bit registers.
    pub fn set_register(&mut self, reg: Register, value: u8)
        ensures
            final(self)@ == old(self)@.set8(reg, value),
            final(self).af % 0x10 == old(self).af % 0x10,
    {
        match reg {
            Register::A => {
                let a0: u16 = self.af;
                self.af = a0 % 0x100 + (value as u16) * 0x100;
                proof {
                    lemma_split16(value as int, (a0 % 0x100) as int);
                    lemma_flag_bits_low(a0, self.af);
                }
            },
            Register::B => {
                let b0: u16 = self.bc;
                self.bc = b0 % 0x100 + (value as u16) * 0x100;
                proof {
                    lemma_split16(value as int, (b0 % 0x100) as int);
                }
            },
            Register::C => {
                let b0: u16 = self.bc;
                self.bc = b0 / 0x100 * 0x100 + value as u16;
                proof {
                    lemma_split16((b0 / 0x100) as int, value as int);
                }
            },
            Register::D => {
                let d0: u16 = self.de;
                self.de = d0 % 0x100 + (value as u16) * 0x100;
                proof {
                    lemma_split16(value as int, (d0 % 0x100) as int);
                }
            },
            Register::E => {
                let d0: u16 = self.de;
                self.de = d0 / 0x100 * 0x100 + value as u16;
                proof {
                    lemma_split16((d0 / 0x100) as int, value as int);
                }
            },
            Register::H => {
                let h0: u16 = self.hl;
                self.hl = h0 % 0x100 + (value as u16) * 0x100;
                proof {
                    lemma_split16(value as int, (h0 % 0x100) as int);
                }
            },
            Register::L => {
                let h0: u16 = self.hl;
                self.hl = h0 / 0x100 * 0x100 + value as u16;
                proof {
                    lemma_split16((h0 / 0x100) as int, value as int);
                }
            },
        }
    }

    /// Reads one of the six 16-bit register pairs.
    pub fn wide_register(&self, reg: WideRegister) -> (value: u16)
        requires
            self.wf(),
        ensures
            value == self@.get16(reg),
    {
        match reg {
            WideRegister::PC => self.pc,
            WideRegister::SP => self.sp,
            WideRegister::AF => {
                proof {
                    let x: u16 = self.af;
                    assert(x % 0x10 == 0 ==> x == x / 0x100 * 0x100 + (if x / 0x80 % 2 == 1 {
                        0x80int
                    } else {
                        0int
                    }) + (if x / 0x40 % 2 == 1 {
                        0x40int
                    } else {
                        0int
                    }) + (if x / 0x20 % 2 == 1 {
                        0x20int
                    } else {
                        0int
                    }) + (if x / 0x10 % 2 == 1 {
                        0x10int
                    } else {
                        0int
                    })) by (bit_vector);
                }
                self.af
            },
            WideRegister::BC => self.bc,
            WideRegister::DE => self.de,
            WideRegister::HL => self.hl,
        }
    }

    /// Writes one of the six 16-bit register pairs; a write to AF clears
    /// the low nibble of F.
    pub fn set_wide_register(&mut self, reg: WideRegister, value: u16)
        ensures
            final(self)@ == old(self)@.set16(reg, value),
            old(self).wf() ==> final(self).wf(),
    {
        match reg {
            WideRegister::PC => self.pc = value,
            WideRegister::SP => self.sp = value,
            WideRegister::AF => {
                self.af = value / 0x10 * 0x10;
                proof {
                    let v: u16 = value;
                    let m: u16 = self.af;
                    assert(m == v / 0x10 * 0x10 ==> m / 0x100 == v / 0x100 && m % 0x10 == 0 && m
                        / 0x80 % 2 == v % 0x100 / 0x80 % 2 && m / 0x40 % 2 == v % 0x100 / 0x40 % 2
                        && m / 0x20 % 2 == v % 0x100 / 0x20 % 2 && m / 0x10 % 2 == v % 0x100 / 0x10
                        % 2) by (bit_vector);
                }
            },
            WideRegister::BC => {
                self.bc = value;
            },
            WideRegister::DE => {
                self.de = value;
            },
            WideRegister::HL => {
                self.hl = value;
            },
        }
    }

    /// NOP: four cycles of nothing.
    pub fn nop(&mut self) -> (cycles: usize)
        ensures
            *final(self) == *old(self),
            cycles == 4,
    {
        4
    }

    /// HALT: the core idles until an interrupt is pending.
    pub fn halt(&mut self) -> (cycles: usize)
        ensures
            final(self)@ == (CpuView { halted: true, ..old(self)@ }),
            final(self).af == old(self).af,
            cycles == 4,
    {
        self.halted = true;
        4
    }

    /// DI: clears the interrupt master enable.
    pub fn di(&mut self) -> (cycles: usize)
        ensures
            final(self)@ == (CpuView { ime: false, ..old(self)@ }),
            final(self).af == old(self).af,
            cycles == 4,
    {
        self.interrupts_enabled = false;
        4
    }

    /// EI: sets the interrupt master enable, effective at once.
    pub fn ei(&mut self) -> (cycles: usize)
        ensures
            final(self)@ == (CpuView { ime: true, ..old(self)@ }),
            final(self).af == old(self).af,
            cycles == 4,
    {
        self.interrupts_enabled = true;
        4
    }

    /// LD r,r': copies one 8-bit register into another.
    pub fn copy_register(&mut self, dest: Register, src: Register) -> (cycles: usize)
        ensures
            final(self)@ == old(self)@.set8(dest, old(self)@.get8(src)),
            final(self).af % 0x10 == old(self).af % 0x10,
            cycles == 4,
    {
        let value = self.register(src);
        self.set_register(dest, value);
        4
    }

    /// LD SP,HL and the like: copies one 16-bit pair into another.
    pub fn copy_wide_register(&mut self, dest: WideRegister, src: WideRegister) -> (cycles: usize)
        requires
            old(self).wf(),
        ensures
            final(self)@ == old(self)@.set16(dest, old(self)@.get16(src)),
            final(self).wf(),
            cycles == 8,
    {
        let value = self.wide_register(src);
        self.set_wide_register(dest, value);
        8
    }

    /// INC rr: one more in a 16-bit pair, touching no flag.
    pub fn inc_wide(&mut self, reg: WideRegister) -> (cycles: usize)
        requires
            old(self).wf(),
        ensures
            final(self)@ == old(self)@.set16(reg, wrap16(old(self)@.get16(reg) + 1)),
            final(self).wf(),
            cycles == 8,
    {
        let value = wadd16(self.wide_register(reg), 1);
        self.set_wide_register(reg, value);
        8
    }

    /// DEC rr: one less in a 16-bit pair, touching no flag.
    pub fn dec_wide(&mut self, reg: WideRegister) -> (cycles: usize)
        requires
            old(self).wf(),
        ensures
            final(self)@ == old(self)@.set16(reg, wrap16(old(self)@.get16(reg) - 1)),
            final(self).wf(),
            cycles == 8,
    {
        let value = wsub16(self.wide_register(reg), 1);
        self.set_wide_register(reg, value);
        8
    }

    /// INC r: one more in an 8-bit register; C is kept.
    pub fn inc(&mut self, reg: Register) -> (cycles: usize)
        requires
            old(self).wf(),
        ensures
            ({
                let r = alu::inc8(old(self)@.get8(reg), old(self)@.flags);
                final(self)@ == old(self)@.set8(reg, r.0).with_flags(r.1)
            }),
            final(self).wf(),
            cycles == 4,
    {
        let value = self.register(reg);
        let c = self.flag(Flag::Carry);
        let result = wadd8(value, 1);
        self.set_f(result == 0, false, value % 0x10 == 0xF, c);
        self.set_register(reg, result);
        4
    }

    /// DEC r: one less in an 8-bit register; C is kept.
    pub fn dec(&mut self, reg: Register) -> (cycles: usize)
        requires
            old(self).wf(),
        ensures
            ({
                let r = alu::dec8(old(self)@.get8(reg), old(self)@.flags);
                final(self)@ == old(self)@.set8(reg, r.0).with_flags(r.1)
            }),
            final(self).wf(),
            cycles == 4,
    {
        let value = self.register(reg);
        let c = self.flag(Flag::Carry);
        let result = wsub8(value, 1);
        self.set_f(result == 0, true, value % 0x10 == 0, c);
        self.set_register(reg, result);
        4
    }

    /// SCF: sets C, clears N and H, keeps Z.
    pub fn scf(&mut self) -> (cycles: usize)
        requires
            old(self).wf(),
        ensures
            final(self)@ == old(self)@.with_flags(
                Flags { z: old(self)@.flags.z, n: false, h: false, c: true },
            ),
            final(self).wf(),
            cycles == 4,
    {
        let z = self.flag(Flag::Zero);
        self.set_f(z, false, false, true);
        4
    }

    /// CCF: complements C, clears N and H, keeps Z.
    pub fn ccf(&mut self) -> (cycles: usize)
        requires
            old(self).wf(),
        ensures
            final(self)@ == old(self)@.with_flags(
                Flags { z: old(self)@.flags.z, n: false, h: false, c: !old(self)@.flags.c },
            ),
            final(self).wf(),
            cycles == 4,
    {
        let z = self.flag(Flag::Zero);
        let c = self.flag(Flag::Carry);
        self.set_f(z, false, false, !c);
        4
    }

    /// CPL: inverts every bit of A; sets N and H, keeps Z and C.
    pub fn cpl(&mut self) -> (cycles: usize)
        requires
            old(self).wf(),
        ensures
            final(self)@ == old(self)@.set8(Register::A, alu::cpl8(old(self)@.a)).with_flags(
                Flags { z: old(self)@.flags.z, n: true, h: true, c: old(self)@.flags.c },
            ),
            final(self).wf(),
            cycles == 4,
    {
        let a = self.register(Register::A);
        let z = self.flag(Flag::Zero);
        let c = self.flag(Flag::Carry);
        self.set_f(z, true, true, c);
        self.set_register(Register::A, !a);
        4
    }

    /// DAA: adjusts A to the packed-BCD result of the last operation.
    pub fn daa(&mut self) -> (cycles: usize)
        requires
            old(self).wf(),
        ensures
            ({
                let r = alu::daa8(old(self)@.a, old(self)@.flags);
                final(self)@ == old(self)@.set8(Register::A, r.0).with_flags(r.1)
            }),
            final(self).wf(),
            cycles == 4,
    {
        let a = self.register(Register::A);
        let n = self.flag(Flag::Negative);
        let h = self.flag(Flag::HalfCarry);
        let c = self.flag(Flag::Carry);
        if !n {
            let low_adj: u8 = if h || a % 0x10 > 9 {
                0x06
            } else {
                0
            };
            let carry_out = c || a > 0x99;
            let adj: u8 = low_adj + if carry_out {
                0x60
            } else {
                0
            };
            let result = wadd8(a, adj);
            self.set_f(result == 0, n, false, carry_out);
            self.set_register(Register::A, result);
        } else {
            let adj: u8 = (if h {
                0x06
            } else {
                0
            }) + (if c {
                0x60
            } else {
                0
            });
            let result = wsub8(a, adj);
            self.set_f(result == 0, n, false, c);
            self.set_register(Register::A, result);
        }
        4
    }

    /// ADD HL,rr: 16-bit addition into HL; Z is kept.
    pub fn add_wide(&mut self, reg: WideRegister) -> (cycles: usize)
        requires
            old(self).wf(),
        ensures
            ({
                let r = alu::add16(old(self)@.get16(WideRegister::HL), old(self)@.get16(reg), old(
                    self,
                )@.flags);
                final(self)@ == old(self)@.set16(WideRegister::HL, r.0).with_flags(r.1)
            }),
            final(self).wf(),
            cycles == 8,
    {
        let hl = self.wide_register(WideRegister::HL);
        let value = self.wide_register(reg);
        let z = self.flag(Flag::Zero);
        let total: u32 = hl as u32 + value as u32;
        let half = hl % 0x1000 + value % 0x1000 > 0xFFF;
        let carry_out = total > 0xFFFF;
        let result: u16 = (total % 0x10000) as u16;
        self.set_f(z, false, half, carry_out);
        self.set_wide_register(WideRegister::HL, result);
        8
    }

    /// JP HL: jumps to the address in HL without touching the bus.
    pub fn jmp_hl(&mut self) -> (cycles: usize)
        requires
            old(self).wf(),
        ensures
            final(self)@ == (CpuView { pc: old(self)@.get16(WideRegister::HL), ..old(self)@ }),
            final(self).wf(),
            cycles == 4,
    {
        self.pc = self.wide_register(WideRegister::HL);
        4
    }

    /// The shared core of ADD and ADC: adds an operand and an optional
    /// carry into A.
    pub fn add_value(&mut self, value: u8, carry: bool)
        requires
            old(self).wf(),
        ensures
            ({
                let r = alu::add8(old(self)@.a, value, carry);
                final(self)@ == old(self)@.set8(Register::A, r.0).with_flags(r.1)
            }),
            final(self).wf(),
    {
        let a = self.register(Register::A);
        let ci: u8 = if carry {
            1
        } else {
            0
        };
        let total: u16 = a as u16 + value as u16 + ci as u16;
        let half = a % 0x10 + value % 0x10 + ci > 0xF;
        let carry_out = total > 0xFF;
        let result: u8 = (total % 0x100) as u8;
        self.set_f(result == 0, false, half, carry_out);
        self.set_register(Register::A, result);
    }

    /// The shared core of SUB and SBC: subtracts an operand and an
    /// optional borrow from A.
    pub fn sub_value(&mut self, value: u8, carry: bool)
        requires
            old(self).wf(),
        ensures
            ({
                let r = alu::sub8(old(self)@.a, value, carry);
                final(self)@ == old(self)@.set8(Register::A, r.0).with_flags(r.1)
            }),
            final(self).wf(),
    {
        let a = self.register(Register::A);
        let ci: u8 = if carry {
            1
        } else {
            0
        };
        let total: u16 = 0x100 + a as u16 - value as u16 - ci as u16;
        let half = a % 0x10 < value % 0x10 + ci;
        let carry_out = (a as u16) < value as u16 + ci as u16;
        let result: u8 = (total % 0x100) as u8;
        proof {
            lemma_mod_add_multiples_vanish(a - value - ci, 0x100);
        }
        self.set_f(result == 0, true, half, carry_out);
        self.set_register(Register::A, result);
    }

    /// CP s: SUB's flags without the writeback; A is unchanged.
    pub fn cp_value(&mut self, value: u8, carry: bool)
        requires
            old(self).wf(),
        ensures
            final(self)@ == old(self)@.with_flags(alu::sub8(old(self)@.a, value, carry).1),
            final(self).wf(),
    {
        let a = self.register(Register::A);
        let ci: u8 = if carry {
            1
        } else {
            0
        };
        let total: u16 = 0x100 + a as u16 - value as u16 - ci as u16;
        let half = a % 0x10 < value % 0x10 + ci;
        let carry_out = (a as u16) < value as u16 + ci as u16;
        let result: u8 = (total % 0x100) as u8;
        proof {
            lemma_mod_add_multiples_vanish(a - value - ci, 0x100);
        }
        self.set_f(result == 0, true, half, carry_out);
    }

    /// AND s into A.
    pub fn and_value(&mut self, value: u8)
        requires
            old(self).wf(),
        ensures
            ({
                let r = alu::and8(old(self)@.a, value);
                final(self)@ == old(self)@.set8(Register::A, r.0).with_flags(r.1)
            }),
            final(self).wf(),
    {
        let a = self.register(Register::A) & value;
        self.set_f(a == 0, false, true, false);
        self.set_register(Register::A, a);
    }

    /// XOR s into A.
    pub fn xor_value(&mut self, value: u8)
        requires
            old(self).wf(),
        ensures
            ({
                let r = alu::xor8(old(self)@.a, value);
                final(self)@ == old(self)@.set8(Register::A, r.0).with_flags(r.1)
            }),
            final(self).wf(),
    {
        let a = self.register(Register::A) ^ value;
        self.set_f(a == 0, false, false, false);
        self.set_register(Register::A, a);
    }

    /// OR s into A.
    pub fn or_value(&mut self, value: u8)
        requires
            old(self).wf(),
        ensures
            ({
                let r = alu::or8(old(self)@.a, value);
                final(self)@ == old(self)@.set8(Register::A, r.0).with_flags(r.1)
            }),
            final(self).wf(),
    {
        let a = self.register(Register::A) | value;
        self.set_f(a == 0, false, false, false);
        self.set_register(Register::A, a);
    }

    /// ADD A,r.
    pub fn add(&mut self, reg: Register) -> (cycles: usize)
        requires
            old(self).wf(),
        ensures
            ({
                let r = alu::add8(old(self)@.a, old(self)@.get8(reg), false);
                final(self)@ == old(self)@.set8(Register::A, r.0).with_flags(r.1)
            }),
            final(self).wf(),
            cycles == 4,
    {
        let value = self.register(reg);
        self.add_value(value, false);
        4
    }

    /// ADC A,r.
    pub fn add_carry(&mut self, reg: Register) -> (cycles: usize)
        requires
            old(self).wf(),
        ensures
            ({
                let r = alu::add8(old(self)@.a, old(self)@.get8(reg), old(self)@.flags.c);
                final(self)@ == old(self)@.set8(Register::A, r.0).with_flags(r.1)
            }),
            final(self).wf(),
            cycles == 4,
    {
        let value = self.register(reg);
        let carry = self.flag(Flag::Carry);
        self.add_value(value, carry);
        4
    }

    /// SUB A,r.
    pub fn sub(&mut self, reg: Register) -> (cycles: usize)
        requires
            old(self).wf(),
        ensures
            ({
                let r = alu::sub8(old(self)@.a, old(self)@.get8(reg), false);
                final(self)@ == old(self)@.set8(Register::A, r.0).with_flags(r.1)
            }),
            final(self).wf(),
            cycles == 4,
    {
        let value = self.register(reg);
        self.sub_value(value, false);
        4
    }

    /// SBC A,r.
    pub fn sub_carry(&mut self, reg: Register) -> (cycles: usize)
        requires
            old(self).wf(),
        ensures
            ({
                let r = alu::sub8(old(self)@.a, old(self)@.get8(reg), old(self)@.flags.c);
                final(self)@ == old(self)@.set8(Register::A, r.0).with_flags(r.1)
            }),
            final(self).wf(),
            cycles == 4,
    {
        let value = self.register(reg);
        let carry = self.flag(Flag::Carry);
        self.sub_value(value, carry);
        4
    }

    /// AND A,r.
    pub fn and(&mut self, reg: Register) -> (cycles: usize)
        requires
            old(self).wf(),
        ensures
            ({
                let r = alu::and8(old(self)@.a, old(self)@.get8(reg));
                final(self)@ == old(self)@.set8(Register::A, r.0).with_flags(r.1)
            }),
            final(self).wf(),
            cycles == 4,
    {
        let value = self.register(reg);
        self.and_value(value);
        4
    }

    /// XOR A,r.
    pub fn xor(&mut self, reg: Register) -> (cycles: usize)
        requires
            old(self).wf(),
        ensures
            ({
                let r = alu::xor8(old(self)@.a, old(self)@.get8(reg));
                final(self)@ == old(self)@.set8(Register::A, r.0).with_flags(r.1)
            }),
            final(self).wf(),
            cycles == 4,
    {
        let value = self.register(reg);
        self.xor_value(value);
        4
    }

    /// OR A,r.
    pub fn or(&mut self, reg: Register) -> (cycles: usize)
        requires
            old(self).wf(),
        ensures
            ({
                let r = alu::or8(old(self)@.a, old(self)@.get8(reg));
                final(self)@ == old(self)@.set8(Register::A, r.0).with_flags(r.1)
            }),
            final(self).wf(),
            cycles == 4,
    {
        let value = self.register(reg);
        self.or_value(value);
        4
    }

    /// CP A,r.
    pub fn cp(&mut self, reg: Register) -> (cycles: usize)
        requires
            old(self).wf(),
        ensures
            final(self)@ == old(self)@.with_flags(
                alu::sub8(old(self)@.a, old(self)@.get8(reg), false).1,
            ),
            final(self).wf(),
            cycles == 4,
    {
        let value = self.register(reg);
        self.cp_value(value, false);
        4
    }

    /// Rotates a byte left through itself; flags per RLC.
    pub fn rlc_value(&mut self, value: u8) -> (r: u8)
        requires
            old(self).wf(),
        ensures
            r == alu::rlc8(value).0,
            final(self)@ == old(self)@.with_flags(alu::rlc8(value).1),
            final(self).wf(),
    {
        let result: u8 = (value % 0x80) * 2 + value / 0x80;
        self.set_f(result == 0, false, false, value / 0x80 == 1);
        result
    }

    /// Shifts a byte left, the old carry entering bit 0; flags per RL.
    pub fn rl_value(&mut self, value: u8) -> (r: u8)
        requires
            old(self).wf(),
        ensures
            r == alu::rl8(value, old(self)@.flags.c).0,
            final(self)@ == old(self)@.with_flags(alu::rl8(value, old(self)@.flags.c).1),
            final(self).wf(),
    {
        let cin = self.flag(Flag::Carry);
        let result: u8 = (value % 0x80) * 2 + if cin {
            1
        } else {
            0
        };
        self.set_f(result == 0, false, false, value / 0x80 == 1);
        result
    }

    /// Rotates a byte right through itself; flags per RRC.
    pub fn rrc_value(&mut self, value: u8) -> (r: u8)
        requires
            old(self).wf(),
        ensures
            r == alu::rrc8(value).0,
            final(self)@ == old(self)@.with_flags(alu::rrc8(value).1),
            final(self).wf(),
    {
        let result: u8 = (value % 2) * 0x80 + value / 2;
        self.set_f(result == 0, false, false, value % 2 == 1);
        result
    }

    /// Shifts a byte right, the old carry entering bit 7; flags per RR.
    pub fn rr_value(&mut self, value: u8) -> (r: u8)
        requires
            old(self).wf(),
        ensures
            r == alu::rr8(value, old(self)@.flags.c).0,
            final(self)@ == old(self)@.with_flags(alu::rr8(value, old(self)@.flags.c).1),
            final(self).wf(),
    {
        let cin = self.flag(Flag::Carry);
        let result: u8 = value / 2 + if cin {
            0x80
        } else {
            0
        };
        self.set_f(result == 0, false, false, value % 2 == 1);
        result
    }

    /// Shifts a byte left, bit 0 cleared; flags per SLA.
    pub fn sla_value(&mut self, value: u8) -> (r: u8)
        requires
            old(self).wf(),
        ensures
            r == alu::sla8(value).0,
            final(self)@ == old(self)@.with_flags(alu::sla8(value).1),
            final(self).wf(),
    {
        let result: u8 = (value % 0x80) * 2;
        self.set_f(result == 0, false, false, value / 0x80 == 1);
        result
    }

    /// Shifts a byte right keeping bit 7; flags per SRA.
    pub fn sra_value(&mut self, value: u8) -> (r: u8)
        requires
            old(self).wf(),
        ensures
            r == alu::sra8(value).0,
            final(self)@ == old(self)@.with_flags(alu::sra8(value).1),
            final(self).wf(),
    {
        let result: u8 = (value / 0x80) * 0x80 + value / 2;
        self.set_f(result == 0, false, false, value % 2 == 1);
        result
    }

    /// Shifts a byte right, bit 7 cleared; flags per SRL.
    pub fn srl_value(&mut self, value: u8) -> (r: u8)
        requires
            old(self).wf(),
        ensures
            r == alu::srl8(value).0,
            final(self)@ == old(self)@.with_flags(alu::srl8(value).1),
            final(self).wf(),
    {
        let result: u8 = value / 2;
        self.set_f(result == 0, false, false, value % 2 == 1);
        result
    }

    /// Exchanges the two nibbles of a byte; flags per SWAP.
    pub fn swap_value(&mut self, value: u8) -> (r: u8)
        requires
            old(self).wf(),
        ensures
            r == alu::swap8(value).0,
            final(self)@ == old(self)@.with_flags(alu::swap8(value).1),
            final(self).wf(),
    {
        let result: u8 = (value % 0x10) * 0x10 + value / 0x10;
        self.set_f(result == 0, false, false, false);
        result
    }

    /// RLC r.
    pub fn rlc(&mut self, reg: Register) -> (cycles: usize)
        requires
            old(self).wf(),
        ensures
            ({
                let r = alu::rlc8(old(self)@.get8(reg));
                final(self)@ == old(self)@.set8(reg, r.0).with_flags(r.1)
            }),
            final(self).wf(),
            cycles == 8,
    {
        let value = self.register(reg);
        let result = self.rlc_value(value);
        self.set_register(reg, result);
        8
    }

    /// RL r.
    pub fn rl(&mut self, reg: Register) -> (cycles: usize)
        requires
            old(self).wf(),
        ensures
            ({
                let r = alu::rl8(old(self)@.get8(reg), old(self)@.flags.c);
                final(self)@ == old(self)@.set8(reg, r.0).with_flags(r.1)
            }),
            final(self).wf(),
            cycles == 8,
    {
        let value = self.register(reg);
        let result = self.rl_value(value);
        self.set_register(reg, result);
        8
    }

    /// RRC r.
    pub fn rrc(&mut self, reg: Register) -> (cycles: usize)
        requires
            old(self).wf(),
        ensures
            ({
                let r = alu::rrc8(old(self)@.get8(reg));
                final(self)@ == old(self)@.set8(reg, r.0).with_flags(r.1)
            }),
            final(self).wf(),
            cycles == 8,
    {
        let value = self.register(reg);
        let result = self.rrc_value(value);
        self.set_register(reg, result);
        8
    }

    /// RR r.
    pub fn rr(&mut self, reg: Register) -> (cycles: usize)
        requires
            old(self).wf(),
        ensures
            ({
                let r = alu::rr8(old(self)@.get8(reg), old(self)@.flags.c);
                final(self)@ == old(self)@.set8(reg, r.0).with_flags(r.1)
            }),
            final(self).wf(),
            cycles == 8,
    {
        let value = self.register(reg);
        let result = self.rr_value(value);
        self.set_register(reg, result);
        8
    }

    /// SLA r.
    pub fn sla(&mut self, reg: Register) -> (cycles: usize)
        requires
            old(self).wf(),
        ensures
            ({
                let r = alu::sla8(old(self)@.get8(reg));
                final(self)@ == old(self)@.set8(reg, r.0).with_flags(r.1)
            }),
            final(self).wf(),
            cycles == 8,
    {
        let value = self.register(reg);
        let result = self.sla_value(value);
        self.set_register(reg, result);
        8
    }

    /// SRA r.
    pub fn sra(&mut self, reg: Register) -> (cycles: usize)
        requires
            old(self).wf(),
        ensures
            ({
                let r = alu::sra8(old(self)@.get8(reg));
                final(self)@ == old(self)@.set8(reg, r.0).with_flags(r.1)
            }),
            final(self).wf(),
            cycles == 8,
    {
        let value = self.register(reg);
        let result = self.sra_value(value);
        self.set_register(reg, result);
        8
    }

    /// SRL r.
    pub fn srl(&mut self, reg: Register) -> (cycles: usize)
        requires
            old(self).wf(),
        ensures
            ({
                let r = alu::srl8(old(self)@.get8(reg));
                final(self)@ == old(self)@.set8(reg, r.0).with_flags(r.1)
            }),
            final(self).wf(),
            cycles == 8,
    {
        let value = self.register(reg);
        let result = self.srl_value(value);
        self.set_register(reg, result);
        8
    }

    /// SWAP r.
    pub fn swap(&mut self, reg: Register) -> (cycles: usize)
        requires
            old(self).wf(),
        ensures
            ({
                let r = alu::swap8(old(self)@.get8(reg));
                final(self)@ == old(self)@.set8(reg, r.0).with_flags(r.1)
            }),
            final(self).wf(),
            cycles == 8,
    {
        let value = self.register(reg);
        let result = self.swap_value(value);
        self.set_register(reg, result);
        8
    }

    /// RLCA: RLC on A with Z forced clear.
    pub fn rlca(&mut self) -> (cycles: usize)
        requires
            old(self).wf(),
        ensures
            ({
                let r = alu::rlc8(old(self)@.a);
                final(self)@ == old(self)@.set8(Register::A, r.0).with_flags(
                    Flags { z: false, ..r.1 },
                )
            }),
            final(self).wf(),
            cycles == 4,
    {
        let value = self.register(Register::A);
        let result = self.rlc_value(value);
        self.set_register(Register::A, result);
        self.set_flag(Flag::Zero, false);
        4
    }

    /// RLA: RL on A with Z forced clear.
    pub fn rla(&mut self) -> (cycles: usize)
        requires
            old(self).wf(),
        ensures
            ({
                let r = alu::rl8(old(self)@.a, old(self)@.flags.c);
                final(self)@ == old(self)@.set8(Register::A, r.0).with_flags(
                    Flags { z: false, ..r.1 },
                )
            }),
            final(self).wf(),
            cycles == 4,
    {
        let value = self.register(Register::A);
        let result = self.rl_value(value);
        self.set_register(Register::A, result);
        self.set_flag(Flag::Zero, false);
        4
    }

    /// RRCA: RRC on A with Z forced clear.
    pub fn rrca(&mut self) -> (cycles: usize)
        requires
            old(self).wf(),
        ensures
            ({
                let r = alu::rrc8(old(self)@.a);
                final(self)@ == old(self)@.set8(Register::A, r.0).with_flags(
                    Flags { z: false, ..r.1 },
                )
            }),
            final(self).wf(),
            cycles == 4,
    {
        let value = self.register(Register::A);
        let result = self.rrc_value(value);
        self.set_register(Register::A, result);
        self.set_flag(Flag::Zero, false);
        4
    }

    /// RRA: RR on A with Z forced clear.
    pub fn rra(&mut self) -> (cycles: usize)
        requires
            old(self).wf(),
        ensures
            ({
                let r = alu::rr8(old(self)@.a, old(self)@.flags.c);
                final(self)@ == old(self)@.set8(Register::A, r.0).with_flags(
                    Flags { z: false, ..r.1 },
                )
            }),
            final(self).wf(),
            cycles == 4,
    {
        let value = self.register(Register::A);
        let result = self.rr_value(value);
        self.set_register(Register::A, result);
        self.set_flag(Flag::Zero, false);
        4
    }

    /// BIT b,s on a byte already in hand: flags only.
    pub fn bit_value(&mut self, bit: u8, value: u8)
        requires
            old(self).wf(),
            bit < 8,
        ensures
            final(self)@ == old(self)@.with_flags(alu::bit_flags(bit, value, old(self)@.flags)),
            final(self).wf(),
    {
        let c = self.flag(Flag::Carry);
        let mask: u8 = 1u8 << bit;
        self.set_f(value & mask == 0, false, true, c);
    }

    /// BIT b,r.
    pub fn bit(&mut self, bit: u8, reg: Register) -> (cycles: usize)
        requires
            old(self).wf(),
            bit < 8,
        ensures
            final(self)@ == old(self)@.with_flags(
                alu::bit_flags(bit, old(self)@.get8(reg), old(self)@.flags),
            ),
            final(self).wf(),
            cycles == 8,
    {
        let value = self.register(reg);
        self.bit_value(bit, value);
        8
    }

    /// RES b,s on a byte already in hand; no flag changes.
    pub fn reset_bit_value(&mut self, bit: u8, value: u8) -> (r: u8)
        requires
            bit < 8,
        ensures
            r == alu::res8(bit, value),
            *final(self) == *old(self),
    {
        value & !(1u8 << bit)
    }

    /// RES b,r.
    pub fn reset_bit(&mut self, bit: u8, reg: Register) -> (cycles: usize)
        requires
            bit < 8,
        ensures
            final(self)@ == old(self)@.set8(reg, alu::res8(bit, old(self)@.get8(reg))),
            final(self).af % 0x10 == old(self).af % 0x10,
            cycles == 8,
    {
        let value = self.register(reg);
        let result = self.reset_bit_value(bit, value);
        self.set_register(reg, result);
        8
    }

    /// SET b,s on a byte already in hand; no flag changes.
    pub fn set_bit_value(&mut self, bit: u8, value: u8) -> (r: u8)
        requires
            bit < 8,
        ensures
            r == alu::setbit8(bit, value),
            *final(self) == *old(self),
    {
        value | (1u8 << bit)
    }

    /// SET b,r.
    pub fn set_bit(&mut self, bit: u8, reg: Register) -> (cycles: usize)
        requires
            bit < 8,
        ensures
            final(self)@ == old(self)@.set8(reg, alu::setbit8(bit, old(self)@.get8(reg))),
            final(self).af % 0x10 == old(self).af % 0x10,
            cycles == 8,
    {
        let value = self.register(reg);
        let result = self.set_bit_value(bit, value);
        self.set_register(reg, result);
        8
    }

    /// Services the winning pending interrupt when the master enable is
    /// set: pushes PC, clears the request bit, jumps to the vector and
    /// clears IME.  Returns whether it dispatched.
    fn service_interrupts<M: Mmu>(&mut self, mmu: &mut M) -> (dispatched: bool)
        requires
            old(self).wf(),
            old(mmu).inv(),
        ensures
            final(self).wf(),
            final(mmu).inv(),
            dispatched == (old(self)@.ime && crate::step::spec_pending(old(mmu).mem()) & 0x1F
                != 0),
            dispatched ==> ({
                let out = crate::step::spec_dispatch(old(self)@, old(mmu).mem());
                final(self)@ == out.cpu && final(mmu).mem() == out.mem
            }),
            !dispatched ==> *final(self) == *old(self) && *final(mmu) == *old(mmu),
    {
        if !self.interrupts_enabled {
            return false;
        }
        let if_value = mmu.io_read(Port::IF);
        let flags = mmu.io_read(Port::IE) & if_value;
        proof {
            lemma_low_five_bits(flags);
        }
        if flags & 0x1F == 0x00 {
            false
        } else if flags & 0x01 != 0x00 {
            proof {
                assert(if_value & 0xFE == if_value & !(1u8 << 0u8)) by (bit_vector);
            }
            self.rst(0x0040, mmu);
            mmu.io_write(Port::IF, if_value & 0xFE);
            self.interrupts_enabled = false;
            true
        } else if flags & 0x02 != 0x00 {
            proof {
                assert(if_value & 0xFD == if_value & !(1u8 << 1u8)) by (bit_vector);
            }
            self.rst(0x0048, mmu);
            mmu.io_write(Port::IF, if_value & 0xFD);
            self.interrupts_enabled = false;
            true
        } else if flags & 0x04 != 0x00 {
            proof {
                assert(if_value & 0xFB == if_value & !(1u8 << 2u8)) by (bit_vector);
            }
            self.rst(0x0050, mmu);
            mmu.io_write(Port::IF, if_value & 0xFB);
            self.interrupts_enabled = false;
            true
        } else if flags & 0x08 != 0x00 {
            proof {
                assert(if_value & 0xF7 == if_value & !(1u8 << 3u8)) by (bit_vector);
            }
            self.rst(0x0058, mmu);
            mmu.io_write(Port::IF, if_value & 0xF7);
            self.interrupts_enabled = false;
            true
        } else {
            proof {
                assert(flags & 0x10 != 0);
                assert(if_value & 0xEF == if_value & !(1u8 << 4u8)) by (bit_vector);
            }
            self.rst(0x0060, mmu);
            mmu.io_write(Port::IF, if_value & 0xEF);
            self.interrupts_enabled = false;
            true
        }
    }

    /// The 0x00..0x3F block of the primary table.
    #[verifier::spinoff_prover]
    #[verifier::rlimit(60)]
    fn op_low<M: Mmu>(&mut self, opcode: u8, mmu: &mut M) -> (cycles: usize)
        requires
            old(self).wf(),
            old(mmu).inv(),
            opcode < 0x40,
        ensures
            final(self).wf(),
            final(mmu).inv(),
            ({
                let out = crate::step::spec_exec_low(opcode, old(self)@, old(mmu).mem());
                final(self)@ == out.cpu && final(mmu).mem() == out.mem && cycles == out.cycles
            }),
    {
        let col = opcode % 8;
        let row = opcode / 8 % 8;
        if col == 0 {
            if opcode == 0x00 {
                self.nop()
            } else if opcode == 0x08 {
                self.write_stack_immediate(mmu)
            } else if opcode == 0x10 {
                self.stop(mmu)
            } else if opcode == 0x18 {
                self.jr(mmu)
            } else {
                self.jr_condition(cond_from_index((opcode - 0x20) / 8), mmu)
            }
        } else if col == 1 {
            if row % 2 == 0 {
                self.read_wide_immediate(pair_from_index(row / 2), mmu)
            } else {
                self.add_wide(pair_from_index(row / 2))
            }
        } else if col == 2 {
            if opcode == 0x02 {
                self.write_register(WideRegister::BC, Register::A, mmu)
            } else if opcode == 0x12 {
                self.write_register(WideRegister::DE, Register::A, mmu)
            } else if opcode == 0x22 {
                self.write_a_hli(mmu)
            } else if opcode == 0x32 {
                self.write_a_hld(mmu)
            } else if opcode == 0x0A {
                self.read_register(WideRegister::BC, Register::A, mmu)
            } else if opcode == 0x1A {
                self.read_register(WideRegister::DE, Register::A, mmu)
            } else if opcode == 0x2A {
                self.read_a_hli(mmu)
            } else {
                self.read_a_hld(mmu)
            }
        } else if col == 3 {
            if row % 2 == 0 {
                self.inc_wide(pair_from_index(row / 2))
            } else {
                self.dec_wide(pair_from_index(row / 2))
            }
        } else if col == 4 {
            if row == 6 {
                self.inc_mem(mmu)
            } else {
                self.inc(reg_from_index(row))
            }
        } else if col == 5 {
            if row == 6 {
                self.dec_mem(mmu)
            } else {
                self.dec(reg_from_index(row))
            }
        } else if col == 6 {
            if row == 6 {
                self.write_mem_immediate(mmu)
            } else {
                self.read_immediate(reg_from_index(row), mmu)
            }
        } else {
            if opcode == 0x07 {
                self.rlca()
            } else if opcode == 0x17 {
                self.rla()
            } else if opcode == 0x0F {
                self.rrca()
            } else if opcode == 0x1F {
                self.rra()
            } else if opcode == 0x27 {
                self.daa()
            } else if opcode == 0x2F {
                self.cpl()
            } else if opcode == 0x37 {
                self.scf()
            } else {
                self.ccf()
            }
        }
    }

    /// The LD r,r' grid, with HALT in its middle.
    #[verifier::spinoff_prover]
    #[verifier::rlimit(60)]
    fn op_ld<M: Mmu>(&mut self, opcode: u8, mmu: &mut M) -> (cycles: usize)
        requires
            old(self).wf(),
            old(mmu).inv(),
            0x40 <= opcode < 0x80,
        ensures
            final(self).wf(),
            final(mmu).inv(),
            ({
                let out = crate::step::spec_exec_ld(opcode, old(self)@, old(mmu).mem());
                final(self)@ == out.cpu && final(mmu).mem() == out.mem && cycles == out.cycles
            }),
    {
        if opcode == 0x76 {
            self.halt()
        } else {
            let di = opcode / 8 % 8;
            let si = opcode % 8;
            if di == 6 {
                self.write_register(WideRegister::HL, reg_from_index(si), mmu)
            } else if si == 6 {
                self.read_register(WideRegister::HL, reg_from_index(di), mmu)
            } else {
                self.copy_register(reg_from_index(di), reg_from_index(si))
            }
        }
    }

    /// The ALU A,s grid.
    #[verifier::spinoff_prover]
    #[verifier::rlimit(60)]
    fn op_alu<M: Mmu>(&mut self, opcode: u8, mmu: &mut M) -> (cycles: usize)
        requires
            old(self).wf(),
            old(mmu).inv(),
            0x80 <= opcode < 0xC0,
        ensures
            final(self).wf(),
            final(mmu).inv(),
            ({
                let out = crate::step::spec_exec_alu(opcode, old(self)@, old(mmu).mem());
                final(self)@ == out.cpu && final(mmu).mem() == out.mem && cycles == out.cycles
            }),
    {
        let sel = opcode / 8 % 8;
        let oi = opcode % 8;
        let value = if oi == 6 {
            mmu.read(self.wide_register(WideRegister::HL))
        } else {
            self.register(reg_from_index(oi))
        };
        if sel == 0 {
            self.add_value(value, false);
        } else if sel == 1 {
            let carry = self.flag(Flag::Carry);
            self.add_value(value, carry);
        } else if sel == 2 {
            self.sub_value(value, false);
        } else if sel == 3 {
            let carry = self.flag(Flag::Carry);
            self.sub_value(value, carry);
        } else if sel == 4 {
            self.and_value(value);
        } else if sel == 5 {
            self.xor_value(value);
        } else if sel == 6 {
            self.or_value(value);
        } else {
            self.cp_value(value, false);
        }
        if oi == 6 {
            8
        } else {
            4
        }
    }

    /// The 0xC0..0xFF block of the primary table, the defined slots.
    #[verifier::spinoff_prover]
    #[verifier::rlimit(60)]
    fn op_high<M: Mmu>(&mut self, opcode: u8, mmu: &mut M) -> (cycles: usize)
        requires
            old(self).wf(),
            old(mmu).inv(),
            0xC0 <= opcode,
            !crate::step::spec_illegal(opcode),
        ensures
            final(self).wf(),
            final(mmu).inv(),
            ({
                let res = crate::step::spec_exec_high(opcode, old(self)@, old(mmu).mem());
                res matches Some(out) && final(self)@ == out.cpu && final(mmu).mem() == out.mem
                    && cycles == out.cycles
            }),
    {
        let col = opcode % 8;
        let row = opcode / 8 % 8;
        if col == 7 {
            self.rst(8 * row as u16, mmu)
        } else if col == 0 && opcode < 0xE0 {
            self.ret_condition(cond_from_index(row), mmu)
        } else if col == 1 && row % 2 == 0 {
            self.pop_wide(stack_pair_from_index(row / 2), mmu)
        } else if col == 5 && row % 2 == 0 {
            self.push_wide(stack_pair_from_index(row / 2), mmu)
        } else if col == 2 && opcode < 0xE0 {
            self.jmp_condition(cond_from_index(row), mmu)
        } else if col == 4 && opcode < 0xE0 {
            self.call_condition(cond_from_index(row), mmu)
        } else if col == 6 {
            if row == 0 {
                self.add_immediate(mmu)
            } else if row == 1 {
                self.add_carry_immediate(mmu)
            } else if row == 2 {
                self.sub_immediate(mmu)
            } else if row == 3 {
                self.sub_carry_immediate(mmu)
            } else if row == 4 {
                self.and_immediate(mmu)
            } else if row == 5 {
                self.xor_immediate(mmu)
            } else if row == 6 {
                self.or_immediate(mmu)
            } else {
                self.cp_immediate(mmu)
            }
        } else if opcode == 0xC3 {
            self.jmp(mmu)
        } else if opcode == 0xC9 {
            self.ret(mmu)
        } else if opcode == 0xCB {
            self.cb(mmu)
        } else if opcode == 0xCD {
            self.call(mmu)
        } else if opcode == 0xD9 {
            self.reti(mmu)
        } else if opcode == 0xE0 {
            self.write_high_immediate(Register::A, mmu)
        } else if opcode == 0xE2 {
            self.write_high_register(Register::C, Register::A, mmu)
        } else if opcode == 0xE8 {
            self.add_sp(mmu)
        } else if opcode == 0xE9 {
            self.jmp_hl()
        } else if opcode == 0xEA {
            self.write_register_immediate(Register::A, mmu)
        } else if opcode == 0xF0 {
            self.read_high_immediate(Register::A, mmu)
        } else if opcode == 0xF2 {
            self.read_high_register(Register::C, Register::A, mmu)
        } else if opcode == 0xF3 {
            self.di()
        } else if opcode == 0xF8 {
            self.load_hl_sp(mmu)
        } else if opcode == 0xF9 {
            self.copy_wide_register(WideRegister::SP, WideRegister::HL)
        } else if opcode == 0xFA {
            self.read_register_immediate(Register::A, mmu)
        } else {
            self.ei()
        }
    }

    /// One CB-prefixed instruction, the second opcode byte at PC.
    #[verifier::spinoff_prover]
    #[verifier::rlimit(60)]
    fn cb<M: Mmu>(&mut self, mmu: &mut M) -> (cycles: usize)
        requires
            old(self).wf(),
            old(mmu).inv(),
        ensures
            final(self).wf(),
            final(mmu).inv(),
            ({
                let pre = old(self)@;
                let mem0 = old(mmu).mem();
                let out = crate::step::spec_exec_cb(
                    mem0[pre.pc as int],
                    CpuView { pc: wrap16(pre.pc + 1), ..pre },
                    mem0,
                );
                final(self)@ == out.cpu && final(mmu).mem() == out.mem && cycles == out.cycles
            }),
    {
        let opcode = self.read(mmu);
        let cls = opcode / 0x40;
        let sel = opcode / 8 % 8;
        let oi = opcode % 8;
        if cls == 0 {
            if oi == 6 {
                if sel == 0 {
                    self.rlc_mem(mmu)
                } else if sel == 1 {
                    self.rrc_mem(mmu)
                } else if sel == 2 {
                    self.rl_mem(mmu)
                } else if sel == 3 {
                    self.rr_mem(mmu)
                } else if sel == 4 {
                    self.sla_mem(mmu)
                } else if sel == 5 {
                    self.sra_mem(mmu)
                } else if sel == 6 {
                    self.swap_mem(mmu)
                } else {
                    self.srl_mem(mmu)
                }
            } else {
                let reg = reg_from_index(oi);
                if sel == 0 {
                    self.rlc(reg)
                } else if sel == 1 {
                    self.rrc(reg)
                } else if sel == 2 {
                    self.rl(reg)
                } else if sel == 3 {
                    self.rr(reg)
                } else if sel == 4 {
                    self.sla(reg)
                } else if sel == 5 {
                    self.sra(reg)
                } else if sel == 6 {
                    self.swap(reg)
                } else {
                    self.srl(reg)
                }
            }
        } else if cls == 1 {
            if oi == 6 {
                self.bit_mem(sel, mmu)
            } else {
                self.bit(sel, reg_from_index(oi))
            }
        } else if cls == 2 {
            if oi == 6 {
                self.reset_bit_mem(sel, mmu)
            } else {
                self.reset_bit(sel, reg_from_index(oi))
            }
        } else {
            if oi == 6 {
                self.set_bit_mem(sel, mmu)
            } else {
                self.set_bit(sel, reg_from_index(oi))
            }
        }
    }

    /// One whole step: wakes or idles a halted core, services a pending
    /// interrupt, otherwise fetches the opcode at PC and executes it.
    /// A hardware-undefined opcode is refused before anything changes.
    #[verifier::spinoff_prover]
    #[verifier::rlimit(60)]
    pub fn cycle<M: Mmu>(&mut self, mmu: &mut M) -> (r: Result<usize, CpuError>)
        requires
            old(self).wf(),
            old(mmu).inv(),
        ensures
            final(self).wf(),
            final(mmu).inv(),
            ({
                let pre = old(self)@;
                let mem0 = old(mmu).mem();
                match crate::step::spec_step(pre, mem0) {
                    Some(out) => r matches Ok(cy) && cy == out.cycles && final(self)@ == out.cpu
                        && final(mmu).mem() == out.mem,
                    None => r matches Err(e) && e == (CpuError::IllegalOpcode {
                        opcode: mem0[pre.pc as int],
                        at: pre.pc,
                    }) && *final(self) == *old(self) && *final(mmu) == *old(mmu),
                }
            }),
    {
        if self.halted {
            let if_value = mmu.io_read(Port::IF);
            let pending = mmu.io_read(Port::IE) & if_value & 0x1F;
            if pending == 0 {
                return Ok(4);
            }
            self.halted = false;
            if !self.interrupts_enabled {
                return Ok(4);
            }
        }
        if self.service_interrupts(mmu) {
            return Ok(20);
        }
        let opcode = mmu.read(self.pc);
        if Self::is_illegal(opcode) {
            return Err(CpuError::IllegalOpcode { opcode, at: self.pc });
        }
        self.pc = wadd16(self.pc, 1);
        let cycles = if opcode < 0x40 {
            self.op_low(opcode, mmu)
        } else if opcode < 0x80 {
            self.op_ld(opcode, mmu)
        } else if opcode < 0xC0 {
            self.op_alu(opcode, mmu)
        } else {
            self.op_high(opcode, mmu)
        };
        Ok(cycles)
    }

    /// Whether an opcode byte is one of the hardware-undefined slots.
    fn is_illegal(op: u8) -> (r: bool)
        ensures
            r == crate::step::spec_illegal(op),
    {
        match op {
            0xD3 | 0xDB | 0xDD | 0xE3 | 0xE4 | 0xEB | 0xEC | 0xED | 0xF4 | 0xFC | 0xFD => true,
            _ => false,
        }
    }

    /// Fetches the byte at PC and advances PC past it.
    pub fn read<M: Mmu>(&mut self, mmu: &M) -> (value: u8)
        requires
            mmu.inv(),
        ensures
            value == mmu.mem()[old(self)@.pc as int],
            final(self)@ == (CpuView { pc: wrap16(old(self)@.pc + 1), ..old(self)@ }),
            final(self).af == old(self).af,
    {
        let value = mmu.read(self.pc);
        self.pc = wadd16(self.pc, 1);
        value
    }

    /// Fetches a little-endian 16-bit immediate at PC and advances PC
    /// past both bytes.
    pub fn read_wide<M: Mmu>(&mut self, mmu: &M) -> (value: u16)
        requires
            mmu.inv(),
        ensures
            value == word_at(mmu.mem(), old(self)@.pc),
            final(self)@ == (CpuView { pc: wrap16(old(self)@.pc + 2), ..old(self)@ }),
            final(self).af == old(self).af,
    {
        let lo = self.read(mmu);
        let hi = self.read(mmu);
        proof {
            lemma_wrap16_add(old(self)@.pc + 1, 1);
        }
        lo as u16 + (hi as u16) * 0x100
    }

    /// LD r,u8: an immediate byte into a register.
    pub fn read_immediate<M: Mmu>(&mut self, reg: Register, mmu: &M) -> (cycles: usize)
        requires
            mmu.inv(),
        ensures
            final(self)@ == (CpuView {
                pc: wrap16(old(self)@.pc + 1),
                ..old(self)@
            }).set8(reg, mmu.mem()[old(self)@.pc as int]),
            final(self).af % 0x10 == old(self).af % 0x10,
            cycles == 8,
    {
        let value = self.read(mmu);
        self.set_register(reg, value);
        8
    }

    /// LD rr,u16: an immediate word into a pair.
    pub fn read_wide_immediate<M: Mmu>(&mut self, reg: WideRegister, mmu: &M) -> (cycles: usize)
        requires
            old(self).wf(),
            mmu.inv(),
        ensures
            final(self)@ == (CpuView {
                pc: wrap16(old(self)@.pc + 2),
                ..old(self)@
            }).set16(reg, word_at(mmu.mem(), old(self)@.pc)),
            final(self).wf(),
            cycles == 12,
    {
        let value = self.read_wide(mmu);
        self.set_wide_register(reg, value);
        12
    }

    /// LD (rr),r: a register stored at the address held in a pair.
    pub fn write_register<M: Mmu>(
        &self,
        address: WideRegister,
        reg: Register,
        mmu: &mut M,
    ) -> (cycles: usize)
        requires
            self.wf(),
            old(mmu).inv(),
        ensures
            final(mmu).inv(),
            final(mmu).mem() == old(mmu).mem().update(
                self@.get16(address) as int,
                self@.get8(reg),
            ),
            cycles == 8,
    {
        mmu.write(self.wide_register(address), self.register(reg));
        8
    }

    /// LD r,(rr): a register loaded from the address held in a pair.
    pub fn read_register<M: Mmu>(
        &mut self,
        address: WideRegister,
        reg: Register,
        mmu: &M,
    ) -> (cycles: usize)
        requires
            old(self).wf(),
            mmu.inv(),
        ensures
            final(self)@ == old(self)@.set8(
                reg,
                mmu.mem()[old(self)@.get16(address) as int],
            ),
            final(self).wf(),
            cycles == 8,
    {
        let value = mmu.read(self.wide_register(address));
        self.set_register(reg, value);
        8
    }

    /// Stores a 16-bit value little-endian: low byte first, high byte at
    /// the next address.
    pub fn write_wide<M: Mmu>(&self, address: u16, value: u16, mmu: &mut M)
        requires
            old(mmu).inv(),
        ensures
            final(mmu).inv(),
            final(mmu).mem() == old(mmu).mem().update(address as int, (value % 0x100) as u8).update(
                wrap16(address + 1) as int,
                (value / 0x100) as u8,
            ),
    {
        mmu.write(address, (value % 0x100) as u8);
        mmu.write(wadd16(address, 1), (value / 0x100) as u8);
    }

    /// LD (u16),SP: the stack pointer stored at an immediate address.
    pub fn write_stack_immediate<M: Mmu>(&mut self, mmu: &mut M) -> (cycles: usize)
        requires
            old(mmu).inv(),
        ensures
            final(mmu).inv(),
            ({
                let pre = old(self)@;
                let target = word_at(old(mmu).mem(), pre.pc);
                final(self)@ == (CpuView { pc: wrap16(pre.pc + 2), ..pre }) && final(mmu).mem()
                    == old(mmu).mem().update(target as int, (pre.sp % 0x100) as u8).update(
                    wrap16(target + 1) as int,
                    (pre.sp / 0x100) as u8,
                )
            }),
            final(self).af == old(self).af,
            cycles == 20,
    {
        let address = self.read_wide(mmu);
        let sp = self.sp;
        self.write_wide(address, sp, mmu);
        20
    }

    /// STOP: sets the stopped mode bit and consumes the trailing byte.
    pub fn stop<M: Mmu>(&mut self, mmu: &M) -> (cycles: usize)
        requires
            mmu.inv(),
        ensures
            final(self)@ == (CpuView {
                pc: wrap16(old(self)@.pc + 1),
                stopped: true,
                ..old(self)@
            }),
            final(self).af == old(self).af,
            cycles == 4,
    {
        self.stopped = true;
        self.read(mmu);
        4
    }

    /// The branch target of a relative jump from the current PC.
    fn relative_target(&self, offset: u8) -> (target: u16)
        ensures
            target == wrap16(self@.pc + alu::signed8(offset)),
    {
        if offset < 0x80 {
            wadd16(self.pc, offset as u16)
        } else {
            wsub16(self.pc, 0x100 - offset as u16)
        }
    }

    /// Whether the flags meet a branch condition.
    fn condition_met(&self, condition: Condition) -> (met: bool)
        ensures
            met == self@.cond(condition),
    {
        match condition {
            Condition::Zero => self.flag(Flag::Zero),
            Condition::NotZero => !self.flag(Flag::Zero),
            Condition::Carry => self.flag(Flag::Carry),
            Condition::NotCarry => !self.flag(Flag::Carry),
        }
    }

    /// JR e8: a signed offset added to the PC of the next instruction.
    pub fn jr<M: Mmu>(&mut self, mmu: &M) -> (cycles: usize)
        requires
            mmu.inv(),
        ensures
            final(self)@ == (CpuView {
                pc: wrap16(old(self)@.pc + 1 + alu::signed8(mmu.mem()[old(self)@.pc as int])),
                ..old(self)@
            }),
            final(self).af == old(self).af,
            cycles == 12,
    {
        let offset = self.read(mmu);
        let target = self.relative_target(offset);
        proof {
            lemma_wrap16_add(old(self)@.pc + 1, alu::signed8(offset));
        }
        self.pc = target;
        12
    }

    /// JR cc,e8: the relative jump when the condition holds; the operand
    /// byte is consumed either way.
    pub fn jr_condition<M: Mmu>(&mut self, condition: Condition, mmu: &M) -> (cycles: usize)
        requires
            mmu.inv(),
        ensures
            ({
                let pre = old(self)@;
                let taken = pre.cond(condition);
                let target = wrap16(pre.pc + 1 + alu::signed8(mmu.mem()[pre.pc as int]));
                final(self)@ == (CpuView {
                    pc: if taken {
                        target
                    } else {
                        wrap16(pre.pc + 1)
                    },
                    ..pre
                }) && cycles == if taken {
                    12int
                } else {
                    8int
                }
            }),
            final(self).af == old(self).af,
    {
        let offset = self.read(mmu);
        let target = self.relative_target(offset);
        proof {
            lemma_wrap16_add(old(self)@.pc + 1, alu::signed8(offset));
        }
        if self.condition_met(condition) {
            self.pc = target;
            12
        } else {
            8
        }
    }

    /// Pops one byte at SP and advances SP past it.
    pub fn pop_value<M: Mmu>(&mut self, mmu: &M) -> (value: u8)
        requires
            mmu.inv(),
        ensures
            value == mmu.mem()[old(self)@.sp as int],
            final(self)@ == (CpuView { sp: wrap16(old(self)@.sp + 1), ..old(self)@ }),
            final(self).af == old(self).af,
    {
        let value = mmu.read(self.sp);
        self.sp = wadd16(self.sp, 1);
        value
    }

    /// Pops a little-endian word: low byte at SP, high byte above it.
    pub fn pop_wide_value<M: Mmu>(&mut self, mmu: &M) -> (value: u16)
        requires
            mmu.inv(),
        ensures
            value == word_at(mmu.mem(), old(self)@.sp),
            final(self)@ == (CpuView { sp: wrap16(old(self)@.sp + 2), ..old(self)@ }),
            final(self).af == old(self).af,
    {
        let lo = self.pop_value(mmu);
        let hi = self.pop_value(mmu);
        proof {
            lemma_wrap16_add(old(self)@.sp + 1, 1);
        }
        lo as u16 + (hi as u16) * 0x100
    }

    /// Pushes one byte at SP and moves SP below it.
    pub fn push_value<M: Mmu>(&mut self, value: u8, mmu: &mut M)
        requires
            old(mmu).inv(),
        ensures
            final(mmu).inv(),
            final(mmu).mem() == old(mmu).mem().update(old(self)@.sp as int, value),
            final(self)@ == (CpuView { sp: wrap16(old(self)@.sp - 1), ..old(self)@ }),
            final(self).af == old(self).af,
    {
        mmu.write(self.sp, value);
        self.sp = wsub16(self.sp, 1);
    }

    /// Pushes a word below SP, high byte at SP-1, low byte at SP-2.
    pub fn push_wide_value<M: Mmu>(&mut self, value: u16, mmu: &mut M)
        requires
            old(mmu).inv(),
        ensures
            final(mmu).inv(),
            final(mmu).mem() == stack_push(old(mmu).mem(), old(self)@.sp, value),
            final(self)@ == (CpuView { sp: wrap16(old(self)@.sp - 2), ..old(self)@ }),
            final(self).af == old(self).af,
    {
        self.sp = wsub16(self.sp, 2);
        let sp = self.sp;
        self.write_wide(sp, value, mmu);
        proof {
            lemma_wrap16_add(old(self)@.sp - 2, 1);
        }
    }

    /// POP rr: a word popped into a pair; POP AF clears the low nibble
    /// of F.
    pub fn pop_wide<M: Mmu>(&mut self, reg: WideRegister, mmu: &M) -> (cycles: usize)
        requires
            old(self).wf(),
            mmu.inv(),
        ensures
            final(self)@ == (CpuView { sp: wrap16(old(self)@.sp + 2), ..old(self)@ }).set16(
                reg,
                word_at(mmu.mem(), old(self)@.sp),
            ),
            final(self).wf(),
            cycles == 12,
    {
        let value = self.pop_wide_value(mmu);
        self.set_wide_register(reg, value);
        12
    }

    /// PUSH rr: a pair pushed below SP.
    pub fn push_wide<M: Mmu>(&mut self, reg: WideRegister, mmu: &mut M) -> (cycles: usize)
        requires
            old(self).wf(),
            old(mmu).inv(),
        ensures
            final(mmu).inv(),
            final(mmu).mem() == stack_push(old(mmu).mem(), old(self)@.sp, old(self)@.get16(reg)),
            final(self)@ == (CpuView { sp: wrap16(old(self)@.sp - 2), ..old(self)@ }),
            final(self).wf(),
            cycles == 16,
    {
        let value = self.wide_register(reg);
        self.push_wide_value(value, mmu);
        16
    }

    /// RET: pops the return address into PC.
    pub fn ret<M: Mmu>(&mut self, mmu: &M) -> (cycles: usize)
        requires
            mmu.inv(),
        ensures
            final(self)@ == (CpuView {
                pc: word_at(mmu.mem(), old(self)@.sp),
                sp: wrap16(old(self)@.sp + 2),
                ..old(self)@
            }),
            final(self).af == old(self).af,
            cycles == 16,
    {
        self.pc = self.pop_wide_value(mmu);
        16
    }

    /// RET cc: the return when the condition holds.
    pub fn ret_condition<M: Mmu>(&mut self, condition: Condition, mmu: &M) -> (cycles: usize)
        requires
            mmu.inv(),
        ensures
            ({
                let pre = old(self)@;
                let taken = pre.cond(condition);
                final(self)@ == (if taken {
                    CpuView { pc: word_at(mmu.mem(), pre.sp), sp: wrap16(pre.sp + 2), ..pre }
                } else {
                    pre
                }) && cycles == if taken {
                    20int
                } else {
                    8int
                }
            }),
            final(self).af == old(self).af,
    {
        if self.condition_met(condition) {
            self.pc = self.pop_wide_value(mmu);
            20
        } else {
            8
        }
    }

    /// RETI: RET plus setting the interrupt master enable.
    pub fn reti<M: Mmu>(&mut self, mmu: &M) -> (cycles: usize)
        requires
            mmu.inv(),
        ensures
            final(self)@ == (CpuView {
                pc: word_at(mmu.mem(), old(self)@.sp),
                sp: wrap16(old(self)@.sp + 2),
                ime: true,
                ..old(self)@
            }),
            final(self).af == old(self).af,
            cycles == 16,
    {
        self.interrupts_enabled = true;
        self.ret(mmu)
    }

    /// JP u16: an absolute jump to an immediate address.
    pub fn jmp<M: Mmu>(&mut self, mmu: &M) -> (cycles: usize)
        requires
            mmu.inv(),
        ensures
            final(self)@ == (CpuView {
                pc: word_at(mmu.mem(), old(self)@.pc),
                ..old(self)@
            }),
            final(self).af == old(self).af,
            cycles == 16,
    {
        self.pc = self.read_wide(mmu);
        16
    }

    /// JP cc,u16: the absolute jump when the condition holds; the operand
    /// bytes are consumed either way.
    pub fn jmp_condition<M: Mmu>(&mut self, condition: Condition, mmu: &M) -> (cycles: usize)
        requires
            mmu.inv(),
        ensures
            ({
                let pre = old(self)@;
                let taken = pre.cond(condition);
                final(self)@ == (CpuView {
                    pc: if taken {
                        word_at(mmu.mem(), pre.pc)
                    } else {
                        wrap16(pre.pc + 2)
                    },
                    ..pre
                }) && cycles == if taken {
                    16int
                } else {
                    12int
                }
            }),
            final(self).af == old(self).af,
    {
        let address = self.read_wide(mmu);
        if self.condition_met(condition) {
            self.pc = address;
            16
        } else {
            12
        }
    }

    /// CALL u16: pushes the address past the operand and jumps to the
    /// immediate address.
    pub fn call<M: Mmu>(&mut self, mmu: &mut M) -> (cycles: usize)
        requires
            old(self).wf(),
            old(mmu).inv(),
        ensures
            final(mmu).inv(),
            ({
                let pre = old(self)@;
                final(self)@ == (CpuView {
                    pc: word_at(old(mmu).mem(), pre.pc),
                    sp: wrap16(pre.sp - 2),
                    ..pre
                }) && final(mmu).mem() == stack_push(
                    old(mmu).mem(),
                    pre.sp,
                    wrap16(pre.pc + 2),
                )
            }),
            final(self).wf(),
            cycles == 24,
    {
        let address = self.read_wide(mmu);
        self.push_wide(WideRegister::PC, mmu);
        self.pc = address;
        24
    }

    /// CALL cc,u16: the call when the condition holds; the operand bytes
    /// are consumed either way.
    pub fn call_condition<M: Mmu>(&mut self, condition: Condition, mmu: &mut M) -> (cycles: usize)
        requires
            old(self).wf(),
            old(mmu).inv(),
        ensures
            final(mmu).inv(),
            ({
                let pre = old(self)@;
                let taken = pre.cond(condition);
                final(self)@ == (CpuView {
                    pc: if taken {
                        word_at(old(mmu).mem(), pre.pc)
                    } else {
                        wrap16(pre.pc + 2)
                    },
                    sp: if taken {
                        wrap16(pre.sp - 2)
                    } else {
                        pre.sp
                    },
                    ..pre
                }) && final(mmu).mem() == (if taken {
                    stack_push(old(mmu).mem(), pre.sp, wrap16(pre.pc + 2))
                } else {
                    old(mmu).mem()
                }) && cycles == if taken {
                    24int
                } else {
                    12int
                }
            }),
            final(self).wf(),
    {
        let address = self.read_wide(mmu);
        if self.condition_met(condition) {
            self.push_wide(WideRegister::PC, mmu);
            self.pc = address;
            24
        } else {
            12
        }
    }

    /// RST n: pushes PC and jumps to a fixed vector.
    pub fn rst<M: Mmu>(&mut self, address: u16, mmu: &mut M) -> (cycles: usize)
        requires
            old(self).wf(),
            old(mmu).inv(),
        ensures
            final(mmu).inv(),
            final(mmu).mem() == stack_push(old(mmu).mem(), old(self)@.sp, old(self)@.pc),
            final(self)@ == (CpuView {
                pc: address,
                sp: wrap16(old(self)@.sp - 2),
                ..old(self)@
            }),
            final(self).wf(),
            cycles == 16,
    {
        self.push_wide(WideRegister::PC, mmu);
        self.pc = address;
        16
    }

    /// LD (HL+),A: stores A at HL, then increments HL.
    pub fn write_a_hli<M: Mmu>(&mut self, mmu: &mut M) -> (cycles: usize)
        requires
            old(self).wf(),
            old(mmu).inv(),
        ensures
            final(mmu).inv(),
            ({
                let hl16 = old(self)@.get16(WideRegister::HL);
                final(mmu).mem() == old(mmu).mem().update(hl16 as int, old(self)@.a)
                    && final(self)@ == old(self)@.set16(WideRegister::HL, wrap16(hl16 + 1))
            }),
            final(self).wf(),
            cycles == 8,
    {
        let address = self.wide_register(WideRegister::HL);
        mmu.write(address, self.register(Register::A));
        self.set_wide_register(WideRegister::HL, wadd16(address, 1));
        8
    }

    /// LD (HL-),A: stores A at HL, then decrements HL.
    pub fn write_a_hld<M: Mmu>(&mut self, mmu: &mut M) -> (cycles: usize)
        requires
            old(self).wf(),
            old(mmu).inv(),
        ensures
            final(mmu).inv(),
            ({
                let hl16 = old(self)@.get16(WideRegister::HL);
                final(mmu).mem() == old(mmu).mem().update(hl16 as int, old(self)@.a)
                    && final(self)@ == old(self)@.set16(WideRegister::HL, wrap16(hl16 - 1))
            }),
            final(self).wf(),
            cycles == 8,
    {
        let address = self.wide_register(WideRegister::HL);
        mmu.write(address, self.register(Register::A));
        self.set_wide_register(WideRegister::HL, wsub16(address, 1));
        8
    }

    /// LD A,(HL+): loads A from HL, then increments HL.
    pub fn read_a_hli<M: Mmu>(&mut self, mmu: &M) -> (cycles: usize)
        requires
            old(self).wf(),
            mmu.inv(),
        ensures
            ({
                let hl16 = old(self)@.get16(WideRegister::HL);
                final(self)@ == old(self)@.set8(Register::A, mmu.mem()[hl16 as int]).set16(
                    WideRegister::HL,
                    wrap16(hl16 + 1),
                )
            }),
            final(self).wf(),
            cycles == 8,
    {
        let address = self.wide_register(WideRegister::HL);
        let value = mmu.read(address);
        self.set_register(Register::A, value);
        self.set_wide_register(WideRegister::HL, wadd16(address, 1));
        8
    }

    /// LD A,(HL-): loads A from HL, then decrements HL.
    pub fn read_a_hld<M: Mmu>(&mut self, mmu: &M) -> (cycles: usize)
        requires
            old(self).wf(),
            mmu.inv(),
        ensures
            ({
                let hl16 = old(self)@.get16(WideRegister::HL);
                final(self)@ == old(self)@.set8(Register::A, mmu.mem()[hl16 as int]).set16(
                    WideRegister::HL,
                    wrap16(hl16 - 1),
                )
            }),
            final(self).wf(),
            cycles == 8,
    {
        let address = self.wide_register(WideRegister::HL);
        let value = mmu.read(address);
        self.set_register(Register::A, value);
        self.set_wide_register(WideRegister::HL, wsub16(address, 1));
        8
    }

    /// INC (HL): one more in the byte at HL; C is kept.
    pub fn inc_mem<M: Mmu>(&mut self, mmu: &mut M) -> (cycles: usize)
        requires
            old(self).wf(),
            old(mmu).inv(),
        ensures
            final(mmu).inv(),
            ({
                let hl16 = old(self)@.get16(WideRegister::HL);
                let r = alu::inc8(old(mmu).mem()[hl16 as int], old(self)@.flags);
                final(self)@ == old(self)@.with_flags(r.1) && final(mmu).mem() == old(
                    mmu,
                ).mem().update(hl16 as int, r.0)
            }),
            final(self).wf(),
            cycles == 12,
    {
        let address = self.wide_register(WideRegister::HL);
        let value = mmu.read(address);
        let c = self.flag(Flag::Carry);
        let result = wadd8(value, 1);
        self.set_f(result == 0, false, value % 0x10 == 0xF, c);
        mmu.write(address, result);
        12
    }

    /// DEC (HL): one less in the byte at HL; C is kept.
    pub fn dec_mem<M: Mmu>(&mut self, mmu: &mut M) -> (cycles: usize)
        requires
            old(self).wf(),
            old(mmu).inv(),
        ensures
            final(mmu).inv(),
            ({
                let hl16 = old(self)@.get16(WideRegister::HL);
                let r = alu::dec8(old(mmu).mem()[hl16 as int], old(self)@.flags);
                final(self)@ == old(self)@.with_flags(r.1) && final(mmu).mem() == old(
                    mmu,
                ).mem().update(hl16 as int, r.0)
            }),
            final(self).wf(),
            cycles == 12,
    {
        let address = self.wide_register(WideRegister::HL);
        let value = mmu.read(address);
        let c = self.flag(Flag::Carry);
        let result = wsub8(value, 1);
        self.set_f(result == 0, true, value % 0x10 == 0, c);
        mmu.write(address, result);
        12
    }

    /// LD (HL),u8: an immediate byte stored at HL.
    pub fn write_mem_immediate<M: Mmu>(&mut self, mmu: &mut M) -> (cycles: usize)
        requires
            old(self).wf(),
            old(mmu).inv(),
        ensures
            final(mmu).inv(),
            final(self)@ == (CpuView { pc: wrap16(old(self)@.pc + 1), ..old(self)@ }),
            final(mmu).mem() == old(mmu).mem().update(
                old(self)@.get16(WideRegister::HL) as int,
                old(mmu).mem()[old(self)@.pc as int],
            ),
            final(self).wf(),
            cycles == 12,
    {
        let value = self.read(mmu);
        mmu.write(self.wide_register(WideRegister::HL), value);
        12
    }

    /// LD (u16),r: a register stored at an immediate address.
    pub fn write_register_immediate<M: Mmu>(&mut self, reg: Register, mmu: &mut M) -> (cycles:
        usize)
        requires
            old(mmu).inv(),
        ensures
            final(mmu).inv(),
            final(self)@ == (CpuView { pc: wrap16(old(self)@.pc + 2), ..old(self)@ }),
            final(mmu).mem() == old(mmu).mem().update(
                word_at(old(mmu).mem(), old(self)@.pc) as int,
                old(self)@.get8(reg),
            ),
            final(self).af == old(self).af,
            cycles == 16,
    {
        let address = self.read_wide(mmu);
        let value = self.register(reg);
        mmu.write(address, value);
        16
    }

    /// LD r,(u16): a register loaded from an immediate address.
    pub fn read_register_immediate<M: Mmu>(&mut self, reg: Register, mmu: &mut M) -> (cycles:
        usize)
        requires
            old(mmu).inv(),
        ensures
            *final(mmu) == *old(mmu),
            final(self)@ == (CpuView { pc: wrap16(old(self)@.pc + 2), ..old(self)@ }).set8(
                reg,
                old(mmu).mem()[word_at(old(mmu).mem(), old(self)@.pc) as int],
            ),
            final(self).af % 0x10 == old(self).af % 0x10,
            cycles == 16,
    {
        let address = self.read_wide(mmu);
        let value = mmu.read(address);
        self.set_register(reg, value);
        16
    }

    /// ADD A,(HL).
    pub fn add_mem<M: Mmu>(&mut self, mmu: &M) -> (cycles: usize)
        requires
            old(self).wf(),
            mmu.inv(),
        ensures
            ({
                let r = alu::add8(
                    old(self)@.a,
                    mmu.mem()[old(self)@.get16(WideRegister::HL) as int],
                    false,
                );
                final(self)@ == old(self)@.set8(Register::A, r.0).with_flags(r.1)
            }),
            final(self).wf(),
            cycles == 8,
    {
        let value = mmu.read(self.wide_register(WideRegister::HL));
        self.add_value(value, false);
        8
    }

    /// ADC A,(HL).
    pub fn add_carry_mem<M: Mmu>(&mut self, mmu: &M) -> (cycles: usize)
        requires
            old(self).wf(),
            mmu.inv(),
        ensures
            ({
                let r = alu::add8(
                    old(self)@.a,
                    mmu.mem()[old(self)@.get16(WideRegister::HL) as int],
                    old(self)@.flags.c,
                );
                final(self)@ == old(self)@.set8(Register::A, r.0).with_flags(r.1)
            }),
            final(self).wf(),
            cycles == 8,
    {
        let value = mmu.read(self.wide_register(WideRegister::HL));
        let carry = self.flag(Flag::Carry);
        self.add_value(value, carry);
        8
    }

    /// SUB A,(HL).
    pub fn sub_mem<M: Mmu>(&mut self, mmu: &M) -> (cycles: usize)
        requires
            old(self).wf(),
            mmu.inv(),
        ensures
            ({
                let r = alu::sub8(
                    old(self)@.a,
                    mmu.mem()[old(self)@.get16(WideRegister::HL) as int],
                    false,
                );
                final(self)@ == old(self)@.set8(Register::A, r.0).with_flags(r.1)
            }),
            final(self).wf(),
            cycles == 8,
    {
        let value = mmu.read(self.wide_register(WideRegister::HL));
        self.sub_value(value, false);
        8
    }

    /// SBC A,(HL).
    pub fn sub_carry_mem<M: Mmu>(&mut self, mmu: &M) -> (cycles: usize)
        requires
            old(self).wf(),
            mmu.inv(),
        ensures
            ({
                let r = alu::sub8(
                    old(self)@.a,
                    mmu.mem()[old(self)@.get16(WideRegister::HL) as int],
                    old(self)@.flags.c,
                );
                final(self)@ == old(self)@.set8(Register::A, r.0).with_flags(r.1)
            }),
            final(self).wf(),
            cycles == 8,
    {
        let value = mmu.read(self.wide_register(WideRegister::HL));
        let carry = self.flag(Flag::Carry);
        self.sub_value(value, carry);
        8
    }

    /// AND A,(HL).
    pub fn and_mem<M: Mmu>(&mut self, mmu: &M) -> (cycles: usize)
        requires
            old(self).wf(),
            mmu.inv(),
        ensures
            ({
                let r = alu::and8(old(self)@.a, mmu.mem()[old(self)@.get16(WideRegister::HL) as int]);
                final(self)@ == old(self)@.set8(Register::A, r.0).with_flags(r.1)
            }),
            final(self).wf(),
            cycles == 8,
    {
        let value = mmu.read(self.wide_register(WideRegister::HL));
        self.and_value(value);
        8
    }

    /// XOR A,(HL).
    pub fn xor_mem<M: Mmu>(&mut self, mmu: &M) -> (cycles: usize)
        requires
            old(self).wf(),
            mmu.inv(),
        ensures
            ({
                let r = alu::xor8(old(self)@.a, mmu.mem()[old(self)@.get16(WideRegister::HL) as int]);
                final(self)@ == old(self)@.set8(Register::A, r.0).with_flags(r.1)
            }),
            final(self).wf(),
            cycles == 8,
    {
        let value = mmu.read(self.wide_register(WideRegister::HL));
        self.xor_value(value);
        8
    }

    /// OR A,(HL).
    pub fn or_mem<M: Mmu>(&mut self, mmu: &M) -> (cycles: usize)
        requires
            old(self).wf(),
            mmu.inv(),
        ensures
            ({
                let r = alu::or8(old(self)@.a, mmu.mem()[old(self)@.get16(WideRegister::HL) as int]);
                final(self)@ == old(self)@.set8(Register::A, r.0).with_flags(r.1)
            }),
            final(self).wf(),
            cycles == 8,
    {
        let value = mmu.read(self.wide_register(WideRegister::HL));
        self.or_value(value);
        8
    }

    /// CP A,(HL).
    pub fn cp_mem<M: Mmu>(&mut self, mmu: &M) -> (cycles: usize)
        requires
            old(self).wf(),
            mmu.inv(),
        ensures
            final(self)@ == old(self)@.with_flags(
                alu::sub8(
                    old(self)@.a,
                    mmu.mem()[old(self)@.get16(WideRegister::HL) as int],
                    false,
                ).1,
            ),
            final(self).wf(),
            cycles == 8,
    {
        let value = mmu.read(self.wide_register(WideRegister::HL));
        self.cp_value(value, false);
        8
    }

    /// ADD A,u8.
    pub fn add_immediate<M: Mmu>(&mut self, mmu: &M) -> (cycles: usize)
        requires
            old(self).wf(),
            mmu.inv(),
        ensures
            ({
                let pre = old(self)@;
                let r = alu::add8(pre.a, mmu.mem()[pre.pc as int], false);
                final(self)@ == (CpuView { pc: wrap16(pre.pc + 1), ..pre }).set8(
                    Register::A,
                    r.0,
                ).with_flags(r.1)
            }),
            final(self).wf(),
            cycles == 8,
    {
        let value = self.read(mmu);
        self.add_value(value, false);
        8
    }

    /// ADC A,u8.
    pub fn add_carry_immediate<M: Mmu>(&mut self, mmu: &M) -> (cycles: usize)
        requires
            old(self).wf(),
            mmu.inv(),
        ensures
            ({
                let pre = old(self)@;
                let r = alu::add8(pre.a, mmu.mem()[pre.pc as int], pre.flags.c);
                final(self)@ == (CpuView { pc: wrap16(pre.pc + 1), ..pre }).set8(
                    Register::A,
                    r.0,
                ).with_flags(r.1)
            }),
            final(self).wf(),
            cycles == 8,
    {
        let value = self.read(mmu);
        let carry = self.flag(Flag::Carry);
        self.add_value(value, carry);
        8
    }

    /// SUB A,u8.
    pub fn sub_immediate<M: Mmu>(&mut self, mmu: &M) -> (cycles: usize)
        requires
            old(self).wf(),
            mmu.inv(),
        ensures
            ({
                let pre = old(self)@;
                let r = alu::sub8(pre.a, mmu.mem()[pre.pc as int], false);
                final(self)@ == (CpuView { pc: wrap16(pre.pc + 1), ..pre }).set8(
                    Register::A,
                    r.0,
                ).with_flags(r.1)
            }),
            final(self).wf(),
            cycles == 8,
    {
        let value = self.read(mmu);
        self.sub_value(value, false);
        8
    }

    /// SBC A,u8.
    pub fn sub_carry_immediate<M: Mmu>(&mut self, mmu: &M) -> (cycles: usize)
        requires
            old(self).wf(),
            mmu.inv(),
        ensures
            ({
                let pre = old(self)@;
                let r = alu::sub8(pre.a, mmu.mem()[pre.pc as int], pre.flags.c);
                final(self)@ == (CpuView { pc: wrap16(pre.pc + 1), ..pre }).set8(
                    Register::A,
                    r.0,
                ).with_flags(r.1)
            }),
            final(self).wf(),
            cycles == 8,
    {
        let value = self.read(mmu);
        let carry = self.flag(Flag::Carry);
        self.sub_value(value, carry);
        8
    }

    /// AND A,u8.
    pub fn and_immediate<M: Mmu>(&mut self, mmu: &M) -> (cycles: usize)
        requires
            old(self).wf(),
            mmu.inv(),
        ensures
            ({
                let pre = old(self)@;
                let r = alu::and8(pre.a, mmu.mem()[pre.pc as int]);
                final(self)@ == (CpuView { pc: wrap16(pre.pc + 1), ..pre }).set8(
                    Register::A,
                    r.0,
                ).with_flags(r.1)
            }),
            final(self).wf(),
            cycles == 8,
    {
        let value = self.read(mmu);
        self.and_value(value);
        8
    }

    /// XOR A,u8.
    pub fn xor_immediate<M: Mmu>(&mut self, mmu: &M) -> (cycles: usize)
        requires
            old(self).wf(),
            mmu.inv(),
        ensures
            ({
                let pre = old(self)@;
                let r = alu::xor8(pre.a, mmu.mem()[pre.pc as int]);
                final(self)@ == (CpuView { pc: wrap16(pre.pc + 1), ..pre }).set8(
                    Register::A,
                    r.0,
                ).with_flags(r.1)
            }),
            final(self).wf(),
            cycles == 8,
    {
        let value = self.read(mmu);
        self.xor_value(value);
        8
    }

    /// OR A,u8.
    pub fn or_immediate<M: Mmu>(&mut self, mmu: &M) -> (cycles: usize)
        requires
            old(self).wf(),
            mmu.inv(),
        ensures
            ({
                let pre = old(self)@;
                let r = alu::or8(pre.a, mmu.mem()[pre.pc as int]);
                final(self)@ == (CpuView { pc: wrap16(pre.pc + 1), ..pre }).set8(
                    Register::A,
                    r.0,
                ).with_flags(r.1)
            }),
            final(self).wf(),
            cycles == 8,
    {
        let value = self.read(mmu);
        self.or_value(value);
        8
    }

    /// CP A,u8.
    pub fn cp_immediate<M: Mmu>(&mut self, mmu: &M) -> (cycles: usize)
        requires
            old(self).wf(),
            mmu.inv(),
        ensures
            ({
                let pre = old(self)@;
                let r = alu::sub8(pre.a, mmu.mem()[pre.pc as int], false);
                final(self)@ == (CpuView { pc: wrap16(pre.pc + 1), ..pre }).with_flags(r.1)
            }),
            final(self).wf(),
            cycles == 8,
    {
        let value = self.read(mmu);
        self.cp_value(value, false);
        8
    }

    /// Stores a byte in the high page at 0xFF00 + offset.
    pub fn write_high_offset<M: Mmu>(&self, offset: u8, value: u8, mmu: &mut M)
        requires
            old(mmu).inv(),
        ensures
            final(mmu).inv(),
            final(mmu).mem() == old(mmu).mem().update(0xFF00 + offset as int, value),
    {
        let address: u16 = 0xFF00 + offset as u16;
        mmu.write(address, value);
    }

    /// LDH (u8),r: a register stored into the high page at an immediate
    /// offset.
    pub fn write_high_immediate<M: Mmu>(&mut self, reg: Register, mmu: &mut M) -> (cycles: usize)
        requires
            old(mmu).inv(),
        ensures
            final(mmu).inv(),
            final(self)@ == (CpuView { pc: wrap16(old(self)@.pc + 1), ..old(self)@ }),
            final(mmu).mem() == old(mmu).mem().update(
                0xFF00 + old(mmu).mem()[old(self)@.pc as int] as int,
                old(self)@.get8(reg),
            ),
            final(self).af == old(self).af,
            cycles == 12,
    {
        let offset = self.read(mmu);
        let value = self.register(reg);
        self.write_high_offset(offset, value, mmu);
        12
    }

    /// LDH (C),r: a register stored into the high page at the offset in C.
    pub fn write_high_register<M: Mmu>(&mut self, off: Register, reg: Register, mmu: &mut M) -> (
        cycles: usize)
        requires
            old(mmu).inv(),
        ensures
            final(mmu).inv(),
            *final(self) == *old(self),
            final(mmu).mem() == old(mmu).mem().update(
                0xFF00 + old(self)@.get8(off) as int,
                old(self)@.get8(reg),
            ),
            cycles == 8,
    {
        let offset = self.register(off);
        let value = self.register(reg);
        self.write_high_offset(offset, value, mmu);
        8
    }

    /// Loads a byte from the high page at 0xFF00 + offset.
    pub fn read_high_offset<M: Mmu>(&self, offset: u8, mmu: &M) -> (value: u8)
        requires
            mmu.inv(),
        ensures
            value == mmu.mem()[0xFF00 + offset as int],
    {
        let address: u16 = 0xFF00 + offset as u16;
        mmu.read(address)
    }

    /// LDH r,(u8): a register loaded from the high page at an immediate
    /// offset.
    pub fn read_high_immediate<M: Mmu>(&mut self, reg: Register, mmu: &mut M) -> (cycles: usize)
        requires
            old(mmu).inv(),
        ensures
            *final(mmu) == *old(mmu),
            final(self)@ == (CpuView { pc: wrap16(old(self)@.pc + 1), ..old(self)@ }).set8(
                reg,
                old(mmu).mem()[0xFF00 + old(mmu).mem()[old(self)@.pc as int] as int],
            ),
            final(self).af % 0x10 == old(self).af % 0x10,
            cycles == 12,
    {
        let offset = self.read(mmu);
        let value = self.read_high_offset(offset, mmu);
        self.set_register(reg, value);
        12
    }

    /// LDH r,(C): a register loaded from the high page at the offset in C.
    pub fn read_high_register<M: Mmu>(&mut self, off: Register, reg: Register, mmu: &mut M) -> (
        cycles: usize)
        requires
            old(mmu).inv(),
        ensures
            *final(mmu) == *old(mmu),
            final(self)@ == old(self)@.set8(
                reg,
                old(mmu).mem()[0xFF00 + old(self)@.get8(off) as int],
            ),
            final(self).af % 0x10 == old(self).af % 0x10,
            cycles == 8,
    {
        let offset = self.register(off);
        let value = self.read_high_offset(offset, mmu);
        self.set_register(reg, value);
        8
    }

    /// ADD SP,e8: a signed immediate added to the stack pointer.
    pub fn add_sp<M: Mmu>(&mut self, mmu: &M) -> (cycles: usize)
        requires
            old(self).wf(),
            mmu.inv(),
        ensures
            ({
                let pre = old(self)@;
                let r = alu::addsp16(pre.sp, mmu.mem()[pre.pc as int]);
                final(self)@ == (CpuView {
                    pc: wrap16(pre.pc + 1),
                    sp: r.0,
                    ..pre.with_flags(r.1)
                })
            }),
            final(self).wf(),
            cycles == 16,
    {
        let value = self.read(mmu);
        let sp = self.sp;
        let half = sp % 0x10 + (value % 0x10) as u16 > 0xF;
        let carry_out = sp % 0x100 + value as u16 > 0xFF;
        let result = if value < 0x80 {
            wadd16(sp, value as u16)
        } else {
            wsub16(sp, 0x100 - value as u16)
        };
        self.set_f(false, false, half, carry_out);
        self.sp = result;
        16
    }

    /// LD HL,SP+e8: the signed-offset sum into HL; SP is unchanged and
    /// the flags are those of ADD SP,e8.
    pub fn load_hl_sp<M: Mmu>(&mut self, mmu: &M) -> (cycles: usize)
        requires
            old(self).wf(),
            mmu.inv(),
        ensures
            ({
                let pre = old(self)@;
                let r = alu::addsp16(pre.sp, mmu.mem()[pre.pc as int]);
                final(self)@ == (CpuView {
                    pc: wrap16(pre.pc + 1),
                    ..pre.with_flags(r.1).set16(WideRegister::HL, r.0)
                })
            }),
            final(self).wf(),
            cycles == 12,
    {
        let value = self.read(mmu);
        let sp = self.sp;
        let half = sp % 0x10 + (value % 0x10) as u16 > 0xF;
        let carry_out = sp % 0x100 + value as u16 > 0xFF;
        let result = if value < 0x80 {
            wadd16(sp, value as u16)
        } else {
            wsub16(sp, 0x100 - value as u16)
        };
        self.set_f(false, false, half, carry_out);
        self.set_wide_register(WideRegister::HL, result);
        12
    }

    /// RLC (HL).
    pub fn rlc_mem<M: Mmu>(&mut self, mmu: &mut M) -> (cycles: usize)
        requires
            old(self).wf(),
            old(mmu).inv(),
        ensures
            final(mmu).inv(),
            ({
                let hl16 = old(self)@.get16(WideRegister::HL);
                let r = alu::rlc8(old(mmu).mem()[hl16 as int]);
                final(self)@ == old(self)@.with_flags(r.1) && final(mmu).mem() == old(
                    mmu,
                ).mem().update(hl16 as int, r.0)
            }),
            final(self).wf(),
            cycles == 16,
    {
        let address = self.wide_register(WideRegister::HL);
        let mut value = mmu.read(address);
        value = self.rlc_value(value);
        mmu.write(address, value);
        16
    }

    /// RL (HL).
    pub fn rl_mem<M: Mmu>(&mut self, mmu: &mut M) -> (cycles: usize)
        requires
            old(self).wf(),
            old(mmu).inv(),
        ensures
            final(mmu).inv(),
            ({
                let hl16 = old(self)@.get16(WideRegister::HL);
                let r = alu::rl8(old(mmu).mem()[hl16 as int], old(self)@.flags.c);
                final(self)@ == old(self)@.with_flags(r.1) && final(mmu).mem() == old(
                    mmu,
                ).mem().update(hl16 as int, r.0)
            }),
            final(self).wf(),
            cycles == 16,
    {
        let address = self.wide_register(WideRegister::HL);
        let mut value = mmu.read(address);
        value = self.rl_value(value);
        mmu.write(address, value);
        16
    }

    /// RRC (HL).
    pub fn rrc_mem<M: Mmu>(&mut self, mmu: &mut M) -> (cycles: usize)
        requires
            old(self).wf(),
            old(mmu).inv(),
        ensures
            final(mmu).inv(),
            ({
                let hl16 = old(self)@.get16(WideRegister::HL);
                let r = alu::rrc8(old(mmu).mem()[hl16 as int]);
                final(self)@ == old(self)@.with_flags(r.1) && final(mmu).mem() == old(
                    mmu,
                ).mem().update(hl16 as int, r.0)
            }),
            final(self).wf(),
            cycles == 16,
    {
        let address = self.wide_register(WideRegister::HL);
        let mut value = mmu.read(address);
        value = self.rrc_value(value);
        mmu.write(address, value);
        16
    }

    /// RR (HL).
    pub fn rr_mem<M: Mmu>(&mut self, mmu: &mut M) -> (cycles: usize)
        requires
            old(self).wf(),
            old(mmu).inv(),
        ensures
            final(mmu).inv(),
            ({
                let hl16 = old(self)@.get16(WideRegister::HL);
                let r = alu::rr8(old(mmu).mem()[hl16 as int], old(self)@.flags.c);
                final(self)@ == old(self)@.with_flags(r.1) && final(mmu).mem() == old(
                    mmu,
                ).mem().update(hl16 as int, r.0)
            }),
            final(self).wf(),
            cycles == 16,
    {
        let address = self.wide_register(WideRegister::HL);
        let mut value = mmu.read(address);
        value = self.rr_value(value);
        mmu.write(address, value);
        16
    }

    /// SLA (HL).
    pub fn sla_mem<M: Mmu>(&mut self, mmu: &mut M) -> (cycles: usize)
        requires
            old(self).wf(),
            old(mmu).inv(),
        ensures
            final(mmu).inv(),
            ({
                let hl16 = old(self)@.get16(WideRegister::HL);
                let r = alu::sla8(old(mmu).mem()[hl16 as int]);
                final(self)@ == old(self)@.with_flags(r.1) && final(mmu).mem() == old(
                    mmu,
                ).mem().update(hl16 as int, r.0)
            }),
            final(self).wf(),
            cycles == 16,
    {
        let address = self.wide_register(WideRegister::HL);
        let mut value = mmu.read(address);
        value = self.sla_value(value);
        mmu.write(address, value);
        16
    }

    /// SRA (HL).
    pub fn sra_mem<M: Mmu>(&mut self, mmu: &mut M) -> (cycles: usize)
        requires
            old(self).wf(),
            old(mmu).inv(),
        ensures
            final(mmu).inv(),
            ({
                let hl16 = old(self)@.get16(WideRegister::HL);
                let r = alu::sra8(old(mmu).mem()[hl16 as int]);
                final(self)@ == old(self)@.with_flags(r.1) && final(mmu).mem() == old(
                    mmu,
                ).mem().update(hl16 as int, r.0)
            }),
            final(self).wf(),
            cycles == 16,
    {
        let address = self.wide_register(WideRegister::HL);
        let mut value = mmu.read(address);
        value = self.sra_value(value);
        mmu.write(address, value);
        16
    }

    /// SRL (HL).
    pub fn srl_mem<M: Mmu>(&mut self, mmu: &mut M) -> (cycles: usize)
        requires
            old(self).wf(),
            old(mmu).inv(),
        ensures
            final(mmu).inv(),
            ({
                let hl16 = old(self)@.get16(WideRegister::HL);
                let r = alu::srl8(old(mmu).mem()[hl16 as int]);
                final(self)@ == old(self)@.with_flags(r.1) && final(mmu).mem() == old(
                    mmu,
                ).mem().update(hl16 as int, r.0)
            }),
            final(self).wf(),
            cycles == 16,
    {
        let address = self.wide_register(WideRegister::HL);
        let mut value = mmu.read(address);
        value = self.srl_value(value);
        mmu.write(address, value);
        16
    }

    /// SWAP (HL).
    pub fn swap_mem<M: Mmu>(&mut self, mmu: &mut M) -> (cycles: usize)
        requires
            old(self).wf(),
            old(mmu).inv(),
        ensures
            final(mmu).inv(),
            ({
                let hl16 = old(self)@.get16(WideRegister::HL);
                let r = alu::swap8(old(mmu).mem()[hl16 as int]);
                final(self)@ == old(self)@.with_flags(r.1) && final(mmu).mem() == old(
                    mmu,
                ).mem().update(hl16 as int, r.0)
            }),
            final(self).wf(),
            cycles == 16,
    {
        let address = self.wide_register(WideRegister::HL);
        let mut value = mmu.read(address);
        value = self.swap_value(value);
        mmu.write(address, value);
        16
    }

    /// BIT b,(HL): flags only, no writeback.
    pub fn bit_mem<M: Mmu>(&mut self, bit: u8, mmu: &M) -> (cycles: usize)
        requires
            old(self).wf(),
            bit < 8,
            mmu.inv(),
        ensures
            final(self)@ == old(self)@.with_flags(
                alu::bit_flags(
                    bit,
                    mmu.mem()[old(self)@.get16(WideRegister::HL) as int],
                    old(self)@.flags,
                ),
            ),
            final(self).wf(),
            cycles == 12,
    {
        let address = self.wide_register(WideRegister::HL);
        let value = mmu.read(address);
        self.bit_value(bit, value);
        12
    }

    /// RES b,(HL).
    pub fn reset_bit_mem<M: Mmu>(&mut self, bit: u8, mmu: &mut M) -> (cycles: usize)
        requires
            old(self).wf(),
            bit < 8,
            old(mmu).inv(),
        ensures
            final(mmu).inv(),
            ({
                let hl16 = old(self)@.get16(WideRegister::HL);
                *final(self) == *old(self) && final(mmu).mem() == old(mmu).mem().update(
                    hl16 as int,
                    alu::res8(bit, old(mmu).mem()[hl16 as int]),
                )
            }),
            cycles == 16,
    {
        let address = self.wide_register(WideRegister::HL);
        let mut value = mmu.read(address);
        value = self.reset_bit_value(bit, value);
        mmu.write(address, value);
        16
    }

    /// SET b,(HL).
    pub fn set_bit_mem<M: Mmu>(&mut self, bit: u8, mmu: &mut M) -> (cycles: usize)
        requires
            old(self).wf(),
            bit < 8,
            old(mmu).inv(),
        ensures
            final(mmu).inv(),
            ({
                let hl16 = old(self)@.get16(WideRegister::HL);
                *final(self) == *old(self) && final(mmu).mem() == old(mmu).mem().update(
                    hl16 as int,
                    alu::setbit8(bit, old(mmu).mem()[hl16 as int]),
                )
            }),
            cycles == 16,
    {
        let address = self.wide_register(WideRegister::HL);
        let mut value = mmu.read(address);
        value = self.set_bit_value(bit, value);
        mmu.write(address, value);
        16
    }
}

} // verus!
