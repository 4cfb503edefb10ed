//! Names for the register file of the LR35902 core, and the mathematical
//! view of the processor state that every contract in this crate speaks of.
//!
//! The executable `Cpu` keeps the six 16-bit cells (`af`, `bc`, `de`, `hl`,
//! `sp`, `pc`) packed exactly as the hardware does; `CpuView` unpacks them
//! into the seven named 8-bit registers and the four ALU flags, which is the
//! level at which the instruction semantics are stated.

use vstd::prelude::*;

verus! {

/// One of the seven addressable 8-bit registers.
#[derive(Copy, Clone)]
pub enum Register {
    A,
    B,
    C,
    D,
    E,
    H,
    L,
}

/// One of the six 16-bit register pairs.
#[derive(Copy, Clone)]
pub enum WideRegister {
    PC,
    SP,
    AF,
    BC,
    DE,
    HL,
}

/// One of the four ALU flags held in bits 7..4 of F.
#[derive(Copy, Clone)]
pub enum Flag {
    Zero,
    Negative,
    HalfCarry,
    Carry,
}

/// A branch condition tested by conditional jumps, calls and returns.
#[derive(Copy, Clone)]
pub enum Condition {
    Zero,
    NotZero,
    Carry,
    NotCarry,
}

/// The four ALU flags, unpacked.
pub struct Flags {
    pub z: bool,
    pub n: bool,
    pub h: bool,
    pub c: bool,
}

impl Flags {
    /// The packed flag byte: Z in bit 7, N in bit 6, H in bit 5, C in bit 4,
    /// and a low nibble that is always zero.
    pub open spec fn value(self) -> u8 {
        ((if self.z {
            0x80int
        } else {
            0int
        }) + (if self.n {
            0x40int
        } else {
            0int
        }) + (if self.h {
            0x20int
        } else {
            0int
        }) + (if self.c {
            0x10int
        } else {
            0int
        })) as u8
    }

    /// The flags encoded in bits 7..4 of a byte; the low nibble is ignored.
    pub open spec fn of_byte(b: u8) -> Flags {
        Flags {
            z: b / 0x80 % 2 == 1,
            n: b / 0x40 % 2 == 1,
            h: b / 0x20 % 2 == 1,
            c: b / 0x10 % 2 == 1,
        }
    }

    pub open spec fn flag(self, f: Flag) -> bool {
        match f {
            Flag::Zero => self.z,
            Flag::Negative => self.n,
            Flag::HalfCarry => self.h,
            Flag::Carry => self.c,
        }
    }

    pub open spec fn with_flag(self, f: Flag, v: bool) -> Flags {
        match f {
            Flag::Zero => Flags { z: v, ..self },
            Flag::Negative => Flags { n: v, ..self },
            Flag::HalfCarry => Flags { h: v, ..self },
            Flag::Carry => Flags { c: v, ..self },
        }
    }
}

/// The processor state with every register unpacked: the value of each
/// 8-bit register, the four flags, the two pointers and the mode bits.
pub struct CpuView {
    pub pc: u16,
    pub sp: u16,
    pub a: u8,
    pub flags: Flags,
    pub b: u8,
    pub c: u8,
    pub d: u8,
    pub e: u8,
    pub h: u8,
    pub l: u8,
    pub ime: bool,
    pub halted: bool,
    pub stopped: bool,
}

impl CpuView {
    pub open spec fn get8(self, r: Register) -> u8 {
        match r {
            Register::A => self.a,
            Register::B => self.b,
            Register::C => self.c,
            Register::D => self.d,
            Register::E => self.e,
            Register::H => self.h,
            Register::L => self.l,
        }
    }

    pub open spec fn set8(self, r: Register, v: u8) -> CpuView {
        match r {
            Register::A => CpuView { a: v, ..self },
            Register::B => CpuView { b: v, ..self },
            Register::C => CpuView { c: v, ..self },
            Register::D => CpuView { d: v, ..self },
            Register::E => CpuView { e: v, ..self },
            Register::H => CpuView { h: v, ..self },
            Register::L => CpuView { l: v, ..self },
        }
    }

    /// The 16-bit value of a pair; AF recombines A with the packed flag byte.
    pub open spec fn get16(self, rr: WideRegister) -> u16 {
        match rr {
            WideRegister::PC => self.pc,
            WideRegister::SP => self.sp,
            WideRegister::AF => (self.a * 0x100 + self.flags.value()) as u16,
            WideRegister::BC => (self.b * 0x100 + self.c) as u16,
            WideRegister::DE => (self.d * 0x100 + self.e) as u16,
            WideRegister::HL => (self.h * 0x100 + self.l) as u16,
        }
    }

    /// Writing a pair; a write to AF drops the low nibble of F.
    pub open spec fn set16(self, rr: WideRegister, v: u16) -> CpuView {
        match rr {
            WideRegister::PC => CpuView { pc: v, ..self },
            WideRegister::SP => CpuView { sp: v, ..self },
            WideRegister::AF => CpuView {
                a: (v / 0x100) as u8,
                flags: Flags::of_byte((v % 0x100) as u8),
                ..self
            },
            WideRegister::BC => CpuView { b: (v / 0x100) as u8, c: (v % 0x100) as u8, ..self },
            WideRegister::DE => CpuView { d: (v / 0x100) as u8, e: (v % 0x100) as u8, ..self },
            WideRegister::HL => CpuView { h: (v / 0x100) as u8, l: (v % 0x100) as u8, ..self },
        }
    }

    pub open spec fn with_flags(self, f: Flags) -> CpuView {
        CpuView { flags: f, ..self }
    }

    /// The state after reset: every register zero, every flag clear,
    /// interrupts disabled, neither halted nor stopped.
    pub open spec fn reset() -> CpuView {
        CpuView {
            pc: 0,
            sp: 0,
            a: 0,
            flags: Flags { z: false, n: false, h: false, c: false },
            b: 0,
            c: 0,
            d: 0,
            e: 0,
            h: 0,
            l: 0,
            ime: false,
            halted: false,
            stopped: false,
        }
    }

    /// Whether a branch condition holds under the current flags.
    pub open spec fn cond(self, c: Condition) -> bool {
        match c {
            Condition::Zero => self.flags.z,
            Condition::NotZero => !self.flags.z,
            Condition::Carry => self.flags.c,
            Condition::NotCarry => !self.flags.c,
        }
    }
}

} // verus!
