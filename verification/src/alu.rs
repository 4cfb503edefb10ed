//! The instruction-level semantics of the ALU: for every arithmetic,
//! logical, rotate, shift, swap and decimal-adjust operation, the result
//! byte together with the four flags it produces.
//!
//! Each function states the tables of the processor manual directly; the
//! executable handlers on [`crate::cpu::Cpu`] are proved against them.

use vstd::prelude::*;
use crate::regs::Flags;
use crate::arith::{wrap8, wrap16};

verus! {

/// The value of a byte read as a signed two's-complement offset.
pub open spec fn signed8(v: u8) -> int {
    if v < 0x80 {
        v as int
    } else {
        v - 0x100
    }
}

/// ADD A,s / ADC A,s: the sum modulo 256; Z from the result, N clear,
/// H from the low-nibble sum, C from the full sum.
pub open spec fn add8(a: u8, s: u8, cin: bool) -> (u8, Flags) {
    let ci: int = if cin {
        1
    } else {
        0
    };
    let v = wrap8(a + s + ci);
    (
        v,
        Flags {
            z: v == 0,
            n: false,
            h: a % 0x10 + s % 0x10 + ci > 0xF,
            c: a + s + ci > 0xFF,
        },
    )
}

/// SUB A,s / SBC A,s: the difference modulo 256; Z from the result, N set,
/// H when the low nibble borrows, C when the whole byte borrows.
pub open spec fn sub8(a: u8, s: u8, cin: bool) -> (u8, Flags) {
    let ci: int = if cin {
        1
    } else {
        0
    };
    let v = wrap8(a - s - ci);
    (
        v,
        Flags { z: v == 0, n: true, h: (a % 0x10) < s % 0x10 + ci, c: (a as int) < s + ci },
    )
}

/// AND s: the conjunction; Z from the result, N clear, H set, C clear.
pub open spec fn and8(a: u8, s: u8) -> (u8, Flags) {
    let v = a & s;
    (v, Flags { z: v == 0, n: false, h: true, c: false })
}

/// XOR s: the exclusive or; Z from the result, the other flags clear.
pub open spec fn xor8(a: u8, s: u8) -> (u8, Flags) {
    let v = a ^ s;
    (v, Flags { z: v == 0, n: false, h: false, c: false })
}

/// OR s: the disjunction; Z from the result, the other flags clear.
pub open spec fn or8(a: u8, s: u8) -> (u8, Flags) {
    let v = a | s;
    (v, Flags { z: v == 0, n: false, h: false, c: false })
}

/// INC r: one more, modulo 256; C keeps its old value, H from the
/// pre-increment low nibble.
pub open spec fn inc8(v: u8, old_flags: Flags) -> (u8, Flags) {
    let r = wrap8(v + 1);
    (r, Flags { z: r == 0, n: false, h: v % 0x10 == 0xF, c: old_flags.c })
}

/// DEC r: one less, modulo 256; C keeps its old value, H from the
/// pre-decrement low nibble.
pub open spec fn dec8(v: u8, old_flags: Flags) -> (u8, Flags) {
    let r = wrap8(v - 1);
    (r, Flags { z: r == 0, n: true, h: v % 0x10 == 0, c: old_flags.c })
}

/// RLC: rotate left one bit; C takes the bit rotated around.
pub open spec fn rlc8(v: u8) -> (u8, Flags) {
    let r = ((v % 0x80) * 2 + v / 0x80) as u8;
    (r, Flags { z: r == 0, n: false, h: false, c: v / 0x80 == 1 })
}

/// RL: shift left one bit, the old carry entering bit 0; C takes bit 7.
pub open spec fn rl8(v: u8, cin: bool) -> (u8, Flags) {
    let r = ((v % 0x80) * 2 + if cin {
        1int
    } else {
        0int
    }) as u8;
    (r, Flags { z: r == 0, n: false, h: false, c: v / 0x80 == 1 })
}

/// RRC: rotate right one bit; C takes the bit rotated around.
pub open spec fn rrc8(v: u8) -> (u8, Flags) {
    let r = ((v % 2) * 0x80 + v / 2) as u8;
    (r, Flags { z: r == 0, n: false, h: false, c: v % 2 == 1 })
}

/// RR: shift right one bit, the old carry entering bit 7; C takes bit 0.
pub open spec fn rr8(v: u8, cin: bool) -> (u8, Flags) {
    let r = (v / 2 + if cin {
        0x80int
    } else {
        0int
    }) as u8;
    (r, Flags { z: r == 0, n: false, h: false, c: v % 2 == 1 })
}

/// SLA: shift left one bit, bit 0 cleared; C takes bit 7.
pub open spec fn sla8(v: u8) -> (u8, Flags) {
    let r = ((v % 0x80) * 2) as u8;
    (r, Flags { z: r == 0, n: false, h: false, c: v / 0x80 == 1 })
}

/// SRA: arithmetic shift right one bit, bit 7 kept; C takes bit 0.
pub open spec fn sra8(v: u8) -> (u8, Flags) {
    let r = ((v / 0x80) * 0x80 + v / 2) as u8;
    (r, Flags { z: r == 0, n: false, h: false, c: v % 2 == 1 })
}

/// SRL: logical shift right one bit, bit 7 cleared; C takes bit 0.
pub open spec fn srl8(v: u8) -> (u8, Flags) {
    let r = v / 2;
    (r, Flags { z: r == 0, n: false, h: false, c: v % 2 == 1 })
}

/// SWAP: the two nibbles exchanged; Z from the result, the rest clear.
pub open spec fn swap8(v: u8) -> (u8, Flags) {
    let r = ((v % 0x10) * 0x10 + v / 0x10) as u8;
    (r, Flags { z: r == 0, n: false, h: false, c: false })
}

/// BIT b,s: Z set exactly when bit `b` is clear; N clear, H set, C kept.
pub open spec fn bit_flags(b: u8, v: u8, old_flags: Flags) -> Flags {
    Flags { z: v & (1u8 << b) == 0, n: false, h: true, c: old_flags.c }
}

/// RES b,s: the byte with bit `b` cleared.
pub open spec fn res8(b: u8, v: u8) -> u8 {
    v & !(1u8 << b)
}

/// SET b,s: the byte with bit `b` set.
pub open spec fn setbit8(b: u8, v: u8) -> u8 {
    v | (1u8 << b)
}

/// ADD HL,rr: the 16-bit sum modulo 2^16; Z kept, N clear, H from the
/// low-twelve-bit sum, C from the full sum.
pub open spec fn add16(hl: u16, rr: u16, old_flags: Flags) -> (u16, Flags) {
    let v = wrap16(hl + rr);
    (
        v,
        Flags {
            z: old_flags.z,
            n: false,
            h: hl % 0x1000 + rr % 0x1000 > 0xFFF,
            c: hl + rr > 0xFFFF,
        },
    )
}

/// ADD SP,e8 and LD HL,SP+e8: the signed offset added modulo 2^16; Z and
/// N clear, H and C from the unsigned low-nibble and low-byte sums.
pub open spec fn addsp16(sp: u16, off: u8) -> (u16, Flags) {
    let v = wrap16(sp + signed8(off));
    (
        v,
        Flags { z: false, n: false, h: sp % 0x10 + off % 0x10 > 0xF, c: sp % 0x100 + off > 0xFF },
    )
}

/// DAA: the accumulator adjusted to packed BCD after an addition or a
/// subtraction; Z from the result, N kept, H cleared, C set when the
/// adjustment carried.
pub open spec fn daa8(a: u8, old_flags: Flags) -> (u8, Flags) {
    if !old_flags.n {
        let low_adj: int = if old_flags.h || a % 0x10 > 9 {
            0x06
        } else {
            0
        };
        let carry_out = old_flags.c || a > 0x99;
        let adj: int = low_adj + if carry_out {
            0x60int
        } else {
            0int
        };
        let v = wrap8(a + adj);
        (v, Flags { z: v == 0, n: old_flags.n, h: false, c: carry_out })
    } else {
        let adj: int = (if old_flags.h {
            0x06int
        } else {
            0int
        }) + (if old_flags.c {
            0x60int
        } else {
            0int
        });
        let v = wrap8(a - adj);
        (v, Flags { z: v == 0, n: old_flags.n, h: false, c: old_flags.c })
    }
}

/// CPL: every bit of A inverted; N and H set, Z and C kept.
pub open spec fn cpl8(a: u8) -> u8 {
    !a
}

} // verus!
