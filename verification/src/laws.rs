//! The crate-level laws of the core: facts that tie several operations
//! together, each proved once and for all inputs.

use vstd::prelude::*;
use vstd::arithmetic::div_mod::lemma_fundamental_div_mod;
use vstd::arithmetic::div_mod::lemma_fundamental_div_mod_converse;
use vstd::arithmetic::div_mod::lemma_small_mod;
use crate::regs::{Register, WideRegister, CpuView};
use crate::arith::{wrap16, lemma_wrap16_add};
use crate::mmu::{word_at, stack_push};
use crate::alu;
use crate::step::{spec_step, spec_dispatch, spec_pending, spec_exec_low, spec_exec_high, jr_cond,
    cond_of, StepOut};

verus! {

/// Register aliasing, wide to narrow: writing a 16-bit pair makes its
/// high register the high byte and its low register the low byte, and
/// reading the pair back gives the written value.
pub proof fn lemma_pair_write16(v: CpuView, p: WideRegister, x: u16, hi: Register, lo: Register)
    requires
        (p is BC && hi is B && lo is C) || (p is DE && hi is D && lo is E) || (p is HL && hi is H
            && lo is L),
    ensures
        v.set16(p, x).get8(hi) == x / 0x100,
        v.set16(p, x).get8(lo) == x % 0x100,
        v.set16(p, x).get16(p) == x,
{
    lemma_fundamental_div_mod(x as int, 0x100);
}

/// Register aliasing, narrow to wide: writing the two 8-bit halves and
/// reading the pair gives high times 256 plus low.
pub proof fn lemma_pair_write8(v: CpuView, p: WideRegister, hi: Register, lo: Register, h: u8, l: u8)
    requires
        (p is BC && hi is B && lo is C) || (p is DE && hi is D && lo is E) || (p is HL && hi is H
            && lo is L),
    ensures
        v.set8(hi, h).set8(lo, l).get16(p) == h * 0x100 + l,
{
}

/// Register aliasing for AF: a write to the pair keeps A whole and
/// forces the low nibble of F to zero, whatever was written.
pub proof fn lemma_af_write16(v: CpuView, x: u16)
    ensures
        v.set16(WideRegister::AF, x).a == x / 0x100,
        v.set16(WideRegister::AF, x).get16(WideRegister::AF) == x / 0x10 * 0x10,
        v.set16(WideRegister::AF, x).get16(WideRegister::AF) % 0x10 == 0,
        x % 0x10 == 0 ==> v.set16(WideRegister::AF, x).get16(WideRegister::AF) == x,
{
    let w = v.set16(WideRegister::AF, x);
    let b = (x % 0x100) as u8;
    assert(w.flags.value() == b / 0x80 % 2 * 0x80 + b / 0x40 % 2 * 0x40 + b / 0x20 % 2 * 0x20 + b
        / 0x10 % 2 * 0x10);
    assert(b / 0x80 % 2 * 0x80 + b / 0x40 % 2 * 0x40 + b / 0x20 % 2 * 0x20 + b / 0x10 % 2 * 0x10
        == b / 0x10 * 0x10) by (bit_vector);
    assert((x / 0x100) * 0x100 + (x % 0x100) / 0x10 * 0x10 == x / 0x10 * 0x10) by (bit_vector);
    assert(x / 0x10 * 0x10 % 0x10 == 0) by (bit_vector);
}

/// Flag determinism for ADC: result and all four flags are exactly the
/// functions of (a, s, carry-in) that the flag table gives.
pub proof fn lemma_adc_flags(a: u8, s: u8, cin: bool)
    ensures
        ({
            let ci: int = if cin {
                1
            } else {
                0
            };
            let r = alu::add8(a, s, cin);
            r.0 == (a + s + ci) % 0x100 && (r.1.z <==> (a + s + ci) % 0x100 == 0) && r.1.n
                == false && (r.1.h <==> a % 0x10 + s % 0x10 + ci > 0xF) && (r.1.c <==> a + s + ci
                > 0xFF)
        }),
{
}

/// Flag determinism for SBC: result and all four flags are exactly the
/// functions of (a, s, carry-in) that the flag table gives.
pub proof fn lemma_sbc_flags(a: u8, s: u8, cin: bool)
    ensures
        ({
            let ci: int = if cin {
                1
            } else {
                0
            };
            let r = alu::sub8(a, s, cin);
            r.0 == (a - s - ci) % 0x100 && (r.1.z <==> (a - s - ci) % 0x100 == 0) && r.1.n == true
                && (r.1.h <==> a % 0x10 < s % 0x10 + ci) && (r.1.c <==> a < s + ci)
        }),
{
}

/// Rotate round trip: RLC then RRC restores the byte, and the final
/// carry is the bit RRC rotated out, which is bit 7 of the original.
pub proof fn lemma_rotate_round_trip(v: u8)
    ensures
        alu::rrc8(alu::rlc8(v).0).0 == v,
        alu::rrc8(alu::rlc8(v).0).1.c == (v / 0x80 == 1),
{
    let r = (v % 0x80) * 2 + v / 0x80;
    lemma_fundamental_div_mod_converse(r as int, 2, (v % 0x80) as int, (v / 0x80) as int);
    lemma_fundamental_div_mod(v as int, 0x80);
}

/// SWAP involution: exchanging the nibbles twice restores the byte.
pub proof fn lemma_swap_involution(v: u8)
    ensures
        alu::swap8(alu::swap8(v).0).0 == v,
        alu::swap8(alu::swap8(v).0).1.z == (v == 0),
        !alu::swap8(v).1.n && !alu::swap8(v).1.h && !alu::swap8(v).1.c,
{
    let r = (v % 0x10) * 0x10 + v / 0x10;
    lemma_fundamental_div_mod_converse(r as int, 0x10, (v % 0x10) as int, (v / 0x10) as int);
    lemma_fundamental_div_mod(v as int, 0x10);
}

/// PUSH/POP duality: popping right after a push reads the pushed word
/// back, the high byte sits at SP-1, the low byte at SP-2, and the
/// stack pointer returns to where it started.
pub proof fn lemma_push_pop(mem: Seq<u8>, sp: u16, x: u16)
    requires
        mem.len() == 0x10000,
    ensures
        word_at(stack_push(mem, sp, x), wrap16(sp - 2)) == x,
        stack_push(mem, sp, x)[wrap16(sp - 1) as int] == x / 0x100,
        stack_push(mem, sp, x)[wrap16(sp - 2) as int] == x % 0x100,
        wrap16(wrap16(sp - 2) + 2) == sp,
{
    lemma_wrap16_add(sp - 2, 1);
    lemma_wrap16_add(sp - 2, 2);
    lemma_small_mod(sp as nat, 0x10000);
    assert(wrap16(sp - 2) != wrap16(sp - 1)) by {
        lemma_fundamental_div_mod(sp - 2, 0x10000);
        lemma_fundamental_div_mod(sp - 1, 0x10000);
    };
    lemma_fundamental_div_mod(x as int, 0x100);
}

/// JR sign handling: an offset of 0xFE loops back to the JR opcode
/// itself, 0x00 falls through to the next instruction, and 0x7F lands
/// 0x7F bytes past the instruction's end.
pub proof fn lemma_jr_sign(cpu: CpuView, mem: Seq<u8>)
    requires
        !cpu.halted,
        !(cpu.ime && spec_pending(mem) & 0x1F != 0),
        mem[cpu.pc as int] == 0x18,
    ensures
        mem[wrap16(cpu.pc + 1) as int] == 0xFE ==> (spec_step(cpu, mem) matches Some(out)
            && out.cpu.pc == cpu.pc && out.cycles == 12),
        mem[wrap16(cpu.pc + 1) as int] == 0x00 ==> (spec_step(cpu, mem) matches Some(out)
            && out.cpu.pc == wrap16(cpu.pc + 2) && out.cycles == 12),
        mem[wrap16(cpu.pc + 1) as int] == 0x7F ==> (spec_step(cpu, mem) matches Some(out)
            && out.cpu.pc == wrap16(cpu.pc + 2 + 0x7F) && out.cycles == 12),
{
    let e = mem[wrap16(cpu.pc + 1) as int];
    lemma_wrap16_add(cpu.pc + 1, 1 + alu::signed8(e));
    lemma_small_mod(cpu.pc as nat, 0x10000);
}

/// Conditional cost: every conditional branch costs its taken price
/// when the condition holds and its not-taken price when it does not.
pub proof fn lemma_conditional_costs(op: u8, cpu: CpuView, mem: Seq<u8>)
    ensures
        (op == 0x20 || op == 0x28 || op == 0x30 || op == 0x38) ==> spec_exec_low(op, cpu, mem).cycles
            == (if cpu.cond(jr_cond(op)) {
            12int
        } else {
            8int
        }),
        (op == 0xC2 || op == 0xCA || op == 0xD2 || op == 0xDA) ==> (spec_exec_high(op, cpu, mem)
            matches Some(out) && out.cycles == (if cpu.cond(cond_of(op / 8 % 8)) {
            16int
        } else {
            12int
        })),
        (op == 0xC4 || op == 0xCC || op == 0xD4 || op == 0xDC) ==> (spec_exec_high(op, cpu, mem)
            matches Some(out) && out.cycles == (if cpu.cond(cond_of(op / 8 % 8)) {
            24int
        } else {
            12int
        })),
        (op == 0xC0 || op == 0xC8 || op == 0xD0 || op == 0xD8) ==> (spec_exec_high(op, cpu, mem)
            matches Some(out) && out.cycles == (if cpu.cond(cond_of(op / 8 % 8)) {
            20int
        } else {
            8int
        })),
{
}

/// Interrupt dispatch: with IME set and both IF and IE holding 0x05,
/// one step services VBlank alone: it pushes the pre-step PC, clears
/// IF bit 0 leaving 0x04, clears IME, jumps to 0x0040 and costs 20.
pub proof fn lemma_interrupt_dispatch(cpu: CpuView, mem: Seq<u8>)
    requires
        !cpu.halted,
        cpu.ime,
        mem[0xFF0F] == 0x05,
        mem[0xFFFF] == 0x05,
    ensures
        spec_step(cpu, mem) matches Some(out) && out.cycles == 20 && out.cpu.pc == 0x0040
            && !out.cpu.ime && out.cpu.sp == wrap16(cpu.sp - 2) && out.mem == stack_push(
            mem,
            cpu.sp,
            cpu.pc,
        ).update(0xFF0F, 0x04u8),
{
    assert(0x05u8 & 0x05u8 == 0x05u8 && 0x05u8 & 0x1F == 0x05u8 && 0x05u8 & 0x01 == 0x01u8 && (
    0x05u8 & !(1u8 << 0u8)) == 0x04u8) by (bit_vector);
}

/// HALT wake: with an interrupt pending and enabled, the next step
/// leaves the halt state.  With IME clear it costs the idle 4 cycles
/// and touches nothing else — PC in particular is unchanged; with IME
/// set the vector is taken instead.
pub proof fn lemma_halt_wake(cpu: CpuView, mem: Seq<u8>)
    requires
        cpu.halted,
        mem[0xFF0F] == 0x01,
        mem[0xFFFF] == 0x01,
    ensures
        !cpu.ime ==> spec_step(cpu, mem) == Some(
            StepOut { cpu: CpuView { halted: false, ..cpu }, mem, cycles: 4 },
        ),
        cpu.ime ==> (spec_step(cpu, mem) matches Some(out) && out.cpu
            == spec_dispatch(CpuView { halted: false, ..cpu }, mem).cpu && out.cpu.pc == 0x0040
            && !out.cpu.halted && out.cycles == 20),
{
    assert(0x01u8 & 0x01u8 == 0x01u8 && 0x01u8 & 0x1F == 0x01u8) by (bit_vector);
}

} // verus!
