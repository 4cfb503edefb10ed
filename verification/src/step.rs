//! The one-step semantics of the core, stated as a mathematical function:
//! given the register view and the 64 KiB of bus memory, what the next
//! state, the next memory and the cycle cost of one `cycle` call are.
//!
//! [`spec_step`] covers the halt handling and the interrupt servicer
//! that precede every fetch; [`spec_exec`] is the 256-entry primary opcode
//! table and [`spec_exec_cb`] the 256-entry CB-prefixed table.  The
//! executable dispatcher [`crate::cpu::Cpu::cycle`] is proved to return
//! exactly what these functions say.

use vstd::prelude::*;
use crate::regs::{Register, WideRegister, Condition, Flags, CpuView};
use crate::arith::wrap16;
use crate::mmu::{word_at, stack_push};
use crate::alu;

verus! {

/// What one step leaves behind: the register view, the memory and the
/// T-cycles consumed.
pub struct StepOut {
    pub cpu: CpuView,
    pub mem: Seq<u8>,
    pub cycles: int,
}

/// The interrupt requests that are also enabled: IE AND IF, as the
/// servicer reads them from the bus.
pub open spec fn spec_pending(mem: Seq<u8>) -> u8 {
    mem[0xFFFF] & mem[0xFF0F]
}

/// The highest-priority set bit among the low five: VBlank (bit 0) wins,
/// Joypad (bit 4) loses.
pub open spec fn priority(p: u8) -> u8 {
    if p & 0x01 != 0 {
        0
    } else if p & 0x02 != 0 {
        1
    } else if p & 0x04 != 0 {
        2
    } else if p & 0x08 != 0 {
        3
    } else {
        4
    }
}

/// Servicing the winning interrupt: IME cleared, PC pushed, the request
/// bit cleared in IF (after the push reaches memory), PC set to the
/// fixed vector, 20 cycles.
pub open spec fn spec_dispatch(cpu: CpuView, mem: Seq<u8>) -> StepOut {
    let b = priority(spec_pending(mem));
    let mem1 = stack_push(mem, cpu.sp, cpu.pc);
    let cleared = mem[0xFF0F] & !(1u8 << b);
    StepOut {
        cpu: CpuView {
            pc: (0x40 + 8 * b) as u16,
            sp: wrap16(cpu.sp - 2),
            ime: false,
            ..cpu
        },
        mem: mem1.update(0xFF0F, cleared),
        cycles: 20,
    }
}

/// The hardware-undefined opcode slots; executing one is a fault.
pub open spec fn spec_illegal(op: u8) -> bool {
    op == 0xD3 || op == 0xDB || op == 0xDD || op == 0xE3 || op == 0xE4 || op == 0xEB || op == 0xEC
        || op == 0xED || op == 0xF4 || op == 0xFC || op == 0xFD
}

/// The 8-bit operand column of the two grids: B,C,D,E,H,L,(HL),A.
/// Index 6 is the memory operand and is never passed here.
pub open spec fn reg_of(i: u8) -> Register {
    if i == 0 {
        Register::B
    } else if i == 1 {
        Register::C
    } else if i == 2 {
        Register::D
    } else if i == 3 {
        Register::E
    } else if i == 4 {
        Register::H
    } else if i == 5 {
        Register::L
    } else {
        Register::A
    }
}

/// The rotate/shift row of the CB table: RLC,RRC,RL,RR,SLA,SRA,SWAP,SRL.
pub open spec fn cb_rot(sel: u8, v: u8, f: Flags) -> (u8, Flags) {
    if sel == 0 {
        alu::rlc8(v)
    } else if sel == 1 {
        alu::rrc8(v)
    } else if sel == 2 {
        alu::rl8(v, f.c)
    } else if sel == 3 {
        alu::rr8(v, f.c)
    } else if sel == 4 {
        alu::sla8(v)
    } else if sel == 5 {
        alu::sra8(v)
    } else if sel == 6 {
        alu::swap8(v)
    } else {
        alu::srl8(v)
    }
}

/// The ALU row of the 0x80..0xBF grid: ADD,ADC,SUB,SBC,AND,XOR,OR,CP.
/// CP shares SUB's result but discards the value.
pub open spec fn alu_op(sel: u8, a: u8, s: u8, f: Flags) -> (u8, Flags) {
    if sel == 0 {
        alu::add8(a, s, false)
    } else if sel == 1 {
        alu::add8(a, s, f.c)
    } else if sel == 2 {
        alu::sub8(a, s, false)
    } else if sel == 3 {
        alu::sub8(a, s, f.c)
    } else if sel == 4 {
        alu::and8(a, s)
    } else if sel == 5 {
        alu::xor8(a, s)
    } else {
        alu::or8(a, s)
    }
}

/// One CB-prefixed instruction, with `cpu` already past the second
/// opcode byte.  Register forms cost 8 cycles, memory forms 16, except
/// BIT b,(HL) at 12.
pub open spec fn spec_exec_cb(op: u8, cpu: CpuView, mem: Seq<u8>) -> StepOut {
    let cls = op / 0x40;
    let bi = op / 8 % 8;
    let oi = op % 8;
    let hl16 = cpu.get16(WideRegister::HL);
    if cls == 0 {
        if oi == 6 {
            let r = cb_rot(bi, mem[hl16 as int], cpu.flags);
            StepOut { cpu: cpu.with_flags(r.1), mem: mem.update(hl16 as int, r.0), cycles: 16 }
        } else {
            let r = cb_rot(bi, cpu.get8(reg_of(oi)), cpu.flags);
            StepOut { cpu: cpu.set8(reg_of(oi), r.0).with_flags(r.1), mem, cycles: 8 }
        }
    } else if cls == 1 {
        if oi == 6 {
            let f = alu::bit_flags(bi, mem[hl16 as int], cpu.flags);
            StepOut { cpu: cpu.with_flags(f), mem, cycles: 12 }
        } else {
            let f = alu::bit_flags(bi, cpu.get8(reg_of(oi)), cpu.flags);
            StepOut { cpu: cpu.with_flags(f), mem, cycles: 8 }
        }
    } else if cls == 2 {
        if oi == 6 {
            StepOut {
                cpu,
                mem: mem.update(hl16 as int, alu::res8(bi, mem[hl16 as int])),
                cycles: 16,
            }
        } else {
            StepOut { cpu: cpu.set8(reg_of(oi), alu::res8(bi, cpu.get8(reg_of(oi)))), mem, cycles: 8 }
        }
    } else {
        if oi == 6 {
            StepOut {
                cpu,
                mem: mem.update(hl16 as int, alu::setbit8(bi, mem[hl16 as int])),
                cycles: 16,
            }
        } else {
            StepOut {
                cpu: cpu.set8(reg_of(oi), alu::setbit8(bi, cpu.get8(reg_of(oi)))),
                mem,
                cycles: 8,
            }
        }
    }
}

/// One instruction of the primary table, with `cpu` already past the
/// opcode byte; `None` for a hardware-undefined opcode.
pub open spec fn spec_exec(op: u8, cpu: CpuView, mem: Seq<u8>) -> Option<StepOut> {
    if spec_illegal(op) {
        None
    } else if op < 0x40 {
        Some(spec_exec_low(op, cpu, mem))
    } else if op < 0x80 {
        Some(spec_exec_ld(op, cpu, mem))
    } else if op < 0xC0 {
        Some(spec_exec_alu(op, cpu, mem))
    } else {
        spec_exec_high(op, cpu, mem)
    }
}

/// The 0x40..0x7F block: the LD r,r' grid, with HALT in the (HL),(HL)
/// slot.
pub open spec fn spec_exec_ld(op: u8, cpu: CpuView, mem: Seq<u8>) -> StepOut {
    let hl16 = cpu.get16(WideRegister::HL);
    if op == 0x76 {
        StepOut { cpu: CpuView { halted: true, ..cpu }, mem, cycles: 4 }
    } else {
        let di = op / 8 % 8;
        let si = op % 8;
        if di == 6 {
            StepOut { cpu, mem: mem.update(hl16 as int, cpu.get8(reg_of(si))), cycles: 8 }
        } else if si == 6 {
            StepOut { cpu: cpu.set8(reg_of(di), mem[hl16 as int]), mem, cycles: 8 }
        } else {
            StepOut { cpu: cpu.set8(reg_of(di), cpu.get8(reg_of(si))), mem, cycles: 4 }
        }
    }
}

/// The 0x80..0xBF block: the ALU A,s grid.
pub open spec fn spec_exec_alu(op: u8, cpu: CpuView, mem: Seq<u8>) -> StepOut {
    let hl16 = cpu.get16(WideRegister::HL);
    let sel = op / 8 % 8;
    let oi = op % 8;
    let s = if oi == 6 {
        mem[hl16 as int]
    } else {
        cpu.get8(reg_of(oi))
    };
    let cy: int = if oi == 6 {
        8
    } else {
        4
    };
    if sel == 7 {
        StepOut { cpu: cpu.with_flags(alu::sub8(cpu.a, s, false).1), mem, cycles: cy }
    } else {
        let r = alu_op(sel, cpu.a, s, cpu.flags);
        StepOut { cpu: cpu.set8(Register::A, r.0).with_flags(r.1), mem, cycles: cy }
    }
}

/// The 0x00..0x3F block of the primary table.
pub open spec fn spec_exec_low(op: u8, cpu: CpuView, mem: Seq<u8>) -> StepOut {
    let pc1 = cpu.pc;
    let hl16 = cpu.get16(WideRegister::HL);
    let imm8 = mem[pc1 as int];
    let imm16 = word_at(mem, pc1);
    let after_imm8 = CpuView { pc: wrap16(pc1 + 1), ..cpu };
    let after_imm16 = CpuView { pc: wrap16(pc1 + 2), ..cpu };
    let col = op % 8;
    let row = op / 8 % 8;
    if col == 0 {
        // NOP, LD (u16),SP, STOP, JR, JR cc
        if op == 0x00 {
            StepOut { cpu, mem, cycles: 4 }
        } else if op == 0x08 {
            StepOut {
                cpu: after_imm16,
                mem: mem.update(imm16 as int, (cpu.sp % 0x100) as u8).update(
                    wrap16(imm16 + 1) as int,
                    (cpu.sp / 0x100) as u8,
                ),
                cycles: 20,
            }
        } else if op == 0x10 {
            StepOut { cpu: CpuView { stopped: true, ..after_imm8 }, mem, cycles: 4 }
        } else if op == 0x18 {
            StepOut { cpu: CpuView { pc: wrap16(pc1 + 1 + alu::signed8(imm8)), ..cpu }, mem, cycles: 12 }
        } else {
            let cc = jr_cond(op);
            let taken = cpu.cond(cc);
            StepOut {
                cpu: CpuView {
                    pc: if taken {
                        wrap16(pc1 + 1 + alu::signed8(imm8))
                    } else {
                        wrap16(pc1 + 1)
                    },
                    ..cpu
                },
                mem,
                cycles: if taken {
                    12
                } else {
                    8
                },
            }
        }
    } else if col == 1 {
        if row % 2 == 0 {
            // LD rr,u16
            StepOut { cpu: after_imm16.set16(pair_of(row / 2), imm16), mem, cycles: 12 }
        } else {
            // ADD HL,rr
            let r = alu::add16(hl16, cpu.get16(pair_of(row / 2)), cpu.flags);
            StepOut { cpu: cpu.set16(WideRegister::HL, r.0).with_flags(r.1), mem, cycles: 8 }
        }
    } else if col == 2 {
        // the (BC)/(DE)/(HL+)/(HL-) column, stores then loads
        if op == 0x02 {
            StepOut { cpu, mem: mem.update(cpu.get16(WideRegister::BC) as int, cpu.a), cycles: 8 }
        } else if op == 0x12 {
            StepOut { cpu, mem: mem.update(cpu.get16(WideRegister::DE) as int, cpu.a), cycles: 8 }
        } else if op == 0x22 {
            StepOut {
                cpu: cpu.set16(WideRegister::HL, wrap16(hl16 + 1)),
                mem: mem.update(hl16 as int, cpu.a),
                cycles: 8,
            }
        } else if op == 0x32 {
            StepOut {
                cpu: cpu.set16(WideRegister::HL, wrap16(hl16 - 1)),
                mem: mem.update(hl16 as int, cpu.a),
                cycles: 8,
            }
        } else if op == 0x0A {
            StepOut {
                cpu: cpu.set8(Register::A, mem[cpu.get16(WideRegister::BC) as int]),
                mem,
                cycles: 8,
            }
        } else if op == 0x1A {
            StepOut {
                cpu: cpu.set8(Register::A, mem[cpu.get16(WideRegister::DE) as int]),
                mem,
                cycles: 8,
            }
        } else if op == 0x2A {
            StepOut {
                cpu: cpu.set8(Register::A, mem[hl16 as int]).set16(
                    WideRegister::HL,
                    wrap16(hl16 + 1),
                ),
                mem,
                cycles: 8,
            }
        } else {
            StepOut {
                cpu: cpu.set8(Register::A, mem[hl16 as int]).set16(
                    WideRegister::HL,
                    wrap16(hl16 - 1),
                ),
                mem,
                cycles: 8,
            }
        }
    } else if col == 3 {
        // INC rr / DEC rr
        if row % 2 == 0 {
            StepOut {
                cpu: cpu.set16(pair_of(row / 2), wrap16(cpu.get16(pair_of(row / 2)) + 1)),
                mem,
                cycles: 8,
            }
        } else {
            StepOut {
                cpu: cpu.set16(pair_of(row / 2), wrap16(cpu.get16(pair_of(row / 2)) - 1)),
                mem,
                cycles: 8,
            }
        }
    } else if col == 4 {
        // INC r / INC (HL)
        if row == 6 {
            let r = alu::inc8(mem[hl16 as int], cpu.flags);
            StepOut { cpu: cpu.with_flags(r.1), mem: mem.update(hl16 as int, r.0), cycles: 12 }
        } else {
            let r = alu::inc8(cpu.get8(reg_of(row)), cpu.flags);
            StepOut { cpu: cpu.set8(reg_of(row), r.0).with_flags(r.1), mem, cycles: 4 }
        }
    } else if col == 5 {
        // DEC r / DEC (HL)
        if row == 6 {
            let r = alu::dec8(mem[hl16 as int], cpu.flags);
            StepOut { cpu: cpu.with_flags(r.1), mem: mem.update(hl16 as int, r.0), cycles: 12 }
        } else {
            let r = alu::dec8(cpu.get8(reg_of(row)), cpu.flags);
            StepOut { cpu: cpu.set8(reg_of(row), r.0).with_flags(r.1), mem, cycles: 4 }
        }
    } else if col == 6 {
        // LD r,u8 / LD (HL),u8
        if row == 6 {
            StepOut { cpu: after_imm8, mem: mem.update(hl16 as int, imm8), cycles: 12 }
        } else {
            StepOut { cpu: after_imm8.set8(reg_of(row), imm8), mem, cycles: 8 }
        }
    } else {
        // the A-rotates, DAA, CPL, SCF, CCF
        if op == 0x07 {
            let r = alu::rlc8(cpu.a);
            StepOut {
                cpu: cpu.set8(Register::A, r.0).with_flags(Flags { z: false, ..r.1 }),
                mem,
                cycles: 4,
            }
        } else if op == 0x17 {
            let r = alu::rl8(cpu.a, cpu.flags.c);
            StepOut {
                cpu: cpu.set8(Register::A, r.0).with_flags(Flags { z: false, ..r.1 }),
                mem,
                cycles: 4,
            }
        } else if op == 0x0F {
            let r = alu::rrc8(cpu.a);
            StepOut {
                cpu: cpu.set8(Register::A, r.0).with_flags(Flags { z: false, ..r.1 }),
                mem,
                cycles: 4,
            }
        } else if op == 0x1F {
            let r = alu::rr8(cpu.a, cpu.flags.c);
            StepOut {
                cpu: cpu.set8(Register::A, r.0).with_flags(Flags { z: false, ..r.1 }),
                mem,
                cycles: 4,
            }
        } else if op == 0x27 {
            let r = alu::daa8(cpu.a, cpu.flags);
            StepOut { cpu: cpu.set8(Register::A, r.0).with_flags(r.1), mem, cycles: 4 }
        } else if op == 0x2F {
            StepOut {
                cpu: cpu.set8(Register::A, alu::cpl8(cpu.a)).with_flags(
                    Flags { z: cpu.flags.z, n: true, h: true, c: cpu.flags.c },
                ),
                mem,
                cycles: 4,
            }
        } else if op == 0x37 {
            StepOut {
                cpu: cpu.with_flags(Flags { z: cpu.flags.z, n: false, h: false, c: true }),
                mem,
                cycles: 4,
            }
        } else {
            StepOut {
                cpu: cpu.with_flags(
                    Flags { z: cpu.flags.z, n: false, h: false, c: !cpu.flags.c },
                ),
                mem,
                cycles: 4,
            }
        }
    }
}

/// The register pair selected by bits 5..4 in the 0x00..0x3F block:
/// BC, DE, HL, SP.
pub open spec fn pair_of(i: u8) -> WideRegister {
    if i == 0 {
        WideRegister::BC
    } else if i == 1 {
        WideRegister::DE
    } else if i == 2 {
        WideRegister::HL
    } else {
        WideRegister::SP
    }
}

/// The branch condition selected by bits 4..3: NZ, Z, NC, C.
pub open spec fn cond_of(i: u8) -> Condition {
    if i == 0 {
        Condition::NotZero
    } else if i == 1 {
        Condition::Zero
    } else if i == 2 {
        Condition::NotCarry
    } else {
        Condition::Carry
    }
}

/// The condition of a JR cc opcode (0x20, 0x28, 0x30, 0x38).
pub open spec fn jr_cond(op: u8) -> Condition {
    cond_of(((op - 0x20) / 8) as u8)
}

/// The stack pair selected in the 0xC0..0xFF block: BC, DE, HL, AF.
pub open spec fn stack_pair_of(i: u8) -> WideRegister {
    if i == 0 {
        WideRegister::BC
    } else if i == 1 {
        WideRegister::DE
    } else if i == 2 {
        WideRegister::HL
    } else {
        WideRegister::AF
    }
}

/// The 0xC0..0xFF block of the primary table, the defined slots only.
pub open spec fn spec_exec_high(op: u8, cpu: CpuView, mem: Seq<u8>) -> Option<StepOut> {
    let pc1 = cpu.pc;
    let sp = cpu.sp;
    let imm8 = mem[pc1 as int];
    let imm16 = word_at(mem, pc1);
    let after_imm8 = CpuView { pc: wrap16(pc1 + 1), ..cpu };
    let after_imm16 = CpuView { pc: wrap16(pc1 + 2), ..cpu };
    let col = op % 8;
    let row = op / 8 % 8;
    if col == 7 {
        // RST n
        Some(
            StepOut {
                cpu: CpuView { pc: (8 * row) as u16, sp: wrap16(sp - 2), ..cpu },
                mem: stack_push(mem, sp, pc1),
                cycles: 16,
            },
        )
    } else if col == 0 && op < 0xE0 {
        // RET cc
        let taken = cpu.cond(cond_of(row));
        Some(
            StepOut {
                cpu: if taken {
                    CpuView { pc: word_at(mem, sp), sp: wrap16(sp + 2), ..cpu }
                } else {
                    cpu
                },
                mem,
                cycles: if taken {
                    20
                } else {
                    8
                },
            },
        )
    } else if col == 1 && row % 2 == 0 {
        // POP rr
        Some(
            StepOut {
                cpu: (CpuView { sp: wrap16(sp + 2), ..cpu }).set16(
                    stack_pair_of(row / 2),
                    word_at(mem, sp),
                ),
                mem,
                cycles: 12,
            },
        )
    } else if col == 5 && row % 2 == 0 {
        // PUSH rr
        Some(
            StepOut {
                cpu: CpuView { sp: wrap16(sp - 2), ..cpu },
                mem: stack_push(mem, sp, cpu.get16(stack_pair_of(row / 2))),
                cycles: 16,
            },
        )
    } else if col == 2 && op < 0xE0 {
        // JP cc,u16
        let taken = cpu.cond(cond_of(row));
        Some(
            StepOut {
                cpu: CpuView {
                    pc: if taken {
                        imm16
                    } else {
                        wrap16(pc1 + 2)
                    },
                    ..cpu
                },
                mem,
                cycles: if taken {
                    16
                } else {
                    12
                },
            },
        )
    } else if col == 4 && op < 0xE0 {
        // CALL cc,u16
        let taken = cpu.cond(cond_of(row));
        Some(
            StepOut {
                cpu: CpuView {
                    pc: if taken {
                        imm16
                    } else {
                        wrap16(pc1 + 2)
                    },
                    sp: if taken {
                        wrap16(sp - 2)
                    } else {
                        sp
                    },
                    ..cpu
                },
                mem: if taken {
                    stack_push(mem, sp, wrap16(pc1 + 2))
                } else {
                    mem
                },
                cycles: if taken {
                    24
                } else {
                    12
                },
            },
        )
    } else if col == 6 {
        // the immediate ALU column
        let sel = row;
        if sel == 7 {
            Some(
                StepOut {
                    cpu: after_imm8.with_flags(alu::sub8(cpu.a, imm8, false).1),
                    mem,
                    cycles: 8,
                },
            )
        } else {
            let r = alu_op(sel, cpu.a, imm8, cpu.flags);
            Some(
                StepOut {
                    cpu: after_imm8.set8(Register::A, r.0).with_flags(r.1),
                    mem,
                    cycles: 8,
                },
            )
        }
    } else if op == 0xC3 {
        Some(StepOut { cpu: CpuView { pc: imm16, ..cpu }, mem, cycles: 16 })
    } else if op == 0xC9 {
        Some(
            StepOut {
                cpu: CpuView { pc: word_at(mem, sp), sp: wrap16(sp + 2), ..cpu },
                mem,
                cycles: 16,
            },
        )
    } else if op == 0xCB {
        Some(spec_exec_cb(imm8, after_imm8, mem))
    } else if op == 0xCD {
        Some(
            StepOut {
                cpu: CpuView { pc: imm16, sp: wrap16(sp - 2), ..cpu },
                mem: stack_push(mem, sp, wrap16(pc1 + 2)),
                cycles: 24,
            },
        )
    } else if op == 0xD9 {
        // RETI
        Some(
            StepOut {
                cpu: CpuView { pc: word_at(mem, sp), sp: wrap16(sp + 2), ime: true, ..cpu },
                mem,
                cycles: 16,
            },
        )
    } else if op == 0xE0 {
        // LDH (u8),A
        Some(
            StepOut {
                cpu: after_imm8,
                mem: mem.update(0xFF00 + imm8 as int, cpu.a),
                cycles: 12,
            },
        )
    } else if op == 0xE2 {
        // LDH (C),A
        Some(StepOut { cpu, mem: mem.update(0xFF00 + cpu.c as int, cpu.a), cycles: 8 })
    } else if op == 0xE8 {
        // ADD SP,e8
        let r = alu::addsp16(sp, imm8);
        Some(
            StepOut {
                cpu: CpuView { pc: wrap16(pc1 + 1), sp: r.0, ..cpu.with_flags(r.1) },
                mem,
                cycles: 16,
            },
        )
    } else if op == 0xE9 {
        // JP HL
        Some(StepOut { cpu: CpuView { pc: cpu.get16(WideRegister::HL), ..cpu }, mem, cycles: 4 })
    } else if op == 0xEA {
        // LD (u16),A
        Some(StepOut { cpu: after_imm16, mem: mem.update(imm16 as int, cpu.a), cycles: 16 })
    } else if op == 0xF0 {
        // LDH A,(u8)
        Some(
            StepOut {
                cpu: after_imm8.set8(Register::A, mem[0xFF00 + imm8 as int]),
                mem,
                cycles: 12,
            },
        )
    } else if op == 0xF2 {
        // LDH A,(C)
        Some(StepOut { cpu: cpu.set8(Register::A, mem[0xFF00 + cpu.c as int]), mem, cycles: 8 })
    } else if op == 0xF3 {
        // DI
        Some(StepOut { cpu: CpuView { ime: false, ..cpu }, mem, cycles: 4 })
    } else if op == 0xF8 {
        // LD HL,SP+e8
        let r = alu::addsp16(sp, imm8);
        Some(
            StepOut {
                cpu: CpuView {
                    pc: wrap16(pc1 + 1),
                    ..cpu.with_flags(r.1).set16(WideRegister::HL, r.0)
                },
                mem,
                cycles: 12,
            },
        )
    } else if op == 0xF9 {
        // LD SP,HL
        Some(StepOut { cpu: cpu.set16(WideRegister::SP, cpu.get16(WideRegister::HL)), mem, cycles: 8 })
    } else if op == 0xFA {
        // LD A,(u16)
        Some(StepOut { cpu: after_imm16.set8(Register::A, mem[imm16 as int]), mem, cycles: 16 })
    } else {
        // EI (0xFB); every other slot of the block is covered above or
        // hardware-undefined
        Some(StepOut { cpu: CpuView { ime: true, ..cpu }, mem, cycles: 4 })
    }
}

/// One whole step: the halt gate, then the interrupt servicer, then one
/// instruction; `None` when the fetched opcode is hardware-undefined,
/// with nothing executed.
pub open spec fn spec_step(cpu: CpuView, mem: Seq<u8>) -> Option<StepOut> {
    if cpu.halted {
        if spec_pending(mem) & 0x1F == 0 {
            Some(StepOut { cpu, mem, cycles: 4 })
        } else if !cpu.ime {
            Some(StepOut { cpu: CpuView { halted: false, ..cpu }, mem, cycles: 4 })
        } else {
            Some(spec_dispatch(CpuView { halted: false, ..cpu }, mem))
        }
    } else if cpu.ime && spec_pending(mem) & 0x1F != 0 {
        Some(spec_dispatch(cpu, mem))
    } else {
        spec_exec(mem[cpu.pc as int], CpuView { pc: wrap16(cpu.pc + 1), ..cpu }, mem)
    }
}

} // verus!
