//! The execution engine's specification: a per-instruction interpreter
//! over the CPU state and the memory contents.
//!
//! [`spec_apply`] gives, for every instruction and every machine state,
//! the exact next CPU state, memory contents and step outcome. The
//! executable engine in the machine module is proved to agree with it on
//! every step.

use vstd::prelude::*;
use crate::cpu::Cpu;
use crate::cpu::Flag;
use crate::cpu::Pair16;
use crate::cpu::Register;
use crate::cpu::compose16;
use crate::cpu::high8;
use crate::cpu::low8;
use crate::cpu::pair_bc;
use crate::cpu::pair_de;
use crate::cpu::pair_hl;
use crate::cpu::spec_get_pair;
use crate::cpu::spec_set_pair;
use crate::decode::AluOp;
use crate::decode::Cond;
use crate::decode::Instruction;
use crate::decode::Op;
use crate::decode::Operand;
use crate::decode::StackPair;
use crate::decode::spec_decode;
use crate::flags::add_aux;
use crate::flags::add_carry;
use crate::flags::add_result;
use crate::flags::flags_szp;
use crate::flags::pack_flags;
use crate::flags::spec_daa;
use crate::flags::spec_ral;
use crate::flags::spec_rar;
use crate::flags::spec_rlc;
use crate::flags::spec_rrc;
use crate::flags::sub_aux;
use crate::flags::sub_borrow;
use crate::flags::sub_result;
use crate::flags::unpack_flags;
use crate::memory::mem_read;
use crate::memory::mem_read16;
use crate::memory::mem_write;
use crate::memory::mem_write16;
use crate::memory::wrap16;

verus! {

/// What one step of the driver reports.
///
/// `Ran` is an ordinary retired instruction. `Halted` reports a HLT.
/// `PortInput(p)` reports an IN from port `p`: the instruction has
/// retired with the accumulator unchanged, and the caller may supply the
/// port byte through the driver. `PortOutput(p, v)` reports an OUT of
/// value `v` to port `p`. `Terminal` is the explicit signal for a step
/// requested after the driver already halted or faulted; such a step
/// changes nothing.
#[derive(Clone, Copy, PartialEq, Eq, Structural, Debug)]
pub enum StepOutcome {
    Ran,
    Halted,
    PortInput(u8),
    PortOutput(u8, u8),
    Terminal,
}

/// A CPU state together with memory contents: the value of one
/// execution step.
#[verifier::ext_equal]
pub struct SpecOut {
    pub cpu: Cpu,
    pub mem: Seq<u8>,
    pub outcome: StepOutcome,
}

/// The fall-through program counter: the instruction's address plus its
/// length, modulo 65536.
pub open spec fn pc_next(pc: u16, len: u8) -> u16 {
    wrap16(pc + len)
}

/// `c` with the program counter replaced.
pub open spec fn with_pc(c: Cpu, pc: u16) -> Cpu {
    Cpu { register: Register { pc, ..c.register }, ..c }
}

/// `c` with the register file replaced.
pub open spec fn with_register(c: Cpu, r: Register) -> Cpu {
    Cpu { register: r, ..c }
}

/// `c` with the flags replaced.
pub open spec fn with_flags(c: Cpu, f: Flag) -> Cpu {
    Cpu { flags: f, ..c }
}

/// The byte an operand location currently holds: a register, or the
/// memory byte addressed through HL.
pub open spec fn operand_read(c: Cpu, m: Seq<u8>, o: Operand) -> u8 {
    match o {
        Operand::RegB => c.register.b,
        Operand::RegC => c.register.c,
        Operand::RegD => c.register.d,
        Operand::RegE => c.register.e,
        Operand::RegH => c.register.h,
        Operand::RegL => c.register.l,
        Operand::Mem => mem_read(m, pair_hl(c.register)),
        Operand::RegA => c.register.accumulator,
    }
}

/// The CPU register file after writing `v` to a register operand; the
/// memory operand leaves the registers alone.
pub open spec fn operand_write_reg(r: Register, o: Operand, v: u8) -> Register {
    match o {
        Operand::RegB => Register { b: v, ..r },
        Operand::RegC => Register { c: v, ..r },
        Operand::RegD => Register { d: v, ..r },
        Operand::RegE => Register { e: v, ..r },
        Operand::RegH => Register { h: v, ..r },
        Operand::RegL => Register { l: v, ..r },
        Operand::Mem => r,
        Operand::RegA => Register { accumulator: v, ..r },
    }
}

/// The memory after writing `v` to an operand location; a register
/// operand leaves memory alone.
pub open spec fn operand_write_mem(c: Cpu, m: Seq<u8>, o: Operand, v: u8) -> Seq<u8> {
    match o {
        Operand::Mem => mem_write(m, pair_hl(c.register), v),
        _ => m,
    }
}

/// Whether the named branch condition holds of the flags: NZ and Z test
/// zero, NC and C test carry, PO and PE test parity, P and M test sign.
pub open spec fn cond_holds(cc: Cond, f: Flag) -> bool {
    match cc {
        Cond::CondNZ => !f.zero,
        Cond::CondZ => f.zero,
        Cond::CondNC => !f.carry,
        Cond::CondC => f.carry,
        Cond::CondPO => !f.parity,
        Cond::CondPE => f.parity,
        Cond::CondP => !f.sign,
        Cond::CondM => f.sign,
    }
}

/// The accumulator and flags after an ALU operation on `a` and `x` with
/// the incoming carry `cy`. CMP computes the subtraction flags but keeps
/// the accumulator; the logical operations clear carry and auxiliary
/// carry.
pub open spec fn spec_alu(k: AluOp, a: u8, x: u8, cy: bool) -> (u8, Flag) {
    match k {
        AluOp::AluAdd => (
            add_result(a, x, false),
            flags_szp(add_result(a, x, false), add_carry(a, x, false), add_aux(a, x, false)),
        ),
        AluOp::AluAdc => (
            add_result(a, x, cy),
            flags_szp(add_result(a, x, cy), add_carry(a, x, cy), add_aux(a, x, cy)),
        ),
        AluOp::AluSub => (
            sub_result(a, x, false),
            flags_szp(sub_result(a, x, false), sub_borrow(a, x, false), sub_aux(a, x, false)),
        ),
        AluOp::AluSbb => (
            sub_result(a, x, cy),
            flags_szp(sub_result(a, x, cy), sub_borrow(a, x, cy), sub_aux(a, x, cy)),
        ),
        AluOp::AluAna => ((a & x), flags_szp((a & x), false, false)),
        AluOp::AluXra => ((a ^ x), flags_szp((a ^ x), false, false)),
        AluOp::AluOra => ((a | x), flags_szp((a | x), false, false)),
        AluOp::AluCmp => (
            a,
            flags_szp(sub_result(a, x, false), sub_borrow(a, x, false), sub_aux(a, x, false)),
        ),
    }
}

/// The 16-bit value a stack pair denotes: a register pair, or the PSW
/// (accumulator in the high byte, packed flags in the low byte).
pub open spec fn stack_pair_read(c: Cpu, p: StackPair) -> u16 {
    match p {
        StackPair::StkBC => pair_bc(c.register),
        StackPair::StkDE => pair_de(c.register),
        StackPair::StkHL => pair_hl(c.register),
        StackPair::StkPSW => compose16(c.register.accumulator, pack_flags(c.flags)),
    }
}

/// The CPU after loading a stack pair from the 16-bit value `w`; popping
/// PSW restores the accumulator and unpacks the flag byte.
pub open spec fn stack_pair_write(c: Cpu, p: StackPair, w: u16) -> Cpu {
    match p {
        StackPair::StkBC => with_register(c, spec_set_pair(c.register, Pair16::PairBC, w)),
        StackPair::StkDE => with_register(c, spec_set_pair(c.register, Pair16::PairDE, w)),
        StackPair::StkHL => with_register(c, spec_set_pair(c.register, Pair16::PairHL, w)),
        StackPair::StkPSW => Cpu {
            register: Register { accumulator: high8(w), ..c.register },
            flags: unpack_flags(low8(w)),
            ..c
        },
    }
}

/// An ordinary step result: new CPU, same or new memory, outcome `Ran`.
pub open spec fn out_ran(c: Cpu, m: Seq<u8>) -> SpecOut {
    SpecOut { cpu: c, mem: m, outcome: StepOutcome::Ran }
}

/// The state and outcome after executing instruction `i` in CPU state `c`
/// with memory `m`. Total over all instructions and states: every opcode
/// has exactly one semantic definition, and control-transfer instructions
/// compute the next program counter instead of falling through.
pub open spec fn spec_apply(c: Cpu, m: Seq<u8>, i: Instruction) -> SpecOut {
    let pc1 = pc_next(c.register.pc, i.len);
    match i.op {
        Op::Nop => out_ran(with_pc(c, pc1), m),
        Op::Lxi(p) => out_ran(
            with_pc(with_register(c, spec_set_pair(c.register, p, i.imm)), pc1),
            m,
        ),
        Op::Stax(p) => out_ran(
            with_pc(c, pc1),
            mem_write(m, spec_get_pair(c.register, p), c.register.accumulator),
        ),
        Op::Ldax(p) => out_ran(
            with_pc(
                with_register(
                    c,
                    Register {
                        accumulator: mem_read(m, spec_get_pair(c.register, p)),
                        ..c.register
                    },
                ),
                pc1,
            ),
            m,
        ),
        Op::Shld => out_ran(with_pc(c, pc1), mem_write16(m, i.imm, pair_hl(c.register))),
        Op::Lhld => out_ran(
            with_pc(
                with_register(
                    c,
                    spec_set_pair(c.register, Pair16::PairHL, mem_read16(m, i.imm)),
                ),
                pc1,
            ),
            m,
        ),
        Op::Sta => out_ran(with_pc(c, pc1), mem_write(m, i.imm, c.register.accumulator)),
        Op::Lda => out_ran(
            with_pc(
                with_register(c, Register { accumulator: mem_read(m, i.imm), ..c.register }),
                pc1,
            ),
            m,
        ),
        Op::Inx(p) => out_ran(
            with_pc(
                with_register(
                    c,
                    spec_set_pair(c.register, p, wrap16(spec_get_pair(c.register, p) + 1)),
                ),
                pc1,
            ),
            m,
        ),
        Op::Dcx(p) => out_ran(
            with_pc(
                with_register(
                    c,
                    spec_set_pair(c.register, p, wrap16(spec_get_pair(c.register, p) - 1)),
                ),
                pc1,
            ),
            m,
        ),
        Op::Dad(p) => out_ran(
            with_pc(
                Cpu {
                    register: spec_set_pair(
                        c.register,
                        Pair16::PairHL,
                        wrap16(pair_hl(c.register) + spec_get_pair(c.register, p)),
                    ),
                    flags: Flag {
                        carry: pair_hl(c.register) + spec_get_pair(c.register, p) > 65535,
                        ..c.flags
                    },
                    ..c
                },
                pc1,
            ),
            m,
        ),
        Op::Inr(o) => {
            let x = operand_read(c, m, o);
            let r = add_result(x, 1, false);
            out_ran(
                with_pc(
                    Cpu {
                        register: operand_write_reg(c.register, o, r),
                        flags: flags_szp(r, c.flags.carry, add_aux(x, 1, false)),
                        ..c
                    },
                    pc1,
                ),
                operand_write_mem(c, m, o, r),
            )
        }
        Op::Dcr(o) => {
            let x = operand_read(c, m, o);
            let r = sub_result(x, 1, false);
            out_ran(
                with_pc(
                    Cpu {
                        register: operand_write_reg(c.register, o, r),
                        flags: flags_szp(r, c.flags.carry, sub_aux(x, 1, false)),
                        ..c
                    },
                    pc1,
                ),
                operand_write_mem(c, m, o, r),
            )
        }
        Op::Mvi(o) => out_ran(
            with_pc(
                with_register(c, operand_write_reg(c.register, o, low8(i.imm))),
                pc1,
            ),
            operand_write_mem(c, m, o, low8(i.imm)),
        ),
        Op::Rlc => {
            let (a, cy) = spec_rlc(c.register.accumulator);
            out_ran(
                with_pc(
                    Cpu {
                        register: Register { accumulator: a, ..c.register },
                        flags: Flag { carry: cy, ..c.flags },
                        ..c
                    },
                    pc1,
                ),
                m,
            )
        }
        Op::Rrc => {
            let (a, cy) = spec_rrc(c.register.accumulator);
            out_ran(
                with_pc(
                    Cpu {
                        register: Register { accumulator: a, ..c.register },
                        flags: Flag { carry: cy, ..c.flags },
                        ..c
                    },
                    pc1,
                ),
                m,
            )
        }
        Op::Ral => {
            let (a, cy) = spec_ral(c.register.accumulator, c.flags.carry);
            out_ran(
                with_pc(
                    Cpu {
                        register: Register { accumulator: a, ..c.register },
                        flags: Flag { carry: cy, ..c.flags },
                        ..c
                    },
                    pc1,
                ),
                m,
            )
        }
        Op::Rar => {
            let (a, cy) = spec_rar(c.register.accumulator, c.flags.carry);
            out_ran(
                with_pc(
                    Cpu {
                        register: Register { accumulator: a, ..c.register },
                        flags: Flag { carry: cy, ..c.flags },
                        ..c
                    },
                    pc1,
                ),
                m,
            )
        }
        Op::Daa => {
            let (a, f) = spec_daa(c.register.accumulator, c.flags);
            out_ran(
                with_pc(
                    Cpu { register: Register { accumulator: a, ..c.register }, flags: f, ..c },
                    pc1,
                ),
                m,
            )
        }
        Op::Cma => out_ran(
            with_pc(
                with_register(
                    c,
                    Register {
                        accumulator: (255 - c.register.accumulator) as u8,
                        ..c.register
                    },
                ),
                pc1,
            ),
            m,
        ),
        Op::Stc => out_ran(with_pc(with_flags(c, Flag { carry: true, ..c.flags }), pc1), m),
        Op::Cmc => out_ran(
            with_pc(with_flags(c, Flag { carry: !c.flags.carry, ..c.flags }), pc1),
            m,
        ),
        Op::Mov(d, s) => {
            let v = operand_read(c, m, s);
            out_ran(
                with_pc(with_register(c, operand_write_reg(c.register, d, v)), pc1),
                operand_write_mem(c, m, d, v),
            )
        }
        Op::Hlt => SpecOut { cpu: with_pc(c, pc1), mem: m, outcome: StepOutcome::Halted },
        Op::Alu(k, o) => {
            let (a, f) = spec_alu(k, c.register.accumulator, operand_read(c, m, o), c.flags.carry);
            out_ran(
                with_pc(
                    Cpu { register: Register { accumulator: a, ..c.register }, flags: f, ..c },
                    pc1,
                ),
                m,
            )
        }
        Op::AluImm(k) => {
            let (a, f) = spec_alu(k, c.register.accumulator, low8(i.imm), c.flags.carry);
            out_ran(
                with_pc(
                    Cpu { register: Register { accumulator: a, ..c.register }, flags: f, ..c },
                    pc1,
                ),
                m,
            )
        }
        Op::Jmp => out_ran(with_pc(c, i.imm), m),
        Op::JmpCond(cc) => out_ran(
            with_pc(
                c,
                if cond_holds(cc, c.flags) {
                    i.imm
                } else {
                    pc1
                },
            ),
            m,
        ),
        Op::Call => out_ran(
            with_pc(
                with_register(c, Register { sp: wrap16(c.register.sp - 2), ..c.register }),
                i.imm,
            ),
            mem_write16(m, wrap16(c.register.sp - 2), pc1),
        ),
        Op::CallCond(cc) => {
            if cond_holds(cc, c.flags) {
                out_ran(
                    with_pc(
                        with_register(
                            c,
                            Register { sp: wrap16(c.register.sp - 2), ..c.register },
                        ),
                        i.imm,
                    ),
                    mem_write16(m, wrap16(c.register.sp - 2), pc1),
                )
            } else {
                out_ran(with_pc(c, pc1), m)
            }
        }
        Op::Ret => out_ran(
            with_pc(
                with_register(c, Register { sp: wrap16(c.register.sp + 2), ..c.register }),
                mem_read16(m, c.register.sp),
            ),
            m,
        ),
        Op::RetCond(cc) => {
            if cond_holds(cc, c.flags) {
                out_ran(
                    with_pc(
                        with_register(
                            c,
                            Register { sp: wrap16(c.register.sp + 2), ..c.register },
                        ),
                        mem_read16(m, c.register.sp),
                    ),
                    m,
                )
            } else {
                out_ran(with_pc(c, pc1), m)
            }
        }
        Op::Rst(n) => out_ran(
            with_pc(
                with_register(c, Register { sp: wrap16(c.register.sp - 2), ..c.register }),
                (8 * (n as int % 8)) as u16,
            ),
            mem_write16(m, wrap16(c.register.sp - 2), pc1),
        ),
        Op::Push(p) => out_ran(
            with_pc(
                with_register(c, Register { sp: wrap16(c.register.sp - 2), ..c.register }),
                pc1,
            ),
            mem_write16(m, wrap16(c.register.sp - 2), stack_pair_read(c, p)),
        ),
        Op::Pop(p) => out_ran(
            with_pc(
                with_register(
                    stack_pair_write(c, p, mem_read16(m, c.register.sp)),
                    Register {
                        sp: wrap16(c.register.sp + 2),
                        ..stack_pair_write(c, p, mem_read16(m, c.register.sp)).register
                    },
                ),
                pc1,
            ),
            m,
        ),
        Op::Xthl => out_ran(
            with_pc(
                with_register(
                    c,
                    spec_set_pair(c.register, Pair16::PairHL, mem_read16(m, c.register.sp)),
                ),
                pc1,
            ),
            mem_write16(m, c.register.sp, pair_hl(c.register)),
        ),
        Op::Pchl => out_ran(with_pc(c, pair_hl(c.register)), m),
        Op::Sphl => out_ran(
            with_pc(
                with_register(c, Register { sp: pair_hl(c.register), ..c.register }),
                pc1,
            ),
            m,
        ),
        Op::Xchg => out_ran(
            with_pc(
                with_register(
                    c,
                    Register {
                        d: c.register.h,
                        e: c.register.l,
                        h: c.register.d,
                        l: c.register.e,
                        ..c.register
                    },
                ),
                pc1,
            ),
            m,
        ),
        Op::PortIn => SpecOut {
            cpu: with_pc(c, pc1),
            mem: m,
            outcome: StepOutcome::PortInput(low8(i.imm)),
        },
        Op::PortOut => SpecOut {
            cpu: with_pc(c, pc1),
            mem: m,
            outcome: StepOutcome::PortOutput(low8(i.imm), c.register.accumulator),
        },
        Op::Di => out_ran(with_pc(Cpu { interrupts_enabled: false, ..c }, pc1), m),
        Op::Ei => out_ran(with_pc(Cpu { interrupts_enabled: true, ..c }, pc1), m),
    }
}

/// The instruction at the current program counter: the opcode byte at PC
/// and the two bytes after it, read with wraparound.
pub open spec fn spec_fetch(c: Cpu, m: Seq<u8>) -> Instruction {
    spec_decode(
        mem_read(m, c.register.pc),
        mem_read(m, wrap16(c.register.pc + 1)),
        mem_read(m, wrap16(c.register.pc + 2)),
    )
}

/// One fetch-decode-execute step from a running state.
pub open spec fn spec_step(c: Cpu, m: Seq<u8>) -> SpecOut {
    spec_apply(c, m, spec_fetch(c, m))
}

} // verus!
