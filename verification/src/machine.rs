//! The emulator instance: CPU, memory and the fetch-execute driver.
//!
//! [`Machine::step`] performs one fetch-decode-execute cycle and is proved
//! to agree exactly with the specification interpreter; [`Machine::run`]
//! executes a bounded slice of instructions and is resumable, all mutable
//! state living in the machine itself. A step requested after the driver
//! reached a terminal state changes nothing and reports an explicit
//! signal.

use vstd::prelude::*;
use crate::EmuError;
use crate::cpu::Cpu;
use crate::cpu::Flag;
use crate::cpu::Pair16;
use crate::cpu::Register;
use crate::decode::AluOp;
use crate::decode::Cond;
use crate::decode::Instruction;
use crate::decode::Op;
use crate::decode::Operand;
use crate::decode::StackPair;
use crate::decode::decode;
use crate::exec::StepOutcome;
use crate::exec::cond_holds;
use crate::exec::operand_read;
use crate::exec::operand_write_mem;
use crate::exec::operand_write_reg;
use crate::exec::pc_next;
use crate::exec::spec_alu;
use crate::exec::spec_fetch;
use crate::exec::spec_step;
use crate::exec::with_pc;
use crate::flags::alu_add;
use crate::flags::alu_sub;
use crate::flags::daa_adjust;
use crate::flags::derive_szp;
use crate::flags::flags_to_psw;
use crate::flags::psw_to_flags;
use crate::memory::Memory;
use crate::memory::mem_read;
use crate::memory::mem_read16;
use crate::memory::mem_write16;
use crate::memory::wrap16;

verus! {

/// The particulars of a fault: its kind, the program counter of the
/// faulting instruction, and its opcode byte.
#[derive(Clone, Copy, PartialEq, Eq, Structural, Debug)]
pub struct Fault {
    pub kind: EmuError,
    pub pc: u16,
    pub opcode: u8,
}

/// The driver state machine: running, or one of the two terminal states.
#[derive(Clone, Copy, PartialEq, Eq, Structural, Debug)]
pub enum RunState {
    Running,
    Halted,
    Faulted(Fault),
}

/// A snapshot of everything one driver step observes and changes.
#[verifier::ext_equal]
pub struct RunSnap {
    pub cpu: Cpu,
    pub mem: Seq<u8>,
    pub state: RunState,
}

/// One driver step from a snapshot, with no port collaborator attached:
/// an IN or OUT instruction faults with `PortUnbound`, recording the
/// faulting program counter and opcode; HLT halts; anything else keeps
/// running.
pub open spec fn spec_run1(s: RunSnap) -> RunSnap {
    let o = spec_step(s.cpu, s.mem);
    match o.outcome {
        StepOutcome::Ran => RunSnap { cpu: o.cpu, mem: o.mem, state: RunState::Running },
        StepOutcome::Halted => RunSnap { cpu: o.cpu, mem: o.mem, state: RunState::Halted },
        StepOutcome::Terminal => s,
        StepOutcome::PortInput(_) | StepOutcome::PortOutput(_, _) => RunSnap {
            cpu: o.cpu,
            mem: o.mem,
            state: RunState::Faulted(
                Fault {
                    kind: EmuError::PortUnbound,
                    pc: s.cpu.register.pc,
                    opcode: mem_read(s.mem, s.cpu.register.pc),
                },
            ),
        },
    }
}

/// Up to `fuel` driver steps with no port collaborator: stops early at a
/// terminal state and never continues past it.
pub open spec fn spec_run(s: RunSnap, fuel: nat) -> RunSnap
    decreases fuel,
{
    if fuel == 0 || !(s.state is Running) {
        s
    } else {
        spec_run(spec_run1(s), (fuel - 1) as nat)
    }
}

/// The 16-bit sum of `a` and `b`, modulo 65536.
pub fn wrap_add(a: u16, b: u16) -> (r: u16)
    ensures
        r == wrap16(a + b),
{
    (((a as u32) + (b as u32)) % 65536) as u16
}

/// The 16-bit difference `a - b`, modulo 65536.
pub fn wrap_sub(a: u16, b: u16) -> (r: u16)
    ensures
        r == wrap16(a - b),
{
    let r: u16 = (((a as u32) + 65536 - (b as u32)) % 65536) as u16;
    proof {
        vstd::arithmetic::div_mod::lemma_mod_add_multiples_vanish(a - b, 65536);
    }
    r
}

/// Evaluates a branch condition against the flags.
pub fn cond_eval(cc: Cond, f: &Flag) -> (r: bool)
    ensures
        r == cond_holds(cc, *f),
{
    match cc {
        Cond::CondNZ => !f.zero,
        Cond::CondZ => f.zero,
        Cond::CondNC => !f.carry,
        Cond::CondC => f.carry,
        Cond::CondPO => !f.parity,
        Cond::CondPE => f.parity,
        Cond::CondP => !f.sign,
        Cond::CondM => f.sign,
    }
}

/// Applies an ALU operation to the accumulator `a` and operand `x` with
/// the incoming carry, returning the new accumulator and flags.
pub fn alu_apply(k: AluOp, a: u8, x: u8, cy: bool) -> (r: (u8, Flag))
    ensures
        r == spec_alu(k, a, x, cy),
{
    match k {
        AluOp::AluAdd => {
            let (v, carry, aux) = alu_add(a, x, false);
            (v, derive_szp(v, carry, aux))
        }
        AluOp::AluAdc => {
            let (v, carry, aux) = alu_add(a, x, cy);
            (v, derive_szp(v, carry, aux))
        }
        AluOp::AluSub => {
            let (v, borrow, aux) = alu_sub(a, x, false);
            (v, derive_szp(v, borrow, aux))
        }
        AluOp::AluSbb => {
            let (v, borrow, aux) = alu_sub(a, x, cy);
            (v, derive_szp(v, borrow, aux))
        }
        AluOp::AluAna => {
            let v: u8 = a & x;
            (v, derive_szp(v, false, false))
        }
        AluOp::AluXra => {
            let v: u8 = a ^ x;
            (v, derive_szp(v, false, false))
        }
        AluOp::AluOra => {
            let v: u8 = a | x;
            (v, derive_szp(v, false, false))
        }
        AluOp::AluCmp => {
            let (v, borrow, aux) = alu_sub(a, x, false);
            (a, derive_szp(v, borrow, aux))
        }
    }
}

/// One emulator instance: CPU state, its exclusively owned 64KB memory,
/// and the driver state.
pub struct Machine {
    pub cpu: Cpu,
    pub mem: Memory,
    pub state: RunState,
}

impl Machine {
    /// The machine's memory always spans the full address space.
    pub open spec fn wf(&self) -> bool {
        self.mem.wf()
    }

    /// Everything one driver step observes and changes.
    pub open spec fn snap(&self) -> RunSnap {
        RunSnap { cpu: self.cpu, mem: self.mem@, state: self.state }
    }

    /// A freshly reset machine: zeroed CPU, zeroed memory, running.
    pub fn new() -> (r: Self)
        ensures
            r.wf(),
            r.cpu == (Cpu {
                register: Register {
                    accumulator: 0,
                    b: 0,
                    c: 0,
                    d: 0,
                    e: 0,
                    h: 0,
                    l: 0,
                    pc: 0,
                    sp: 0,
                },
                flags: Flag {
                    sign: false,
                    zero: false,
                    parity: false,
                    carry: false,
                    aux_carry: false,
                },
                interrupts_enabled: false,
            }),
            forall|i: int| 0 <= i < 65536 ==> r.mem@[i] == 0,
            r.state == RunState::Running,
    {
        Machine { cpu: Cpu::new(), mem: Memory::new(), state: RunState::Running }
    }

    /// Loads `image` at `origin`: succeeds exactly when it fits below the
    /// end of the address space, replacing that range of memory and
    /// nothing else; CPU and driver state are untouched either way.
    pub fn load(&mut self, image: &Vec<u8>, origin: u16) -> (r: Result<(), EmuError>)
        requires
            old(self).wf(),
        ensures
            final(self).wf(),
            final(self).cpu == old(self).cpu,
            final(self).state == old(self).state,
            r is Ok <==> origin + image@.len() <= 65536,
            r is Err ==> r == Result::<(), EmuError>::Err(EmuError::ImageTooLarge)
                && final(self).mem@ == old(self).mem@,
            r is Ok ==> forall|i: int|
                0 <= i < 65536 ==> final(self).mem@[i] == if origin <= i < origin
                    + image@.len() {
                    image@[i - origin]
                } else {
                    old(self).mem@[i]
                },
    {
        self.mem.load(image, origin)
    }

    /// Whether the driver is still running (not halted or faulted).
    pub fn is_running(&self) -> (r: bool)
        ensures
            r == (self.state is Running),
    {
        match self.state {
            RunState::Running => true,
            _ => false,
        }
    }

    /// The instruction at the current program counter, as plain data for
    /// tracing or disassembly; decoding reads memory only.
    pub fn current_instruction(&self) -> (r: Instruction)
        requires
            self.wf(),
        ensures
            r == spec_fetch(self.cpu, self.mem@),
    {
        let pc: u16 = self.cpu.register.pc;
        let b0: u8 = self.mem.read_byte(pc);
        let b1: u8 = self.mem.read_byte(wrap_add(pc, 1));
        let b2: u8 = self.mem.read_byte(wrap_add(pc, 2));
        decode(b0, b1, b2)
    }

    /// Supplies the byte a port collaborator produced for the most recent
    /// IN instruction: it lands in the accumulator; nothing else changes.
    pub fn provide_port_input(&mut self, v: u8)
        ensures
            final(self).cpu == (Cpu {
                register: Register { accumulator: v, ..old(self).cpu.register },
                ..old(self).cpu
            }),
            final(self).mem@ == old(self).mem@,
            final(self).state == old(self).state,
            final(self).wf() == old(self).wf(),
    {
        self.cpu.register.accumulator = v;
    }

    /// Reads the operand location: a register, or memory through HL.
    fn read_operand(&self, o: Operand) -> (r: u8)
        requires
            self.wf(),
        ensures
            r == operand_read(self.cpu, self.mem@, o),
    {
        match o {
            Operand::RegB => self.cpu.register.b,
            Operand::RegC => self.cpu.register.c,
            Operand::RegD => self.cpu.register.d,
            Operand::RegE => self.cpu.register.e,
            Operand::RegH => self.cpu.register.h,
            Operand::RegL => self.cpu.register.l,
            Operand::Mem => self.mem.read_byte(self.cpu.register.HL()),
            Operand::RegA => self.cpu.register.accumulator,
        }
    }

    /// Writes `v` to the operand location; flags, PC, SP and the driver
    /// state are untouched.
    fn write_operand(&mut self, o: Operand, v: u8)
        requires
            old(self).wf(),
        ensures
            final(self).wf(),
            final(self).cpu.register == operand_write_reg(old(self).cpu.register, o, v),
            final(self).cpu.flags == old(self).cpu.flags,
            final(self).cpu.interrupts_enabled == old(self).cpu.interrupts_enabled,
            final(self).mem@ == operand_write_mem(old(self).cpu, old(self).mem@, o, v),
            final(self).state == old(self).state,
    {
        match o {
            Operand::RegB => self.cpu.register.b = v,
            Operand::RegC => self.cpu.register.c = v,
            Operand::RegD => self.cpu.register.d = v,
            Operand::RegE => self.cpu.register.e = v,
            Operand::RegH => self.cpu.register.h = v,
            Operand::RegL => self.cpu.register.l = v,
            Operand::Mem => {
                let addr: u16 = self.cpu.register.HL();
                self.mem.write_byte(addr, v);
            }
            Operand::RegA => self.cpu.register.accumulator = v,
        }
    }

    /// Advances the program counter past an instruction of length `len`.
    fn advance_pc(&mut self, len: u8)
        ensures
            final(self).cpu == with_pc(old(self).cpu, pc_next(old(self).cpu.register.pc, len)),
            final(self).mem@ == old(self).mem@,
            final(self).state == old(self).state,
            final(self).wf() == old(self).wf(),
    {
        self.cpu.register.pc = wrap_add(self.cpu.register.pc, len as u16);
    }

    /// Pushes a word: SP drops by two (modulo 65536) and the word lands at
    /// the new top of stack.
    fn push_word(&mut self, v: u16)
        requires
            old(self).wf(),
        ensures
            final(self).wf(),
            final(self).cpu == (Cpu {
                register: Register {
                    sp: wrap16(old(self).cpu.register.sp - 2),
                    ..old(self).cpu.register
                },
                ..old(self).cpu
            }),
            final(self).mem@ == mem_write16(
                old(self).mem@,
                wrap16(old(self).cpu.register.sp - 2),
                v,
            ),
            final(self).state == old(self).state,
    {
        let top: u16 = wrap_sub(self.cpu.register.sp, 2);
        self.cpu.register.sp = top;
        self.mem.write_word(top, v);
    }

    /// Pops a word from the top of the stack: SP rises by two (modulo
    /// 65536); memory is only read.
    fn pop_word(&mut self) -> (r: u16)
        requires
            old(self).wf(),
        ensures
            final(self).wf(),
            r == mem_read16(old(self).mem@, old(self).cpu.register.sp),
            final(self).cpu == (Cpu {
                register: Register {
                    sp: wrap16(old(self).cpu.register.sp + 2),
                    ..old(self).cpu.register
                },
                ..old(self).cpu
            }),
            final(self).mem@ == old(self).mem@,
            final(self).state == old(self).state,
    {
        let v: u16 = self.mem.read_word(self.cpu.register.sp);
        self.cpu.register.sp = wrap_add(self.cpu.register.sp, 2);
        v
    }

    /// The 16-bit value a stack pair denotes; PSW packs the accumulator
    /// over the flag byte.
    fn read_stack_pair(&self, p: StackPair) -> (r: u16)
        ensures
            r == crate::exec::stack_pair_read(self.cpu, p),
    {
        match p {
            StackPair::StkBC => self.cpu.register.BC(),
            StackPair::StkDE => self.cpu.register.DE(),
            StackPair::StkHL => self.cpu.register.HL(),
            StackPair::StkPSW => {
                let psw: u8 = flags_to_psw(&self.cpu.flags);
                (self.cpu.register.accumulator as u16) * 256 + (psw as u16)
            }
        }
    }

    /// Executes one decoded instruction against the CPU, flags and
    /// memory; the result agrees exactly with the specification
    /// interpreter. The driver state is left to the caller.
    fn execute(&mut self, i: Instruction) -> (r: StepOutcome)
        requires
            old(self).wf(),
        ensures
            final(self).wf(),
            final(self).state == old(self).state,
            final(self).cpu == crate::exec::spec_apply(old(self).cpu, old(self).mem@, i).cpu,
            final(self).mem@ == crate::exec::spec_apply(old(self).cpu, old(self).mem@, i).mem,
            r == crate::exec::spec_apply(old(self).cpu, old(self).mem@, i).outcome,
    {
        match i.op {
            Op::Nop | Op::Lxi(_) | Op::Stax(_) | Op::Ldax(_) | Op::Shld | Op::Lhld | Op::Sta
            | Op::Lda => self.exec_load_store(i),
            Op::Inx(_) | Op::Dcx(_) | Op::Dad(_) | Op::Inr(_) | Op::Dcr(_) | Op::Mvi(_) => {
                self.exec_pair_arith(i)
            }
            Op::Rlc | Op::Rrc | Op::Ral | Op::Rar | Op::Daa | Op::Cma | Op::Stc | Op::Cmc => {
                self.exec_acc_flags(i)
            }
            Op::Mov(_, _) | Op::Hlt | Op::Alu(_, _) | Op::AluImm(_) => self.exec_mov_alu(i),
            Op::Jmp | Op::JmpCond(_) | Op::Call | Op::CallCond(_) | Op::Ret | Op::RetCond(_)
            | Op::Rst(_) => self.exec_branch(i),
            Op::Push(_) | Op::Pop(_) | Op::Xthl => self.exec_stack(i),
            Op::Pchl | Op::Sphl | Op::Xchg | Op::PortIn | Op::PortOut | Op::Di | Op::Ei => {
                self.exec_special(i)
            }
        }
    }

    /// Executes NOP and the addressed load/store group: LXI, STAX, LDAX,
    /// SHLD, LHLD, STA, LDA.
    fn exec_load_store(&mut self, i: Instruction) -> (r: StepOutcome)
        requires
            old(self).wf(),
            i.op is Nop || i.op is Lxi || i.op is Stax || i.op is Ldax || i.op is Shld
                || i.op is Lhld || i.op is Sta || i.op is Lda,
        ensures
            final(self).wf(),
            final(self).state == old(self).state,
            final(self).cpu == crate::exec::spec_apply(old(self).cpu, old(self).mem@, i).cpu,
            final(self).mem@ == crate::exec::spec_apply(old(self).cpu, old(self).mem@, i).mem,
            r == crate::exec::spec_apply(old(self).cpu, old(self).mem@, i).outcome,
    {
        match i.op {
            Op::Nop => {
                self.advance_pc(i.len);
                StepOutcome::Ran
            }
            Op::Lxi(p) => {
                self.cpu.register.set_pair(p, i.imm);
                self.advance_pc(i.len);
                StepOutcome::Ran
            }
            Op::Stax(p) => {
                let addr: u16 = self.cpu.register.get_pair(p);
                let v: u8 = self.cpu.register.accumulator;
                self.mem.write_byte(addr, v);
                self.advance_pc(i.len);
                StepOutcome::Ran
            }
            Op::Ldax(p) => {
                let addr: u16 = self.cpu.register.get_pair(p);
                self.cpu.register.accumulator = self.mem.read_byte(addr);
                self.advance_pc(i.len);
                StepOutcome::Ran
            }
            Op::Shld => {
                let hl: u16 = self.cpu.register.HL();
                self.mem.write_word(i.imm, hl);
                self.advance_pc(i.len);
                StepOutcome::Ran
            }
            Op::Lhld => {
                let w: u16 = self.mem.read_word(i.imm);
                self.cpu.register.set_pair(Pair16::PairHL, w);
                self.advance_pc(i.len);
                StepOutcome::Ran
            }
            Op::Sta => {
                let v: u8 = self.cpu.register.accumulator;
                self.mem.write_byte(i.imm, v);
                self.advance_pc(i.len);
                StepOutcome::Ran
            }
            Op::Lda => {
                self.cpu.register.accumulator = self.mem.read_byte(i.imm);
                self.advance_pc(i.len);
                StepOutcome::Ran
            }
            _ => {
                proof {
                    assert(false);
                }
                StepOutcome::Ran
            }
        }
    }

    /// Executes the 16-bit pair arithmetic and the 8-bit
    /// increment/decrement and immediate-move group: INX, DCX, DAD, INR,
    /// DCR, MVI.
    fn exec_pair_arith(&mut self, i: Instruction) -> (r: StepOutcome)
        requires
            old(self).wf(),
            i.op is Inx || i.op is Dcx || i.op is Dad || i.op is Inr || i.op is Dcr
                || i.op is Mvi,
        ensures
            final(self).wf(),
            final(self).state == old(self).state,
            final(self).cpu == crate::exec::spec_apply(old(self).cpu, old(self).mem@, i).cpu,
            final(self).mem@ == crate::exec::spec_apply(old(self).cpu, old(self).mem@, i).mem,
            r == crate::exec::spec_apply(old(self).cpu, old(self).mem@, i).outcome,
    {
        match i.op {
            Op::Inx(p) => {
                let v: u16 = self.cpu.register.get_pair(p);
                self.cpu.register.set_pair(p, wrap_add(v, 1));
                self.advance_pc(i.len);
                StepOutcome::Ran
            }
            Op::Dcx(p) => {
                let v: u16 = self.cpu.register.get_pair(p);
                self.cpu.register.set_pair(p, wrap_sub(v, 1));
                self.advance_pc(i.len);
                StepOutcome::Ran
            }
            Op::Dad(p) => {
                let hl: u16 = self.cpu.register.HL();
                let x: u16 = self.cpu.register.get_pair(p);
                let sum: u32 = hl as u32 + x as u32;
                self.cpu.register.set_pair(Pair16::PairHL, (sum % 65536) as u16);
                self.cpu.flags.carry = sum > 65535;
                self.advance_pc(i.len);
                StepOutcome::Ran
            }
            Op::Inr(o) => {
                let x: u8 = self.read_operand(o);
                let (v, _, aux) = alu_add(x, 1, false);
                self.write_operand(o, v);
                let carry: bool = self.cpu.flags.carry;
                self.cpu.flags = derive_szp(v, carry, aux);
                self.advance_pc(i.len);
                StepOutcome::Ran
            }
            Op::Dcr(o) => {
                let x: u8 = self.read_operand(o);
                let (v, _, aux) = alu_sub(x, 1, false);
                self.write_operand(o, v);
                let carry: bool = self.cpu.flags.carry;
                self.cpu.flags = derive_szp(v, carry, aux);
                self.advance_pc(i.len);
                StepOutcome::Ran
            }
            Op::Mvi(o) => {
                self.write_operand(o, (i.imm % 256) as u8);
                self.advance_pc(i.len);
                StepOutcome::Ran
            }
            _ => {
                proof {
                    assert(false);
                }
                StepOutcome::Ran
            }
        }
    }

    /// Executes the accumulator rotates and the accumulator/carry
    /// one-byte operations: RLC, RRC, RAL, RAR, DAA, CMA, STC, CMC.
    fn exec_acc_flags(&mut self, i: Instruction) -> (r: StepOutcome)
        requires
            old(self).wf(),
            i.op is Rlc || i.op is Rrc || i.op is Ral || i.op is Rar || i.op is Daa
                || i.op is Cma || i.op is Stc || i.op is Cmc,
        ensures
            final(self).wf(),
            final(self).state == old(self).state,
            final(self).cpu == crate::exec::spec_apply(old(self).cpu, old(self).mem@, i).cpu,
            final(self).mem@ == crate::exec::spec_apply(old(self).cpu, old(self).mem@, i).mem,
            r == crate::exec::spec_apply(old(self).cpu, old(self).mem@, i).outcome,
    {
        match i.op {
            Op::Rlc => {
                let a: u8 = self.cpu.register.accumulator;
                self.cpu.register.accumulator = (a % 128) * 2 + a / 128;
                self.cpu.flags.carry = a >= 128;
                self.advance_pc(i.len);
                StepOutcome::Ran
            }
            Op::Rrc => {
                let a: u8 = self.cpu.register.accumulator;
                self.cpu.register.accumulator = a / 2 + (a % 2) * 128;
                self.cpu.flags.carry = a % 2 == 1;
                self.advance_pc(i.len);
                StepOutcome::Ran
            }
            Op::Ral => {
                let a: u8 = self.cpu.register.accumulator;
                let cin: u8 = if self.cpu.flags.carry {
                    1
                } else {
                    0
                };
                self.cpu.register.accumulator = (a % 128) * 2 + cin;
                self.cpu.flags.carry = a >= 128;
                self.advance_pc(i.len);
                StepOutcome::Ran
            }
            Op::Rar => {
                let a: u8 = self.cpu.register.accumulator;
                let cin: u8 = if self.cpu.flags.carry {
                    128
                } else {
                    0
                };
                self.cpu.register.accumulator = a / 2 + cin;
                self.cpu.flags.carry = a % 2 == 1;
                self.advance_pc(i.len);
                StepOutcome::Ran
            }
            Op::Daa => {
                let a: u8 = self.cpu.register.accumulator;
                let (v, f) = daa_adjust(a, &self.cpu.flags);
                self.cpu.register.accumulator = v;
                self.cpu.flags = f;
                self.advance_pc(i.len);
                StepOutcome::Ran
            }
            Op::Cma => {
                let a: u8 = self.cpu.register.accumulator;
                self.cpu.register.accumulator = 255 - a;
                self.advance_pc(i.len);
                StepOutcome::Ran
            }
            Op::Stc => {
                self.cpu.flags.carry = true;
                self.advance_pc(i.len);
                StepOutcome::Ran
            }
            Op::Cmc => {
                let c: bool = self.cpu.flags.carry;
                self.cpu.flags.carry = !c;
                self.advance_pc(i.len);
                StepOutcome::Ran
            }
            _ => {
                proof {
                    assert(false);
                }
                StepOutcome::Ran
            }
        }
    }

    /// Executes register-to-register and memory moves, HLT, and the
    /// accumulator ALU group with its immediate forms.
    fn exec_mov_alu(&mut self, i: Instruction) -> (r: StepOutcome)
        requires
            old(self).wf(),
            i.op is Mov || i.op is Hlt || i.op is Alu || i.op is AluImm,
        ensures
            final(self).wf(),
            final(self).state == old(self).state,
            final(self).cpu == crate::exec::spec_apply(old(self).cpu, old(self).mem@, i).cpu,
            final(self).mem@ == crate::exec::spec_apply(old(self).cpu, old(self).mem@, i).mem,
            r == crate::exec::spec_apply(old(self).cpu, old(self).mem@, i).outcome,
    {
        match i.op {
            Op::Mov(d, s) => {
                let v: u8 = self.read_operand(s);
                self.write_operand(d, v);
                self.advance_pc(i.len);
                StepOutcome::Ran
            }
            Op::Hlt => {
                self.advance_pc(i.len);
                StepOutcome::Halted
            }
            Op::Alu(k, o) => {
                let x: u8 = self.read_operand(o);
                let a: u8 = self.cpu.register.accumulator;
                let cy: bool = self.cpu.flags.carry;
                let (v, f) = alu_apply(k, a, x, cy);
                self.cpu.register.accumulator = v;
                self.cpu.flags = f;
                self.advance_pc(i.len);
                StepOutcome::Ran
            }
            Op::AluImm(k) => {
                let x: u8 = (i.imm % 256) as u8;
                let a: u8 = self.cpu.register.accumulator;
                let cy: bool = self.cpu.flags.carry;
                let (v, f) = alu_apply(k, a, x, cy);
                self.cpu.register.accumulator = v;
                self.cpu.flags = f;
                self.advance_pc(i.len);
                StepOutcome::Ran
            }
            _ => {
                proof {
                    assert(false);
                }
                StepOutcome::Ran
            }
        }
    }

    /// Executes the control-transfer group: JMP, CALL, RET, RST and their
    /// conditional variants.
    fn exec_branch(&mut self, i: Instruction) -> (r: StepOutcome)
        requires
            old(self).wf(),
            i.op is Jmp || i.op is JmpCond || i.op is Call || i.op is CallCond || i.op is Ret
                || i.op is RetCond || i.op is Rst,
        ensures
            final(self).wf(),
            final(self).state == old(self).state,
            final(self).cpu == crate::exec::spec_apply(old(self).cpu, old(self).mem@, i).cpu,
            final(self).mem@ == crate::exec::spec_apply(old(self).cpu, old(self).mem@, i).mem,
            r == crate::exec::spec_apply(old(self).cpu, old(self).mem@, i).outcome,
    {
        match i.op {
            Op::Jmp => {
                self.cpu.register.pc = i.imm;
                StepOutcome::Ran
            }
            Op::JmpCond(cc) => {
                if cond_eval(cc, &self.cpu.flags) {
                    self.cpu.register.pc = i.imm;
                } else {
                    self.advance_pc(i.len);
                }
                StepOutcome::Ran
            }
            Op::Call => {
                let ret: u16 = wrap_add(self.cpu.register.pc, i.len as u16);
                self.push_word(ret);
                self.cpu.register.pc = i.imm;
                StepOutcome::Ran
            }
            Op::CallCond(cc) => {
                if cond_eval(cc, &self.cpu.flags) {
                    let ret: u16 = wrap_add(self.cpu.register.pc, i.len as u16);
                    self.push_word(ret);
                    self.cpu.register.pc = i.imm;
                } else {
                    self.advance_pc(i.len);
                }
                StepOutcome::Ran
            }
            Op::Ret => {
                let t: u16 = self.pop_word();
                self.cpu.register.pc = t;
                StepOutcome::Ran
            }
            Op::RetCond(cc) => {
                if cond_eval(cc, &self.cpu.flags) {
                    let t: u16 = self.pop_word();
                    self.cpu.register.pc = t;
                } else {
                    self.advance_pc(i.len);
                }
                StepOutcome::Ran
            }
            Op::Rst(n) => {
                let ret: u16 = wrap_add(self.cpu.register.pc, i.len as u16);
                self.push_word(ret);
                self.cpu.register.pc = 8 * ((n as u16) % 8);
                StepOutcome::Ran
            }
            _ => {
                proof {
                    assert(false);
                }
                StepOutcome::Ran
            }
        }
    }

    /// Executes the stack group: PUSH, POP (register pairs and the PSW
    /// pseudo-pair) and XTHL.
    fn exec_stack(&mut self, i: Instruction) -> (r: StepOutcome)
        requires
            old(self).wf(),
            i.op is Push || i.op is Pop || i.op is Xthl,
        ensures
            final(self).wf(),
            final(self).state == old(self).state,
            final(self).cpu == crate::exec::spec_apply(old(self).cpu, old(self).mem@, i).cpu,
            final(self).mem@ == crate::exec::spec_apply(old(self).cpu, old(self).mem@, i).mem,
            r == crate::exec::spec_apply(old(self).cpu, old(self).mem@, i).outcome,
    {
        match i.op {
            Op::Push(p) => {
                let v: u16 = self.read_stack_pair(p);
                self.push_word(v);
                self.advance_pc(i.len);
                StepOutcome::Ran
            }
            Op::Pop(p) => {
                let w: u16 = self.pop_word();
                match p {
                    StackPair::StkBC => self.cpu.register.set_pair(Pair16::PairBC, w),
                    StackPair::StkDE => self.cpu.register.set_pair(Pair16::PairDE, w),
                    StackPair::StkHL => self.cpu.register.set_pair(Pair16::PairHL, w),
                    StackPair::StkPSW => {
                        self.cpu.register.accumulator = (w / 256) as u8;
                        self.cpu.flags = psw_to_flags((w % 256) as u8);
                    }
                }
                self.advance_pc(i.len);
                StepOutcome::Ran
            }
            Op::Xthl => {
                let sp: u16 = self.cpu.register.sp;
                let w: u16 = self.mem.read_word(sp);
                let hl: u16 = self.cpu.register.HL();
                self.mem.write_word(sp, hl);
                self.cpu.register.set_pair(Pair16::PairHL, w);
                self.advance_pc(i.len);
                StepOutcome::Ran
            }
            _ => {
                proof {
                    assert(false);
                }
                StepOutcome::Ran
            }
        }
    }

    /// Executes the remaining one-byte specials: PCHL, SPHL, XCHG, the
    /// port instructions, DI and EI.
    fn exec_special(&mut self, i: Instruction) -> (r: StepOutcome)
        requires
            old(self).wf(),
            i.op is Pchl || i.op is Sphl || i.op is Xchg || i.op is PortIn || i.op is PortOut
                || i.op is Di || i.op is Ei,
        ensures
            final(self).wf(),
            final(self).state == old(self).state,
            final(self).cpu == crate::exec::spec_apply(old(self).cpu, old(self).mem@, i).cpu,
            final(self).mem@ == crate::exec::spec_apply(old(self).cpu, old(self).mem@, i).mem,
            r == crate::exec::spec_apply(old(self).cpu, old(self).mem@, i).outcome,
    {
        match i.op {
            Op::Pchl => {
                let hl: u16 = self.cpu.register.HL();
                self.cpu.register.pc = hl;
                StepOutcome::Ran
            }
            Op::Sphl => {
                let hl: u16 = self.cpu.register.HL();
                self.cpu.register.sp = hl;
                self.advance_pc(i.len);
                StepOutcome::Ran
            }
            Op::Xchg => {
                let d: u8 = self.cpu.register.d;
                let e: u8 = self.cpu.register.e;
                self.cpu.register.d = self.cpu.register.h;
                self.cpu.register.e = self.cpu.register.l;
                self.cpu.register.h = d;
                self.cpu.register.l = e;
                self.advance_pc(i.len);
                StepOutcome::Ran
            }
            Op::PortIn => {
                let port: u8 = (i.imm % 256) as u8;
                self.advance_pc(i.len);
                StepOutcome::PortInput(port)
            }
            Op::PortOut => {
                let port: u8 = (i.imm % 256) as u8;
                let v: u8 = self.cpu.register.accumulator;
                self.advance_pc(i.len);
                StepOutcome::PortOutput(port, v)
            }
            Op::Di => {
                self.cpu.interrupts_enabled = false;
                self.advance_pc(i.len);
                StepOutcome::Ran
            }
            Op::Ei => {
                self.cpu.interrupts_enabled = true;
                self.advance_pc(i.len);
                StepOutcome::Ran
            }
            _ => {
                proof {
                    assert(false);
                }
                StepOutcome::Ran
            }
        }
    }

    /// One fetch-decode-execute cycle.
    ///
    /// From a running state, the machine advances exactly as the
    /// specification interpreter says and the outcome reports what
    /// happened: `Ran`, `Halted` (the driver enters the terminal halted
    /// state), or a port event for the caller's collaborator. From a
    /// halted or faulted state, nothing changes and the outcome is the
    /// explicit `Terminal` signal.
    pub fn step(&mut self) -> (r: StepOutcome)
        requires
            old(self).wf(),
        ensures
            final(self).wf(),
            old(self).state is Running ==> {
                let o = spec_step(old(self).cpu, old(self).mem@);
                &&& final(self).cpu == o.cpu
                &&& final(self).mem@ == o.mem
                &&& r == o.outcome
                &&& final(self).state == if o.outcome is Halted {
                    RunState::Halted
                } else {
                    RunState::Running
                }
            },
            !(old(self).state is Running) ==> final(self).cpu == old(self).cpu
                && final(self).mem@ == old(self).mem@ && final(self).state == old(self).state
                && r == StepOutcome::Terminal,
    {
        match self.state {
            RunState::Running => {}
            _ => {
                return StepOutcome::Terminal;
            }
        }
        let i: Instruction = self.current_instruction();
        let r: StepOutcome = self.execute(i);
        match r {
            StepOutcome::Halted => {
                self.state = RunState::Halted;
            }
            _ => {}
        }
        r
    }

    /// Executes up to `max_steps` instructions with no port collaborator
    /// attached and returns the driver state reached.
    ///
    /// The slice is resumable: all mutable state lives in the machine, so
    /// a later call picks up exactly where this one stopped. A HLT moves
    /// the driver to the terminal halted state; an IN or OUT faults with
    /// `PortUnbound` rather than assuming a default port value; a machine
    /// already in a terminal state stays exactly as it is.
    pub fn run(&mut self, max_steps: u64) -> (r: RunState)
        requires
            old(self).wf(),
        ensures
            final(self).wf(),
            final(self).snap() == spec_run(old(self).snap(), max_steps as nat),
            r == final(self).state,
    {
        let mut k: u64 = 0;
        while k < max_steps && self.is_running()
            invariant
                self.wf(),
                k <= max_steps,
                spec_run(old(self).snap(), max_steps as nat) == spec_run(
                    self.snap(),
                    (max_steps - k) as nat,
                ),
            decreases max_steps - k,
        {
            let pc_before: u16 = self.cpu.register.pc;
            let opcode: u8 = self.mem.read_byte(pc_before);
            let ghost pre = self.snap();
            let outcome: StepOutcome = self.step();
            match outcome {
                StepOutcome::Ran => {}
                StepOutcome::Halted => {}
                StepOutcome::PortInput(_) => {
                    self.state = RunState::Faulted(
                        Fault { kind: EmuError::PortUnbound, pc: pc_before, opcode },
                    );
                }
                StepOutcome::PortOutput(_, _) => {
                    self.state = RunState::Faulted(
                        Fault { kind: EmuError::PortUnbound, pc: pc_before, opcode },
                    );
                }
                StepOutcome::Terminal => {}
            }
            proof {
                assert(self.snap() =~= spec_run1(pre));
            }
            k = k + 1;
        }
        self.state
    }
}

} // verus!
