//! Properties of the instruction semantics, proved once for every opcode
//! and every machine state.

use vstd::prelude::*;
use crate::cpu::Cpu;
use crate::cpu::Flag;
use crate::cpu::pair_bc;
use crate::cpu::pair_de;
use crate::cpu::pair_hl;
use crate::decode::Cond;
use crate::decode::Instruction;
use crate::decode::Op;
use crate::decode::StackPair;
use crate::decode::spec_decode;
use crate::exec::cond_holds;
use crate::exec::pc_next;
use crate::exec::spec_apply;
use crate::exec::stack_pair_read;
use crate::memory::mem_read16;
use crate::memory::mem_write16;
use crate::memory::wrap16;

verus! {

/// Whether the instruction transfers control this step: JMP, CALL, RET,
/// PCHL and RST always do; their conditional variants do exactly when the
/// named condition holds of the flags.
pub open spec fn is_transfer_taken(c: Cpu, i: Instruction) -> bool {
    match i.op {
        Op::Jmp | Op::Call | Op::Ret | Op::Pchl | Op::Rst(_) => true,
        Op::JmpCond(cc) => cond_holds(cc, c.flags),
        Op::CallCond(cc) => cond_holds(cc, c.flags),
        Op::RetCond(cc) => cond_holds(cc, c.flags),
        _ => false,
    }
}

/// The destination of a taken control transfer: the immediate word for
/// jumps and calls, the word at the top of the stack for returns, HL for
/// PCHL, and `8 * n` for RST n.
pub open spec fn transfer_target(c: Cpu, m: Seq<u8>, i: Instruction) -> u16 {
    match i.op {
        Op::Ret | Op::RetCond(_) => mem_read16(m, c.register.sp),
        Op::Pchl => pair_hl(c.register),
        Op::Rst(n) => (8 * (n as int % 8)) as u16,
        _ => i.imm,
    }
}

/// Executing any instruction either advances the program counter by the
/// instruction's length (modulo 65536) or, for a taken control transfer,
/// sets it to the computed target.
pub proof fn lemma_apply_pc(c: Cpu, m: Seq<u8>, i: Instruction)
    ensures
        is_transfer_taken(c, i) ==> spec_apply(c, m, i).cpu.register.pc == transfer_target(
            c,
            m,
            i,
        ),
        !is_transfer_taken(c, i) ==> spec_apply(c, m, i).cpu.register.pc == pc_next(
            c.register.pc,
            i.len,
        ),
{
}

/// Decode-then-execute advances PC by the documented instruction length
/// (1, 2 or 3 bytes) for every opcode byte, except a taken branch, call,
/// return, RST or PCHL, which sets PC to the computed target instead.
pub proof fn lemma_decode_execute_pc(c: Cpu, m: Seq<u8>, opcode: u8, b1: u8, b2: u8)
    ensures
        ({
            let i = spec_decode(opcode, b1, b2);
            let o = spec_apply(c, m, i);
            &&& 1 <= i.len <= 3
            &&& (is_transfer_taken(c, i) ==> o.cpu.register.pc == transfer_target(c, m, i))
            &&& (!is_transfer_taken(c, i) ==> o.cpu.register.pc == pc_next(c.register.pc, i.len))
        }),
{
    crate::decode::lemma_decode_total_len(opcode, b1, b2);
    lemma_apply_pc(c, m, spec_decode(opcode, b1, b2));
}

/// INR and DCR never change the carry flag, for every operand location
/// and every machine state.
pub proof fn lemma_inr_dcr_preserve_carry(c: Cpu, m: Seq<u8>, i: Instruction)
    requires
        i.op is Inr || i.op is Dcr,
    ensures
        spec_apply(c, m, i).cpu.flags.carry == c.flags.carry,
{
}

/// Writing a little-endian word and reading it back at the same address
/// returns the word, for any address, wraparound included.
pub proof fn lemma_word_roundtrip(m: Seq<u8>, a: u16, v: u16)
    requires
        m.len() == 65536,
    ensures
        mem_read16(mem_write16(m, a, v), a) == v,
{
    assert(wrap16(a + 1) != a);
}

/// SP returns to its original value after dropping by two and rising by
/// two again, modulo 65536.
pub proof fn lemma_sp_roundtrip(sp: u16)
    ensures
        wrap16(wrap16(sp - 2) + 2) == sp,
{
}

/// CALL then RET: executing a CALL to any target and then a RET in the
/// resulting state brings PC to the instruction immediately following the
/// CALL and restores SP to its pre-CALL value.
pub proof fn lemma_call_ret(c: Cpu, m: Seq<u8>, target: u16, call_i: Instruction, ret_i: Instruction)
    requires
        m.len() == 65536,
        call_i.op is Call,
        call_i.len == 3,
        call_i.imm == target,
        ret_i.op is Ret,
    ensures
        ({
            let s1 = spec_apply(c, m, call_i);
            let s2 = spec_apply(s1.cpu, s1.mem, ret_i);
            &&& s1.cpu.register.pc == target
            &&& s2.cpu.register.pc == pc_next(c.register.pc, 3)
            &&& s2.cpu.register.sp == c.register.sp
        }),
{
    lemma_word_roundtrip(m, wrap16(c.register.sp - 2), pc_next(c.register.pc, 3));
    lemma_sp_roundtrip(c.register.sp);
}

/// PUSH then POP: pushing any stack pair and popping it back restores the
/// pair's 16-bit value and SP; for the PSW pseudo-pair the accumulator
/// and the exact five flags come back, the packed byte's fixed bits
/// notwithstanding.
pub proof fn lemma_push_pop(c: Cpu, m: Seq<u8>, p: StackPair, push_i: Instruction, pop_i: Instruction)
    requires
        m.len() == 65536,
        push_i.op == Op::Push(p),
        pop_i.op == Op::Pop(p),
    ensures
        ({
            let s1 = spec_apply(c, m, push_i);
            let s2 = spec_apply(s1.cpu, s1.mem, pop_i);
            &&& stack_pair_read(s2.cpu, p) == stack_pair_read(c, p)
            &&& s2.cpu.register.sp == c.register.sp
            &&& (p is StkBC ==> pair_bc(s2.cpu.register) == pair_bc(c.register))
            &&& (p is StkDE ==> pair_de(s2.cpu.register) == pair_de(c.register))
            &&& (p is StkHL ==> pair_hl(s2.cpu.register) == pair_hl(c.register))
            &&& (p is StkPSW ==> s2.cpu.flags == c.flags && s2.cpu.register.accumulator
                == c.register.accumulator)
        }),
{
    lemma_word_roundtrip(m, wrap16(c.register.sp - 2), stack_pair_read(c, p));
    lemma_sp_roundtrip(c.register.sp);
    if p is StkPSW {
        crate::flags::lemma_psw_roundtrip(c.flags);
    }
}

/// A halted or faulted driver is absorbing: however many further steps
/// are requested, nothing in the machine changes.
pub proof fn lemma_terminal_is_absorbing(s: crate::machine::RunSnap, fuel: nat)
    requires
        !(s.state is Running),
    ensures
        crate::machine::spec_run(s, fuel) == s,
{
}

/// The conditional-branch predicate table, exhaustively: JZ/JNZ test the
/// zero flag, JC/JNC the carry flag, JPE/JPO the parity flag, and JM/JP
/// the sign flag, each pair in both polarities.
pub proof fn lemma_cond_table(f: Flag)
    ensures
        cond_holds(Cond::CondZ, f) == f.zero,
        cond_holds(Cond::CondNZ, f) == !f.zero,
        cond_holds(Cond::CondC, f) == f.carry,
        cond_holds(Cond::CondNC, f) == !f.carry,
        cond_holds(Cond::CondPE, f) == f.parity,
        cond_holds(Cond::CondPO, f) == !f.parity,
        cond_holds(Cond::CondM, f) == f.sign,
        cond_holds(Cond::CondP, f) == !f.sign,
{
}

} // verus!
