//! The opcode decoder: a total mapping from every byte value 0x00..=0xFF
//! (plus up to two following bytes) to a concrete instruction.
//!
//! The 8080 instruction set has documented redundant encodings, and they
//! are first-class table entries here: 0x08, 0x10, 0x18, 0x20, 0x28, 0x30
//! and 0x38 alias NOP; 0xCB aliases JMP; 0xD9 aliases RET; 0xDD, 0xED and
//! 0xFD alias CALL. No byte value is an illegal opcode.

use vstd::prelude::*;
use crate::cpu::Pair16;
use crate::cpu::compose16;

verus! {

/// An 8-bit operand location: one of the seven registers, or the memory
/// byte addressed through HL.
#[derive(Clone, Copy, PartialEq, Eq, Structural, Debug)]
pub enum Operand {
    RegB,
    RegC,
    RegD,
    RegE,
    RegH,
    RegL,
    Mem,
    RegA,
}

/// A stack pair: the three register pairs or the PSW pseudo-pair
/// (accumulator plus packed flags).
#[derive(Clone, Copy, PartialEq, Eq, Structural, Debug)]
pub enum StackPair {
    StkBC,
    StkDE,
    StkHL,
    StkPSW,
}

/// One of the eight branch conditions.
#[derive(Clone, Copy, PartialEq, Eq, Structural, Debug)]
pub enum Cond {
    CondNZ,
    CondZ,
    CondNC,
    CondC,
    CondPO,
    CondPE,
    CondP,
    CondM,
}

/// One of the eight accumulator arithmetic/logic operations.
#[derive(Clone, Copy, PartialEq, Eq, Structural, Debug)]
pub enum AluOp {
    AluAdd,
    AluAdc,
    AluSub,
    AluSbb,
    AluAna,
    AluXra,
    AluOra,
    AluCmp,
}

/// The semantic class of a decoded instruction. Immediate operands live in
/// the `imm` field of [`Instruction`], not here.
#[derive(Clone, Copy, PartialEq, Eq, Structural, Debug)]
pub enum Op {
    Nop,
    Lxi(Pair16),
    Stax(Pair16),
    Ldax(Pair16),
    Shld,
    Lhld,
    Sta,
    Lda,
    Inx(Pair16),
    Dcx(Pair16),
    Dad(Pair16),
    Inr(Operand),
    Dcr(Operand),
    Mvi(Operand),
    Rlc,
    Rrc,
    Ral,
    Rar,
    Daa,
    Cma,
    Stc,
    Cmc,
    Mov(Operand, Operand),
    Hlt,
    Alu(AluOp, Operand),
    AluImm(AluOp),
    Ret,
    RetCond(Cond),
    Jmp,
    JmpCond(Cond),
    Call,
    CallCond(Cond),
    Rst(u8),
    Push(StackPair),
    Pop(StackPair),
    Xthl,
    Pchl,
    Sphl,
    Xchg,
    PortIn,
    PortOut,
    Di,
    Ei,
}

/// A decoded instruction: the opcode byte, its semantic class, its byte
/// length (1, 2 or 3), and the immediate operand (the byte after the
/// opcode for a 2-byte instruction, the little-endian word after it for a
/// 3-byte instruction, 0 otherwise).
#[derive(Clone, Copy, PartialEq, Eq, Structural, Debug)]
pub struct Instruction {
    pub opcode: u8,
    pub op: Op,
    pub len: u8,
    pub imm: u16,
}

/// The operand location encoded by a three-bit register field.
pub open spec fn operand_of(n: int) -> Operand {
    if n == 0 {
        Operand::RegB
    } else if n == 1 {
        Operand::RegC
    } else if n == 2 {
        Operand::RegD
    } else if n == 3 {
        Operand::RegE
    } else if n == 4 {
        Operand::RegH
    } else if n == 5 {
        Operand::RegL
    } else if n == 6 {
        Operand::Mem
    } else {
        Operand::RegA
    }
}

/// The ALU operation encoded by a three-bit field.
pub open spec fn alu_of(n: int) -> AluOp {
    if n == 0 {
        AluOp::AluAdd
    } else if n == 1 {
        AluOp::AluAdc
    } else if n == 2 {
        AluOp::AluSub
    } else if n == 3 {
        AluOp::AluSbb
    } else if n == 4 {
        AluOp::AluAna
    } else if n == 5 {
        AluOp::AluXra
    } else if n == 6 {
        AluOp::AluOra
    } else {
        AluOp::AluCmp
    }
}

/// A one-byte instruction.
pub open spec fn ins1(opcode: u8, op: Op) -> Instruction {
    Instruction { opcode, op, len: 1, imm: 0 }
}

/// A two-byte instruction with its immediate byte.
pub open spec fn ins2(opcode: u8, op: Op, b1: u8) -> Instruction {
    Instruction { opcode, op, len: 2, imm: b1 as u16 }
}

/// A three-byte instruction with its little-endian immediate word.
pub open spec fn ins3(opcode: u8, op: Op, b1: u8, b2: u8) -> Instruction {
    Instruction { opcode, op, len: 3, imm: compose16(b2, b1) }
}

/// The complete decode table: the instruction denoted by `opcode` with the
/// two following bytes `b1` and `b2` (which are ignored by instructions
/// shorter than they reach).
pub open spec fn spec_decode(opcode: u8, b1: u8, b2: u8) -> Instruction {
    if opcode == 0x76 {
        ins1(opcode, Op::Hlt)
    } else if 0x40 <= opcode && opcode <= 0x7F {
        ins1(opcode, Op::Mov(operand_of((opcode - 0x40) / 8), operand_of(opcode as int % 8)))
    } else if 0x80 <= opcode && opcode <= 0xBF {
        ins1(opcode, Op::Alu(alu_of((opcode - 0x80) / 8), operand_of(opcode as int % 8)))
    } else {
        spec_decode_rest(opcode, b1, b2)
    }
}

/// The decode table outside the MOV, HLT and accumulator ALU blocks:
/// opcodes 0x00..=0x3F and 0xC0..=0xFF.
pub open spec fn spec_decode_rest(opcode: u8, b1: u8, b2: u8) -> Instruction {
    match opcode {
        0x00 | 0x08 | 0x10 | 0x18 | 0x20 | 0x28 | 0x30 | 0x38 => ins1(opcode, Op::Nop),
        0x01 => ins3(opcode, Op::Lxi(Pair16::PairBC), b1, b2),
        0x02 => ins1(opcode, Op::Stax(Pair16::PairBC)),
        0x03 => ins1(opcode, Op::Inx(Pair16::PairBC)),
        0x04 => ins1(opcode, Op::Inr(Operand::RegB)),
        0x05 => ins1(opcode, Op::Dcr(Operand::RegB)),
        0x06 => ins2(opcode, Op::Mvi(Operand::RegB), b1),
        0x07 => ins1(opcode, Op::Rlc),
        0x09 => ins1(opcode, Op::Dad(Pair16::PairBC)),
        0x0A => ins1(opcode, Op::Ldax(Pair16::PairBC)),
        0x0B => ins1(opcode, Op::Dcx(Pair16::PairBC)),
        0x0C => ins1(opcode, Op::Inr(Operand::RegC)),
        0x0D => ins1(opcode, Op::Dcr(Operand::RegC)),
        0x0E => ins2(opcode, Op::Mvi(Operand::RegC), b1),
        0x0F => ins1(opcode, Op::Rrc),
        0x11 => ins3(opcode, Op::Lxi(Pair16::PairDE), b1, b2),
        0x12 => ins1(opcode, Op::Stax(Pair16::PairDE)),
        0x13 => ins1(opcode, Op::Inx(Pair16::PairDE)),
        0x14 => ins1(opcode, Op::Inr(Operand::RegD)),
        0x15 => ins1(opcode, Op::Dcr(Operand::RegD)),
        0x16 => ins2(opcode, Op::Mvi(Operand::RegD), b1),
        0x17 => ins1(opcode, Op::Ral),
        0x19 => ins1(opcode, Op::Dad(Pair16::PairDE)),
        0x1A => ins1(opcode, Op::Ldax(Pair16::PairDE)),
        0x1B => ins1(opcode, Op::Dcx(Pair16::PairDE)),
        0x1C => ins1(opcode, Op::Inr(Operand::RegE)),
        0x1D => ins1(opcode, Op::Dcr(Operand::RegE)),
        0x1E => ins2(opcode, Op::Mvi(Operand::RegE), b1),
        0x1F => ins1(opcode, Op::Rar),
        0x21 => ins3(opcode, Op::Lxi(Pair16::PairHL), b1, b2),
        0x22 => ins3(opcode, Op::Shld, b1, b2),
        0x23 => ins1(opcode, Op::Inx(Pair16::PairHL)),
        0x24 => ins1(opcode, Op::Inr(Operand::RegH)),
        0x25 => ins1(opcode, Op::Dcr(Operand::RegH)),
        0x26 => ins2(opcode, Op::Mvi(Operand::RegH), b1),
        0x27 => ins1(opcode, Op::Daa),
        0x29 => ins1(opcode, Op::Dad(Pair16::PairHL)),
        0x2A => ins3(opcode, Op::Lhld, b1, b2),
        0x2B => ins1(opcode, Op::Dcx(Pair16::PairHL)),
        0x2C => ins1(opcode, Op::Inr(Operand::RegL)),
        0x2D => ins1(opcode, Op::Dcr(Operand::RegL)),
        0x2E => ins2(opcode, Op::Mvi(Operand::RegL), b1),
        0x2F => ins1(opcode, Op::Cma),
        0x31 => ins3(opcode, Op::Lxi(Pair16::PairSP), b1, b2),
        0x32 => ins3(opcode, Op::Sta, b1, b2),
        0x33 => ins1(opcode, Op::Inx(Pair16::PairSP)),
        0x34 => ins1(opcode, Op::Inr(Operand::Mem)),
        0x35 => ins1(opcode, Op::Dcr(Operand::Mem)),
        0x36 => ins2(opcode, Op::Mvi(Operand::Mem), b1),
        0x37 => ins1(opcode, Op::Stc),
        0x39 => ins1(opcode, Op::Dad(Pair16::PairSP)),
        0x3A => ins3(opcode, Op::Lda, b1, b2),
        0x3B => ins1(opcode, Op::Dcx(Pair16::PairSP)),
        0x3C => ins1(opcode, Op::Inr(Operand::RegA)),
        0x3D => ins1(opcode, Op::Dcr(Operand::RegA)),
        0x3E => ins2(opcode, Op::Mvi(Operand::RegA), b1),
        0x3F => ins1(opcode, Op::Cmc),
        0xC0 => ins1(opcode, Op::RetCond(Cond::CondNZ)),
        0xC1 => ins1(opcode, Op::Pop(StackPair::StkBC)),
        0xC2 => ins3(opcode, Op::JmpCond(Cond::CondNZ), b1, b2),
        0xC3 | 0xCB => ins3(opcode, Op::Jmp, b1, b2),
        0xC4 => ins3(opcode, Op::CallCond(Cond::CondNZ), b1, b2),
        0xC5 => ins1(opcode, Op::Push(StackPair::StkBC)),
        0xC6 => ins2(opcode, Op::AluImm(AluOp::AluAdd), b1),
        0xC7 => ins1(opcode, Op::Rst(0)),
        0xC8 => ins1(opcode, Op::RetCond(Cond::CondZ)),
        0xC9 | 0xD9 => ins1(opcode, Op::Ret),
        0xCA => ins3(opcode, Op::JmpCond(Cond::CondZ), b1, b2),
        0xCC => ins3(opcode, Op::CallCond(Cond::CondZ), b1, b2),
        0xCD | 0xDD | 0xED | 0xFD => ins3(opcode, Op::Call, b1, b2),
        0xCE => ins2(opcode, Op::AluImm(AluOp::AluAdc), b1),
        0xCF => ins1(opcode, Op::Rst(1)),
        0xD0 => ins1(opcode, Op::RetCond(Cond::CondNC)),
        0xD1 => ins1(opcode, Op::Pop(StackPair::StkDE)),
        0xD2 => ins3(opcode, Op::JmpCond(Cond::CondNC), b1, b2),
        0xD3 => ins2(opcode, Op::PortOut, b1),
        0xD4 => ins3(opcode, Op::CallCond(Cond::CondNC), b1, b2),
        0xD5 => ins1(opcode, Op::Push(StackPair::StkDE)),
        0xD6 => ins2(opcode, Op::AluImm(AluOp::AluSub), b1),
        0xD7 => ins1(opcode, Op::Rst(2)),
        0xD8 => ins1(opcode, Op::RetCond(Cond::CondC)),
        0xDA => ins3(opcode, Op::JmpCond(Cond::CondC), b1, b2),
        0xDB => ins2(opcode, Op::PortIn, b1),
        0xDC => ins3(opcode, Op::CallCond(Cond::CondC), b1, b2),
        0xDE => ins2(opcode, Op::AluImm(AluOp::AluSbb), b1),
        0xDF => ins1(opcode, Op::Rst(3)),
        0xE0 => ins1(opcode, Op::RetCond(Cond::CondPO)),
        0xE1 => ins1(opcode, Op::Pop(StackPair::StkHL)),
        0xE2 => ins3(opcode, Op::JmpCond(Cond::CondPO), b1, b2),
        0xE3 => ins1(opcode, Op::Xthl),
        0xE4 => ins3(opcode, Op::CallCond(Cond::CondPO), b1, b2),
        0xE5 => ins1(opcode, Op::Push(StackPair::StkHL)),
        0xE6 => ins2(opcode, Op::AluImm(AluOp::AluAna), b1),
        0xE7 => ins1(opcode, Op::Rst(4)),
        0xE8 => ins1(opcode, Op::RetCond(Cond::CondPE)),
        0xE9 => ins1(opcode, Op::Pchl),
        0xEA => ins3(opcode, Op::JmpCond(Cond::CondPE), b1, b2),
        0xEB => ins1(opcode, Op::Xchg),
        0xEC => ins3(opcode, Op::CallCond(Cond::CondPE), b1, b2),
        0xEE => ins2(opcode, Op::AluImm(AluOp::AluXra), b1),
        0xEF => ins1(opcode, Op::Rst(5)),
        0xF0 => ins1(opcode, Op::RetCond(Cond::CondP)),
        0xF1 => ins1(opcode, Op::Pop(StackPair::StkPSW)),
        0xF2 => ins3(opcode, Op::JmpCond(Cond::CondP), b1, b2),
        0xF3 => ins1(opcode, Op::Di),
        0xF4 => ins3(opcode, Op::CallCond(Cond::CondP), b1, b2),
        0xF5 => ins1(opcode, Op::Push(StackPair::StkPSW)),
        0xF6 => ins2(opcode, Op::AluImm(AluOp::AluOra), b1),
        0xF7 => ins1(opcode, Op::Rst(6)),
        0xF8 => ins1(opcode, Op::RetCond(Cond::CondM)),
        0xF9 => ins1(opcode, Op::Sphl),
        0xFA => ins3(opcode, Op::JmpCond(Cond::CondM), b1, b2),
        0xFB => ins1(opcode, Op::Ei),
        0xFC => ins3(opcode, Op::CallCond(Cond::CondM), b1, b2),
        0xFE => ins2(opcode, Op::AluImm(AluOp::AluCmp), b1),
        0xFF => ins1(opcode, Op::Rst(7)),
        // Only 0x40..=0xBF can reach this arm, and spec_decode handles
        // that whole block before dispatching here.
        _ => ins1(opcode, Op::Nop),
    }
}

/// The operand location encoded by a three-bit register field.
fn operand_from(n: u8) -> (r: Operand)
    requires
        n < 8,
    ensures
        r == operand_of(n as int),
{
    match n {
        0 => Operand::RegB,
        1 => Operand::RegC,
        2 => Operand::RegD,
        3 => Operand::RegE,
        4 => Operand::RegH,
        5 => Operand::RegL,
        6 => Operand::Mem,
        _ => Operand::RegA,
    }
}

/// The ALU operation encoded by a three-bit field.
fn alu_from(n: u8) -> (r: AluOp)
    requires
        n < 8,
    ensures
        r == alu_of(n as int),
{
    match n {
        0 => AluOp::AluAdd,
        1 => AluOp::AluAdc,
        2 => AluOp::AluSub,
        3 => AluOp::AluSbb,
        4 => AluOp::AluAna,
        5 => AluOp::AluXra,
        6 => AluOp::AluOra,
        _ => AluOp::AluCmp,
    }
}

/// A one-byte instruction.
fn mk1(opcode: u8, op: Op) -> (r: Instruction)
    ensures
        r == ins1(opcode, op),
{
    Instruction { opcode, op, len: 1, imm: 0 }
}

/// A two-byte instruction with its immediate byte.
fn mk2(opcode: u8, op: Op, b1: u8) -> (r: Instruction)
    ensures
        r == ins2(opcode, op, b1),
{
    Instruction { opcode, op, len: 2, imm: b1 as u16 }
}

/// A three-byte instruction with its little-endian immediate word.
fn mk3(opcode: u8, op: Op, b1: u8, b2: u8) -> (r: Instruction)
    ensures
        r == ins3(opcode, op, b1, b2),
{
    Instruction { opcode, op, len: 3, imm: (b2 as u16) * 256 + (b1 as u16) }
}

/// Decodes `opcode` with the two bytes that follow it. Total: every byte
/// value maps to the instruction given by the decode table.
pub fn decode(opcode: u8, b1: u8, b2: u8) -> (r: Instruction)
    ensures
        r == spec_decode(opcode, b1, b2),
{
    if opcode == 0x76 {
        mk1(opcode, Op::Hlt)
    } else if 0x40 <= opcode && opcode <= 0x7F {
        let dst: Operand = operand_from((opcode - 0x40) / 8);
        let src: Operand = operand_from(opcode % 8);
        mk1(opcode, Op::Mov(dst, src))
    } else if 0x80 <= opcode && opcode <= 0xBF {
        let kind: AluOp = alu_from((opcode - 0x80) / 8);
        let src: Operand = operand_from(opcode % 8);
        mk1(opcode, Op::Alu(kind, src))
    } else {
        decode_rest(opcode, b1, b2)
    }
}

/// Decodes the opcodes outside the MOV, HLT and accumulator ALU blocks.
fn decode_rest(opcode: u8, b1: u8, b2: u8) -> (r: Instruction)
    requires
        opcode < 0x40 || opcode >= 0xC0,
    ensures
        r == spec_decode_rest(opcode, b1, b2),
{
    match opcode {
        0x00 | 0x08 | 0x10 | 0x18 | 0x20 | 0x28 | 0x30 | 0x38 => mk1(opcode, Op::Nop),
        0x01 => mk3(opcode, Op::Lxi(Pair16::PairBC), b1, b2),
        0x02 => mk1(opcode, Op::Stax(Pair16::PairBC)),
        0x03 => mk1(opcode, Op::Inx(Pair16::PairBC)),
        0x04 => mk1(opcode, Op::Inr(Operand::RegB)),
        0x05 => mk1(opcode, Op::Dcr(Operand::RegB)),
        0x06 => mk2(opcode, Op::Mvi(Operand::RegB), b1),
        0x07 => mk1(opcode, Op::Rlc),
        0x09 => mk1(opcode, Op::Dad(Pair16::PairBC)),
        0x0A => mk1(opcode, Op::Ldax(Pair16::PairBC)),
        0x0B => mk1(opcode, Op::Dcx(Pair16::PairBC)),
        0x0C => mk1(opcode, Op::Inr(Operand::RegC)),
        0x0D => mk1(opcode, Op::Dcr(Operand::RegC)),
        0x0E => mk2(opcode, Op::Mvi(Operand::RegC), b1),
        0x0F => mk1(opcode, Op::Rrc),
        0x11 => mk3(opcode, Op::Lxi(Pair16::PairDE), b1, b2),
        0x12 => mk1(opcode, Op::Stax(Pair16::PairDE)),
        0x13 => mk1(opcode, Op::Inx(Pair16::PairDE)),
        0x14 => mk1(opcode, Op::Inr(Operand::RegD)),
        0x15 => mk1(opcode, Op::Dcr(Operand::RegD)),
        0x16 => mk2(opcode, Op::Mvi(Operand::RegD), b1),
        0x17 => mk1(opcode, Op::Ral),
        0x19 => mk1(opcode, Op::Dad(Pair16::PairDE)),
        0x1A => mk1(opcode, Op::Ldax(Pair16::PairDE)),
        0x1B => mk1(opcode, Op::Dcx(Pair16::PairDE)),
        0x1C => mk1(opcode, Op::Inr(Operand::RegE)),
        0x1D => mk1(opcode, Op::Dcr(Operand::RegE)),
        0x1E => mk2(opcode, Op::Mvi(Operand::RegE), b1),
        0x1F => mk1(opcode, Op::Rar),
        0x21 => mk3(opcode, Op::Lxi(Pair16::PairHL), b1, b2),
        0x22 => mk3(opcode, Op::Shld, b1, b2),
        0x23 => mk1(opcode, Op::Inx(Pair16::PairHL)),
        0x24 => mk1(opcode, Op::Inr(Operand::RegH)),
        0x25 => mk1(opcode, Op::Dcr(Operand::RegH)),
        0x26 => mk2(opcode, Op::Mvi(Operand::RegH), b1),
        0x27 => mk1(opcode, Op::Daa),
        0x29 => mk1(opcode, Op::Dad(Pair16::PairHL)),
        0x2A => mk3(opcode, Op::Lhld, b1, b2),
        0x2B => mk1(opcode, Op::Dcx(Pair16::PairHL)),
        0x2C => mk1(opcode, Op::Inr(Operand::RegL)),
        0x2D => mk1(opcode, Op::Dcr(Operand::RegL)),
        0x2E => mk2(opcode, Op::Mvi(Operand::RegL), b1),
        0x2F => mk1(opcode, Op::Cma),
        0x31 => mk3(opcode, Op::Lxi(Pair16::PairSP), b1, b2),
        0x32 => mk3(opcode, Op::Sta, b1, b2),
        0x33 => mk1(opcode, Op::Inx(Pair16::PairSP)),
        0x34 => mk1(opcode, Op::Inr(Operand::Mem)),
        0x35 => mk1(opcode, Op::Dcr(Operand::Mem)),
        0x36 => mk2(opcode, Op::Mvi(Operand::Mem), b1),
        0x37 => mk1(opcode, Op::Stc),
        0x39 => mk1(opcode, Op::Dad(Pair16::PairSP)),
        0x3A => mk3(opcode, Op::Lda, b1, b2),
        0x3B => mk1(opcode, Op::Dcx(Pair16::PairSP)),
        0x3C => mk1(opcode, Op::Inr(Operand::RegA)),
        0x3D => mk1(opcode, Op::Dcr(Operand::RegA)),
        0x3E => mk2(opcode, Op::Mvi(Operand::RegA), b1),
        0x3F => mk1(opcode, Op::Cmc),
        0xC0 => mk1(opcode, Op::RetCond(Cond::CondNZ)),
        0xC1 => mk1(opcode, Op::Pop(StackPair::StkBC)),
        0xC2 => mk3(opcode, Op::JmpCond(Cond::CondNZ), b1, b2),
        0xC3 | 0xCB => mk3(opcode, Op::Jmp, b1, b2),
        0xC4 => mk3(opcode, Op::CallCond(Cond::CondNZ), b1, b2),
        0xC5 => mk1(opcode, Op::Push(StackPair::StkBC)),
        0xC6 => mk2(opcode, Op::AluImm(AluOp::AluAdd), b1),
        0xC7 => mk1(opcode, Op::Rst(0)),
        0xC8 => mk1(opcode, Op::RetCond(Cond::CondZ)),
        0xC9 | 0xD9 => mk1(opcode, Op::Ret),
        0xCA => mk3(opcode, Op::JmpCond(Cond::CondZ), b1, b2),
        0xCC => mk3(opcode, Op::CallCond(Cond::CondZ), b1, b2),
        0xCD | 0xDD | 0xED | 0xFD => mk3(opcode, Op::Call, b1, b2),
        0xCE => mk2(opcode, Op::AluImm(AluOp::AluAdc), b1),
        0xCF => mk1(opcode, Op::Rst(1)),
        0xD0 => mk1(opcode, Op::RetCond(Cond::CondNC)),
        0xD1 => mk1(opcode, Op::Pop(StackPair::StkDE)),
        0xD2 => mk3(opcode, Op::JmpCond(Cond::CondNC), b1, b2),
        0xD3 => mk2(opcode, Op::PortOut, b1),
        0xD4 => mk3(opcode, Op::CallCond(Cond::CondNC), b1, b2),
        0xD5 => mk1(opcode, Op::Push(StackPair::StkDE)),
        0xD6 => mk2(opcode, Op::AluImm(AluOp::AluSub), b1),
        0xD7 => mk1(opcode, Op::Rst(2)),
        0xD8 => mk1(opcode, Op::RetCond(Cond::CondC)),
        0xDA => mk3(opcode, Op::JmpCond(Cond::CondC), b1, b2),
        0xDB => mk2(opcode, Op::PortIn, b1),
        0xDC => mk3(opcode, Op::CallCond(Cond::CondC), b1, b2),
        0xDE => mk2(opcode, Op::AluImm(AluOp::AluSbb), b1),
        0xDF => mk1(opcode, Op::Rst(3)),
        0xE0 => mk1(opcode, Op::RetCond(Cond::CondPO)),
        0xE1 => mk1(opcode, Op::Pop(StackPair::StkHL)),
        0xE2 => mk3(opcode, Op::JmpCond(Cond::CondPO), b1, b2),
        0xE3 => mk1(opcode, Op::Xthl),
        0xE4 => mk3(opcode, Op::CallCond(Cond::CondPO), b1, b2),
        0xE5 => mk1(opcode, Op::Push(StackPair::StkHL)),
        0xE6 => mk2(opcode, Op::AluImm(AluOp::AluAna), b1),
        0xE7 => mk1(opcode, Op::Rst(4)),
        0xE8 => mk1(opcode, Op::RetCond(Cond::CondPE)),
        0xE9 => mk1(opcode, Op::Pchl),
        0xEA => mk3(opcode, Op::JmpCond(Cond::CondPE), b1, b2),
        0xEB => mk1(opcode, Op::Xchg),
        0xEC => mk3(opcode, Op::CallCond(Cond::CondPE), b1, b2),
        0xEE => mk2(opcode, Op::AluImm(AluOp::AluXra), b1),
        0xEF => mk1(opcode, Op::Rst(5)),
        0xF0 => mk1(opcode, Op::RetCond(Cond::CondP)),
        0xF1 => mk1(opcode, Op::Pop(StackPair::StkPSW)),
        0xF2 => mk3(opcode, Op::JmpCond(Cond::CondP), b1, b2),
        0xF3 => mk1(opcode, Op::Di),
        0xF4 => mk3(opcode, Op::CallCond(Cond::CondP), b1, b2),
        0xF5 => mk1(opcode, Op::Push(StackPair::StkPSW)),
        0xF6 => mk2(opcode, Op::AluImm(AluOp::AluOra), b1),
        0xF7 => mk1(opcode, Op::Rst(6)),
        0xF8 => mk1(opcode, Op::RetCond(Cond::CondM)),
        0xF9 => mk1(opcode, Op::Sphl),
        0xFA => mk3(opcode, Op::JmpCond(Cond::CondM), b1, b2),
        0xFB => mk1(opcode, Op::Ei),
        0xFC => mk3(opcode, Op::CallCond(Cond::CondM), b1, b2),
        0xFE => mk2(opcode, Op::AluImm(AluOp::AluCmp), b1),
        0xFF => mk1(opcode, Op::Rst(7)),
        // Only 0x40..=0xBF can reach this arm, and decode handles that
        // whole block before dispatching here.
        _ => mk1(opcode, Op::Nop),
    }
}

/// Every byte value decodes to an instruction of length 1, 2 or 3, and
/// the length depends on the opcode byte alone.
pub proof fn lemma_decode_total_len(opcode: u8, b1: u8, b2: u8)
    ensures
        1 <= spec_decode(opcode, b1, b2).len <= 3,
        spec_decode(opcode, b1, b2).len == spec_decode(opcode, 0, 0).len,
        spec_decode(opcode, b1, b2).opcode == opcode,
{
}

} // verus!
