use emu8080::decode::decode;
use emu8080::decode::AluOp;
use emu8080::decode::Cond;
use emu8080::decode::Op;
use emu8080::decode::Operand;
use emu8080::decode::StackPair;
use emu8080::cpu::Pair16;

/// The documented byte length of each opcode, written out independently
/// of the decoder: 3 for LXI/SHLD/LHLD/STA/LDA and all jumps and calls,
/// 2 for MVI, the immediate ALU forms and the port instructions, 1 for
/// everything else.
fn documented_len(opcode: u8) -> u8 {
    match opcode {
        0x01 | 0x11 | 0x21 | 0x31 => 3,
        0x22 | 0x2A | 0x32 | 0x3A => 3,
        0xC2 | 0xC3 | 0xC4 | 0xCA | 0xCB | 0xCC | 0xCD => 3,
        0xD2 | 0xD4 | 0xDA | 0xDC | 0xDD => 3,
        0xE2 | 0xE4 | 0xEA | 0xEC | 0xED => 3,
        0xF2 | 0xF4 | 0xFA | 0xFC | 0xFD => 3,
        0x06 | 0x0E | 0x16 | 0x1E | 0x26 | 0x2E | 0x36 | 0x3E => 2,
        0xC6 | 0xCE | 0xD6 | 0xDE | 0xE6 | 0xEE | 0xF6 | 0xFE => 2,
        0xD3 | 0xDB => 2,
        _ => 1,
    }
}

#[test]
fn decode_is_total_with_documented_lengths() {
    for opcode in 0u16..=255u16 {
        let i = decode(opcode as u8, 0x34, 0x12);
        assert_eq!(i.opcode, opcode as u8);
        assert_eq!(i.len, documented_len(opcode as u8), "opcode {:#04X}", opcode);
        match i.len {
            1 => assert_eq!(i.imm, 0),
            2 => assert_eq!(i.imm, 0x34),
            3 => assert_eq!(i.imm, 0x1234),
            _ => panic!("impossible length"),
        }
    }
}

#[test]
fn decode_nop_aliases() {
    for opcode in [0x00u8, 0x08, 0x10, 0x18, 0x20, 0x28, 0x30, 0x38] {
        let i = decode(opcode, 0, 0);
        assert_eq!(i.op, Op::Nop, "opcode {:#04X}", opcode);
        assert_eq!(i.len, 1);
    }
}

#[test]
fn decode_jmp_ret_call_aliases() {
    assert_eq!(decode(0xC3, 0x00, 0x20).op, Op::Jmp);
    assert_eq!(decode(0xCB, 0x00, 0x20).op, Op::Jmp);
    assert_eq!(decode(0xC9, 0, 0).op, Op::Ret);
    assert_eq!(decode(0xD9, 0, 0).op, Op::Ret);
    for opcode in [0xCDu8, 0xDD, 0xED, 0xFD] {
        let i = decode(opcode, 0x05, 0x00);
        assert_eq!(i.op, Op::Call, "opcode {:#04X}", opcode);
        assert_eq!(i.imm, 0x0005);
    }
}

#[test]
fn decode_mov_block() {
    assert_eq!(decode(0x41, 0, 0).op, Op::Mov(Operand::RegB, Operand::RegC));
    assert_eq!(decode(0x40, 0, 0).op, Op::Mov(Operand::RegB, Operand::RegB));
    assert_eq!(decode(0x7E, 0, 0).op, Op::Mov(Operand::RegA, Operand::Mem));
    assert_eq!(decode(0x77, 0, 0).op, Op::Mov(Operand::Mem, Operand::RegA));
    assert_eq!(decode(0x6D, 0, 0).op, Op::Mov(Operand::RegL, Operand::RegL));
    assert_eq!(decode(0x76, 0, 0).op, Op::Hlt);
}

#[test]
fn decode_alu_block() {
    assert_eq!(decode(0x80, 0, 0).op, Op::Alu(AluOp::AluAdd, Operand::RegB));
    assert_eq!(decode(0x86, 0, 0).op, Op::Alu(AluOp::AluAdd, Operand::Mem));
    assert_eq!(decode(0x9A, 0, 0).op, Op::Alu(AluOp::AluSbb, Operand::RegD));
    assert_eq!(decode(0xA7, 0, 0).op, Op::Alu(AluOp::AluAna, Operand::RegA));
    assert_eq!(decode(0xBF, 0, 0).op, Op::Alu(AluOp::AluCmp, Operand::RegA));
    assert_eq!(decode(0xC6, 0x44, 0).op, Op::AluImm(AluOp::AluAdd));
    assert_eq!(decode(0xFE, 0x44, 0).op, Op::AluImm(AluOp::AluCmp));
}

#[test]
fn decode_register_pair_group() {
    assert_eq!(decode(0x01, 0xCD, 0xAB).op, Op::Lxi(Pair16::PairBC));
    assert_eq!(decode(0x31, 0xCD, 0xAB).op, Op::Lxi(Pair16::PairSP));
    assert_eq!(decode(0x09, 0, 0).op, Op::Dad(Pair16::PairBC));
    assert_eq!(decode(0x39, 0, 0).op, Op::Dad(Pair16::PairSP));
    assert_eq!(decode(0x13, 0, 0).op, Op::Inx(Pair16::PairDE));
    assert_eq!(decode(0x2B, 0, 0).op, Op::Dcx(Pair16::PairHL));
    assert_eq!(decode(0x0A, 0, 0).op, Op::Ldax(Pair16::PairBC));
    assert_eq!(decode(0x12, 0, 0).op, Op::Stax(Pair16::PairDE));
}

#[test]
fn decode_stack_and_conditions() {
    assert_eq!(decode(0xC5, 0, 0).op, Op::Push(StackPair::StkBC));
    assert_eq!(decode(0xF5, 0, 0).op, Op::Push(StackPair::StkPSW));
    assert_eq!(decode(0xE1, 0, 0).op, Op::Pop(StackPair::StkHL));
    assert_eq!(decode(0xF1, 0, 0).op, Op::Pop(StackPair::StkPSW));
    assert_eq!(decode(0xC2, 0, 0).op, Op::JmpCond(Cond::CondNZ));
    assert_eq!(decode(0xCA, 0, 0).op, Op::JmpCond(Cond::CondZ));
    assert_eq!(decode(0xFA, 0, 0).op, Op::JmpCond(Cond::CondM));
    assert_eq!(decode(0xDC, 0, 0).op, Op::CallCond(Cond::CondC));
    assert_eq!(decode(0xE0, 0, 0).op, Op::RetCond(Cond::CondPO));
    assert_eq!(decode(0xE8, 0, 0).op, Op::RetCond(Cond::CondPE));
}

#[test]
fn decode_rst_and_specials() {
    for n in 0u8..8u8 {
        let opcode = 0xC7 + 8 * n;
        assert_eq!(decode(opcode, 0, 0).op, Op::Rst(n), "opcode {:#04X}", opcode);
    }
    assert_eq!(decode(0xE3, 0, 0).op, Op::Xthl);
    assert_eq!(decode(0xE9, 0, 0).op, Op::Pchl);
    assert_eq!(decode(0xF9, 0, 0).op, Op::Sphl);
    assert_eq!(decode(0xEB, 0, 0).op, Op::Xchg);
    assert_eq!(decode(0xDB, 0x10, 0).op, Op::PortIn);
    assert_eq!(decode(0xD3, 0x10, 0).op, Op::PortOut);
    assert_eq!(decode(0xF3, 0, 0).op, Op::Di);
    assert_eq!(decode(0xFB, 0, 0).op, Op::Ei);
    assert_eq!(decode(0x27, 0, 0).op, Op::Daa);
    assert_eq!(decode(0x2F, 0, 0).op, Op::Cma);
    assert_eq!(decode(0x37, 0, 0).op, Op::Stc);
    assert_eq!(decode(0x3F, 0, 0).op, Op::Cmc);
}
