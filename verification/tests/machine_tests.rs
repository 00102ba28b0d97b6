use emu8080::EmuError;
use emu8080::cpu::Pair16;
use emu8080::cpu::Register;
use emu8080::exec::StepOutcome;
use emu8080::machine::Machine;
use emu8080::machine::RunState;

/// A machine with `program` loaded at address 0, SP parked high.
fn machine_with(program: &[u8]) -> Machine {
    let mut m = Machine::new();
    m.load(&program.to_vec(), 0).unwrap();
    m.cpu.register.sp = 0xF000;
    m
}

#[test]
fn register_pairs_roundtrip() {
    let mut r = Register::default();
    for &(p, v) in &[
        (Pair16::PairBC, 0xABCDu16),
        (Pair16::PairDE, 0x1234),
        (Pair16::PairHL, 0xFF01),
        (Pair16::PairSP, 0x8000),
    ] {
        r.set_pair(p, v);
        assert_eq!(r.get_pair(p), v);
    }
    r.set_pair(Pair16::PairBC, 0xBEEF);
    assert_eq!(r.b, 0xBE);
    assert_eq!(r.c, 0xEF);
    assert_eq!(r.BC(), 0xBEEF);
    r.set_pair(Pair16::PairDE, 0x0102);
    assert_eq!(r.d, 0x01);
    assert_eq!(r.e, 0x02);
    assert_eq!(r.DE(), 0x0102);
    r.set_pair(Pair16::PairHL, 0xA05A);
    assert_eq!(r.h, 0xA0);
    assert_eq!(r.l, 0x5A);
    assert_eq!(r.HL(), 0xA05A);
}

#[test]
fn load_refuses_image_past_the_end() {
    let mut m = Machine::new();
    let err = m.load(&vec![1, 2, 3], 0xFFFE);
    assert_eq!(err, Err(EmuError::ImageTooLarge));
    // Nothing was written.
    assert_eq!(m.mem.read_byte(0xFFFE), 0);
    // The same image fits one byte lower.
    assert!(m.load(&vec![1, 2, 3], 0xFFFD).is_ok());
    assert_eq!(m.mem.read_byte(0xFFFD), 1);
    assert_eq!(m.mem.read_byte(0xFFFF), 3);
}

#[test]
fn memory_words_are_little_endian_and_wrap() {
    let mut m = Machine::new();
    m.mem.write_word(0x2000, 0xABCD);
    assert_eq!(m.mem.read_byte(0x2000), 0xCD);
    assert_eq!(m.mem.read_byte(0x2001), 0xAB);
    assert_eq!(m.mem.read_word(0x2000), 0xABCD);
    m.mem.write_word(0xFFFF, 0x1234);
    assert_eq!(m.mem.read_byte(0xFFFF), 0x34);
    assert_eq!(m.mem.read_byte(0x0000), 0x12);
    assert_eq!(m.mem.read_word(0xFFFF), 0x1234);
}

#[test]
fn call_then_ret_restores_pc_and_sp() {
    // 0000: CALL 0x0005 / 0003: HLT / 0005: RET
    let mut m = machine_with(&[0xCD, 0x05, 0x00, 0x76, 0x00, 0xC9]);
    assert_eq!(m.step(), StepOutcome::Ran);
    assert_eq!(m.cpu.register.pc, 0x0005);
    assert_eq!(m.cpu.register.sp, 0xEFFE);
    // The return address on the stack is the instruction after the CALL.
    assert_eq!(m.mem.read_word(0xEFFE), 0x0003);
    assert_eq!(m.step(), StepOutcome::Ran);
    assert_eq!(m.cpu.register.pc, 0x0003);
    assert_eq!(m.cpu.register.sp, 0xF000);
    assert_eq!(m.step(), StepOutcome::Halted);
    assert_eq!(m.state, RunState::Halted);
}

#[test]
fn push_pop_roundtrips_pairs_and_sp() {
    // PUSH B / POP D / HLT
    let mut m = machine_with(&[0xC5, 0xD1, 0x76]);
    m.cpu.register.set_pair(Pair16::PairBC, 0x1234);
    m.step();
    assert_eq!(m.cpu.register.sp, 0xEFFE);
    m.step();
    assert_eq!(m.cpu.register.sp, 0xF000);
    assert_eq!(m.cpu.register.DE(), 0x1234);
}

#[test]
fn push_pop_psw_roundtrips_flags_and_accumulator() {
    // ADD B (sets flags) / PUSH PSW / XRA A (clobbers flags) / POP PSW / HLT
    let mut m = machine_with(&[0x80, 0xF5, 0xAF, 0xF1, 0x76]);
    m.cpu.register.accumulator = 0xFF;
    m.cpu.register.b = 0x01;
    m.step();
    let flags_after_add = m.cpu.flags;
    assert!(flags_after_add.zero && flags_after_add.carry && flags_after_add.aux_carry);
    m.step();
    // PSW on the stack: accumulator high, packed flags low with the fixed
    // bit layout (bit7 S .. bit1 always 1 .. bit0 CY).
    assert_eq!(m.mem.read_byte(0xEFFF), 0x00);
    assert_eq!(m.mem.read_byte(0xEFFE), 0b0101_0111);
    m.step();
    // XRA A cleared the carry, so the flags differ until POP restores them.
    assert!(!m.cpu.flags.carry);
    m.step();
    assert_eq!(m.cpu.flags, flags_after_add);
    assert_eq!(m.cpu.register.accumulator, 0x00);
    assert_eq!(m.cpu.register.sp, 0xF000);
}

/// Runs one conditional jump opcode with the given flags and returns the
/// PC after the step.
fn cond_jump_pc(opcode: u8, set: impl Fn(&mut Machine)) -> u16 {
    let mut m = machine_with(&[opcode, 0x34, 0x12]);
    set(&mut m);
    m.step();
    m.cpu.register.pc
}

#[test]
fn conditional_branch_predicate_table() {
    const TAKEN: u16 = 0x1234;
    const NOT_TAKEN: u16 = 3;
    // JNZ / JZ on the zero flag.
    assert_eq!(cond_jump_pc(0xC2, |m| m.cpu.flags.zero = false), TAKEN);
    assert_eq!(cond_jump_pc(0xC2, |m| m.cpu.flags.zero = true), NOT_TAKEN);
    assert_eq!(cond_jump_pc(0xCA, |m| m.cpu.flags.zero = true), TAKEN);
    assert_eq!(cond_jump_pc(0xCA, |m| m.cpu.flags.zero = false), NOT_TAKEN);
    // JNC / JC on the carry flag.
    assert_eq!(cond_jump_pc(0xD2, |m| m.cpu.flags.carry = false), TAKEN);
    assert_eq!(cond_jump_pc(0xD2, |m| m.cpu.flags.carry = true), NOT_TAKEN);
    assert_eq!(cond_jump_pc(0xDA, |m| m.cpu.flags.carry = true), TAKEN);
    assert_eq!(cond_jump_pc(0xDA, |m| m.cpu.flags.carry = false), NOT_TAKEN);
    // JPO / JPE on the parity flag.
    assert_eq!(cond_jump_pc(0xE2, |m| m.cpu.flags.parity = false), TAKEN);
    assert_eq!(cond_jump_pc(0xE2, |m| m.cpu.flags.parity = true), NOT_TAKEN);
    assert_eq!(cond_jump_pc(0xEA, |m| m.cpu.flags.parity = true), TAKEN);
    assert_eq!(cond_jump_pc(0xEA, |m| m.cpu.flags.parity = false), NOT_TAKEN);
    // JP / JM on the sign flag.
    assert_eq!(cond_jump_pc(0xF2, |m| m.cpu.flags.sign = false), TAKEN);
    assert_eq!(cond_jump_pc(0xF2, |m| m.cpu.flags.sign = true), NOT_TAKEN);
    assert_eq!(cond_jump_pc(0xFA, |m| m.cpu.flags.sign = true), TAKEN);
    assert_eq!(cond_jump_pc(0xFA, |m| m.cpu.flags.sign = false), NOT_TAKEN);
}

#[test]
fn inr_dcr_preserve_carry() {
    for carry in [false, true] {
        // INR B / DCR B / INR A / DCR C / HLT
        let mut m = machine_with(&[0x04, 0x05, 0x3C, 0x0D, 0x76]);
        m.cpu.flags.carry = carry;
        m.cpu.register.b = 0xFF;
        m.cpu.register.c = 0x00;
        for _ in 0..4 {
            m.step();
            assert_eq!(m.cpu.flags.carry, carry);
        }
        // INR of 0xFF wrapped to zero without touching carry.
        assert_eq!(m.cpu.register.b, 0xFF);
        assert_eq!(m.cpu.register.c, 0xFF);
    }
}

#[test]
fn rotates_move_the_carry_exactly() {
    // RLC / RRC / RAL / RAR / HLT
    let mut m = machine_with(&[0x07, 0x0F, 0x17, 0x1F, 0x76]);
    m.cpu.register.accumulator = 0x81;
    m.step();
    assert_eq!(m.cpu.register.accumulator, 0x03);
    assert!(m.cpu.flags.carry);
    m.step();
    assert_eq!(m.cpu.register.accumulator, 0x81);
    assert!(m.cpu.flags.carry);
    m.step();
    // RAL shifts the old carry (1) into bit 0 and bit 7 into the carry.
    assert_eq!(m.cpu.register.accumulator, 0x03);
    assert!(m.cpu.flags.carry);
    m.step();
    // RAR shifts the old carry (1) into bit 7 and bit 0 into the carry.
    assert_eq!(m.cpu.register.accumulator, 0x81);
    assert!(m.cpu.flags.carry);
}

#[test]
fn halt_is_terminal_and_further_steps_signal() {
    let mut m = machine_with(&[0x76]);
    assert_eq!(m.step(), StepOutcome::Halted);
    assert_eq!(m.state, RunState::Halted);
    let pc = m.cpu.register.pc;
    // A step after HLT never silently continues executing.
    assert_eq!(m.step(), StepOutcome::Terminal);
    assert_eq!(m.cpu.register.pc, pc);
    assert_eq!(m.state, RunState::Halted);
    assert_eq!(m.run(100), RunState::Halted);
    assert_eq!(m.cpu.register.pc, pc);
}

#[test]
fn step_reports_port_events_and_accepts_input() {
    // IN 0x10 / OUT 0x20 / HLT
    let mut m = machine_with(&[0xDB, 0x10, 0xD3, 0x20, 0x76]);
    m.cpu.register.accumulator = 0x55;
    assert_eq!(m.step(), StepOutcome::PortInput(0x10));
    m.provide_port_input(0x42);
    assert_eq!(m.cpu.register.accumulator, 0x42);
    assert_eq!(m.step(), StepOutcome::PortOutput(0x20, 0x42));
    assert_eq!(m.step(), StepOutcome::Halted);
}

#[test]
fn run_faults_port_access_with_no_collaborator() {
    let mut m = machine_with(&[0x00, 0xDB, 0x10, 0x76]);
    let state = m.run(100);
    match state {
        RunState::Faulted(fault) => {
            assert_eq!(fault.kind, EmuError::PortUnbound);
            assert_eq!(fault.pc, 0x0001);
            assert_eq!(fault.opcode, 0xDB);
        }
        other => panic!("expected a fault, got {:?}", other),
    }
    // The fault is terminal.
    assert_eq!(m.step(), StepOutcome::Terminal);
    assert_eq!(m.run(5), state);
}

#[test]
fn run_is_resumable_in_bounded_slices() {
    // MVI A,1 / INR A x3 / HLT
    let mut m = machine_with(&[0x3E, 0x01, 0x3C, 0x3C, 0x3C, 0x76]);
    assert_eq!(m.run(2), RunState::Running);
    assert_eq!(m.cpu.register.accumulator, 0x02);
    assert_eq!(m.run(0), RunState::Running);
    assert_eq!(m.cpu.register.accumulator, 0x02);
    assert_eq!(m.run(100), RunState::Halted);
    assert_eq!(m.cpu.register.accumulator, 0x04);
}

#[test]
fn xchg_xthl_sphl_pchl() {
    let mut m = machine_with(&[0xEB, 0x76]);
    m.cpu.register.set_pair(Pair16::PairDE, 0x1122);
    m.cpu.register.set_pair(Pair16::PairHL, 0x3344);
    m.step();
    assert_eq!(m.cpu.register.DE(), 0x3344);
    assert_eq!(m.cpu.register.HL(), 0x1122);

    let mut m2 = machine_with(&[0xE3, 0x76]);
    m2.cpu.register.set_pair(Pair16::PairHL, 0xAA55);
    m2.mem.write_word(0xF000, 0x1234);
    m2.step();
    assert_eq!(m2.cpu.register.HL(), 0x1234);
    assert_eq!(m2.mem.read_word(0xF000), 0xAA55);

    let mut m3 = machine_with(&[0xF9, 0xE9]);
    m3.cpu.register.set_pair(Pair16::PairHL, 0x4000);
    m3.step();
    assert_eq!(m3.cpu.register.sp, 0x4000);
    m3.step();
    assert_eq!(m3.cpu.register.pc, 0x4000);
}

#[test]
fn rst_pushes_and_jumps_to_vector() {
    let mut m = machine_with(&[0x00, 0xEF]);
    m.step();
    m.step();
    assert_eq!(m.cpu.register.pc, 0x0028);
    assert_eq!(m.cpu.register.sp, 0xEFFE);
    assert_eq!(m.mem.read_word(0xEFFE), 0x0002);
}

#[test]
fn dad_sets_only_carry() {
    // DAD B overflowing: HL=0xF000 + BC=0x2000 = 0x1000 with carry.
    let mut m = machine_with(&[0x09, 0x76]);
    m.cpu.register.set_pair(Pair16::PairHL, 0xF000);
    m.cpu.register.set_pair(Pair16::PairBC, 0x2000);
    m.cpu.flags.zero = true;
    m.step();
    assert_eq!(m.cpu.register.HL(), 0x1000);
    assert!(m.cpu.flags.carry);
    assert!(m.cpu.flags.zero);
    assert!(!m.cpu.flags.sign);
}

#[test]
fn memory_operand_goes_through_hl() {
    // MVI M,0x77 / MOV A,M / INR M / HLT
    let mut m = machine_with(&[0x36, 0x77, 0x7E, 0x34, 0x76]);
    m.cpu.register.set_pair(Pair16::PairHL, 0x3000);
    m.step();
    assert_eq!(m.mem.read_byte(0x3000), 0x77);
    m.step();
    assert_eq!(m.cpu.register.accumulator, 0x77);
    m.step();
    assert_eq!(m.mem.read_byte(0x3000), 0x78);
}

#[test]
fn direct_loads_and_stores() {
    let mut m = machine_with(&[
        0x21, 0x66, 0x55, // LXI H, 0x5566
        0x22, 0x00, 0x40, // SHLD 0x4000
        0x3A, 0x00, 0x40, // LDA 0x4000
        0x32, 0x02, 0x40, // STA 0x4002
        0x2A, 0x01, 0x40, // LHLD 0x4001
        0x76,
    ]);
    assert_eq!(m.run(100), RunState::Halted);
    assert_eq!(m.mem.read_word(0x4000), 0x5566);
    assert_eq!(m.mem.read_byte(0x4002), 0x66);
    // LHLD 0x4001 reads 0x55 (low) and 0x66 (high, from the STA).
    assert_eq!(m.cpu.register.HL(), 0x6655);
}

#[test]
fn load_accepts_the_full_address_space() {
    let mut m = Machine::new();
    let image = vec![0xAA; 65536];
    assert!(m.load(&image, 0).is_ok());
    assert_eq!(m.mem.read_byte(0x0000), 0xAA);
    assert_eq!(m.mem.read_byte(0xFFFF), 0xAA);
    // One byte further and the same image no longer fits.
    let mut m2 = Machine::new();
    assert_eq!(m2.load(&image, 1), Err(EmuError::ImageTooLarge));
}

#[test]
fn pc_wraps_around_the_address_space() {
    let mut m = Machine::new();
    // NOP at 0xFFFF: the PC wraps to 0x0000 where a HLT waits.
    m.load(&vec![0x76], 0).unwrap();
    m.load(&vec![0x00], 0xFFFF).unwrap();
    m.cpu.register.pc = 0xFFFF;
    assert_eq!(m.step(), StepOutcome::Ran);
    assert_eq!(m.cpu.register.pc, 0x0000);
    assert_eq!(m.step(), StepOutcome::Halted);
}

#[test]
fn stack_wraps_around_the_address_space() {
    // PUSH B with SP at 0x0001 wraps the stack pointer to 0xFFFF and
    // splits the word across the top and bottom of memory.
    let mut m = machine_with(&[0xC5, 0xC1, 0x76]);
    m.cpu.register.sp = 0x0001;
    m.cpu.register.set_pair(Pair16::PairBC, 0x1234);
    m.step();
    assert_eq!(m.cpu.register.sp, 0xFFFF);
    assert_eq!(m.mem.read_byte(0xFFFF), 0x34);
    assert_eq!(m.mem.read_byte(0x0000), 0x12);
    // POP restores the value and the stack pointer.
    m.cpu.register.set_pair(Pair16::PairBC, 0);
    m.step();
    assert_eq!(m.cpu.register.BC(), 0x1234);
    assert_eq!(m.cpu.register.sp, 0x0001);
}

#[test]
fn inx_dcx_wrap_without_flags() {
    let mut m = machine_with(&[0x03, 0x0B, 0x33, 0x3B, 0x76]);
    m.cpu.register.set_pair(Pair16::PairBC, 0xFFFF);
    m.cpu.register.sp = 0x0000;
    m.step();
    assert_eq!(m.cpu.register.BC(), 0x0000);
    assert!(!m.cpu.flags.zero && !m.cpu.flags.carry);
    m.step();
    assert_eq!(m.cpu.register.BC(), 0xFFFF);
    m.step();
    assert_eq!(m.cpu.register.sp, 0x0001);
    m.step();
    assert_eq!(m.cpu.register.sp, 0x0000);
}

#[test]
fn interrupt_enable_flag_only() {
    let mut m = machine_with(&[0xFB, 0xF3, 0x76]);
    assert!(!m.cpu.interrupts_enabled);
    m.step();
    assert!(m.cpu.interrupts_enabled);
    m.step();
    assert!(!m.cpu.interrupts_enabled);
}
