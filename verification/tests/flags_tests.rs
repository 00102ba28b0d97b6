use emu8080::cpu::Flag;
use emu8080::decode::AluOp;
use emu8080::flags::alu_add;
use emu8080::flags::alu_sub;
use emu8080::flags::daa_adjust;
use emu8080::flags::flags_to_psw;
use emu8080::flags::parity_of;
use emu8080::flags::psw_to_flags;
use emu8080::machine::alu_apply;

fn no_flags() -> Flag {
    Flag { sign: false, zero: false, parity: false, carry: false, aux_carry: false }
}

#[test]
fn parity_counts_even_bits() {
    assert!(parity_of(0x00));
    assert!(!parity_of(0x01));
    assert!(parity_of(0x03));
    assert!(!parity_of(0x07));
    assert!(parity_of(0xFF));
    assert!(parity_of(0x99));
}

#[test]
fn add_ff_plus_01_sets_z_cy_ac_p_clears_s() {
    let (v, f) = alu_apply(AluOp::AluAdd, 0xFF, 0x01, false);
    assert_eq!(v, 0x00);
    assert!(f.zero);
    assert!(f.carry);
    assert!(f.aux_carry);
    assert!(!f.sign);
    assert!(f.parity);
}

#[test]
fn add_and_adc_use_incoming_carry() {
    let (v, cy, ac) = alu_add(0x3C, 0x3C, false);
    assert_eq!(v, 0x78);
    assert!(!cy);
    assert!(ac);
    let (v2, f2) = alu_apply(AluOp::AluAdc, 0x3C, 0x3C, true);
    assert_eq!(v2, 0x79);
    assert!(!f2.carry);
    assert!(f2.aux_carry);
    assert!(!f2.zero);
    assert!(!f2.sign);
}

#[test]
fn sub_borrow_and_aux() {
    let (v, borrow, aux) = alu_sub(0x00, 0x01, false);
    assert_eq!(v, 0xFF);
    assert!(borrow);
    assert!(!aux);
    let (v2, borrow2, aux2) = alu_sub(0x10, 0x01, false);
    assert_eq!(v2, 0x0F);
    assert!(!borrow2);
    assert!(!aux2);
    let (v3, borrow3, aux3) = alu_sub(0x3E, 0x3E, false);
    assert_eq!(v3, 0x00);
    assert!(!borrow3);
    assert!(aux3);
}

#[test]
fn cmp_keeps_accumulator() {
    let (v, f) = alu_apply(AluOp::AluCmp, 0x0A, 0x05, false);
    assert_eq!(v, 0x0A);
    assert!(!f.zero);
    assert!(!f.carry);
    let (v2, f2) = alu_apply(AluOp::AluCmp, 0x02, 0x05, false);
    assert_eq!(v2, 0x02);
    assert!(f2.carry);
}

#[test]
fn logical_ops_clear_carry_and_aux() {
    let (v, f) = alu_apply(AluOp::AluAna, 0xF0, 0x9F, true);
    assert_eq!(v, 0x90);
    assert!(!f.carry);
    assert!(!f.aux_carry);
    assert!(f.sign);
    let (v2, f2) = alu_apply(AluOp::AluXra, 0xFF, 0xFF, true);
    assert_eq!(v2, 0x00);
    assert!(f2.zero);
    assert!(!f2.carry);
    let (v3, f3) = alu_apply(AluOp::AluOra, 0x0F, 0xF0, true);
    assert_eq!(v3, 0xFF);
    assert!(!f3.carry);
    assert!(f3.sign);
    assert!(f3.parity);
}

#[test]
fn daa_adjusts_packed_decimal() {
    // 0x9B adjusts by 0x66: the accumulator wraps to 0x01 with both
    // carries set.
    let (v, f) = daa_adjust(0x9B, &no_flags());
    assert_eq!(v, 0x01);
    assert!(f.carry);
    assert!(f.aux_carry);
    assert!(!f.zero);
    // 0x15 + 0x27 = 0x3C adjusts to 0x42 (15 + 27 = 42 decimal).
    let (sum, cy, ac) = alu_add(0x15, 0x27, false);
    assert_eq!(sum, 0x3C);
    let (adj, f2) = daa_adjust(sum, &Flag { carry: cy, aux_carry: ac, ..no_flags() });
    assert_eq!(adj, 0x42);
    assert!(!f2.carry);
}

#[test]
fn psw_packs_fixed_bit_layout() {
    let f = Flag { sign: true, zero: false, parity: true, carry: true, aux_carry: false };
    // bit7 S, bit6 Z, bit5 0, bit4 AC, bit3 0, bit2 P, bit1 1, bit0 CY.
    assert_eq!(flags_to_psw(&f), 0b1000_0111);
    let all = Flag { sign: true, zero: true, parity: true, carry: true, aux_carry: true };
    assert_eq!(flags_to_psw(&all), 0b1101_0111);
    let none = no_flags();
    assert_eq!(flags_to_psw(&none), 0b0000_0010);
}

#[test]
fn psw_roundtrips_every_flag_combination() {
    for bits in 0u8..32u8 {
        let f = Flag {
            sign: bits & 1 != 0,
            zero: bits & 2 != 0,
            parity: bits & 4 != 0,
            carry: bits & 8 != 0,
            aux_carry: bits & 16 != 0,
        };
        let packed = flags_to_psw(&f);
        assert_eq!(psw_to_flags(packed), f);
        // The fixed bits read back as the hardware wires them.
        assert_eq!(packed & 0b0010_1000, 0);
        assert_eq!(packed & 0b0000_0010, 2);
    }
}
