//! Pure derivation of the status flags.
//!
//! Every function here takes an operation's operands and produces the raw
//! result together with the new flag set; nothing in this module touches
//! memory or the register file. Carry is the unsigned overflow or borrow
//! past bit 7; auxiliary carry is the carry or borrow out of the low nibble
//! (bit 3 into bit 4), derived for subtraction from the internal
//! complement addition exactly as the hardware does. Logical operations
//! clear both carry and auxiliary carry. Rotates derive carry from the bit
//! shifted out and touch no other flag.

use vstd::prelude::*;
use crate::cpu::Flag;

verus! {

/// 1 for a set bit, 0 for a clear one.
pub open spec fn bool_bit(b: bool) -> u8 {
    if b {
        1
    } else {
        0
    }
}

/// Even population count of the byte: true when an even number of the
/// eight bits are set.
pub open spec fn spec_parity(v: u8) -> bool {
    (v % 2 + v / 2 % 2 + v / 4 % 2 + v / 8 % 2 + v / 16 % 2 + v / 32 % 2 + v / 64 % 2 + v / 128)
        % 2 == 0
}

/// Bit 7 of the result.
pub open spec fn spec_sign(v: u8) -> bool {
    v >= 128
}

/// Sign, zero and parity from the result byte, with carry and auxiliary
/// carry supplied by the operation.
pub open spec fn flags_szp(v: u8, carry: bool, aux: bool) -> Flag {
    Flag {
        sign: spec_sign(v),
        zero: v == 0,
        parity: spec_parity(v),
        carry: carry,
        aux_carry: aux,
    }
}

/// 8-bit addition result, modulo 256.
pub open spec fn add_result(a: u8, x: u8, cin: bool) -> u8 {
    ((a + x + bool_bit(cin)) % 256) as u8
}

/// Unsigned overflow past bit 7 of an 8-bit addition.
pub open spec fn add_carry(a: u8, x: u8, cin: bool) -> bool {
    a + x + bool_bit(cin) >= 256
}

/// Carry out of the low nibble of an 8-bit addition.
pub open spec fn add_aux(a: u8, x: u8, cin: bool) -> bool {
    a % 16 + x % 16 + bool_bit(cin) >= 16
}

/// 8-bit subtraction result, modulo 256.
pub open spec fn sub_result(a: u8, x: u8, cin: bool) -> u8 {
    ((a + 256 - x - bool_bit(cin)) % 256) as u8
}

/// Borrow past bit 7 of an 8-bit subtraction.
pub open spec fn sub_borrow(a: u8, x: u8, cin: bool) -> bool {
    (a as int) < x + bool_bit(cin)
}

/// Auxiliary carry of an 8-bit subtraction: the hardware performs the
/// subtraction as an addition of the complement, so the flag is set
/// exactly when the low nibble does not borrow.
pub open spec fn sub_aux(a: u8, x: u8, cin: bool) -> bool {
    a % 16 >= x % 16 + bool_bit(cin)
}

/// Computes the 8-bit sum `a + x + cin` with its carry and auxiliary carry.
pub fn alu_add(a: u8, x: u8, cin: bool) -> (r: (u8, bool, bool))
    ensures
        r.0 == add_result(a, x, cin),
        r.1 == add_carry(a, x, cin),
        r.2 == add_aux(a, x, cin),
{
    let c: u16 = if cin {
        1
    } else {
        0
    };
    let sum: u16 = a as u16 + x as u16 + c;
    (((sum % 256) as u8), sum >= 256, (a % 16) as u16 + (x % 16) as u16 + c >= 16)
}

/// Computes the 8-bit difference `a - x - cin` with its borrow and
/// auxiliary carry.
pub fn alu_sub(a: u8, x: u8, cin: bool) -> (r: (u8, bool, bool))
    ensures
        r.0 == sub_result(a, x, cin),
        r.1 == sub_borrow(a, x, cin),
        r.2 == sub_aux(a, x, cin),
{
    let c: u16 = if cin {
        1
    } else {
        0
    };
    let diff: u16 = a as u16 + 256 - x as u16 - c;
    (((diff % 256) as u8), (a as u16) < x as u16 + c, (a % 16) as u16 >= (x % 16) as u16 + c)
}

/// Computes the parity flag of a byte: even population count.
pub fn parity_of(v: u8) -> (r: bool)
    ensures
        r == spec_parity(v),
{
    let count: u8 = v % 2 + v / 2 % 2 + v / 4 % 2 + v / 8 % 2 + v / 16 % 2 + v / 32 % 2 + v / 64
        % 2 + v / 128;
    count % 2 == 0
}

/// Computes sign, zero and parity from the result byte; carry and
/// auxiliary carry are passed through from the operation.
pub fn derive_szp(v: u8, carry: bool, aux: bool) -> (r: Flag)
    ensures
        r == flags_szp(v, carry, aux),
{
    Flag { sign: v >= 128, zero: v == 0, parity: parity_of(v), carry: carry, aux_carry: aux }
}

/// RLC: the accumulator rotated left by one; the bit rotated out of bit 7
/// becomes both bit 0 and the carry.
pub open spec fn spec_rlc(a: u8) -> (u8, bool) {
    (((a % 128) * 2 + a / 128) as u8, a >= 128)
}

/// RRC: the accumulator rotated right by one; the bit rotated out of bit 0
/// becomes both bit 7 and the carry.
pub open spec fn spec_rrc(a: u8) -> (u8, bool) {
    ((a / 2 + (a % 2) * 128) as u8, a % 2 == 1)
}

/// RAL: rotate left through the carry; the old carry enters at bit 0 and
/// bit 7 leaves into the carry.
pub open spec fn spec_ral(a: u8, cy: bool) -> (u8, bool) {
    (((a % 128) * 2 + bool_bit(cy)) as u8, a >= 128)
}

/// RAR: rotate right through the carry; the old carry enters at bit 7 and
/// bit 0 leaves into the carry.
pub open spec fn spec_rar(a: u8, cy: bool) -> (u8, bool) {
    ((a / 2 + bool_bit(cy) * 128) as u8, a % 2 == 1)
}

/// The correction byte DAA adds to the accumulator: 0x06 when the low
/// nibble overflowed or exceeds 9, plus 0x60 when the high nibble (after
/// any low-nibble carry) calls for it.
pub open spec fn daa_correction(a: u8, f: Flag) -> u8 {
    (if f.aux_carry || a % 16 > 9 {
        6int
    } else {
        0int
    } + if f.carry || a / 16 > 9 || (a / 16 == 9 && a % 16 > 9) {
        0x60int
    } else {
        0int
    }) as u8
}

/// Whether DAA leaves the carry flag set: an existing carry, or a decimal
/// overflow of the high nibble.
pub open spec fn daa_carry(a: u8, f: Flag) -> bool {
    f.carry || a / 16 > 9 || (a / 16 == 9 && a % 16 > 9)
}

/// DAA: the accumulator adjusted to packed decimal, with the full flag
/// set. Sign, zero, parity and auxiliary carry derive from the corrected
/// result as for an ordinary addition; carry is set by decimal overflow
/// and is never cleared by DAA.
pub open spec fn spec_daa(a: u8, f: Flag) -> (u8, Flag) {
    (
        add_result(a, daa_correction(a, f), false),
        flags_szp(
            add_result(a, daa_correction(a, f), false),
            daa_carry(a, f),
            add_aux(a, daa_correction(a, f), false),
        ),
    )
}

/// Computes the DAA adjustment of the accumulator and the resulting flags.
pub fn daa_adjust(a: u8, f: &Flag) -> (r: (u8, Flag))
    ensures
        r == spec_daa(a, *f),
{
    let lo_adjust: bool = f.aux_carry || a % 16 > 9;
    let hi_adjust: bool = f.carry || a / 16 > 9 || (a / 16 == 9 && a % 16 > 9);
    let correction: u8 = if lo_adjust {
        6
    } else {
        0
    } + if hi_adjust {
        0x60
    } else {
        0
    };
    let (result, _, aux) = alu_add(a, correction, false);
    (result, derive_szp(result, hi_adjust, aux))
}

/// Packs the flags into the PSW low byte: bit 7 sign, bit 6 zero, bit 5
/// always 0, bit 4 auxiliary carry, bit 3 always 0, bit 2 parity, bit 1
/// always 1, bit 0 carry.
pub open spec fn pack_flags(f: Flag) -> u8 {
    (bool_bit(f.sign) * 128 + bool_bit(f.zero) * 64 + bool_bit(f.aux_carry) * 16 + bool_bit(
        f.parity,
    ) * 4 + 2 + bool_bit(f.carry)) as u8
}

/// Unpacks a PSW low byte into the five flags, ignoring the fixed bits.
pub open spec fn unpack_flags(v: u8) -> Flag {
    Flag {
        sign: v / 128 % 2 == 1,
        zero: v / 64 % 2 == 1,
        aux_carry: v / 16 % 2 == 1,
        parity: v / 4 % 2 == 1,
        carry: v % 2 == 1,
    }
}

/// Packs the flags into the PSW low byte.
pub fn flags_to_psw(f: &Flag) -> (r: u8)
    ensures
        r == pack_flags(*f),
{
    let s: u8 = if f.sign {
        128
    } else {
        0
    };
    let z: u8 = if f.zero {
        64
    } else {
        0
    };
    let ac: u8 = if f.aux_carry {
        16
    } else {
        0
    };
    let p: u8 = if f.parity {
        4
    } else {
        0
    };
    let cy: u8 = if f.carry {
        1
    } else {
        0
    };
    s + z + ac + p + 2 + cy
}

/// Unpacks a PSW low byte into the five flags.
pub fn psw_to_flags(v: u8) -> (r: Flag)
    ensures
        r == unpack_flags(v),
{
    Flag {
        sign: v / 128 % 2 == 1,
        zero: v / 64 % 2 == 1,
        aux_carry: v / 16 % 2 == 1,
        parity: v / 4 % 2 == 1,
        carry: v % 2 == 1,
    }
}

/// PSW flag round-trip: packing the five flags and unpacking the byte
/// returns exactly the original flags, for every flag combination.
pub proof fn lemma_psw_roundtrip(f: Flag)
    ensures
        unpack_flags(pack_flags(f)) == f,
{
}

} // verus!
