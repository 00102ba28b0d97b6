//! The 8080 register file and status flags.
//!
//! Eight-bit registers A, B, C, D, E, H, L plus the 16-bit PC and SP.
//! Register pairs BC, DE and HL are always composed as `high * 256 + low`
//! over the canonical pairings B:C, D:E and H:L. The five status flags are
//! independent booleans; their derivation from instruction results lives in
//! the flags module.

use vstd::prelude::*;

verus! {

/// The 16-bit value made of a high and a low byte.
pub open spec fn compose16(hi: u8, lo: u8) -> u16 {
    (hi * 256 + lo) as u16
}

/// The high byte of a 16-bit value.
pub open spec fn high8(v: u16) -> u8 {
    (v / 256) as u8
}

/// The low byte of a 16-bit value.
pub open spec fn low8(v: u16) -> u8 {
    (v % 256) as u8
}

/// A register pair selector: the three canonical pairs, or SP, which the
/// 16-bit instruction group (LXI, INX, DCX, DAD) addresses uniformly.
#[derive(Clone, Copy, PartialEq, Eq, Structural, Debug)]
pub enum Pair16 {
    PairBC,
    PairDE,
    PairHL,
    PairSP,
}

/// The five 8080 status flags, one boolean each.
#[derive(Clone, Copy, PartialEq, Eq, Structural, Debug)]
pub struct Flag {
    pub sign: bool,
    pub zero: bool,
    pub parity: bool,
    pub carry: bool,
    pub aux_carry: bool,
}

impl Default for Flag {
    /// All five flags cleared.
    fn default() -> (r: Self)
        ensures
            r == (Flag { sign: false, zero: false, parity: false, carry: false, aux_carry: false }),
    {
        Flag { sign: false, zero: false, parity: false, carry: false, aux_carry: false }
    }
}

/// The register file: the seven 8-bit registers plus PC and SP.
#[derive(Clone, Copy, PartialEq, Eq, Structural, Debug)]
pub struct Register {
    pub accumulator: u8,
    pub b: u8,
    pub c: u8,
    pub d: u8,
    pub e: u8,
    pub h: u8,
    pub l: u8,
    pub pc: u16,
    pub sp: u16,
}

/// The BC pair of a register file, as a 16-bit value.
pub open spec fn pair_bc(r: Register) -> u16 {
    compose16(r.b, r.c)
}

/// The DE pair of a register file, as a 16-bit value.
pub open spec fn pair_de(r: Register) -> u16 {
    compose16(r.d, r.e)
}

/// The HL pair of a register file, as a 16-bit value.
pub open spec fn pair_hl(r: Register) -> u16 {
    compose16(r.h, r.l)
}

/// The value of the selected pair (BC, DE, HL) or of SP.
pub open spec fn spec_get_pair(r: Register, p: Pair16) -> u16 {
    match p {
        Pair16::PairBC => pair_bc(r),
        Pair16::PairDE => pair_de(r),
        Pair16::PairHL => pair_hl(r),
        Pair16::PairSP => r.sp,
    }
}

/// The register file with the selected pair (or SP) set to `v`; both halves
/// of a pair are written consistently and nothing else changes.
pub open spec fn spec_set_pair(r: Register, p: Pair16, v: u16) -> Register {
    match p {
        Pair16::PairBC => Register { b: high8(v), c: low8(v), ..r },
        Pair16::PairDE => Register { d: high8(v), e: low8(v), ..r },
        Pair16::PairHL => Register { h: high8(v), l: low8(v), ..r },
        Pair16::PairSP => Register { sp: v, ..r },
    }
}

impl Register {
    /// The BC pair, composed as B:C.
    #[allow(non_snake_case)]
    pub fn BC(&self) -> (r: u16)
        ensures
            r == pair_bc(*self),
    {
        (self.b as u16) * 256 + (self.c as u16)
    }

    /// The DE pair, composed as D:E.
    #[allow(non_snake_case)]
    pub fn DE(&self) -> (r: u16)
        ensures
            r == pair_de(*self),
    {
        (self.d as u16) * 256 + (self.e as u16)
    }

    /// The HL pair, composed as H:L.
    #[allow(non_snake_case)]
    pub fn HL(&self) -> (r: u16)
        ensures
            r == pair_hl(*self),
    {
        (self.h as u16) * 256 + (self.l as u16)
    }

    /// Reads the selected pair, or SP.
    pub fn get_pair(&self, p: Pair16) -> (r: u16)
        ensures
            r == spec_get_pair(*self, p),
    {
        match p {
            Pair16::PairBC => self.BC(),
            Pair16::PairDE => self.DE(),
            Pair16::PairHL => self.HL(),
            Pair16::PairSP => self.sp,
        }
    }

    /// Writes the selected pair (both halves) or SP; no other register moves.
    pub fn set_pair(&mut self, p: Pair16, v: u16)
        ensures
            *final(self) == spec_set_pair(*old(self), p, v),
    {
        match p {
            Pair16::PairBC => {
                self.b = (v / 256) as u8;
                self.c = (v % 256) as u8;
            }
            Pair16::PairDE => {
                self.d = (v / 256) as u8;
                self.e = (v % 256) as u8;
            }
            Pair16::PairHL => {
                self.h = (v / 256) as u8;
                self.l = (v % 256) as u8;
            }
            Pair16::PairSP => {
                self.sp = v;
            }
        }
    }
}

impl Default for Register {
    /// Every register, PC and SP start at zero.
    fn default() -> (r: Self)
        ensures
            r == (Register {
                accumulator: 0,
                b: 0,
                c: 0,
                d: 0,
                e: 0,
                h: 0,
                l: 0,
                pc: 0,
                sp: 0,
            }),
    {
        Register { accumulator: 0, b: 0, c: 0, d: 0, e: 0, h: 0, l: 0, pc: 0, sp: 0 }
    }
}

/// The CPU state outside memory: register file, flags, and the
/// interrupt-enable bit that DI and EI toggle.
#[derive(Clone, Copy, PartialEq, Eq, Structural, Debug)]
pub struct Cpu {
    pub register: Register,
    pub flags: Flag,
    pub interrupts_enabled: bool,
}

impl Cpu {
    /// A freshly reset CPU: all registers zero, all flags clear,
    /// interrupts disabled.
    pub fn new() -> (r: Self)
        ensures
            r.register == (Register {
                accumulator: 0,
                b: 0,
                c: 0,
                d: 0,
                e: 0,
                h: 0,
                l: 0,
                pc: 0,
                sp: 0,
            }),
            r.flags == (Flag {
                sign: false,
                zero: false,
                parity: false,
                carry: false,
                aux_carry: false,
            }),
            !r.interrupts_enabled,
    {
        Cpu {
            register: Register::default(),
            flags: Flag::default(),
            interrupts_enabled: false,
        }
    }
}

/// Pair round-trip: writing a 16-bit value to BC, DE or HL and reading it
/// back yields the same value, the high register holds the high byte and
/// the low register the low byte; and composing two bytes then splitting
/// them returns the original bytes.
pub proof fn lemma_pair_roundtrip(r: Register, p: Pair16, v: u16, hi: u8, lo: u8)
    ensures
        spec_get_pair(spec_set_pair(r, p, v), p) == v,
        high8(compose16(hi, lo)) == hi,
        low8(compose16(hi, lo)) == lo,
        compose16(high8(v), low8(v)) == v,
{
}

} // verus!
