//! The memory bus: a flat 65536-byte address space.
//!
//! Byte and little-endian word access; every address is taken modulo 65536,
//! so wrapped access never fails. Bulk image loading refuses an image that
//! would run past the end of the space.

use vstd::prelude::*;
use crate::EmuError;
use crate::cpu::compose16;
use crate::cpu::high8;
use crate::cpu::low8;

verus! {

/// The size of the address space.
pub const MEM_SIZE: usize = 65536;

/// A 16-bit address formed by reducing a mathematical integer modulo 65536.
pub open spec fn wrap16(n: int) -> u16 {
    (n % 65536) as u16
}

/// The byte of `m` at `a`.
pub open spec fn mem_read(m: Seq<u8>, a: u16) -> u8 {
    m[a as int]
}

/// `m` with the byte at `a` replaced by `v`.
pub open spec fn mem_write(m: Seq<u8>, a: u16, v: u8) -> Seq<u8> {
    m.update(a as int, v)
}

/// The little-endian word of `m` at `a`: low byte at `a`, high byte at
/// `a + 1` modulo 65536.
pub open spec fn mem_read16(m: Seq<u8>, a: u16) -> u16 {
    compose16(mem_read(m, wrap16(a + 1)), mem_read(m, a))
}

/// `m` with the little-endian word at `a` replaced by `v`; the high byte
/// lands at `a + 1` modulo 65536.
pub open spec fn mem_write16(m: Seq<u8>, a: u16, v: u16) -> Seq<u8> {
    mem_write(mem_write(m, a, low8(v)), wrap16(a + 1), high8(v))
}

/// The flat 64KB memory space, exclusively owned by one emulator instance.
pub struct Memory {
    bytes: Vec<u8>,
}

impl View for Memory {
    type V = Seq<u8>;

    closed spec fn view(&self) -> Seq<u8> {
        self.bytes@
    }
}

impl Memory {
    /// The memory always spans exactly 65536 bytes.
    pub open spec fn wf(&self) -> bool {
        self@.len() == 65536
    }

    /// A fresh memory with every byte zero.
    pub fn new() -> (r: Self)
        ensures
            r.wf(),
            forall|i: int| 0 <= i < 65536 ==> r@[i] == 0,
    {
        let mut bytes: Vec<u8> = Vec::new();
        while bytes.len() < MEM_SIZE
            invariant
                bytes@.len() <= 65536,
                forall|i: int| 0 <= i < bytes@.len() ==> bytes@[i] == 0,
            decreases 65536 - bytes@.len(),
        {
            bytes.push(0);
        }
        Memory { bytes }
    }

    /// Reads the byte at `addr`.
    pub fn read_byte(&self, addr: u16) -> (r: u8)
        requires
            self.wf(),
        ensures
            r == mem_read(self@, addr),
    {
        self.bytes[addr as usize]
    }

    /// Writes `v` to the byte at `addr`.
    pub fn write_byte(&mut self, addr: u16, v: u8)
        requires
            old(self).wf(),
        ensures
            final(self).wf(),
            final(self)@ == mem_write(old(self)@, addr, v),
    {
        self.bytes[addr as usize] = v;
    }

    /// Reads the little-endian word at `addr`; the high byte comes from
    /// `addr + 1` modulo 65536.
    pub fn read_word(&self, addr: u16) -> (r: u16)
        requires
            self.wf(),
        ensures
            r == mem_read16(self@, addr),
    {
        let hi_addr: u16 = (((addr as u32) + 1) % 65536) as u16;
        let lo: u8 = self.bytes[addr as usize];
        let hi: u8 = self.bytes[hi_addr as usize];
        (hi as u16) * 256 + (lo as u16)
    }

    /// Writes the little-endian word `v` at `addr`; the high byte lands at
    /// `addr + 1` modulo 65536.
    pub fn write_word(&mut self, addr: u16, v: u16)
        requires
            old(self).wf(),
        ensures
            final(self).wf(),
            final(self)@ == mem_write16(old(self)@, addr, v),
    {
        let hi_addr: u16 = (((addr as u32) + 1) % 65536) as u16;
        self.bytes[addr as usize] = (v % 256) as u8;
        self.bytes[hi_addr as usize] = (v / 256) as u8;
    }

    /// Loads `image` starting at `origin`, without wrapping: the load
    /// succeeds exactly when `origin + image.len() <= 65536`, replacing
    /// that range and leaving every other byte untouched; an image that
    /// would run past the end is refused whole.
    pub fn load(&mut self, image: &Vec<u8>, origin: u16) -> (r: Result<(), EmuError>)
        requires
            old(self).wf(),
        ensures
            final(self).wf(),
            r is Ok <==> origin + image@.len() <= 65536,
            r is Err ==> r == Result::<(), EmuError>::Err(EmuError::ImageTooLarge) && final(self)@
                == old(self)@,
            r is Ok ==> forall|i: int|
                0 <= i < 65536 ==> final(self)@[i] == if origin <= i < origin + image@.len() {
                    image@[i - origin]
                } else {
                    old(self)@[i]
                },
    {
        if image.len() > MEM_SIZE - (origin as usize) {
            return Err(EmuError::ImageTooLarge);
        }
        let mut i: usize = 0;
        while i < image.len()
            invariant
                self.wf(),
                origin + image@.len() <= 65536,
                0 <= i <= image@.len(),
                forall|j: int|
                    0 <= j < 65536 ==> self@[j] == if origin <= j < origin + i {
                        image@[j - origin]
                    } else {
                        old(self)@[j]
                    },
            decreases image@.len() - i,
        {
            self.bytes[origin as usize + i] = image[i];
            i = i + 1;
        }
        Ok(())
    }
}

} // verus!
