//! An Intel-8080-compatible CPU emulation core.
//!
//! The crate models a flat 64KB memory bus, the 8080 register file and
//! status flags, a total 256-entry opcode decoder (documented hardware
//! aliases included), an execution engine whose behaviour is pinned down by
//! a specification-level interpreter, and a resumable fetch-execute driver.

use vstd::prelude::*;

pub mod cpu;
pub mod decode;
pub mod exec;
pub mod flags;
pub mod laws;
pub mod machine;
pub mod memory;

verus! {

/// The error kinds the core can surface.
///
/// `DecodeFault` stands for an incomplete opcode table entry; the decoder
/// here is total over all 256 byte values, and the driver is proved never to
/// produce this kind, but it remains explicitly representable rather than
/// being an unreachable branch. `ImageTooLarge` is returned by a bulk load
/// that would run past the end of the 64KB space. `PortUnbound` is the fault
/// raised when IN or OUT executes with no port collaborator attached.
#[derive(Clone, Copy, PartialEq, Eq, Structural, Debug)]
pub enum EmuError {
    DecodeFault,
    ImageTooLarge,
    PortUnbound,
}

} // verus!
