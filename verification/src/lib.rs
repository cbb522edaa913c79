//! Core of a cycle-aware MOS 6502 interpreter as used in the Nintendo
//! Entertainment System: opcode decoding, addressing-mode evaluation,
//! per-instruction semantics (flags, wrap-around, page-cross cycle
//! penalties, branch timing), stack discipline, the mirrored-RAM memory
//! map with an NROM cartridge mapper, and a disassembler that renders
//! the reference log format.

use vstd::prelude::*;

pub mod cartridge;
pub mod cpu;
pub mod disassembler;
pub mod flags;
pub mod mapper;
pub mod opcodes;
pub mod util;

verus! {

/// The fatal error kinds of the core. None is recoverable: the embedding
/// host is expected to report the diagnostic and stop driving the CPU.
#[derive(Clone, Copy, Debug, PartialEq, Eq, Structural)]
pub enum EmuError {
    /// iNES signature missing or malformed header.
    BadRom,
    /// Mapper number other than 0 (NROM).
    UnsupportedMapper,
    /// CPU access to the PPU/APU/test register windows, which this core
    /// does not implement.
    UnmappedRegion,
    /// The mapper was asked to translate an address below the PRG-ROM
    /// window or within an unmapped sub-region of the cartridge space.
    AddressOutOfMapperRange,
}

} // verus!
