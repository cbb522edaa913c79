//! Cartridge mappers: translation of a CPU address in the cartridge
//! window to a PRG-ROM byte offset. Only NROM (mapper 0) is
//! implemented; the tagged `Mapper` variant leaves room for more.

use crate::EmuError;
use vstd::prelude::*;

verus! {

/// NROM, mapper 0. PRG-ROM is 16 or 32 KiB; a 16 KiB image is mirrored
/// into the upper half of the `[$8000, $FFFF]` window.
#[derive(Clone, Copy, Debug, PartialEq, Eq, Structural)]
pub struct Mapper0 {
    pub prg_rom_size: usize,
}

/// The supported mappers as a tagged variant, so the CPU can dispatch
/// without dynamic polymorphism.
#[derive(Clone, Copy, Debug, PartialEq, Eq, Structural)]
pub enum Mapper {
    Nrom(Mapper0),
}

/// PRG-ROM offset for a CPU address under NROM: addresses below the
/// `$8000` window are out of the mapper's range; a 16 KiB image answers
/// the window modulo 16 KiB; anything else maps directly.
pub open spec fn spec_mapper0_offset(m: Mapper0, address: u16) -> Result<u16, EmuError> {
    if address < 0x8000 {
        Err(EmuError::AddressOutOfMapperRange)
    } else if m.prg_rom_size == 0x4000 {
        Ok(((address - 0x8000) % 0x4000) as u16)
    } else {
        Ok((address - 0x8000) as u16)
    }
}

/// PRG-ROM offset for a CPU address under the given mapper.
pub open spec fn spec_mapper_offset(m: Mapper, address: u16) -> Result<u16, EmuError> {
    match m {
        Mapper::Nrom(m0) => spec_mapper0_offset(m0, address),
    }
}

impl Mapper0 {
    pub fn new(prg_rom_size: usize) -> (r: Self)
        ensures
            r == (Mapper0 { prg_rom_size }),
    {
        Self { prg_rom_size }
    }

    /// Translates a CPU address to a PRG-ROM byte offset, mirroring a
    /// 16 KiB image into the upper half of the window.
    pub fn address(&self, address: u16) -> (r: Result<u16, EmuError>)
        ensures
            r == spec_mapper0_offset(*self, address),
    {
        if address < 0x8000 {
            Err(EmuError::AddressOutOfMapperRange)
        } else if self.prg_rom_size == 0x4000 {
            Ok((address - 0x8000) % 0x4000)
        } else {
            Ok(address - 0x8000)
        }
    }
}

impl Mapper {
    /// Translates a CPU address to a PRG-ROM byte offset under
    /// whichever mapper variant the cartridge carries.
    pub fn address(&self, address: u16) -> (r: Result<u16, EmuError>)
        ensures
            r == spec_mapper_offset(*self, address),
    {
        match self {
            Mapper::Nrom(m0) => m0.address(address),
        }
    }
}

} // verus!
