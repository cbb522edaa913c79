//! The cartridge: PRG-ROM and CHR-ROM images plus the mapper that
//! translates CPU addresses into PRG-ROM offsets, and the iNES 2.0
//! header parser that builds a cartridge from a ROM image held in
//! memory. Reading the image from disk is the host's business.

use crate::mapper::{spec_mapper_offset, Mapper, Mapper0};
use crate::util::{pow2, BitOperations};
use crate::EmuError;
use vstd::prelude::*;

verus! {

/// A cartridge: read-only PRG-ROM and CHR-ROM plus the owning mapper.
pub struct Cartridge {
    prg_rom: Vec<u8>,
    chr_rom: Vec<u8>,
    mapper: Mapper,
}

/// The mathematical content of a cartridge.
pub struct CartridgeView {
    pub prg_rom: Seq<u8>,
    pub chr_rom: Seq<u8>,
    pub mapper: Mapper,
}

impl View for Cartridge {
    type V = CartridgeView;

    closed spec fn view(&self) -> CartridgeView {
        CartridgeView { prg_rom: self.prg_rom@, chr_rom: self.chr_rom@, mapper: self.mapper }
    }
}

/// The PRG-ROM byte a CPU address reads through the mapper, or the
/// error when the address lies below the PRG-ROM window or the mapped
/// offset falls outside the image.
pub open spec fn spec_cartridge_read(c: CartridgeView, address: u16) -> Result<u8, EmuError> {
    match spec_mapper_offset(c.mapper, address) {
        Err(e) => Err(e),
        Ok(offset) => if offset < c.prg_rom.len() {
            Ok(c.prg_rom[offset as int])
        } else {
            Err(EmuError::AddressOutOfMapperRange)
        },
    }
}

/// An iNES size field: LSB byte combined with an MSB nibble. A nibble
/// of $F selects the exponent form `2^exponent * (multiplier * 2 + 1)`
/// with the exponent in bits 2-7 and the multiplier in bits 0-1 of the
/// LSB; otherwise the twelve bits count units of `unit` bytes.
pub open spec fn spec_ines_size(lsb: u8, msb: u8, unit: int) -> int {
    if msb == 0xF {
        (pow2(lsb.bits_value(2, 7) as nat) as int) * (lsb.bits_value(0, 1) * 2 + 1)
    } else {
        (msb * 0x100 + lsb) * unit
    }
}

/// The iNES mapper number: bits 4-7 of header byte 6 (low nibble),
/// bits 4-7 of byte 7 (middle nibble), bits 0-3 of byte 8 (high
/// nibble).
pub open spec fn spec_ines_mapper(h6: u8, h7: u8, h8: u8) -> int {
    h6.bits_value(4, 7) + h7.bits_value(4, 7) * 0x10 + h8.bits_value(0, 3) * 0x100
}

/// The cartridge described by an iNES 2.0 image: a 16-byte header with
/// the `NES\x1A` signature, an optional 512-byte trainer to skip, then
/// the PRG-ROM and CHR-ROM images back to back. A missing signature or
/// truncated image is `BadRom`; a mapper number other than 0 is
/// `UnsupportedMapper`.
pub open spec fn spec_parse_ines(data: Seq<u8>) -> Result<CartridgeView, EmuError> {
    if data.len() < 16 {
        Err(EmuError::BadRom)
    } else if !(data[0] == 0x4E && data[1] == 0x45 && data[2] == 0x53 && data[3] == 0x1A) {
        Err(EmuError::BadRom)
    } else {
        let prg_size = spec_ines_size(data[4], data[9].bits_value(0, 3), 0x4000);
        let chr_size = spec_ines_size(data[5], data[9].bits_value(4, 7), 0x2000);
        let start: int = if data[6].bit_value(2) {
            16int + 512
        } else {
            16int
        };
        if data.len() < start + prg_size + chr_size {
            Err(EmuError::BadRom)
        } else if spec_ines_mapper(data[6], data[7], data[8]) != 0 {
            Err(EmuError::UnsupportedMapper)
        } else {
            Ok(
                CartridgeView {
                    prg_rom: data.subrange(start, start + prg_size),
                    chr_rom: data.subrange(start + prg_size, start + prg_size + chr_size),
                    mapper: Mapper::Nrom(Mapper0 { prg_rom_size: prg_size as usize }),
                },
            )
        }
    }
}

/// `pow2(exp) * factor`, or `None` when that exceeds `usize`.
fn pow2_times(exp: u8, factor: usize) -> (r: Option<usize>)
    requires
        factor >= 1,
    ensures
        match r {
            Some(v) => v == pow2(exp as nat) * factor,
            None => pow2(exp as nat) * factor > usize::MAX,
        },
{
    let mut acc: usize = factor;
    let mut i: u8 = 0;
    proof {
        assert((exp - i) as nat == exp as nat);
    }
    while i < exp
        invariant
            i <= exp,
            acc >= 1,
            acc * pow2((exp - i) as nat) == pow2(exp as nat) * factor,
        decreases exp - i,
    {
        proof {
            lemma_pow2_unfold((exp - i) as nat);
            lemma_pow2_pos((exp - i - 1) as nat);
            assert(acc * (2 * pow2((exp - i - 1) as nat)) == (2 * acc) * pow2(
                (exp - i - 1) as nat,
            )) by (nonlinear_arith);
        }
        match acc.checked_mul(2) {
            Some(doubled) => {
                acc = doubled;
            },
            None => {
                proof {
                    vstd::arithmetic::mul::lemma_mul_inequality(
                        1,
                        pow2((exp - i - 1) as nat) as int,
                        2 * acc,
                    );
                }
                return None;
            },
        }
        i = i + 1;
    }
    proof {
        assert(pow2((exp - i) as nat) == 1);
        assert(acc * pow2((exp - i) as nat) == pow2(exp as nat) * factor);
        assert(acc == pow2(exp as nat) * factor) by (nonlinear_arith)
            requires
                acc * pow2((exp - i) as nat) == pow2(exp as nat) * factor,
                pow2((exp - i) as nat) == 1,
        ;
    }
    Some(acc)
}

/// `pow2` of a successor unfolds to a doubling.
proof fn lemma_pow2_unfold(n: nat)
    requires
        n >= 1,
    ensures
        pow2(n) == 2 * pow2((n - 1) as nat),
{
}

/// Powers of two are positive.
proof fn lemma_pow2_pos(n: nat)
    ensures
        pow2(n) >= 1,
    decreases n,
{
    if n >= 1 {
        lemma_pow2_pos((n - 1) as nat);
    }
}

/// A copy of `data[start..start + len]`.
fn copy_range(data: &Vec<u8>, start: usize, len: usize) -> (r: Vec<u8>)
    requires
        start + len <= data.len(),
    ensures
        r@ == data@.subrange(start as int, start + len),
{
    let mut out: Vec<u8> = Vec::new();
    let mut i: usize = 0;
    while i < len
        invariant
            i <= len,
            start + len <= data.len(),
            out@.len() == i,
            forall|j: int| 0 <= j < i ==> out@[j] == data@[start + j],
        decreases len - i,
    {
        out.push(data[start + i]);
        i = i + 1;
    }
    proof {
        assert(out@ =~= data@.subrange(start as int, start + len));
    }
    out
}

impl Cartridge {
    /// A cartridge from parts already in hand.
    pub fn new(prg_rom: Vec<u8>, chr_rom: Vec<u8>, mapper: Mapper) -> (r: Self)
        ensures
            r@ == (CartridgeView { prg_rom: prg_rom@, chr_rom: chr_rom@, mapper }),
    {
        Self { prg_rom, chr_rom, mapper }
    }

    /// Parses an iNES 2.0 image held in memory into a cartridge.
    pub fn from_ines(data: &Vec<u8>) -> (r: Result<Self, EmuError>)
        ensures
            (r matches Ok(c) ==> spec_parse_ines(data@) == Ok::<CartridgeView, EmuError>(c@)),
            (r matches Err(e) ==> spec_parse_ines(data@) == Err::<CartridgeView, EmuError>(e)),
    {
        if data.len() < 16 {
            return Err(EmuError::BadRom);
        }
        if !(data[0] == 0x4E && data[1] == 0x45 && data[2] == 0x53 && data[3] == 0x1A) {
            return Err(EmuError::BadRom);
        }
        let prg_size_opt = Self::parse_size(data[4], data[9].get_bits(0..=3), 0x4000);
        let chr_size_opt = Self::parse_size(data[5], data[9].get_bits(4..=7), 0x2000);
        let start: usize = if data[6].get_bit(2) {
            16 + 512
        } else {
            16
        };
        let prg_size: usize = match prg_size_opt {
            Some(v) => v,
            None => {
                return Err(EmuError::BadRom);
            },
        };
        let chr_size: usize = match chr_size_opt {
            Some(v) => v,
            None => {
                return Err(EmuError::BadRom);
            },
        };
        let needed: usize = match start.checked_add(prg_size) {
            Some(v) => match v.checked_add(chr_size) {
                Some(w) => w,
                None => {
                    return Err(EmuError::BadRom);
                },
            },
            None => {
                return Err(EmuError::BadRom);
            },
        };
        if data.len() < needed {
            return Err(EmuError::BadRom);
        }
        let mapper_number: u32 = data[6].get_bits(4..=7) as u32 + (data[7].get_bits(4..=7) as u32)
            * 0x10 + (data[8].get_bits(0..=3) as u32) * 0x100;
        if mapper_number != 0 {
            return Err(EmuError::UnsupportedMapper);
        }
        let prg_rom = copy_range(data, start, prg_size);
        let chr_rom = copy_range(data, start + prg_size, chr_size);
        let mapper = Mapper::Nrom(Mapper0::new(prg_size));
        Ok(Self { prg_rom, chr_rom, mapper })
    }

    /// An iNES size field, or `None` when it exceeds `usize`.
    fn parse_size(lsb: u8, msb: u8, unit: usize) -> (r: Option<usize>)
        requires
            1 <= unit <= 0x4000,
        ensures
            match r {
                Some(v) => v == spec_ines_size(lsb, msb, unit as int),
                None => spec_ines_size(lsb, msb, unit as int) > usize::MAX,
            },
    {
        if msb == 0xF {
            let exponent: u8 = lsb.get_bits(2..=7);
            let multiplier: u8 = lsb.get_bits(0..=1);
            pow2_times(exponent, multiplier as usize * 2 + 1)
        } else {
            let count: usize = msb as usize * 0x100 + lsb as usize;
            count.checked_mul(unit)
        }
    }

    /// Reads the PRG-ROM byte that `address` maps to.
    pub fn read(&self, address: u16) -> (r: Result<u8, EmuError>)
        ensures
            r == spec_cartridge_read(self@, address),
    {
        match self.mapper.address(address) {
            Err(e) => Err(e),
            Ok(offset) => {
                if (offset as usize) < self.prg_rom.len() {
                    Ok(self.prg_rom[offset as usize])
                } else {
                    Err(EmuError::AddressOutOfMapperRange)
                }
            },
        }
    }
}

} // verus!
