use nes_core::cartridge::Cartridge;
use nes_core::cpu::CPU;
use nes_core::mapper::{Mapper, Mapper0};
use nes_core::EmuError;

/// A minimal iNES header: signature, PRG-ROM and CHR-ROM sizes in
/// 16 KiB / 8 KiB units, and flag bytes 6 through 9.
fn header(prg_units: u8, chr_units: u8, flags6: u8, flags7: u8, byte9: u8) -> Vec<u8> {
    let mut h = vec![0x4E, 0x45, 0x53, 0x1A, prg_units, chr_units, flags6, flags7];
    h.push(0);
    h.push(byte9);
    while h.len() < 16 {
        h.push(0);
    }
    h
}

#[test]
fn parse_rejects_a_missing_signature() {
    let data = vec![0u8; 16];
    assert!(matches!(Cartridge::from_ines(&data), Err(EmuError::BadRom)));
    let data = vec![0x4E, 0x45, 0x53, 0x00];
    assert!(matches!(Cartridge::from_ines(&data), Err(EmuError::BadRom)));
    let data: Vec<u8> = Vec::new();
    assert!(matches!(Cartridge::from_ines(&data), Err(EmuError::BadRom)));
}

#[test]
fn parse_rejects_a_truncated_image() {
    // The header promises 16 KiB of PRG-ROM but delivers one byte.
    let mut data = header(1, 0, 0, 0, 0);
    data.push(0xEA);
    assert!(matches!(Cartridge::from_ines(&data), Err(EmuError::BadRom)));
}

#[test]
fn parse_rejects_an_unsupported_mapper() {
    // Mapper number 1 in the high nibble of byte 6.
    let mut data = header(1, 0, 0x10, 0, 0);
    data.extend(std::iter::repeat(0u8).take(0x4000));
    assert!(matches!(Cartridge::from_ines(&data), Err(EmuError::UnsupportedMapper)));
}

#[test]
fn parse_builds_a_mirrored_16_kib_cartridge() {
    let mut data = header(1, 1, 0, 0, 0);
    let mut prg = vec![0u8; 0x4000];
    prg[0] = 0xA9;
    prg[1] = 0x42;
    data.extend(prg);
    data.extend(std::iter::repeat(0u8).take(0x2000));
    let cartridge = Cartridge::from_ines(&data).unwrap();
    let mut cpu = CPU::new(cartridge);
    // The first PRG byte answers at $8000 and at its $C000 mirror.
    assert_eq!(cpu.read(0x8000).unwrap(), 0xA9);
    assert_eq!(cpu.read(0xC000).unwrap(), 0xA9);
    assert_eq!(cpu.read(0xC001).unwrap(), 0x42);
    // The program actually runs from the mirror.
    cpu.pc = 0xC000;
    cpu.execute_next_instruction().unwrap();
    assert_eq!(cpu.a, 0x42);
}

#[test]
fn parse_maps_32_kib_directly() {
    let mut data = header(2, 0, 0, 0, 0);
    let mut prg = vec![0u8; 0x8000];
    prg[0] = 0x11;
    prg[0x7FFF] = 0x99;
    data.extend(prg);
    let cartridge = Cartridge::from_ines(&data).unwrap();
    let cpu = CPU::new(cartridge);
    assert_eq!(cpu.read(0x8000).unwrap(), 0x11);
    assert_eq!(cpu.read(0xFFFF).unwrap(), 0x99);
    // No mirroring: $C000 reads the upper half, not the first byte.
    assert_eq!(cpu.read(0xC000).unwrap(), 0x00);
}

#[test]
fn parse_skips_a_trainer() {
    // Bit 2 of byte 6 announces 512 bytes to skip before PRG-ROM.
    let mut data = header(1, 0, 0x04, 0, 0);
    data.extend(std::iter::repeat(0xFFu8).take(512));
    let mut prg = vec![0u8; 0x4000];
    prg[0] = 0x42;
    data.extend(prg);
    let cartridge = Cartridge::from_ines(&data).unwrap();
    let cpu = CPU::new(cartridge);
    assert_eq!(cpu.read(0x8000).unwrap(), 0x42);
}

#[test]
fn parse_reads_the_exponent_size_form() {
    // PRG MSB nibble $F: size = 2^exponent * (multiplier * 2 + 1)
    // bytes; exponent 3 and multiplier 1 give 24 bytes.
    let lsb = (3 << 2) | 1;
    let mut data = header(lsb, 0, 0, 0, 0x0F);
    let mut prg = vec![0u8; 24];
    prg[0] = 0x7E;
    data.extend(prg);
    let cartridge = Cartridge::from_ines(&data).unwrap();
    let cpu = CPU::new(cartridge);
    assert_eq!(cpu.read(0x8000).unwrap(), 0x7E);
    // A 24-byte image is not 16 KiB, so nothing mirrors: past its
    // end the mapper has nothing to answer.
    assert_eq!(cpu.read(0x8018), Err(EmuError::AddressOutOfMapperRange));
}

#[test]
fn mapper0_offsets() {
    let m = Mapper0::new(0x4000);
    assert_eq!(m.address(0x7FFF), Err(EmuError::AddressOutOfMapperRange));
    assert_eq!(m.address(0x8000), Ok(0x0000));
    assert_eq!(m.address(0xBFFF), Ok(0x3FFF));
    assert_eq!(m.address(0xC000), Ok(0x0000));
    assert_eq!(m.address(0xFFFF), Ok(0x3FFF));
    let m = Mapper0::new(0x8000);
    assert_eq!(m.address(0xC000), Ok(0x4000));
    assert_eq!(m.address(0xFFFF), Ok(0x7FFF));
    let wrapped = Mapper::Nrom(Mapper0::new(0x4000));
    assert_eq!(wrapped.address(0xC123), Ok(0x0123));
}
