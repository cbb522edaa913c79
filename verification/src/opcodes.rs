//! The static 256-entry opcode table: every byte decodes to a
//! mnemonic, an addressing mode and a base cycle count. Documented
//! instructions carry their official values; every other byte is
//! entered as NOP with implicit addressing and the official cycle
//! count of that undocumented opcode, so the core stays deterministic
//! on legal ROMs. Base counts exclude page-cross and branch-taken
//! penalties, which the executor accounts at run time.

use vstd::prelude::*;

verus! {

/// The 56 documented 6502 instruction mnemonics.
#[derive(Clone, Copy, Debug, PartialEq, Eq, Structural)]
pub enum Instruction {
    ADC, AND, ASL, BCC, BCS, BEQ, BIT, BMI, BNE, BPL, BRK, BVC, BVS, CLC,
    CLD, CLI, CLV, CMP, CPX, CPY, DEC, DEX, DEY, EOR, INC, INX, INY, JMP,
    JSR, LDA, LDX, LDY, LSR, NOP, ORA, PHA, PHP, PLA, PLP, ROL, ROR, RTI,
    RTS, SBC, SEC, SED, SEI, STA, STX, STY, TAX, TAY, TSX, TXA, TXS, TYA,
}

/// The 13 addressing modes of the 6502.
#[derive(Clone, Copy, Debug, PartialEq, Eq, Structural)]
pub enum AddressingMode {
    Implicit,
    Accumulator,
    Immediate,
    ZeroPage,
    ZeroPageIndexedX,
    ZeroPageIndexedY,
    Relative,
    Absolute,
    AbsoluteIndexedX,
    AbsoluteIndexedY,
    Indirect,
    IndexedIndirect,
    IndirectIndexed,
}

/// One row of the opcode table.
#[derive(Clone, Copy, Debug, PartialEq, Eq, Structural)]
pub struct OpcodeEntry {
    pub instruction: Instruction,
    pub mode: AddressingMode,
    /// Base cycle count, excluding page-cross and branch-taken
    /// penalties.
    pub cycles: u8,
}

/// How many operand bytes an addressing mode consumes after the opcode
/// byte itself.
#[verifier::allow_in_spec]
pub fn operand_count(mode: AddressingMode) -> u8
    returns
        (match mode {
            AddressingMode::Implicit => 0u8,
            AddressingMode::Accumulator => 0u8,
            AddressingMode::Immediate => 1u8,
            AddressingMode::ZeroPage => 1u8,
            AddressingMode::ZeroPageIndexedX => 1u8,
            AddressingMode::ZeroPageIndexedY => 1u8,
            AddressingMode::Relative => 1u8,
            AddressingMode::Absolute => 2u8,
            AddressingMode::AbsoluteIndexedX => 2u8,
            AddressingMode::AbsoluteIndexedY => 2u8,
            AddressingMode::Indirect => 2u8,
            AddressingMode::IndexedIndirect => 1u8,
            AddressingMode::IndirectIndexed => 1u8,
        }),
{
    match mode {
        AddressingMode::Implicit => 0u8,
        AddressingMode::Accumulator => 0u8,
        AddressingMode::Immediate => 1u8,
        AddressingMode::ZeroPage => 1u8,
        AddressingMode::ZeroPageIndexedX => 1u8,
        AddressingMode::ZeroPageIndexedY => 1u8,
        AddressingMode::Relative => 1u8,
        AddressingMode::Absolute => 2u8,
        AddressingMode::AbsoluteIndexedX => 2u8,
        AddressingMode::AbsoluteIndexedY => 2u8,
        AddressingMode::Indirect => 2u8,
        AddressingMode::IndexedIndirect => 1u8,
        AddressingMode::IndirectIndexed => 1u8,
    }
}

/// The table row decoded from opcode byte `op`.
#[verifier::opaque]
pub open spec fn spec_opcode_entry(op: u8) -> OpcodeEntry {
    match op {
        0x00 => OpcodeEntry {
            instruction: Instruction::BRK,
            mode: AddressingMode::Immediate,
            cycles: 7,
        },
        0x01 => OpcodeEntry {
            instruction: Instruction::ORA,
            mode: AddressingMode::IndexedIndirect,
            cycles: 6,
        },
        0x02 => OpcodeEntry {
            instruction: Instruction::NOP,
            mode: AddressingMode::Implicit,
            cycles: 2,
        },
        0x03 => OpcodeEntry {
            instruction: Instruction::NOP,
            mode: AddressingMode::Implicit,
            cycles: 8,
        },
        0x04 => OpcodeEntry {
            instruction: Instruction::NOP,
            mode: AddressingMode::Implicit,
            cycles: 3,
        },
        0x05 => OpcodeEntry {
            instruction: Instruction::ORA,
            mode: AddressingMode::ZeroPage,
            cycles: 3,
        },
        0x06 => OpcodeEntry {
            instruction: Instruction::ASL,
            mode: AddressingMode::ZeroPage,
            cycles: 5,
        },
        0x07 => OpcodeEntry {
            instruction: Instruction::NOP,
            mode: AddressingMode::Implicit,
            cycles: 5,
        },
        0x08 => OpcodeEntry {
            instruction: Instruction::PHP,
            mode: AddressingMode::Implicit,
            cycles: 3,
        },
        0x09 => OpcodeEntry {
            instruction: Instruction::ORA,
            mode: AddressingMode::Immediate,
            cycles: 2,
        },
        0x0A => OpcodeEntry {
            instruction: Instruction::ASL,
            mode: AddressingMode::Accumulator,
            cycles: 2,
        },
        0x0B => OpcodeEntry {
            instruction: Instruction::NOP,
            mode: AddressingMode::Implicit,
            cycles: 2,
        },
        0x0C => OpcodeEntry {
            instruction: Instruction::NOP,
            mode: AddressingMode::Implicit,
            cycles: 4,
        },
        0x0D => OpcodeEntry {
            instruction: Instruction::ORA,
            mode: AddressingMode::Absolute,
            cycles: 4,
        },
        0x0E => OpcodeEntry {
            instruction: Instruction::ASL,
            mode: AddressingMode::Absolute,
            cycles: 6,
        },
        0x0F => OpcodeEntry {
            instruction: Instruction::NOP,
            mode: AddressingMode::Implicit,
            cycles: 6,
        },
        0x10 => OpcodeEntry {
            instruction: Instruction::BPL,
            mode: AddressingMode::Relative,
            cycles: 2,
        },
        0x11 => OpcodeEntry {
            instruction: Instruction::ORA,
            mode: AddressingMode::IndirectIndexed,
            cycles: 5,
        },
        0x12 => OpcodeEntry {
            instruction: Instruction::NOP,
            mode: AddressingMode::Implicit,
            cycles: 2,
        },
        0x13 => OpcodeEntry {
            instruction: Instruction::NOP,
            mode: AddressingMode::Implicit,
            cycles: 8,
        },
        0x14 => OpcodeEntry {
            instruction: Instruction::NOP,
            mode: AddressingMode::Implicit,
            cycles: 4,
        },
        0x15 => OpcodeEntry {
            instruction: Instruction::ORA,
            mode: AddressingMode::ZeroPageIndexedX,
            cycles: 4,
        },
        0x16 => OpcodeEntry {
            instruction: Instruction::ASL,
            mode: AddressingMode::ZeroPageIndexedX,
            cycles: 6,
        },
        0x17 => OpcodeEntry {
            instruction: Instruction::NOP,
            mode: AddressingMode::Implicit,
            cycles: 6,
        },
        0x18 => OpcodeEntry {
            instruction: Instruction::CLC,
            mode: AddressingMode::Implicit,
            cycles: 2,
        },
        0x19 => OpcodeEntry {
            instruction: Instruction::ORA,
            mode: AddressingMode::AbsoluteIndexedY,
            cycles: 4,
        },
        0x1A => OpcodeEntry {
            instruction: Instruction::NOP,
            mode: AddressingMode::Implicit,
            cycles: 2,
        },
        0x1B => OpcodeEntry {
            instruction: Instruction::NOP,
            mode: AddressingMode::Implicit,
            cycles: 7,
        },
        0x1C => OpcodeEntry {
            instruction: Instruction::NOP,
            mode: AddressingMode::Implicit,
            cycles: 4,
        },
        0x1D => OpcodeEntry {
            instruction: Instruction::ORA,
            mode: AddressingMode::AbsoluteIndexedX,
            cycles: 4,
        },
        0x1E => OpcodeEntry {
            instruction: Instruction::ASL,
            mode: AddressingMode::AbsoluteIndexedX,
            cycles: 7,
        },
        0x1F => OpcodeEntry {
            instruction: Instruction::NOP,
            mode: AddressingMode::Implicit,
            cycles: 7,
        },
        0x20 => OpcodeEntry {
            instruction: Instruction::JSR,
            mode: AddressingMode::Absolute,
            cycles: 6,
        },
        0x21 => OpcodeEntry {
            instruction: Instruction::AND,
            mode: AddressingMode::IndexedIndirect,
            cycles: 6,
        },
        0x22 => OpcodeEntry {
            instruction: Instruction::NOP,
            mode: AddressingMode::Implicit,
            cycles: 2,
        },
        0x23 => OpcodeEntry {
            instruction: Instruction::NOP,
            mode: AddressingMode::Implicit,
            cycles: 8,
        },
        0x24 => OpcodeEntry {
            instruction: Instruction::BIT,
            mode: AddressingMode::ZeroPage,
            cycles: 3,
        },
        0x25 => OpcodeEntry {
            instruction: Instruction::AND,
            mode: AddressingMode::ZeroPage,
            cycles: 3,
        },
        0x26 => OpcodeEntry {
            instruction: Instruction::ROL,
            mode: AddressingMode::ZeroPage,
            cycles: 5,
        },
        0x27 => OpcodeEntry {
            instruction: Instruction::NOP,
            mode: AddressingMode::Implicit,
            cycles: 5,
        },
        0x28 => OpcodeEntry {
            instruction: Instruction::PLP,
            mode: AddressingMode::Implicit,
            cycles: 4,
        },
        0x29 => OpcodeEntry {
            instruction: Instruction::AND,
            mode: AddressingMode::Immediate,
            cycles: 2,
        },
        0x2A => OpcodeEntry {
            instruction: Instruction::ROL,
            mode: AddressingMode::Accumulator,
            cycles: 2,
        },
        0x2B => OpcodeEntry {
            instruction: Instruction::NOP,
            mode: AddressingMode::Implicit,
            cycles: 2,
        },
        0x2C => OpcodeEntry {
            instruction: Instruction::BIT,
            mode: AddressingMode::Absolute,
            cycles: 4,
        },
        0x2D => OpcodeEntry {
            instruction: Instruction::AND,
            mode: AddressingMode::Absolute,
            cycles: 4,
        },
        0x2E => OpcodeEntry {
            instruction: Instruction::ROL,
            mode: AddressingMode::Absolute,
            cycles: 6,
        },
        0x2F => OpcodeEntry {
            instruction: Instruction::NOP,
            mode: AddressingMode::Implicit,
            cycles: 6,
        },
        0x30 => OpcodeEntry {
            instruction: Instruction::BMI,
            mode: AddressingMode::Relative,
            cycles: 2,
        },
        0x31 => OpcodeEntry {
            instruction: Instruction::AND,
            mode: AddressingMode::IndirectIndexed,
            cycles: 5,
        },
        0x32 => OpcodeEntry {
            instruction: Instruction::NOP,
            mode: AddressingMode::Implicit,
            cycles: 2,
        },
        0x33 => OpcodeEntry {
            instruction: Instruction::NOP,
            mode: AddressingMode::Implicit,
            cycles: 8,
        },
        0x34 => OpcodeEntry {
            instruction: Instruction::NOP,
            mode: AddressingMode::Implicit,
            cycles: 4,
        },
        0x35 => OpcodeEntry {
            instruction: Instruction::AND,
            mode: AddressingMode::ZeroPageIndexedX,
            cycles: 4,
        },
        0x36 => OpcodeEntry {
            instruction: Instruction::ROL,
            mode: AddressingMode::ZeroPageIndexedX,
            cycles: 6,
        },
        0x37 => OpcodeEntry {
            instruction: Instruction::NOP,
            mode: AddressingMode::Implicit,
            cycles: 6,
        },
        0x38 => OpcodeEntry {
            instruction: Instruction::SEC,
            mode: AddressingMode::Implicit,
            cycles: 2,
        },
        0x39 => OpcodeEntry {
            instruction: Instruction::AND,
            mode: AddressingMode::AbsoluteIndexedY,
            cycles: 4,
        },
        0x3A => OpcodeEntry {
            instruction: Instruction::NOP,
            mode: AddressingMode::Implicit,
            cycles: 2,
        },
        0x3B => OpcodeEntry {
            instruction: Instruction::NOP,
            mode: AddressingMode::Implicit,
            cycles: 7,
        },
        0x3C => OpcodeEntry {
            instruction: Instruction::NOP,
            mode: AddressingMode::Implicit,
            cycles: 4,
        },
        0x3D => OpcodeEntry {
            instruction: Instruction::AND,
            mode: AddressingMode::AbsoluteIndexedX,
            cycles: 4,
        },
        0x3E => OpcodeEntry {
            instruction: Instruction::ROL,
            mode: AddressingMode::AbsoluteIndexedX,
            cycles: 7,
        },
        0x3F => OpcodeEntry {
            instruction: Instruction::NOP,
            mode: AddressingMode::Implicit,
            cycles: 7,
        },
        0x40 => OpcodeEntry {
            instruction: Instruction::RTI,
            mode: AddressingMode::Implicit,
            cycles: 6,
        },
        0x41 => OpcodeEntry {
            instruction: Instruction::EOR,
            mode: AddressingMode::IndexedIndirect,
            cycles: 6,
        },
        0x42 => OpcodeEntry {
            instruction: Instruction::NOP,
            mode: AddressingMode::Implicit,
            cycles: 2,
        },
        0x43 => OpcodeEntry {
            instruction: Instruction::NOP,
            mode: AddressingMode::Implicit,
            cycles: 8,
        },
        0x44 => OpcodeEntry {
            instruction: Instruction::NOP,
            mode: AddressingMode::Implicit,
            cycles: 3,
        },
        0x45 => OpcodeEntry {
            instruction: Instruction::EOR,
            mode: AddressingMode::ZeroPage,
            cycles: 3,
        },
        0x46 => OpcodeEntry {
            instruction: Instruction::LSR,
            mode: AddressingMode::ZeroPage,
            cycles: 5,
        },
        0x47 => OpcodeEntry {
            instruction: Instruction::NOP,
            mode: AddressingMode::Implicit,
            cycles: 5,
        },
        0x48 => OpcodeEntry {
            instruction: Instruction::PHA,
            mode: AddressingMode::Implicit,
            cycles: 3,
        },
        0x49 => OpcodeEntry {
            instruction: Instruction::EOR,
            mode: AddressingMode::Immediate,
            cycles: 2,
        },
        0x4A => OpcodeEntry {
            instruction: Instruction::LSR,
            mode: AddressingMode::Accumulator,
            cycles: 2,
        },
        0x4B => OpcodeEntry {
            instruction: Instruction::NOP,
            mode: AddressingMode::Implicit,
            cycles: 2,
        },
        0x4C => OpcodeEntry {
            instruction: Instruction::JMP,
            mode: AddressingMode::Absolute,
            cycles: 3,
        },
        0x4D => OpcodeEntry {
            instruction: Instruction::EOR,
            mode: AddressingMode::Absolute,
            cycles: 4,
        },
        0x4E => OpcodeEntry {
            instruction: Instruction::LSR,
            mode: AddressingMode::Absolute,
            cycles: 6,
        },
        0x4F => OpcodeEntry {
            instruction: Instruction::NOP,
            mode: AddressingMode::Implicit,
            cycles: 6,
        },
        0x50 => OpcodeEntry {
            instruction: Instruction::BVC,
            mode: AddressingMode::Relative,
            cycles: 2,
        },
        0x51 => OpcodeEntry {
            instruction: Instruction::EOR,
            mode: AddressingMode::IndirectIndexed,
            cycles: 5,
        },
        0x52 => OpcodeEntry {
            instruction: Instruction::NOP,
            mode: AddressingMode::Implicit,
            cycles: 2,
        },
        0x53 => OpcodeEntry {
            instruction: Instruction::NOP,
            mode: AddressingMode::Implicit,
            cycles: 8,
        },
        0x54 => OpcodeEntry {
            instruction: Instruction::NOP,
            mode: AddressingMode::Implicit,
            cycles: 4,
        },
        0x55 => OpcodeEntry {
            instruction: Instruction::EOR,
            mode: AddressingMode::ZeroPageIndexedX,
            cycles: 4,
        },
        0x56 => OpcodeEntry {
            instruction: Instruction::LSR,
            mode: AddressingMode::ZeroPageIndexedX,
            cycles: 6,
        },
        0x57 => OpcodeEntry {
            instruction: Instruction::NOP,
            mode: AddressingMode::Implicit,
            cycles: 6,
        },
        0x58 => OpcodeEntry {
            instruction: Instruction::CLI,
            mode: AddressingMode::Implicit,
            cycles: 2,
        },
        0x59 => OpcodeEntry {
            instruction: Instruction::EOR,
            mode: AddressingMode::AbsoluteIndexedY,
            cycles: 4,
        },
        0x5A => OpcodeEntry {
            instruction: Instruction::NOP,
            mode: AddressingMode::Implicit,
            cycles: 2,
        },
        0x5B => OpcodeEntry {
            instruction: Instruction::NOP,
            mode: AddressingMode::Implicit,
            cycles: 7,
        },
        0x5C => OpcodeEntry {
            instruction: Instruction::NOP,
            mode: AddressingMode::Implicit,
            cycles: 4,
        },
        0x5D => OpcodeEntry {
            instruction: Instruction::EOR,
            mode: AddressingMode::AbsoluteIndexedX,
            cycles: 4,
        },
        0x5E => OpcodeEntry {
            instruction: Instruction::LSR,
            mode: AddressingMode::AbsoluteIndexedX,
            cycles: 7,
        },
        0x5F => OpcodeEntry {
            instruction: Instruction::NOP,
            mode: AddressingMode::Implicit,
            cycles: 7,
        },
        0x60 => OpcodeEntry {
            instruction: Instruction::RTS,
            mode: AddressingMode::Implicit,
            cycles: 6,
        },
        0x61 => OpcodeEntry {
            instruction: Instruction::ADC,
            mode: AddressingMode::IndexedIndirect,
            cycles: 6,
        },
        0x62 => OpcodeEntry {
            instruction: Instruction::NOP,
            mode: AddressingMode::Implicit,
            cycles: 2,
        },
        0x63 => OpcodeEntry {
            instruction: Instruction::NOP,
            mode: AddressingMode::Implicit,
            cycles: 8,
        },
        0x64 => OpcodeEntry {
            instruction: Instruction::NOP,
            mode: AddressingMode::Implicit,
            cycles: 3,
        },
        0x65 => OpcodeEntry {
            instruction: Instruction::ADC,
            mode: AddressingMode::ZeroPage,
            cycles: 3,
        },
        0x66 => OpcodeEntry {
            instruction: Instruction::ROR,
            mode: AddressingMode::ZeroPage,
            cycles: 5,
        },
        0x67 => OpcodeEntry {
            instruction: Instruction::NOP,
            mode: AddressingMode::Implicit,
            cycles: 5,
        },
        0x68 => OpcodeEntry {
            instruction: Instruction::PLA,
            mode: AddressingMode::Implicit,
            cycles: 4,
        },
        0x69 => OpcodeEntry {
            instruction: Instruction::ADC,
            mode: AddressingMode::Immediate,
            cycles: 2,
        },
        0x6A => OpcodeEntry {
            instruction: Instruction::ROR,
            mode: AddressingMode::Accumulator,
            cycles: 2,
        },
        0x6B => OpcodeEntry {
            instruction: Instruction::NOP,
            mode: AddressingMode::Implicit,
            cycles: 2,
        },
        0x6C => OpcodeEntry {
            instruction: Instruction::JMP,
            mode: AddressingMode::Indirect,
            cycles: 5,
        },
        0x6D => OpcodeEntry {
            instruction: Instruction::ADC,
            mode: AddressingMode::Absolute,
            cycles: 4,
        },
        0x6E => OpcodeEntry {
            instruction: Instruction::ROR,
            mode: AddressingMode::Absolute,
            cycles: 6,
        },
        0x6F => OpcodeEntry {
            instruction: Instruction::NOP,
            mode: AddressingMode::Implicit,
            cycles: 6,
        },
        0x70 => OpcodeEntry {
            instruction: Instruction::BVS,
            mode: AddressingMode::Relative,
            cycles: 2,
        },
        0x71 => OpcodeEntry {
            instruction: Instruction::ADC,
            mode: AddressingMode::IndirectIndexed,
            cycles: 5,
        },
        0x72 => OpcodeEntry {
            instruction: Instruction::NOP,
            mode: AddressingMode::Implicit,
            cycles: 2,
        },
        0x73 => OpcodeEntry {
            instruction: Instruction::NOP,
            mode: AddressingMode::Implicit,
            cycles: 8,
        },
        0x74 => OpcodeEntry {
            instruction: Instruction::NOP,
            mode: AddressingMode::Implicit,
            cycles: 4,
        },
        0x75 => OpcodeEntry {
            instruction: Instruction::ADC,
            mode: AddressingMode::ZeroPageIndexedX,
            cycles: 4,
        },
        0x76 => OpcodeEntry {
            instruction: Instruction::ROR,
            mode: AddressingMode::ZeroPageIndexedX,
            cycles: 6,
        },
        0x77 => OpcodeEntry {
            instruction: Instruction::NOP,
            mode: AddressingMode::Implicit,
            cycles: 6,
        },
        0x78 => OpcodeEntry {
            instruction: Instruction::SEI,
            mode: AddressingMode::Implicit,
            cycles: 2,
        },
        0x79 => OpcodeEntry {
            instruction: Instruction::ADC,
            mode: AddressingMode::AbsoluteIndexedY,
            cycles: 4,
        },
        0x7A => OpcodeEntry {
            instruction: Instruction::NOP,
            mode: AddressingMode::Implicit,
            cycles: 2,
        },
        0x7B => OpcodeEntry {
            instruction: Instruction::NOP,
            mode: AddressingMode::Implicit,
            cycles: 7,
        },
        0x7C => OpcodeEntry {
            instruction: Instruction::NOP,
            mode: AddressingMode::Implicit,
            cycles: 4,
        },
        0x7D => OpcodeEntry {
            instruction: Instruction::ADC,
            mode: AddressingMode::AbsoluteIndexedX,
            cycles: 4,
        },
        0x7E => OpcodeEntry {
            instruction: Instruction::ROR,
            mode: AddressingMode::AbsoluteIndexedX,
            cycles: 7,
        },
        0x7F => OpcodeEntry {
            instruction: Instruction::NOP,
            mode: AddressingMode::Implicit,
            cycles: 7,
        },
        0x80 => OpcodeEntry {
            instruction: Instruction::NOP,
            mode: AddressingMode::Implicit,
            cycles: 2,
        },
        0x81 => OpcodeEntry {
            instruction: Instruction::STA,
            mode: AddressingMode::IndexedIndirect,
            cycles: 6,
        },
        0x82 => OpcodeEntry {
            instruction: Instruction::NOP,
            mode: AddressingMode::Implicit,
            cycles: 2,
        },
        0x83 => OpcodeEntry {
            instruction: Instruction::NOP,
            mode: AddressingMode::Implicit,
            cycles: 6,
        },
        0x84 => OpcodeEntry {
            instruction: Instruction::STY,
            mode: AddressingMode::ZeroPage,
            cycles: 3,
        },
        0x85 => OpcodeEntry {
            instruction: Instruction::STA,
            mode: AddressingMode::ZeroPage,
            cycles: 3,
        },
        0x86 => OpcodeEntry {
            instruction: Instruction::STX,
            mode: AddressingMode::ZeroPage,
            cycles: 3,
        },
        0x87 => OpcodeEntry {
            instruction: Instruction::NOP,
            mode: AddressingMode::Implicit,
            cycles: 3,
        },
        0x88 => OpcodeEntry {
            instruction: Instruction::DEY,
            mode: AddressingMode::Implicit,
            cycles: 2,
        },
        0x89 => OpcodeEntry {
            instruction: Instruction::NOP,
            mode: AddressingMode::Implicit,
            cycles: 2,
        },
        0x8A => OpcodeEntry {
            instruction: Instruction::TXA,
            mode: AddressingMode::Implicit,
            cycles: 2,
        },
        0x8B => OpcodeEntry {
            instruction: Instruction::NOP,
            mode: AddressingMode::Implicit,
            cycles: 2,
        },
        0x8C => OpcodeEntry {
            instruction: Instruction::STY,
            mode: AddressingMode::Absolute,
            cycles: 4,
        },
        0x8D => OpcodeEntry {
            instruction: Instruction::STA,
            mode: AddressingMode::Absolute,
            cycles: 4,
        },
        0x8E => OpcodeEntry {
            instruction: Instruction::STX,
            mode: AddressingMode::Absolute,
            cycles: 4,
        },
        0x8F => OpcodeEntry {
            instruction: Instruction::NOP,
            mode: AddressingMode::Implicit,
            cycles: 4,
        },
        0x90 => OpcodeEntry {
            instruction: Instruction::BCC,
            mode: AddressingMode::Relative,
            cycles: 2,
        },
        0x91 => OpcodeEntry {
            instruction: Instruction::STA,
            mode: AddressingMode::IndirectIndexed,
            cycles: 6,
        },
        0x92 => OpcodeEntry {
            instruction: Instruction::NOP,
            mode: AddressingMode::Implicit,
            cycles: 2,
        },
        0x93 => OpcodeEntry {
            instruction: Instruction::NOP,
            mode: AddressingMode::Implicit,
            cycles: 6,
        },
        0x94 => OpcodeEntry {
            instruction: Instruction::STY,
            mode: AddressingMode::ZeroPageIndexedX,
            cycles: 4,
        },
        0x95 => OpcodeEntry {
            instruction: Instruction::STA,
            mode: AddressingMode::ZeroPageIndexedX,
            cycles: 4,
        },
        0x96 => OpcodeEntry {
            instruction: Instruction::STX,
            mode: AddressingMode::ZeroPageIndexedY,
            cycles: 4,
        },
        0x97 => OpcodeEntry {
            instruction: Instruction::NOP,
            mode: AddressingMode::Implicit,
            cycles: 4,
        },
        0x98 => OpcodeEntry {
            instruction: Instruction::TYA,
            mode: AddressingMode::Implicit,
            cycles: 2,
        },
        0x99 => OpcodeEntry {
            instruction: Instruction::STA,
            mode: AddressingMode::AbsoluteIndexedY,
            cycles: 5,
        },
        0x9A => OpcodeEntry {
            instruction: Instruction::TXS,
            mode: AddressingMode::Implicit,
            cycles: 2,
        },
        0x9B => OpcodeEntry {
            instruction: Instruction::NOP,
            mode: AddressingMode::Implicit,
            cycles: 5,
        },
        0x9C => OpcodeEntry {
            instruction: Instruction::NOP,
            mode: AddressingMode::Implicit,
            cycles: 5,
        },
        0x9D => OpcodeEntry {
            instruction: Instruction::STA,
            mode: AddressingMode::AbsoluteIndexedX,
            cycles: 5,
        },
        0x9E => OpcodeEntry {
            instruction: Instruction::NOP,
            mode: AddressingMode::Implicit,
            cycles: 5,
        },
        0x9F => OpcodeEntry {
            instruction: Instruction::NOP,
            mode: AddressingMode::Implicit,
            cycles: 5,
        },
        0xA0 => OpcodeEntry {
            instruction: Instruction::LDY,
            mode: AddressingMode::Immediate,
            cycles: 2,
        },
        0xA1 => OpcodeEntry {
            instruction: Instruction::LDA,
            mode: AddressingMode::IndexedIndirect,
            cycles: 6,
        },
        0xA2 => OpcodeEntry {
            instruction: Instruction::LDX,
            mode: AddressingMode::Immediate,
            cycles: 2,
        },
        0xA3 => OpcodeEntry {
            instruction: Instruction::NOP,
            mode: AddressingMode::Implicit,
            cycles: 6,
        },
        0xA4 => OpcodeEntry {
            instruction: Instruction::LDY,
            mode: AddressingMode::ZeroPage,
            cycles: 3,
        },
        0xA5 => OpcodeEntry {
            instruction: Instruction::LDA,
            mode: AddressingMode::ZeroPage,
            cycles: 3,
        },
        0xA6 => OpcodeEntry {
            instruction: Instruction::LDX,
            mode: AddressingMode::ZeroPage,
            cycles: 3,
        },
        0xA7 => OpcodeEntry {
            instruction: Instruction::NOP,
            mode: AddressingMode::Implicit,
            cycles: 3,
        },
        0xA8 => OpcodeEntry {
            instruction: Instruction::TAY,
            mode: AddressingMode::Implicit,
            cycles: 2,
        },
        0xA9 => OpcodeEntry {
            instruction: Instruction::LDA,
            mode: AddressingMode::Immediate,
            cycles: 2,
        },
        0xAA => OpcodeEntry {
            instruction: Instruction::TAX,
            mode: AddressingMode::Implicit,
            cycles: 2,
        },
        0xAB => OpcodeEntry {
            instruction: Instruction::NOP,
            mode: AddressingMode::Implicit,
            cycles: 2,
        },
        0xAC => OpcodeEntry {
            instruction: Instruction::LDY,
            mode: AddressingMode::Absolute,
            cycles: 4,
        },
        0xAD => OpcodeEntry {
            instruction: Instruction::LDA,
            mode: AddressingMode::Absolute,
            cycles: 4,
        },
        0xAE => OpcodeEntry {
            instruction: Instruction::LDX,
            mode: AddressingMode::Absolute,
            cycles: 4,
        },
        0xAF => OpcodeEntry {
            instruction: Instruction::NOP,
            mode: AddressingMode::Implicit,
            cycles: 4,
        },
        0xB0 => OpcodeEntry {
            instruction: Instruction::BCS,
            mode: AddressingMode::Relative,
            cycles: 2,
        },
        0xB1 => OpcodeEntry {
            instruction: Instruction::LDA,
            mode: AddressingMode::IndirectIndexed,
            cycles: 5,
        },
        0xB2 => OpcodeEntry {
            instruction: Instruction::NOP,
            mode: AddressingMode::Implicit,
            cycles: 2,
        },
        0xB3 => OpcodeEntry {
            instruction: Instruction::NOP,
            mode: AddressingMode::Implicit,
            cycles: 5,
        },
        0xB4 => OpcodeEntry {
            instruction: Instruction::LDY,
            mode: AddressingMode::ZeroPageIndexedX,
            cycles: 4,
        },
        0xB5 => OpcodeEntry {
            instruction: Instruction::LDA,
            mode: AddressingMode::ZeroPageIndexedX,
            cycles: 4,
        },
        0xB6 => OpcodeEntry {
            instruction: Instruction::LDX,
            mode: AddressingMode::ZeroPageIndexedY,
            cycles: 4,
        },
        0xB7 => OpcodeEntry {
            instruction: Instruction::NOP,
            mode: AddressingMode::Implicit,
            cycles: 4,
        },
        0xB8 => OpcodeEntry {
            instruction: Instruction::CLV,
            mode: AddressingMode::Implicit,
            cycles: 2,
        },
        0xB9 => OpcodeEntry {
            instruction: Instruction::LDA,
            mode: AddressingMode::AbsoluteIndexedY,
            cycles: 4,
        },
        0xBA => OpcodeEntry {
            instruction: Instruction::TSX,
            mode: AddressingMode::Implicit,
            cycles: 2,
        },
        0xBB => OpcodeEntry {
            instruction: Instruction::NOP,
            mode: AddressingMode::Implicit,
            cycles: 4,
        },
        0xBC => OpcodeEntry {
            instruction: Instruction::LDY,
            mode: AddressingMode::AbsoluteIndexedX,
            cycles: 4,
        },
        0xBD => OpcodeEntry {
            instruction: Instruction::LDA,
            mode: AddressingMode::AbsoluteIndexedX,
            cycles: 4,
        },
        0xBE => OpcodeEntry {
            instruction: Instruction::LDX,
            mode: AddressingMode::AbsoluteIndexedY,
            cycles: 4,
        },
        0xBF => OpcodeEntry {
            instruction: Instruction::NOP,
            mode: AddressingMode::Implicit,
            cycles: 4,
        },
        0xC0 => OpcodeEntry {
            instruction: Instruction::CPY,
            mode: AddressingMode::Immediate,
            cycles: 2,
        },
        0xC1 => OpcodeEntry {
            instruction: Instruction::CMP,
            mode: AddressingMode::IndexedIndirect,
            cycles: 6,
        },
        0xC2 => OpcodeEntry {
            instruction: Instruction::NOP,
            mode: AddressingMode::Implicit,
            cycles: 2,
        },
        0xC3 => OpcodeEntry {
            instruction: Instruction::NOP,
            mode: AddressingMode::Implicit,
            cycles: 8,
        },
        0xC4 => OpcodeEntry {
            instruction: Instruction::CPY,
            mode: AddressingMode::ZeroPage,
            cycles: 3,
        },
        0xC5 => OpcodeEntry {
            instruction: Instruction::CMP,
            mode: AddressingMode::ZeroPage,
            cycles: 3,
        },
        0xC6 => OpcodeEntry {
            instruction: Instruction::DEC,
            mode: AddressingMode::ZeroPage,
            cycles: 5,
        },
        0xC7 => OpcodeEntry {
            instruction: Instruction::NOP,
            mode: AddressingMode::Implicit,
            cycles: 5,
        },
        0xC8 => OpcodeEntry {
            instruction: Instruction::INY,
            mode: AddressingMode::Implicit,
            cycles: 2,
        },
        0xC9 => OpcodeEntry {
            instruction: Instruction::CMP,
            mode: AddressingMode::Immediate,
            cycles: 2,
        },
        0xCA => OpcodeEntry {
            instruction: Instruction::DEX,
            mode: AddressingMode::Implicit,
            cycles: 2,
        },
        0xCB => OpcodeEntry {
            instruction: Instruction::NOP,
            mode: AddressingMode::Implicit,
            cycles: 2,
        },
        0xCC => OpcodeEntry {
            instruction: Instruction::CPY,
            mode: AddressingMode::Absolute,
            cycles: 4,
        },
        0xCD => OpcodeEntry {
            instruction: Instruction::CMP,
            mode: AddressingMode::Absolute,
            cycles: 4,
        },
        0xCE => OpcodeEntry {
            instruction: Instruction::DEC,
            mode: AddressingMode::Absolute,
            cycles: 6,
        },
        0xCF => OpcodeEntry {
            instruction: Instruction::NOP,
            mode: AddressingMode::Implicit,
            cycles: 6,
        },
        0xD0 => OpcodeEntry {
            instruction: Instruction::BNE,
            mode: AddressingMode::Relative,
            cycles: 2,
        },
        0xD1 => OpcodeEntry {
            instruction: Instruction::CMP,
            mode: AddressingMode::IndirectIndexed,
            cycles: 5,
        },
        0xD2 => OpcodeEntry {
            instruction: Instruction::NOP,
            mode: AddressingMode::Implicit,
            cycles: 2,
        },
        0xD3 => OpcodeEntry {
            instruction: Instruction::NOP,
            mode: AddressingMode::Implicit,
            cycles: 8,
        },
        0xD4 => OpcodeEntry {
            instruction: Instruction::NOP,
            mode: AddressingMode::Implicit,
            cycles: 4,
        },
        0xD5 => OpcodeEntry {
            instruction: Instruction::CMP,
            mode: AddressingMode::ZeroPageIndexedX,
            cycles: 4,
        },
        0xD6 => OpcodeEntry {
            instruction: Instruction::DEC,
            mode: AddressingMode::ZeroPageIndexedX,
            cycles: 6,
        },
        0xD7 => OpcodeEntry {
            instruction: Instruction::NOP,
            mode: AddressingMode::Implicit,
            cycles: 6,
        },
        0xD8 => OpcodeEntry {
            instruction: Instruction::CLD,
            mode: AddressingMode::Implicit,
            cycles: 2,
        },
        0xD9 => OpcodeEntry {
            instruction: Instruction::CMP,
            mode: AddressingMode::AbsoluteIndexedY,
            cycles: 4,
        },
        0xDA => OpcodeEntry {
            instruction: Instruction::NOP,
            mode: AddressingMode::Implicit,
            cycles: 2,
        },
        0xDB => OpcodeEntry {
            instruction: Instruction::NOP,
            mode: AddressingMode::Implicit,
            cycles: 7,
        },
        0xDC => OpcodeEntry {
            instruction: Instruction::NOP,
            mode: AddressingMode::Implicit,
            cycles: 4,
        },
        0xDD => OpcodeEntry {
            instruction: Instruction::CMP,
            mode: AddressingMode::AbsoluteIndexedX,
            cycles: 4,
        },
        0xDE => OpcodeEntry {
            instruction: Instruction::DEC,
            mode: AddressingMode::AbsoluteIndexedX,
            cycles: 7,
        },
        0xDF => OpcodeEntry {
            instruction: Instruction::NOP,
            mode: AddressingMode::Implicit,
            cycles: 7,
        },
        0xE0 => OpcodeEntry {
            instruction: Instruction::CPX,
            mode: AddressingMode::Immediate,
            cycles: 2,
        },
        0xE1 => OpcodeEntry {
            instruction: Instruction::SBC,
            mode: AddressingMode::IndexedIndirect,
            cycles: 6,
        },
        0xE2 => OpcodeEntry {
            instruction: Instruction::NOP,
            mode: AddressingMode::Implicit,
            cycles: 2,
        },
        0xE3 => OpcodeEntry {
            instruction: Instruction::NOP,
            mode: AddressingMode::Implicit,
            cycles: 8,
        },
        0xE4 => OpcodeEntry {
            instruction: Instruction::CPX,
            mode: AddressingMode::ZeroPage,
            cycles: 3,
        },
        0xE5 => OpcodeEntry {
            instruction: Instruction::SBC,
            mode: AddressingMode::ZeroPage,
            cycles: 3,
        },
        0xE6 => OpcodeEntry {
            instruction: Instruction::INC,
            mode: AddressingMode::ZeroPage,
            cycles: 5,
        },
        0xE7 => OpcodeEntry {
            instruction: Instruction::NOP,
            mode: AddressingMode::Implicit,
            cycles: 5,
        },
        0xE8 => OpcodeEntry {
            instruction: Instruction::INX,
            mode: AddressingMode::Implicit,
            cycles: 2,
        },
        0xE9 => OpcodeEntry {
            instruction: Instruction::SBC,
            mode: AddressingMode::Immediate,
            cycles: 2,
        },
        0xEA => OpcodeEntry {
            instruction: Instruction::NOP,
            mode: AddressingMode::Implicit,
            cycles: 2,
        },
        0xEB => OpcodeEntry {
            instruction: Instruction::SBC,
            mode: AddressingMode::Implicit,
            cycles: 2,
        },
        0xEC => OpcodeEntry {
            instruction: Instruction::CPX,
            mode: AddressingMode::Absolute,
            cycles: 4,
        },
        0xED => OpcodeEntry {
            instruction: Instruction::SBC,
            mode: AddressingMode::Absolute,
            cycles: 4,
        },
        0xEE => OpcodeEntry {
            instruction: Instruction::INC,
            mode: AddressingMode::Absolute,
            cycles: 6,
        },
        0xEF => OpcodeEntry {
            instruction: Instruction::NOP,
            mode: AddressingMode::Implicit,
            cycles: 6,
        },
        0xF0 => OpcodeEntry {
            instruction: Instruction::BEQ,
            mode: AddressingMode::Relative,
            cycles: 2,
        },
        0xF1 => OpcodeEntry {
            instruction: Instruction::SBC,
            mode: AddressingMode::IndirectIndexed,
            cycles: 5,
        },
        0xF2 => OpcodeEntry {
            instruction: Instruction::NOP,
            mode: AddressingMode::Implicit,
            cycles: 2,
        },
        0xF3 => OpcodeEntry {
            instruction: Instruction::NOP,
            mode: AddressingMode::Implicit,
            cycles: 8,
        },
        0xF4 => OpcodeEntry {
            instruction: Instruction::NOP,
            mode: AddressingMode::Implicit,
            cycles: 4,
        },
        0xF5 => OpcodeEntry {
            instruction: Instruction::SBC,
            mode: AddressingMode::ZeroPageIndexedX,
            cycles: 4,
        },
        0xF6 => OpcodeEntry {
            instruction: Instruction::INC,
            mode: AddressingMode::ZeroPageIndexedX,
            cycles: 6,
        },
        0xF7 => OpcodeEntry {
            instruction: Instruction::NOP,
            mode: AddressingMode::Implicit,
            cycles: 6,
        },
        0xF8 => OpcodeEntry {
            instruction: Instruction::SED,
            mode: AddressingMode::Implicit,
            cycles: 2,
        },
        0xF9 => OpcodeEntry {
            instruction: Instruction::SBC,
            mode: AddressingMode::AbsoluteIndexedY,
            cycles: 4,
        },
        0xFA => OpcodeEntry {
            instruction: Instruction::NOP,
            mode: AddressingMode::Implicit,
            cycles: 2,
        },
        0xFB => OpcodeEntry {
            instruction: Instruction::NOP,
            mode: AddressingMode::Implicit,
            cycles: 7,
        },
        0xFC => OpcodeEntry {
            instruction: Instruction::NOP,
            mode: AddressingMode::Implicit,
            cycles: 4,
        },
        0xFD => OpcodeEntry {
            instruction: Instruction::SBC,
            mode: AddressingMode::AbsoluteIndexedX,
            cycles: 4,
        },
        0xFE => OpcodeEntry {
            instruction: Instruction::INC,
            mode: AddressingMode::AbsoluteIndexedX,
            cycles: 7,
        },
        _ => OpcodeEntry {
            instruction: Instruction::NOP,
            mode: AddressingMode::Implicit,
            cycles: 7,
        },
    }
}

/// Looks an opcode byte up in the table.
pub fn opcode_entry(op: u8) -> (r: OpcodeEntry)
    ensures
        r == spec_opcode_entry(op),
{
    proof {
        reveal(spec_opcode_entry);
    }
    match op {
        0x00 => OpcodeEntry {
            instruction: Instruction::BRK,
            mode: AddressingMode::Immediate,
            cycles: 7,
        },
        0x01 => OpcodeEntry {
            instruction: Instruction::ORA,
            mode: AddressingMode::IndexedIndirect,
            cycles: 6,
        },
        0x02 => OpcodeEntry {
            instruction: Instruction::NOP,
            mode: AddressingMode::Implicit,
            cycles: 2,
        },
        0x03 => OpcodeEntry {
            instruction: Instruction::NOP,
            mode: AddressingMode::Implicit,
            cycles: 8,
        },
        0x04 => OpcodeEntry {
            instruction: Instruction::NOP,
            mode: AddressingMode::Implicit,
            cycles: 3,
        },
        0x05 => OpcodeEntry {
            instruction: Instruction::ORA,
            mode: AddressingMode::ZeroPage,
            cycles: 3,
        },
        0x06 => OpcodeEntry {
            instruction: Instruction::ASL,
            mode: AddressingMode::ZeroPage,
            cycles: 5,
        },
        0x07 => OpcodeEntry {
            instruction: Instruction::NOP,
            mode: AddressingMode::Implicit,
            cycles: 5,
        },
        0x08 => OpcodeEntry {
            instruction: Instruction::PHP,
            mode: AddressingMode::Implicit,
            cycles: 3,
        },
        0x09 => OpcodeEntry {
            instruction: Instruction::ORA,
            mode: AddressingMode::Immediate,
            cycles: 2,
        },
        0x0A => OpcodeEntry {
            instruction: Instruction::ASL,
            mode: AddressingMode::Accumulator,
            cycles: 2,
        },
        0x0B => OpcodeEntry {
            instruction: Instruction::NOP,
            mode: AddressingMode::Implicit,
            cycles: 2,
        },
        0x0C => OpcodeEntry {
            instruction: Instruction::NOP,
            mode: AddressingMode::Implicit,
            cycles: 4,
        },
        0x0D => OpcodeEntry {
            instruction: Instruction::ORA,
            mode: AddressingMode::Absolute,
            cycles: 4,
        },
        0x0E => OpcodeEntry {
            instruction: Instruction::ASL,
            mode: AddressingMode::Absolute,
            cycles: 6,
        },
        0x0F => OpcodeEntry {
            instruction: Instruction::NOP,
            mode: AddressingMode::Implicit,
            cycles: 6,
        },
        0x10 => OpcodeEntry {
            instruction: Instruction::BPL,
            mode: AddressingMode::Relative,
            cycles: 2,
        },
        0x11 => OpcodeEntry {
            instruction: Instruction::ORA,
            mode: AddressingMode::IndirectIndexed,
            cycles: 5,
        },
        0x12 => OpcodeEntry {
            instruction: Instruction::NOP,
            mode: AddressingMode::Implicit,
            cycles: 2,
        },
        0x13 => OpcodeEntry {
            instruction: Instruction::NOP,
            mode: AddressingMode::Implicit,
            cycles: 8,
        },
        0x14 => OpcodeEntry {
            instruction: Instruction::NOP,
            mode: AddressingMode::Implicit,
            cycles: 4,
        },
        0x15 => OpcodeEntry {
            instruction: Instruction::ORA,
            mode: AddressingMode::ZeroPageIndexedX,
            cycles: 4,
        },
        0x16 => OpcodeEntry {
            instruction: Instruction::ASL,
            mode: AddressingMode::ZeroPageIndexedX,
            cycles: 6,
        },
        0x17 => OpcodeEntry {
            instruction: Instruction::NOP,
            mode: AddressingMode::Implicit,
            cycles: 6,
        },
        0x18 => OpcodeEntry {
            instruction: Instruction::CLC,
            mode: AddressingMode::Implicit,
            cycles: 2,
        },
        0x19 => OpcodeEntry {
            instruction: Instruction::ORA,
            mode: AddressingMode::AbsoluteIndexedY,
            cycles: 4,
        },
        0x1A => OpcodeEntry {
            instruction: Instruction::NOP,
            mode: AddressingMode::Implicit,
            cycles: 2,
        },
        0x1B => OpcodeEntry {
            instruction: Instruction::NOP,
            mode: AddressingMode::Implicit,
            cycles: 7,
        },
        0x1C => OpcodeEntry {
            instruction: Instruction::NOP,
            mode: AddressingMode::Implicit,
            cycles: 4,
        },
        0x1D => OpcodeEntry {
            instruction: Instruction::ORA,
            mode: AddressingMode::AbsoluteIndexedX,
            cycles: 4,
        },
        0x1E => OpcodeEntry {
            instruction: Instruction::ASL,
            mode: AddressingMode::AbsoluteIndexedX,
            cycles: 7,
        },
        0x1F => OpcodeEntry {
            instruction: Instruction::NOP,
            mode: AddressingMode::Implicit,
            cycles: 7,
        },
        0x20 => OpcodeEntry {
            instruction: Instruction::JSR,
            mode: AddressingMode::Absolute,
            cycles: 6,
        },
        0x21 => OpcodeEntry {
            instruction: Instruction::AND,
            mode: AddressingMode::IndexedIndirect,
            cycles: 6,
        },
        0x22 => OpcodeEntry {
            instruction: Instruction::NOP,
            mode: AddressingMode::Implicit,
            cycles: 2,
        },
        0x23 => OpcodeEntry {
            instruction: Instruction::NOP,
            mode: AddressingMode::Implicit,
            cycles: 8,
        },
        0x24 => OpcodeEntry {
            instruction: Instruction::BIT,
            mode: AddressingMode::ZeroPage,
            cycles: 3,
        },
        0x25 => OpcodeEntry {
            instruction: Instruction::AND,
            mode: AddressingMode::ZeroPage,
            cycles: 3,
        },
        0x26 => OpcodeEntry {
            instruction: Instruction::ROL,
            mode: AddressingMode::ZeroPage,
            cycles: 5,
        },
        0x27 => OpcodeEntry {
            instruction: Instruction::NOP,
            mode: AddressingMode::Implicit,
            cycles: 5,
        },
        0x28 => OpcodeEntry {
            instruction: Instruction::PLP,
            mode: AddressingMode::Implicit,
            cycles: 4,
        },
        0x29 => OpcodeEntry {
            instruction: Instruction::AND,
            mode: AddressingMode::Immediate,
            cycles: 2,
        },
        0x2A => OpcodeEntry {
            instruction: Instruction::ROL,
            mode: AddressingMode::Accumulator,
            cycles: 2,
        },
        0x2B => OpcodeEntry {
            instruction: Instruction::NOP,
            mode: AddressingMode::Implicit,
            cycles: 2,
        },
        0x2C => OpcodeEntry {
            instruction: Instruction::BIT,
            mode: AddressingMode::Absolute,
            cycles: 4,
        },
        0x2D => OpcodeEntry {
            instruction: Instruction::AND,
            mode: AddressingMode::Absolute,
            cycles: 4,
        },
        0x2E => OpcodeEntry {
            instruction: Instruction::ROL,
            mode: AddressingMode::Absolute,
            cycles: 6,
        },
        0x2F => OpcodeEntry {
            instruction: Instruction::NOP,
            mode: AddressingMode::Implicit,
            cycles: 6,
        },
        0x30 => OpcodeEntry {
            instruction: Instruction::BMI,
            mode: AddressingMode::Relative,
            cycles: 2,
        },
        0x31 => OpcodeEntry {
            instruction: Instruction::AND,
            mode: AddressingMode::IndirectIndexed,
            cycles: 5,
        },
        0x32 => OpcodeEntry {
            instruction: Instruction::NOP,
            mode: AddressingMode::Implicit,
            cycles: 2,
        },
        0x33 => OpcodeEntry {
            instruction: Instruction::NOP,
            mode: AddressingMode::Implicit,
            cycles: 8,
        },
        0x34 => OpcodeEntry {
            instruction: Instruction::NOP,
            mode: AddressingMode::Implicit,
            cycles: 4,
        },
        0x35 => OpcodeEntry {
            instruction: Instruction::AND,
            mode: AddressingMode::ZeroPageIndexedX,
            cycles: 4,
        },
        0x36 => OpcodeEntry {
            instruction: Instruction::ROL,
            mode: AddressingMode::ZeroPageIndexedX,
            cycles: 6,
        },
        0x37 => OpcodeEntry {
            instruction: Instruction::NOP,
            mode: AddressingMode::Implicit,
            cycles: 6,
        },
        0x38 => OpcodeEntry {
            instruction: Instruction::SEC,
            mode: AddressingMode::Implicit,
            cycles: 2,
        },
        0x39 => OpcodeEntry {
            instruction: Instruction::AND,
            mode: AddressingMode::AbsoluteIndexedY,
            cycles: 4,
        },
        0x3A => OpcodeEntry {
            instruction: Instruction::NOP,
            mode: AddressingMode::Implicit,
            cycles: 2,
        },
        0x3B => OpcodeEntry {
            instruction: Instruction::NOP,
            mode: AddressingMode::Implicit,
            cycles: 7,
        },
        0x3C => OpcodeEntry {
            instruction: Instruction::NOP,
            mode: AddressingMode::Implicit,
            cycles: 4,
        },
        0x3D => OpcodeEntry {
            instruction: Instruction::AND,
            mode: AddressingMode::AbsoluteIndexedX,
            cycles: 4,
        },
        0x3E => OpcodeEntry {
            instruction: Instruction::ROL,
            mode: AddressingMode::AbsoluteIndexedX,
            cycles: 7,
        },
        0x3F => OpcodeEntry {
            instruction: Instruction::NOP,
            mode: AddressingMode::Implicit,
            cycles: 7,
        },
        0x40 => OpcodeEntry {
            instruction: Instruction::RTI,
            mode: AddressingMode::Implicit,
            cycles: 6,
        },
        0x41 => OpcodeEntry {
            instruction: Instruction::EOR,
            mode: AddressingMode::IndexedIndirect,
            cycles: 6,
        },
        0x42 => OpcodeEntry {
            instruction: Instruction::NOP,
            mode: AddressingMode::Implicit,
            cycles: 2,
        },
        0x43 => OpcodeEntry {
            instruction: Instruction::NOP,
            mode: AddressingMode::Implicit,
            cycles: 8,
        },
        0x44 => OpcodeEntry {
            instruction: Instruction::NOP,
            mode: AddressingMode::Implicit,
            cycles: 3,
        },
        0x45 => OpcodeEntry {
            instruction: Instruction::EOR,
            mode: AddressingMode::ZeroPage,
            cycles: 3,
        },
        0x46 => OpcodeEntry {
            instruction: Instruction::LSR,
            mode: AddressingMode::ZeroPage,
            cycles: 5,
        },
        0x47 => OpcodeEntry {
            instruction: Instruction::NOP,
            mode: AddressingMode::Implicit,
            cycles: 5,
        },
        0x48 => OpcodeEntry {
            instruction: Instruction::PHA,
            mode: AddressingMode::Implicit,
            cycles: 3,
        },
        0x49 => OpcodeEntry {
            instruction: Instruction::EOR,
            mode: AddressingMode::Immediate,
            cycles: 2,
        },
        0x4A => OpcodeEntry {
            instruction: Instruction::LSR,
            mode: AddressingMode::Accumulator,
            cycles: 2,
        },
        0x4B => OpcodeEntry {
            instruction: Instruction::NOP,
            mode: AddressingMode::Implicit,
            cycles: 2,
        },
        0x4C => OpcodeEntry {
            instruction: Instruction::JMP,
            mode: AddressingMode::Absolute,
            cycles: 3,
        },
        0x4D => OpcodeEntry {
            instruction: Instruction::EOR,
            mode: AddressingMode::Absolute,
            cycles: 4,
        },
        0x4E => OpcodeEntry {
            instruction: Instruction::LSR,
            mode: AddressingMode::Absolute,
            cycles: 6,
        },
        0x4F => OpcodeEntry {
            instruction: Instruction::NOP,
            mode: AddressingMode::Implicit,
            cycles: 6,
        },
        0x50 => OpcodeEntry {
            instruction: Instruction::BVC,
            mode: AddressingMode::Relative,
            cycles: 2,
        },
        0x51 => OpcodeEntry {
            instruction: Instruction::EOR,
            mode: AddressingMode::IndirectIndexed,
            cycles: 5,
        },
        0x52 => OpcodeEntry {
            instruction: Instruction::NOP,
            mode: AddressingMode::Implicit,
            cycles: 2,
        },
        0x53 => OpcodeEntry {
            instruction: Instruction::NOP,
            mode: AddressingMode::Implicit,
            cycles: 8,
        },
        0x54 => OpcodeEntry {
            instruction: Instruction::NOP,
            mode: AddressingMode::Implicit,
            cycles: 4,
        },
        0x55 => OpcodeEntry {
            instruction: Instruction::EOR,
            mode: AddressingMode::ZeroPageIndexedX,
            cycles: 4,
        },
        0x56 => OpcodeEntry {
            instruction: Instruction::LSR,
            mode: AddressingMode::ZeroPageIndexedX,
            cycles: 6,
        },
        0x57 => OpcodeEntry {
            instruction: Instruction::NOP,
            mode: AddressingMode::Implicit,
            cycles: 6,
        },
        0x58 => OpcodeEntry {
            instruction: Instruction::CLI,
            mode: AddressingMode::Implicit,
            cycles: 2,
        },
        0x59 => OpcodeEntry {
            instruction: Instruction::EOR,
            mode: AddressingMode::AbsoluteIndexedY,
            cycles: 4,
        },
        0x5A => OpcodeEntry {
            instruction: Instruction::NOP,
            mode: AddressingMode::Implicit,
            cycles: 2,
        },
        0x5B => OpcodeEntry {
            instruction: Instruction::NOP,
            mode: AddressingMode::Implicit,
            cycles: 7,
        },
        0x5C => OpcodeEntry {
            instruction: Instruction::NOP,
            mode: AddressingMode::Implicit,
            cycles: 4,
        },
        0x5D => OpcodeEntry {
            instruction: Instruction::EOR,
            mode: AddressingMode::AbsoluteIndexedX,
            cycles: 4,
        },
        0x5E => OpcodeEntry {
            instruction: Instruction::LSR,
            mode: AddressingMode::AbsoluteIndexedX,
            cycles: 7,
        },
        0x5F => OpcodeEntry {
            instruction: Instruction::NOP,
            mode: AddressingMode::Implicit,
            cycles: 7,
        },
        0x60 => OpcodeEntry {
            instruction: Instruction::RTS,
            mode: AddressingMode::Implicit,
            cycles: 6,
        },
        0x61 => OpcodeEntry {
            instruction: Instruction::ADC,
            mode: AddressingMode::IndexedIndirect,
            cycles: 6,
        },
        0x62 => OpcodeEntry {
            instruction: Instruction::NOP,
            mode: AddressingMode::Implicit,
            cycles: 2,
        },
        0x63 => OpcodeEntry {
            instruction: Instruction::NOP,
            mode: AddressingMode::Implicit,
            cycles: 8,
        },
        0x64 => OpcodeEntry {
            instruction: Instruction::NOP,
            mode: AddressingMode::Implicit,
            cycles: 3,
        },
        0x65 => OpcodeEntry {
            instruction: Instruction::ADC,
            mode: AddressingMode::ZeroPage,
            cycles: 3,
        },
        0x66 => OpcodeEntry {
            instruction: Instruction::ROR,
            mode: AddressingMode::ZeroPage,
            cycles: 5,
        },
        0x67 => OpcodeEntry {
            instruction: Instruction::NOP,
            mode: AddressingMode::Implicit,
            cycles: 5,
        },
        0x68 => OpcodeEntry {
            instruction: Instruction::PLA,
            mode: AddressingMode::Implicit,
            cycles: 4,
        },
        0x69 => OpcodeEntry {
            instruction: Instruction::ADC,
            mode: AddressingMode::Immediate,
            cycles: 2,
        },
        0x6A => OpcodeEntry {
            instruction: Instruction::ROR,
            mode: AddressingMode::Accumulator,
            cycles: 2,
        },
        0x6B => OpcodeEntry {
            instruction: Instruction::NOP,
            mode: AddressingMode::Implicit,
            cycles: 2,
        },
        0x6C => OpcodeEntry {
            instruction: Instruction::JMP,
            mode: AddressingMode::Indirect,
            cycles: 5,
        },
        0x6D => OpcodeEntry {
            instruction: Instruction::ADC,
            mode: AddressingMode::Absolute,
            cycles: 4,
        },
        0x6E => OpcodeEntry {
            instruction: Instruction::ROR,
            mode: AddressingMode::Absolute,
            cycles: 6,
        },
        0x6F => OpcodeEntry {
            instruction: Instruction::NOP,
            mode: AddressingMode::Implicit,
            cycles: 6,
        },
        0x70 => OpcodeEntry {
            instruction: Instruction::BVS,
            mode: AddressingMode::Relative,
            cycles: 2,
        },
        0x71 => OpcodeEntry {
            instruction: Instruction::ADC,
            mode: AddressingMode::IndirectIndexed,
            cycles: 5,
        },
        0x72 => OpcodeEntry {
            instruction: Instruction::NOP,
            mode: AddressingMode::Implicit,
            cycles: 2,
        },
        0x73 => OpcodeEntry {
            instruction: Instruction::NOP,
            mode: AddressingMode::Implicit,
            cycles: 8,
        },
        0x74 => OpcodeEntry {
            instruction: Instruction::NOP,
            mode: AddressingMode::Implicit,
            cycles: 4,
        },
        0x75 => OpcodeEntry {
            instruction: Instruction::ADC,
            mode: AddressingMode::ZeroPageIndexedX,
            cycles: 4,
        },
        0x76 => OpcodeEntry {
            instruction: Instruction::ROR,
            mode: AddressingMode::ZeroPageIndexedX,
            cycles: 6,
        },
        0x77 => OpcodeEntry {
            instruction: Instruction::NOP,
            mode: AddressingMode::Implicit,
            cycles: 6,
        },
        0x78 => OpcodeEntry {
            instruction: Instruction::SEI,
            mode: AddressingMode::Implicit,
            cycles: 2,
        },
        0x79 => OpcodeEntry {
            instruction: Instruction::ADC,
            mode: AddressingMode::AbsoluteIndexedY,
            cycles: 4,
        },
        0x7A => OpcodeEntry {
            instruction: Instruction::NOP,
            mode: AddressingMode::Implicit,
            cycles: 2,
        },
        0x7B => OpcodeEntry {
            instruction: Instruction::NOP,
            mode: AddressingMode::Implicit,
            cycles: 7,
        },
        0x7C => OpcodeEntry {
            instruction: Instruction::NOP,
            mode: AddressingMode::Implicit,
            cycles: 4,
        },
        0x7D => OpcodeEntry {
            instruction: Instruction::ADC,
            mode: AddressingMode::AbsoluteIndexedX,
            cycles: 4,
        },
        0x7E => OpcodeEntry {
            instruction: Instruction::ROR,
            mode: AddressingMode::AbsoluteIndexedX,
            cycles: 7,
        },
        0x7F => OpcodeEntry {
            instruction: Instruction::NOP,
            mode: AddressingMode::Implicit,
            cycles: 7,
        },
        0x80 => OpcodeEntry {
            instruction: Instruction::NOP,
            mode: AddressingMode::Implicit,
            cycles: 2,
        },
        0x81 => OpcodeEntry {
            instruction: Instruction::STA,
            mode: AddressingMode::IndexedIndirect,
            cycles: 6,
        },
        0x82 => OpcodeEntry {
            instruction: Instruction::NOP,
            mode: AddressingMode::Implicit,
            cycles: 2,
        },
        0x83 => OpcodeEntry {
            instruction: Instruction::NOP,
            mode: AddressingMode::Implicit,
            cycles: 6,
        },
        0x84 => OpcodeEntry {
            instruction: Instruction::STY,
            mode: AddressingMode::ZeroPage,
            cycles: 3,
        },
        0x85 => OpcodeEntry {
            instruction: Instruction::STA,
            mode: AddressingMode::ZeroPage,
            cycles: 3,
        },
        0x86 => OpcodeEntry {
            instruction: Instruction::STX,
            mode: AddressingMode::ZeroPage,
            cycles: 3,
        },
        0x87 => OpcodeEntry {
            instruction: Instruction::NOP,
            mode: AddressingMode::Implicit,
            cycles: 3,
        },
        0x88 => OpcodeEntry {
            instruction: Instruction::DEY,
            mode: AddressingMode::Implicit,
            cycles: 2,
        },
        0x89 => OpcodeEntry {
            instruction: Instruction::NOP,
            mode: AddressingMode::Implicit,
            cycles: 2,
        },
        0x8A => OpcodeEntry {
            instruction: Instruction::TXA,
            mode: AddressingMode::Implicit,
            cycles: 2,
        },
        0x8B => OpcodeEntry {
            instruction: Instruction::NOP,
            mode: AddressingMode::Implicit,
            cycles: 2,
        },
        0x8C => OpcodeEntry {
            instruction: Instruction::STY,
            mode: AddressingMode::Absolute,
            cycles: 4,
        },
        0x8D => OpcodeEntry {
            instruction: Instruction::STA,
            mode: AddressingMode::Absolute,
            cycles: 4,
        },
        0x8E => OpcodeEntry {
            instruction: Instruction::STX,
            mode: AddressingMode::Absolute,
            cycles: 4,
        },
        0x8F => OpcodeEntry {
            instruction: Instruction::NOP,
            mode: AddressingMode::Implicit,
            cycles: 4,
        },
        0x90 => OpcodeEntry {
            instruction: Instruction::BCC,
            mode: AddressingMode::Relative,
            cycles: 2,
        },
        0x91 => OpcodeEntry {
            instruction: Instruction::STA,
            mode: AddressingMode::IndirectIndexed,
            cycles: 6,
        },
        0x92 => OpcodeEntry {
            instruction: Instruction::NOP,
            mode: AddressingMode::Implicit,
            cycles: 2,
        },
        0x93 => OpcodeEntry {
            instruction: Instruction::NOP,
            mode: AddressingMode::Implicit,
            cycles: 6,
        },
        0x94 => OpcodeEntry {
            instruction: Instruction::STY,
            mode: AddressingMode::ZeroPageIndexedX,
            cycles: 4,
        },
        0x95 => OpcodeEntry {
            instruction: Instruction::STA,
            mode: AddressingMode::ZeroPageIndexedX,
            cycles: 4,
        },
        0x96 => OpcodeEntry {
            instruction: Instruction::STX,
            mode: AddressingMode::ZeroPageIndexedY,
            cycles: 4,
        },
        0x97 => OpcodeEntry {
            instruction: Instruction::NOP,
            mode: AddressingMode::Implicit,
            cycles: 4,
        },
        0x98 => OpcodeEntry {
            instruction: Instruction::TYA,
            mode: AddressingMode::Implicit,
            cycles: 2,
        },
        0x99 => OpcodeEntry {
            instruction: Instruction::STA,
            mode: AddressingMode::AbsoluteIndexedY,
            cycles: 5,
        },
        0x9A => OpcodeEntry {
            instruction: Instruction::TXS,
            mode: AddressingMode::Implicit,
            cycles: 2,
        },
        0x9B => OpcodeEntry {
            instruction: Instruction::NOP,
            mode: AddressingMode::Implicit,
            cycles: 5,
        },
        0x9C => OpcodeEntry {
            instruction: Instruction::NOP,
            mode: AddressingMode::Implicit,
            cycles: 5,
        },
        0x9D => OpcodeEntry {
            instruction: Instruction::STA,
            mode: AddressingMode::AbsoluteIndexedX,
            cycles: 5,
        },
        0x9E => OpcodeEntry {
            instruction: Instruction::NOP,
            mode: AddressingMode::Implicit,
            cycles: 5,
        },
        0x9F => OpcodeEntry {
            instruction: Instruction::NOP,
            mode: AddressingMode::Implicit,
            cycles: 5,
        },
        0xA0 => OpcodeEntry {
            instruction: Instruction::LDY,
            mode: AddressingMode::Immediate,
            cycles: 2,
        },
        0xA1 => OpcodeEntry {
            instruction: Instruction::LDA,
            mode: AddressingMode::IndexedIndirect,
            cycles: 6,
        },
        0xA2 => OpcodeEntry {
            instruction: Instruction::LDX,
            mode: AddressingMode::Immediate,
            cycles: 2,
        },
        0xA3 => OpcodeEntry {
            instruction: Instruction::NOP,
            mode: AddressingMode::Implicit,
            cycles: 6,
        },
        0xA4 => OpcodeEntry {
            instruction: Instruction::LDY,
            mode: AddressingMode::ZeroPage,
            cycles: 3,
        },
        0xA5 => OpcodeEntry {
            instruction: Instruction::LDA,
            mode: AddressingMode::ZeroPage,
            cycles: 3,
        },
        0xA6 => OpcodeEntry {
            instruction: Instruction::LDX,
            mode: AddressingMode::ZeroPage,
            cycles: 3,
        },
        0xA7 => OpcodeEntry {
            instruction: Instruction::NOP,
            mode: AddressingMode::Implicit,
            cycles: 3,
        },
        0xA8 => OpcodeEntry {
            instruction: Instruction::TAY,
            mode: AddressingMode::Implicit,
            cycles: 2,
        },
        0xA9 => OpcodeEntry {
            instruction: Instruction::LDA,
            mode: AddressingMode::Immediate,
            cycles: 2,
        },
        0xAA => OpcodeEntry {
            instruction: Instruction::TAX,
            mode: AddressingMode::Implicit,
            cycles: 2,
        },
        0xAB => OpcodeEntry {
            instruction: Instruction::NOP,
            mode: AddressingMode::Implicit,
            cycles: 2,
        },
        0xAC => OpcodeEntry {
            instruction: Instruction::LDY,
            mode: AddressingMode::Absolute,
            cycles: 4,
        },
        0xAD => OpcodeEntry {
            instruction: Instruction::LDA,
            mode: AddressingMode::Absolute,
            cycles: 4,
        },
        0xAE => OpcodeEntry {
            instruction: Instruction::LDX,
            mode: AddressingMode::Absolute,
            cycles: 4,
        },
        0xAF => OpcodeEntry {
            instruction: Instruction::NOP,
            mode: AddressingMode::Implicit,
            cycles: 4,
        },
        0xB0 => OpcodeEntry {
            instruction: Instruction::BCS,
            mode: AddressingMode::Relative,
            cycles: 2,
        },
        0xB1 => OpcodeEntry {
            instruction: Instruction::LDA,
            mode: AddressingMode::IndirectIndexed,
            cycles: 5,
        },
        0xB2 => OpcodeEntry {
            instruction: Instruction::NOP,
            mode: AddressingMode::Implicit,
            cycles: 2,
        },
        0xB3 => OpcodeEntry {
            instruction: Instruction::NOP,
            mode: AddressingMode::Implicit,
            cycles: 5,
        },
        0xB4 => OpcodeEntry {
            instruction: Instruction::LDY,
            mode: AddressingMode::ZeroPageIndexedX,
            cycles: 4,
        },
        0xB5 => OpcodeEntry {
            instruction: Instruction::LDA,
            mode: AddressingMode::ZeroPageIndexedX,
            cycles: 4,
        },
        0xB6 => OpcodeEntry {
            instruction: Instruction::LDX,
            mode: AddressingMode::ZeroPageIndexedY,
            cycles: 4,
        },
        0xB7 => OpcodeEntry {
            instruction: Instruction::NOP,
            mode: AddressingMode::Implicit,
            cycles: 4,
        },
        0xB8 => OpcodeEntry {
            instruction: Instruction::CLV,
            mode: AddressingMode::Implicit,
            cycles: 2,
        },
        0xB9 => OpcodeEntry {
            instruction: Instruction::LDA,
            mode: AddressingMode::AbsoluteIndexedY,
            cycles: 4,
        },
        0xBA => OpcodeEntry {
            instruction: Instruction::TSX,
            mode: AddressingMode::Implicit,
            cycles: 2,
        },
        0xBB => OpcodeEntry {
            instruction: Instruction::NOP,
            mode: AddressingMode::Implicit,
            cycles: 4,
        },
        0xBC => OpcodeEntry {
            instruction: Instruction::LDY,
            mode: AddressingMode::AbsoluteIndexedX,
            cycles: 4,
        },
        0xBD => OpcodeEntry {
            instruction: Instruction::LDA,
            mode: AddressingMode::AbsoluteIndexedX,
            cycles: 4,
        },
        0xBE => OpcodeEntry {
            instruction: Instruction::LDX,
            mode: AddressingMode::AbsoluteIndexedY,
            cycles: 4,
        },
        0xBF => OpcodeEntry {
            instruction: Instruction::NOP,
            mode: AddressingMode::Implicit,
            cycles: 4,
        },
        0xC0 => OpcodeEntry {
            instruction: Instruction::CPY,
            mode: AddressingMode::Immediate,
            cycles: 2,
        },
        0xC1 => OpcodeEntry {
            instruction: Instruction::CMP,
            mode: AddressingMode::IndexedIndirect,
            cycles: 6,
        },
        0xC2 => OpcodeEntry {
            instruction: Instruction::NOP,
            mode: AddressingMode::Implicit,
            cycles: 2,
        },
        0xC3 => OpcodeEntry {
            instruction: Instruction::NOP,
            mode: AddressingMode::Implicit,
            cycles: 8,
        },
        0xC4 => OpcodeEntry {
            instruction: Instruction::CPY,
            mode: AddressingMode::ZeroPage,
            cycles: 3,
        },
        0xC5 => OpcodeEntry {
            instruction: Instruction::CMP,
            mode: AddressingMode::ZeroPage,
            cycles: 3,
        },
        0xC6 => OpcodeEntry {
            instruction: Instruction::DEC,
            mode: AddressingMode::ZeroPage,
            cycles: 5,
        },
        0xC7 => OpcodeEntry {
            instruction: Instruction::NOP,
            mode: AddressingMode::Implicit,
            cycles: 5,
        },
        0xC8 => OpcodeEntry {
            instruction: Instruction::INY,
            mode: AddressingMode::Implicit,
            cycles: 2,
        },
        0xC9 => OpcodeEntry {
            instruction: Instruction::CMP,
            mode: AddressingMode::Immediate,
            cycles: 2,
        },
        0xCA => OpcodeEntry {
            instruction: Instruction::DEX,
            mode: AddressingMode::Implicit,
            cycles: 2,
        },
        0xCB => OpcodeEntry {
            instruction: Instruction::NOP,
            mode: AddressingMode::Implicit,
            cycles: 2,
        },
        0xCC => OpcodeEntry {
            instruction: Instruction::CPY,
            mode: AddressingMode::Absolute,
            cycles: 4,
        },
        0xCD => OpcodeEntry {
            instruction: Instruction::CMP,
            mode: AddressingMode::Absolute,
            cycles: 4,
        },
        0xCE => OpcodeEntry {
            instruction: Instruction::DEC,
            mode: AddressingMode::Absolute,
            cycles: 6,
        },
        0xCF => OpcodeEntry {
            instruction: Instruction::NOP,
            mode: AddressingMode::Implicit,
            cycles: 6,
        },
        0xD0 => OpcodeEntry {
            instruction: Instruction::BNE,
            mode: AddressingMode::Relative,
            cycles: 2,
        },
        0xD1 => OpcodeEntry {
            instruction: Instruction::CMP,
            mode: AddressingMode::IndirectIndexed,
            cycles: 5,
        },
        0xD2 => OpcodeEntry {
            instruction: Instruction::NOP,
            mode: AddressingMode::Implicit,
            cycles: 2,
        },
        0xD3 => OpcodeEntry {
            instruction: Instruction::NOP,
            mode: AddressingMode::Implicit,
            cycles: 8,
        },
        0xD4 => OpcodeEntry {
            instruction: Instruction::NOP,
            mode: AddressingMode::Implicit,
            cycles: 4,
        },
        0xD5 => OpcodeEntry {
            instruction: Instruction::CMP,
            mode: AddressingMode::ZeroPageIndexedX,
            cycles: 4,
        },
        0xD6 => OpcodeEntry {
            instruction: Instruction::DEC,
            mode: AddressingMode::ZeroPageIndexedX,
            cycles: 6,
        },
        0xD7 => OpcodeEntry {
            instruction: Instruction::NOP,
            mode: AddressingMode::Implicit,
            cycles: 6,
        },
        0xD8 => OpcodeEntry {
            instruction: Instruction::CLD,
            mode: AddressingMode::Implicit,
            cycles: 2,
        },
        0xD9 => OpcodeEntry {
            instruction: Instruction::CMP,
            mode: AddressingMode::AbsoluteIndexedY,
            cycles: 4,
        },
        0xDA => OpcodeEntry {
            instruction: Instruction::NOP,
            mode: AddressingMode::Implicit,
            cycles: 2,
        },
        0xDB => OpcodeEntry {
            instruction: Instruction::NOP,
            mode: AddressingMode::Implicit,
            cycles: 7,
        },
        0xDC => OpcodeEntry {
            instruction: Instruction::NOP,
            mode: AddressingMode::Implicit,
            cycles: 4,
        },
        0xDD => OpcodeEntry {
            instruction: Instruction::CMP,
            mode: AddressingMode::AbsoluteIndexedX,
            cycles: 4,
        },
        0xDE => OpcodeEntry {
            instruction: Instruction::DEC,
            mode: AddressingMode::AbsoluteIndexedX,
            cycles: 7,
        },
        0xDF => OpcodeEntry {
            instruction: Instruction::NOP,
            mode: AddressingMode::Implicit,
            cycles: 7,
        },
        0xE0 => OpcodeEntry {
            instruction: Instruction::CPX,
            mode: AddressingMode::Immediate,
            cycles: 2,
        },
        0xE1 => OpcodeEntry {
            instruction: Instruction::SBC,
            mode: AddressingMode::IndexedIndirect,
            cycles: 6,
        },
        0xE2 => OpcodeEntry {
            instruction: Instruction::NOP,
            mode: AddressingMode::Implicit,
            cycles: 2,
        },
        0xE3 => OpcodeEntry {
            instruction: Instruction::NOP,
            mode: AddressingMode::Implicit,
            cycles: 8,
        },
        0xE4 => OpcodeEntry {
            instruction: Instruction::CPX,
            mode: AddressingMode::ZeroPage,
            cycles: 3,
        },
        0xE5 => OpcodeEntry {
            instruction: Instruction::SBC,
            mode: AddressingMode::ZeroPage,
            cycles: 3,
        },
        0xE6 => OpcodeEntry {
            instruction: Instruction::INC,
            mode: AddressingMode::ZeroPage,
            cycles: 5,
        },
        0xE7 => OpcodeEntry {
            instruction: Instruction::NOP,
            mode: AddressingMode::Implicit,
            cycles: 5,
        },
        0xE8 => OpcodeEntry {
            instruction: Instruction::INX,
            mode: AddressingMode::Implicit,
            cycles: 2,
        },
        0xE9 => OpcodeEntry {
            instruction: Instruction::SBC,
            mode: AddressingMode::Immediate,
            cycles: 2,
        },
        0xEA => OpcodeEntry {
            instruction: Instruction::NOP,
            mode: AddressingMode::Implicit,
            cycles: 2,
        },
        0xEB => OpcodeEntry {
            instruction: Instruction::SBC,
            mode: AddressingMode::Implicit,
            cycles: 2,
        },
        0xEC => OpcodeEntry {
            instruction: Instruction::CPX,
            mode: AddressingMode::Absolute,
            cycles: 4,
        },
        0xED => OpcodeEntry {
            instruction: Instruction::SBC,
            mode: AddressingMode::Absolute,
            cycles: 4,
        },
        0xEE => OpcodeEntry {
            instruction: Instruction::INC,
            mode: AddressingMode::Absolute,
            cycles: 6,
        },
        0xEF => OpcodeEntry {
            instruction: Instruction::NOP,
            mode: AddressingMode::Implicit,
            cycles: 6,
        },
        0xF0 => OpcodeEntry {
            instruction: Instruction::BEQ,
            mode: AddressingMode::Relative,
            cycles: 2,
        },
        0xF1 => OpcodeEntry {
            instruction: Instruction::SBC,
            mode: AddressingMode::IndirectIndexed,
            cycles: 5,
        },
        0xF2 => OpcodeEntry {
            instruction: Instruction::NOP,
            mode: AddressingMode::Implicit,
            cycles: 2,
        },
        0xF3 => OpcodeEntry {
            instruction: Instruction::NOP,
            mode: AddressingMode::Implicit,
            cycles: 8,
        },
        0xF4 => OpcodeEntry {
            instruction: Instruction::NOP,
            mode: AddressingMode::Implicit,
            cycles: 4,
        },
        0xF5 => OpcodeEntry {
            instruction: Instruction::SBC,
            mode: AddressingMode::ZeroPageIndexedX,
            cycles: 4,
        },
        0xF6 => OpcodeEntry {
            instruction: Instruction::INC,
            mode: AddressingMode::ZeroPageIndexedX,
            cycles: 6,
        },
        0xF7 => OpcodeEntry {
            instruction: Instruction::NOP,
            mode: AddressingMode::Implicit,
            cycles: 6,
        },
        0xF8 => OpcodeEntry {
            instruction: Instruction::SED,
            mode: AddressingMode::Implicit,
            cycles: 2,
        },
        0xF9 => OpcodeEntry {
            instruction: Instruction::SBC,
            mode: AddressingMode::AbsoluteIndexedY,
            cycles: 4,
        },
        0xFA => OpcodeEntry {
            instruction: Instruction::NOP,
            mode: AddressingMode::Implicit,
            cycles: 2,
        },
        0xFB => OpcodeEntry {
            instruction: Instruction::NOP,
            mode: AddressingMode::Implicit,
            cycles: 7,
        },
        0xFC => OpcodeEntry {
            instruction: Instruction::NOP,
            mode: AddressingMode::Implicit,
            cycles: 4,
        },
        0xFD => OpcodeEntry {
            instruction: Instruction::SBC,
            mode: AddressingMode::AbsoluteIndexedX,
            cycles: 4,
        },
        0xFE => OpcodeEntry {
            instruction: Instruction::INC,
            mode: AddressingMode::AbsoluteIndexedX,
            cycles: 7,
        },
        _ => OpcodeEntry {
            instruction: Instruction::NOP,
            mode: AddressingMode::Implicit,
            cycles: 7,
        },
    }
}

} // verus!
