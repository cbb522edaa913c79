//! The disassembler: renders, for the instruction the CPU is about to
//! execute, one line of the reference log format used by the nestest
//! trace: the PC, the raw instruction bytes, the mnemonic, an operand
//! rendering that shows resolved addresses and the bytes behind them,
//! and the register snapshot. The output is byte-exact ASCII; the host
//! decides where the lines go.

use crate::cpu::{
    spec_read, spec_read_u16, spec_sign_extend, wadd16, wadd8, CpuView, CPU,
};
use crate::flags::spec_flags_to_byte;
use crate::opcodes::{
    opcode_entry, operand_count, spec_opcode_entry, AddressingMode, Instruction, OpcodeEntry,
};
use crate::EmuError;
use vstd::prelude::*;

verus! {

/// The ASCII digit of a hex nibble, upper case.
pub open spec fn spec_hex_digit(n: int) -> u8 {
    if n < 10 {
        (0x30 + n) as u8
    } else {
        (0x37 + n) as u8
    }
}

/// A byte as two upper-case hex digits.
pub open spec fn spec_hex2(v: u8) -> Seq<u8> {
    seq![spec_hex_digit(v as int / 16), spec_hex_digit(v as int % 16)]
}

/// A 16-bit word as four upper-case hex digits.
pub open spec fn spec_hex4(v: u16) -> Seq<u8> {
    spec_hex2((v / 0x100) as u8) + spec_hex2((v % 0x100) as u8)
}

/// `n` ASCII spaces.
pub open spec fn spec_spaces(n: int) -> Seq<u8> {
    Seq::new(n as nat, |i: int| 0x20u8)
}

/// `s` left-justified in a field of `width` characters; a longer `s`
/// is kept whole.
pub open spec fn spec_pad(s: Seq<u8>, width: int) -> Seq<u8> {
    if s.len() >= width {
        s
    } else {
        s + spec_spaces(width - s.len())
    }
}

/// The raw instruction bytes of the log line: `count` bytes starting
/// at PC, each rendered as two hex digits and a trailing space.
#[verifier::opaque]
pub open spec fn spec_raw_bytes(c: CpuView, count: int) -> Result<Seq<u8>, EmuError> {
    match spec_read(c, c.pc) {
        Err(e) => Err(e),
        Ok(b0) => {
            let s0 = spec_hex2(b0) + seq![0x20u8];
            if count < 2 {
                Ok(s0)
            } else {
                match spec_read(c, wadd16(c.pc, 1)) {
                    Err(e) => Err(e),
                    Ok(b1) => {
                        let s1 = s0 + spec_hex2(b1) + seq![0x20u8];
                        if count < 3 {
                            Ok(s1)
                        } else {
                            match spec_read(c, wadd16(c.pc, 2)) {
                                Err(e) => Err(e),
                                Ok(b2) => Ok(s1 + spec_hex2(b2) + seq![0x20u8]),
                            }
                        }
                    },
                }
            }
        },
    }
}

/// The register snapshot of the log line:
/// `A:xx X:xx Y:xx P:xx SP:xx`.
pub open spec fn spec_registers_text(c: CpuView) -> Seq<u8> {
    seq![0x41u8, 0x3Au8] + spec_hex2(c.a) + seq![0x20u8, 0x58u8, 0x3Au8] + spec_hex2(c.x) + seq![0x20u8, 0x59u8, 0x3Au8] + spec_hex2(c.y) + seq![0x20u8, 0x50u8, 0x3Au8] + spec_hex2(
        spec_flags_to_byte(c.flags),
    ) + seq![0x20u8, 0x53u8, 0x50u8, 0x3Au8] + spec_hex2(c.s)
}

/// The operand rendering of the reference log line, matching the
/// nestest format for each addressing mode: effective addresses and
/// the bytes behind them are shown as the instruction would see them,
/// including the indirect-JMP page-wrap bug.
#[verifier::opaque]
pub open spec fn spec_operand_text(c: CpuView, entry: OpcodeEntry) -> Result<Seq<u8>, EmuError> {
    match entry.mode {
        AddressingMode::Implicit => Ok(Seq::empty()),
        AddressingMode::Accumulator => Ok(seq![0x41u8]),
        AddressingMode::Immediate => match spec_read(c, wadd16(c.pc, 1)) {
            Err(e) => Err(e),
            Ok(b) => Ok(seq![0x23u8, 0x24u8] + spec_hex2(b)),
        },
        AddressingMode::ZeroPage => match spec_read(c, wadd16(c.pc, 1)) {
            Err(e) => Err(e),
            Ok(addr) => match spec_read(c, addr as u16) {
                Err(e) => Err(e),
                Ok(v) => Ok(seq![0x24u8] + spec_hex2(addr) + seq![0x20u8, 0x3Du8, 0x20u8] + spec_hex2(v)),
            },
        },
        AddressingMode::ZeroPageIndexedX => match spec_read(c, wadd16(c.pc, 1)) {
            Err(e) => Err(e),
            Ok(addr) => {
                let eff = wadd8(addr, c.x);
                match spec_read(c, eff as u16) {
                    Err(e) => Err(e),
                    Ok(v) => Ok(
                        seq![0x24u8] + spec_hex2(addr) + seq![0x2Cu8, 0x58u8, 0x20u8, 0x40u8, 0x20u8] + spec_hex2(eff) + seq![0x20u8, 0x3Du8, 0x20u8]
                            + spec_hex2(v),
                    ),
                }
            },
        },
        AddressingMode::ZeroPageIndexedY => match spec_read(c, wadd16(c.pc, 1)) {
            Err(e) => Err(e),
            Ok(addr) => {
                let eff = wadd8(addr, c.y);
                match spec_read(c, eff as u16) {
                    Err(e) => Err(e),
                    Ok(v) => Ok(
                        seq![0x24u8] + spec_hex2(addr) + seq![0x2Cu8, 0x59u8, 0x20u8, 0x40u8, 0x20u8] + spec_hex2(eff) + seq![0x20u8, 0x3Du8, 0x20u8]
                            + spec_hex2(v),
                    ),
                }
            },
        },
        AddressingMode::Relative => match spec_read(c, wadd16(c.pc, 1)) {
            Err(e) => Err(e),
            Ok(b) => Ok(seq![0x24u8] + spec_hex4(wadd16(wadd16(c.pc, 2), spec_sign_extend(b)))),
        },
        AddressingMode::Absolute => match spec_read_u16(c, wadd16(c.pc, 1)) {
            Err(e) => Err(e),
            Ok(addr) => if entry.instruction is JMP || entry.instruction is JSR {
                Ok(seq![0x24u8] + spec_hex4(addr))
            } else {
                match spec_read(c, addr) {
                    Err(e) => Err(e),
                    Ok(v) => Ok(seq![0x24u8] + spec_hex4(addr) + seq![0x20u8, 0x3Du8, 0x20u8] + spec_hex2(v)),
                }
            },
        },
        AddressingMode::AbsoluteIndexedX => match spec_read_u16(c, wadd16(c.pc, 1)) {
            Err(e) => Err(e),
            Ok(base) => {
                let eff = wadd16(base, c.x as u16);
                match spec_read(c, eff) {
                    Err(e) => Err(e),
                    Ok(v) => Ok(
                        seq![0x24u8] + spec_hex4(base) + seq![0x2Cu8, 0x58u8, 0x20u8, 0x40u8, 0x20u8] + spec_hex4(eff) + seq![0x20u8, 0x3Du8, 0x20u8]
                            + spec_hex2(v),
                    ),
                }
            },
        },
        AddressingMode::AbsoluteIndexedY => match spec_read_u16(c, wadd16(c.pc, 1)) {
            Err(e) => Err(e),
            Ok(base) => {
                let eff = wadd16(base, c.y as u16);
                match spec_read(c, eff) {
                    Err(e) => Err(e),
                    Ok(v) => Ok(
                        seq![0x24u8] + spec_hex4(base) + seq![0x2Cu8, 0x59u8, 0x20u8, 0x40u8, 0x20u8] + spec_hex4(eff) + seq![0x20u8, 0x3Du8, 0x20u8]
                            + spec_hex2(v),
                    ),
                }
            },
        },
        AddressingMode::Indirect => match spec_read_u16(c, wadd16(c.pc, 1)) {
            Err(e) => Err(e),
            Ok(pointer) => match spec_read(c, pointer) {
                Err(e) => Err(e),
                Ok(lo) => {
                    let hi_address: u16 = if pointer % 0x100 == 0xFF {
                        ((pointer / 0x100) * 0x100) as u16
                    } else {
                        wadd16(pointer, 1)
                    };
                    match spec_read(c, hi_address) {
                        Err(e) => Err(e),
                        Ok(hi) => Ok(
                            seq![0x28u8, 0x24u8] + spec_hex4(pointer) + seq![0x29u8, 0x20u8, 0x3Du8, 0x20u8] + spec_hex4(
                                (hi * 0x100 + lo) as u16,
                            ),
                        ),
                    }
                },
            },
        },
        AddressingMode::IndexedIndirect => match spec_read(c, wadd16(c.pc, 1)) {
            Err(e) => Err(e),
            Ok(arg) => {
                let p = wadd8(arg, c.x);
                match spec_read(c, p as u16) {
                    Err(e) => Err(e),
                    Ok(lo) => match spec_read(c, wadd8(p, 1) as u16) {
                        Err(e) => Err(e),
                        Ok(hi) => {
                            let addr = (hi * 0x100 + lo) as u16;
                            match spec_read(c, addr) {
                                Err(e) => Err(e),
                                Ok(v) => Ok(
                                    seq![0x28u8, 0x24u8] + spec_hex2(arg) + seq![0x2Cu8, 0x58u8, 0x29u8, 0x20u8, 0x40u8, 0x20u8] + spec_hex2(p)
                                        + seq![0x20u8, 0x3Du8, 0x20u8] + spec_hex4(addr) + seq![0x20u8, 0x3Du8, 0x20u8] + spec_hex2(
                                        v,
                                    ),
                                ),
                            }
                        },
                    },
                }
            },
        },
        AddressingMode::IndirectIndexed => match spec_read(c, wadd16(c.pc, 1)) {
            Err(e) => Err(e),
            Ok(arg) => match spec_read(c, arg as u16) {
                Err(e) => Err(e),
                Ok(lo) => match spec_read(c, wadd8(arg, 1) as u16) {
                    Err(e) => Err(e),
                    Ok(hi) => {
                        let base = (hi * 0x100 + lo) as u16;
                        let eff = wadd16(base, c.y as u16);
                        match spec_read(c, eff) {
                            Err(e) => Err(e),
                            Ok(v) => Ok(
                                seq![0x28u8, 0x24u8] + spec_hex2(arg) + seq![0x29u8, 0x2Cu8, 0x59u8, 0x20u8, 0x3Du8, 0x20u8] + spec_hex4(base)
                                    + seq![0x20u8, 0x40u8, 0x20u8] + spec_hex4(eff) + seq![0x20u8, 0x3Du8, 0x20u8] + spec_hex2(v),
                            ),
                        }
                    },
                },
            },
        },
    }
}

/// One whole line of the reference log for the instruction at PC: the
/// PC in four hex digits, two spaces, the raw bytes left-justified in
/// ten columns, the mnemonic and a space, the operand rendering
/// left-justified in 28 columns, and the register snapshot.
pub open spec fn spec_log_line(c: CpuView) -> Result<Seq<u8>, EmuError> {
    match spec_read(c, c.pc) {
        Err(e) => Err(e),
        Ok(op) => {
            let entry = spec_opcode_entry(op);
            match spec_raw_bytes(c, 1 + operand_count(entry.mode)) {
                Err(e) => Err(e),
                Ok(raw) => match spec_operand_text(c, entry) {
                    Err(e) => Err(e),
                    Ok(operand) => Ok(
                        spec_hex4(c.pc) + spec_spaces(2) + spec_pad(raw, 10) + spec_mnemonic(
                            entry.instruction,
                        ) + spec_spaces(1) + spec_pad(operand, 28) + spec_registers_text(c),
                    ),
                },
            }
        },
    }
}

/// The three-letter mnemonic of an instruction, in ASCII.
#[verifier::opaque]
pub open spec fn spec_mnemonic(instruction: Instruction) -> Seq<u8> {
    match instruction {
        Instruction::ADC => seq![0x41u8, 0x44u8, 0x43u8],
        Instruction::AND => seq![0x41u8, 0x4Eu8, 0x44u8],
        Instruction::ASL => seq![0x41u8, 0x53u8, 0x4Cu8],
        Instruction::BCC => seq![0x42u8, 0x43u8, 0x43u8],
        Instruction::BCS => seq![0x42u8, 0x43u8, 0x53u8],
        Instruction::BEQ => seq![0x42u8, 0x45u8, 0x51u8],
        Instruction::BIT => seq![0x42u8, 0x49u8, 0x54u8],
        Instruction::BMI => seq![0x42u8, 0x4Du8, 0x49u8],
        Instruction::BNE => seq![0x42u8, 0x4Eu8, 0x45u8],
        Instruction::BPL => seq![0x42u8, 0x50u8, 0x4Cu8],
        Instruction::BRK => seq![0x42u8, 0x52u8, 0x4Bu8],
        Instruction::BVC => seq![0x42u8, 0x56u8, 0x43u8],
        Instruction::BVS => seq![0x42u8, 0x56u8, 0x53u8],
        Instruction::CLC => seq![0x43u8, 0x4Cu8, 0x43u8],
        Instruction::CLD => seq![0x43u8, 0x4Cu8, 0x44u8],
        Instruction::CLI => seq![0x43u8, 0x4Cu8, 0x49u8],
        Instruction::CLV => seq![0x43u8, 0x4Cu8, 0x56u8],
        Instruction::CMP => seq![0x43u8, 0x4Du8, 0x50u8],
        Instruction::CPX => seq![0x43u8, 0x50u8, 0x58u8],
        Instruction::CPY => seq![0x43u8, 0x50u8, 0x59u8],
        Instruction::DEC => seq![0x44u8, 0x45u8, 0x43u8],
        Instruction::DEX => seq![0x44u8, 0x45u8, 0x58u8],
        Instruction::DEY => seq![0x44u8, 0x45u8, 0x59u8],
        Instruction::EOR => seq![0x45u8, 0x4Fu8, 0x52u8],
        Instruction::INC => seq![0x49u8, 0x4Eu8, 0x43u8],
        Instruction::INX => seq![0x49u8, 0x4Eu8, 0x58u8],
        Instruction::INY => seq![0x49u8, 0x4Eu8, 0x59u8],
        Instruction::JMP => seq![0x4Au8, 0x4Du8, 0x50u8],
        Instruction::JSR => seq![0x4Au8, 0x53u8, 0x52u8],
        Instruction::LDA => seq![0x4Cu8, 0x44u8, 0x41u8],
        Instruction::LDX => seq![0x4Cu8, 0x44u8, 0x58u8],
        Instruction::LDY => seq![0x4Cu8, 0x44u8, 0x59u8],
        Instruction::LSR => seq![0x4Cu8, 0x53u8, 0x52u8],
        Instruction::NOP => seq![0x4Eu8, 0x4Fu8, 0x50u8],
        Instruction::ORA => seq![0x4Fu8, 0x52u8, 0x41u8],
        Instruction::PHA => seq![0x50u8, 0x48u8, 0x41u8],
        Instruction::PHP => seq![0x50u8, 0x48u8, 0x50u8],
        Instruction::PLA => seq![0x50u8, 0x4Cu8, 0x41u8],
        Instruction::PLP => seq![0x50u8, 0x4Cu8, 0x50u8],
        Instruction::ROL => seq![0x52u8, 0x4Fu8, 0x4Cu8],
        Instruction::ROR => seq![0x52u8, 0x4Fu8, 0x52u8],
        Instruction::RTI => seq![0x52u8, 0x54u8, 0x49u8],
        Instruction::RTS => seq![0x52u8, 0x54u8, 0x53u8],
        Instruction::SBC => seq![0x53u8, 0x42u8, 0x43u8],
        Instruction::SEC => seq![0x53u8, 0x45u8, 0x43u8],
        Instruction::SED => seq![0x53u8, 0x45u8, 0x44u8],
        Instruction::SEI => seq![0x53u8, 0x45u8, 0x49u8],
        Instruction::STA => seq![0x53u8, 0x54u8, 0x41u8],
        Instruction::STX => seq![0x53u8, 0x54u8, 0x58u8],
        Instruction::STY => seq![0x53u8, 0x54u8, 0x59u8],
        Instruction::TAX => seq![0x54u8, 0x41u8, 0x58u8],
        Instruction::TAY => seq![0x54u8, 0x41u8, 0x59u8],
        Instruction::TSX => seq![0x54u8, 0x53u8, 0x58u8],
        Instruction::TXA => seq![0x54u8, 0x58u8, 0x41u8],
        Instruction::TXS => seq![0x54u8, 0x58u8, 0x53u8],
        Instruction::TYA => seq![0x54u8, 0x59u8, 0x41u8],
    }
}

/// Appends the three-letter mnemonic of an instruction.
fn push_mnemonic(out: &mut Vec<u8>, instruction: Instruction)
    ensures
        final(out)@ == old(out)@ + spec_mnemonic(instruction),
{
    proof {
        reveal(spec_mnemonic);
    }
    match instruction {
            Instruction::ADC => {
                out.push(0x41);
                out.push(0x44);
                out.push(0x43);
                proof {
                    assert(out@ =~= old(out)@ + spec_mnemonic(instruction));
                }
            },
            Instruction::AND => {
                out.push(0x41);
                out.push(0x4E);
                out.push(0x44);
                proof {
                    assert(out@ =~= old(out)@ + spec_mnemonic(instruction));
                }
            },
            Instruction::ASL => {
                out.push(0x41);
                out.push(0x53);
                out.push(0x4C);
                proof {
                    assert(out@ =~= old(out)@ + spec_mnemonic(instruction));
                }
            },
            Instruction::BCC => {
                out.push(0x42);
                out.push(0x43);
                out.push(0x43);
                proof {
                    assert(out@ =~= old(out)@ + spec_mnemonic(instruction));
                }
            },
            Instruction::BCS => {
                out.push(0x42);
                out.push(0x43);
                out.push(0x53);
                proof {
                    assert(out@ =~= old(out)@ + spec_mnemonic(instruction));
                }
            },
            Instruction::BEQ => {
                out.push(0x42);
                out.push(0x45);
                out.push(0x51);
                proof {
                    assert(out@ =~= old(out)@ + spec_mnemonic(instruction));
                }
            },
            Instruction::BIT => {
                out.push(0x42);
                out.push(0x49);
                out.push(0x54);
                proof {
                    assert(out@ =~= old(out)@ + spec_mnemonic(instruction));
                }
            },
            Instruction::BMI => {
                out.push(0x42);
                out.push(0x4D);
                out.push(0x49);
                proof {
                    assert(out@ =~= old(out)@ + spec_mnemonic(instruction));
                }
            },
            Instruction::BNE => {
                out.push(0x42);
                out.push(0x4E);
                out.push(0x45);
                proof {
                    assert(out@ =~= old(out)@ + spec_mnemonic(instruction));
                }
            },
            Instruction::BPL => {
                out.push(0x42);
                out.push(0x50);
                out.push(0x4C);
                proof {
                    assert(out@ =~= old(out)@ + spec_mnemonic(instruction));
                }
            },
            Instruction::BRK => {
                out.push(0x42);
                out.push(0x52);
                out.push(0x4B);
                proof {
                    assert(out@ =~= old(out)@ + spec_mnemonic(instruction));
                }
            },
            Instruction::BVC => {
                out.push(0x42);
                out.push(0x56);
                out.push(0x43);
                proof {
                    assert(out@ =~= old(out)@ + spec_mnemonic(instruction));
                }
            },
            Instruction::BVS => {
                out.push(0x42);
                out.push(0x56);
                out.push(0x53);
                proof {
                    assert(out@ =~= old(out)@ + spec_mnemonic(instruction));
                }
            },
            Instruction::CLC => {
                out.push(0x43);
                out.push(0x4C);
                out.push(0x43);
                proof {
                    assert(out@ =~= old(out)@ + spec_mnemonic(instruction));
                }
            },
            Instruction::CLD => {
                out.push(0x43);
                out.push(0x4C);
                out.push(0x44);
                proof {
                    assert(out@ =~= old(out)@ + spec_mnemonic(instruction));
                }
            },
            Instruction::CLI => {
                out.push(0x43);
                out.push(0x4C);
                out.push(0x49);
                proof {
                    assert(out@ =~= old(out)@ + spec_mnemonic(instruction));
                }
            },
            Instruction::CLV => {
                out.push(0x43);
                out.push(0x4C);
                out.push(0x56);
                proof {
                    assert(out@ =~= old(out)@ + spec_mnemonic(instruction));
                }
            },
            Instruction::CMP => {
                out.push(0x43);
                out.push(0x4D);
                out.push(0x50);
                proof {
                    assert(out@ =~= old(out)@ + spec_mnemonic(instruction));
                }
            },
            Instruction::CPX => {
                out.push(0x43);
                out.push(0x50);
                out.push(0x58);
                proof {
                    assert(out@ =~= old(out)@ + spec_mnemonic(instruction));
                }
            },
            Instruction::CPY => {
                out.push(0x43);
                out.push(0x50);
                out.push(0x59);
                proof {
                    assert(out@ =~= old(out)@ + spec_mnemonic(instruction));
                }
            },
            Instruction::DEC => {
                out.push(0x44);
                out.push(0x45);
                out.push(0x43);
                proof {
                    assert(out@ =~= old(out)@ + spec_mnemonic(instruction));
                }
            },
            Instruction::DEX => {
                out.push(0x44);
                out.push(0x45);
                out.push(0x58);
                proof {
                    assert(out@ =~= old(out)@ + spec_mnemonic(instruction));
                }
            },
            Instruction::DEY => {
                out.push(0x44);
                out.push(0x45);
                out.push(0x59);
                proof {
                    assert(out@ =~= old(out)@ + spec_mnemonic(instruction));
                }
            },
            Instruction::EOR => {
                out.push(0x45);
                out.push(0x4F);
                out.push(0x52);
                proof {
                    assert(out@ =~= old(out)@ + spec_mnemonic(instruction));
                }
            },
            Instruction::INC => {
                out.push(0x49);
                out.push(0x4E);
                out.push(0x43);
                proof {
                    assert(out@ =~= old(out)@ + spec_mnemonic(instruction));
                }
            },
            Instruction::INX => {
                out.push(0x49);
                out.push(0x4E);
                out.push(0x58);
                proof {
                    assert(out@ =~= old(out)@ + spec_mnemonic(instruction));
                }
            },
            Instruction::INY => {
                out.push(0x49);
                out.push(0x4E);
                out.push(0x59);
                proof {
                    assert(out@ =~= old(out)@ + spec_mnemonic(instruction));
                }
            },
            Instruction::JMP => {
                out.push(0x4A);
                out.push(0x4D);
                out.push(0x50);
                proof {
                    assert(out@ =~= old(out)@ + spec_mnemonic(instruction));
                }
            },
        _ => {
            push_mnemonic_rest(out, instruction);
        },
    }
}

/// Continuation of `push_mnemonic` for the second half of the
/// mnemonic table.
fn push_mnemonic_rest(out: &mut Vec<u8>, instruction: Instruction)
    requires
        instruction is JSR || instruction is LDA || instruction is LDX || instruction is LDY || instruction is LSR || instruction is NOP || instruction is ORA || instruction is PHA || instruction is PHP || instruction is PLA || instruction is PLP || instruction is ROL || instruction is ROR || instruction is RTI || instruction is RTS || instruction is SBC || instruction is SEC || instruction is SED || instruction is SEI || instruction is STA || instruction is STX || instruction is STY || instruction is TAX || instruction is TAY || instruction is TSX || instruction is TXA || instruction is TXS || instruction is TYA,
    ensures
        final(out)@ == old(out)@ + spec_mnemonic(instruction),
{
    proof {
        reveal(spec_mnemonic);
    }
    match instruction {
            Instruction::JSR => {
                out.push(0x4A);
                out.push(0x53);
                out.push(0x52);
                proof {
                    assert(out@ =~= old(out)@ + spec_mnemonic(instruction));
                }
            },
            Instruction::LDA => {
                out.push(0x4C);
                out.push(0x44);
                out.push(0x41);
                proof {
                    assert(out@ =~= old(out)@ + spec_mnemonic(instruction));
                }
            },
            Instruction::LDX => {
                out.push(0x4C);
                out.push(0x44);
                out.push(0x58);
                proof {
                    assert(out@ =~= old(out)@ + spec_mnemonic(instruction));
                }
            },
            Instruction::LDY => {
                out.push(0x4C);
                out.push(0x44);
                out.push(0x59);
                proof {
                    assert(out@ =~= old(out)@ + spec_mnemonic(instruction));
                }
            },
            Instruction::LSR => {
                out.push(0x4C);
                out.push(0x53);
                out.push(0x52);
                proof {
                    assert(out@ =~= old(out)@ + spec_mnemonic(instruction));
                }
            },
            Instruction::NOP => {
                out.push(0x4E);
                out.push(0x4F);
                out.push(0x50);
                proof {
                    assert(out@ =~= old(out)@ + spec_mnemonic(instruction));
                }
            },
            Instruction::ORA => {
                out.push(0x4F);
                out.push(0x52);
                out.push(0x41);
                proof {
                    assert(out@ =~= old(out)@ + spec_mnemonic(instruction));
                }
            },
            Instruction::PHA => {
                out.push(0x50);
                out.push(0x48);
                out.push(0x41);
                proof {
                    assert(out@ =~= old(out)@ + spec_mnemonic(instruction));
                }
            },
            Instruction::PHP => {
                out.push(0x50);
                out.push(0x48);
                out.push(0x50);
                proof {
                    assert(out@ =~= old(out)@ + spec_mnemonic(instruction));
                }
            },
            Instruction::PLA => {
                out.push(0x50);
                out.push(0x4C);
                out.push(0x41);
                proof {
                    assert(out@ =~= old(out)@ + spec_mnemonic(instruction));
                }
            },
            Instruction::PLP => {
                out.push(0x50);
                out.push(0x4C);
                out.push(0x50);
                proof {
                    assert(out@ =~= old(out)@ + spec_mnemonic(instruction));
                }
            },
            Instruction::ROL => {
                out.push(0x52);
                out.push(0x4F);
                out.push(0x4C);
                proof {
                    assert(out@ =~= old(out)@ + spec_mnemonic(instruction));
                }
            },
            Instruction::ROR => {
                out.push(0x52);
                out.push(0x4F);
                out.push(0x52);
                proof {
                    assert(out@ =~= old(out)@ + spec_mnemonic(instruction));
                }
            },
            Instruction::RTI => {
                out.push(0x52);
                out.push(0x54);
                out.push(0x49);
                proof {
                    assert(out@ =~= old(out)@ + spec_mnemonic(instruction));
                }
            },
            Instruction::RTS => {
                out.push(0x52);
                out.push(0x54);
                out.push(0x53);
                proof {
                    assert(out@ =~= old(out)@ + spec_mnemonic(instruction));
                }
            },
            Instruction::SBC => {
                out.push(0x53);
                out.push(0x42);
                out.push(0x43);
                proof {
                    assert(out@ =~= old(out)@ + spec_mnemonic(instruction));
                }
            },
            Instruction::SEC => {
                out.push(0x53);
                out.push(0x45);
                out.push(0x43);
                proof {
                    assert(out@ =~= old(out)@ + spec_mnemonic(instruction));
                }
            },
            Instruction::SED => {
                out.push(0x53);
                out.push(0x45);
                out.push(0x44);
                proof {
                    assert(out@ =~= old(out)@ + spec_mnemonic(instruction));
                }
            },
            Instruction::SEI => {
                out.push(0x53);
                out.push(0x45);
                out.push(0x49);
                proof {
                    assert(out@ =~= old(out)@ + spec_mnemonic(instruction));
                }
            },
            Instruction::STA => {
                out.push(0x53);
                out.push(0x54);
                out.push(0x41);
                proof {
                    assert(out@ =~= old(out)@ + spec_mnemonic(instruction));
                }
            },
            Instruction::STX => {
                out.push(0x53);
                out.push(0x54);
                out.push(0x58);
                proof {
                    assert(out@ =~= old(out)@ + spec_mnemonic(instruction));
                }
            },
            Instruction::STY => {
                out.push(0x53);
                out.push(0x54);
                out.push(0x59);
                proof {
                    assert(out@ =~= old(out)@ + spec_mnemonic(instruction));
                }
            },
            Instruction::TAX => {
                out.push(0x54);
                out.push(0x41);
                out.push(0x58);
                proof {
                    assert(out@ =~= old(out)@ + spec_mnemonic(instruction));
                }
            },
            Instruction::TAY => {
                out.push(0x54);
                out.push(0x41);
                out.push(0x59);
                proof {
                    assert(out@ =~= old(out)@ + spec_mnemonic(instruction));
                }
            },
            Instruction::TSX => {
                out.push(0x54);
                out.push(0x53);
                out.push(0x58);
                proof {
                    assert(out@ =~= old(out)@ + spec_mnemonic(instruction));
                }
            },
            Instruction::TXA => {
                out.push(0x54);
                out.push(0x58);
                out.push(0x41);
                proof {
                    assert(out@ =~= old(out)@ + spec_mnemonic(instruction));
                }
            },
            Instruction::TXS => {
                out.push(0x54);
                out.push(0x58);
                out.push(0x53);
                proof {
                    assert(out@ =~= old(out)@ + spec_mnemonic(instruction));
                }
            },
        _ => {
            out.push(0x54);
            out.push(0x59);
            out.push(0x41);
            proof {
                assert(instruction is TYA);
                assert(out@ =~= old(out)@ + spec_mnemonic(instruction));
            }
        },
    }
}


/// The ASCII digit of a hex nibble, upper case.
fn hex_digit(n: u8) -> (r: u8)
    requires
        n < 16,
    ensures
        r == spec_hex_digit(n as int),
{
    if n < 10 {
        0x30 + n
    } else {
        0x37 + n
    }
}

/// Appends a byte as two hex digits.
fn push_hex2(out: &mut Vec<u8>, v: u8)
    ensures
        final(out)@ == old(out)@ + spec_hex2(v),
{
    out.push(hex_digit(v / 16));
    out.push(hex_digit(v % 16));
    proof {
        assert(out@ =~= old(out)@ + spec_hex2(v));
    }
}

/// Appends a 16-bit word as four hex digits.
fn push_hex4(out: &mut Vec<u8>, v: u16)
    ensures
        final(out)@ == old(out)@ + spec_hex4(v),
{
    push_hex2(out, (v / 0x100) as u8);
    push_hex2(out, (v % 0x100) as u8);
    proof {
        assert(out@ =~= old(out)@ + spec_hex4(v));
    }
}

/// Appends `n` spaces.
fn push_spaces(out: &mut Vec<u8>, n: usize)
    ensures
        final(out)@ == old(out)@ + spec_spaces(n as int),
{
    let mut i: usize = 0;
    while i < n
        invariant
            i <= n,
            out@.len() == old(out)@.len() + i,
            forall|j: int| 0 <= j < old(out)@.len() ==> out@[j] == old(out)@[j],
            forall|j: int| old(out)@.len() <= j < out@.len() ==> out@[j] == 0x20u8,
        decreases n - i,
    {
        out.push(0x20);
        i = i + 1;
    }
    proof {
        assert(out@ =~= old(out)@ + spec_spaces(n as int));
    }
}

/// Appends a whole byte string.
fn push_all(out: &mut Vec<u8>, piece: &Vec<u8>)
    ensures
        final(out)@ == old(out)@ + piece@,
{
    let mut i: usize = 0;
    while i < piece.len()
        invariant
            i <= piece@.len(),
            out@.len() == old(out)@.len() + i,
            forall|j: int| 0 <= j < old(out)@.len() ==> out@[j] == old(out)@[j],
            forall|j: int| 0 <= j < i ==> out@[old(out)@.len() + j] == piece@[j],
        decreases piece@.len() - i,
    {
        out.push(piece[i]);
        i = i + 1;
    }
    proof {
        assert(out@ =~= old(out)@ + piece@);
    }
}

/// Appends a byte string left-justified in a field of `width`
/// characters.
fn push_padded(out: &mut Vec<u8>, piece: &Vec<u8>, width: usize)
    ensures
        final(out)@ == old(out)@ + spec_pad(piece@, width as int),
{
    push_all(out, piece);
    if piece.len() < width {
        push_spaces(out, width - piece.len());
    }
    proof {
        assert(out@ =~= old(out)@ + spec_pad(piece@, width as int));
    }
}

impl CPU {
    /// The operand rendering of the current instruction's log line.
    fn operand_text(&self, entry: OpcodeEntry) -> (r: Result<Vec<u8>, EmuError>)
        requires
            self@.wf(),
        ensures
            (r matches Ok(v) ==> spec_operand_text(self@, entry) == Ok::<Seq<u8>, EmuError>(v@)),
            (r matches Err(e) ==> spec_operand_text(self@, entry) == Err::<Seq<u8>, EmuError>(e)),
    {
        match entry.mode {
            AddressingMode::Implicit => self.otext_implicit(entry),
            AddressingMode::Accumulator => self.otext_accumulator(entry),
            AddressingMode::Immediate => self.otext_immediate(entry),
            AddressingMode::ZeroPage => self.otext_zero_page(entry),
            AddressingMode::ZeroPageIndexedX => self.otext_zero_page_indexed_x(entry),
            AddressingMode::ZeroPageIndexedY => self.otext_zero_page_indexed_y(entry),
            AddressingMode::Relative => self.otext_relative(entry),
            AddressingMode::Absolute => self.otext_absolute(entry),
            AddressingMode::AbsoluteIndexedX => self.otext_absolute_indexed_x(entry),
            AddressingMode::AbsoluteIndexedY => self.otext_absolute_indexed_y(entry),
            AddressingMode::Indirect => self.otext_indirect(entry),
            AddressingMode::IndexedIndirect => self.otext_indexed_indirect(entry),
            AddressingMode::IndirectIndexed => self.otext_indirect_indexed(entry),
        }
    }

    fn otext_implicit(&self, _entry: OpcodeEntry) -> (r: Result<Vec<u8>, EmuError>)
        requires
            self@.wf(),
            _entry.mode is Implicit,
        ensures
            (r matches Ok(v) ==> spec_operand_text(self@, _entry) == Ok::<Seq<u8>, EmuError>(v@)),
            (r matches Err(e) ==> spec_operand_text(self@, _entry) == Err::<Seq<u8>, EmuError>(
                e,
            )),
    {
        proof {
            reveal(spec_operand_text);
        }
        let out: Vec<u8> = Vec::new();
        proof {
            assert(out@ =~= Seq::<u8>::empty());
        }
        Ok(out)
    }

    fn otext_accumulator(&self, _entry: OpcodeEntry) -> (r: Result<Vec<u8>, EmuError>)
        requires
            self@.wf(),
            _entry.mode is Accumulator,
        ensures
            (r matches Ok(v) ==> spec_operand_text(self@, _entry) == Ok::<Seq<u8>, EmuError>(v@)),
            (r matches Err(e) ==> spec_operand_text(self@, _entry) == Err::<Seq<u8>, EmuError>(
                e,
            )),
    {
        proof {
            reveal(spec_operand_text);
        }
        let mut out: Vec<u8> = Vec::new();
        out.push(0x41);
        proof {
            assert(out@ =~= seq![0x41u8]);
        }
        Ok(out)
    }

    fn otext_immediate(&self, _entry: OpcodeEntry) -> (r: Result<Vec<u8>, EmuError>)
        requires
            self@.wf(),
            _entry.mode is Immediate,
        ensures
            (r matches Ok(v) ==> spec_operand_text(self@, _entry) == Ok::<Seq<u8>, EmuError>(v@)),
            (r matches Err(e) ==> spec_operand_text(self@, _entry) == Err::<Seq<u8>, EmuError>(
                e,
            )),
    {
        proof {
            reveal(spec_operand_text);
        }
        let b = match self.read(self.pc.wrapping_add(1)) {
                Ok(v) => v,
                Err(e) => {
                    return Err(e);
                },
            };
        let mut out: Vec<u8> = Vec::new();
        out.push(0x23);
        out.push(0x24);
        push_hex2(&mut out, b);
        proof {
            assert(out@ =~= seq![0x23u8, 0x24u8] + spec_hex2(b));
        }
        Ok(out)
    }

    fn otext_zero_page(&self, _entry: OpcodeEntry) -> (r: Result<Vec<u8>, EmuError>)
        requires
            self@.wf(),
            _entry.mode is ZeroPage,
        ensures
            (r matches Ok(v) ==> spec_operand_text(self@, _entry) == Ok::<Seq<u8>, EmuError>(v@)),
            (r matches Err(e) ==> spec_operand_text(self@, _entry) == Err::<Seq<u8>, EmuError>(
                e,
            )),
    {
        proof {
            reveal(spec_operand_text);
        }
        let addr = match self.read(self.pc.wrapping_add(1)) {
                Ok(v) => v,
                Err(e) => {
                    return Err(e);
                },
            };
        let v = match self.read(addr as u16) {
                Ok(v) => v,
                Err(e) => {
                    return Err(e);
                },
            };
        let mut out: Vec<u8> = Vec::new();
        out.push(0x24);
        push_hex2(&mut out, addr);
        out.push(0x20);
        out.push(0x3D);
        out.push(0x20);
        push_hex2(&mut out, v);
        proof {
            assert(out@ =~= seq![0x24u8] + spec_hex2(addr) + seq![0x20u8, 0x3Du8, 0x20u8] + spec_hex2(v));
        }
        Ok(out)
    }

    fn otext_zero_page_indexed_x(&self, _entry: OpcodeEntry) -> (r: Result<Vec<u8>, EmuError>)
        requires
            self@.wf(),
            _entry.mode is ZeroPageIndexedX,
        ensures
            (r matches Ok(v) ==> spec_operand_text(self@, _entry) == Ok::<Seq<u8>, EmuError>(v@)),
            (r matches Err(e) ==> spec_operand_text(self@, _entry) == Err::<Seq<u8>, EmuError>(
                e,
            )),
    {
        proof {
            reveal(spec_operand_text);
        }
        let addr = match self.read(self.pc.wrapping_add(1)) {
                Ok(v) => v,
                Err(e) => {
                    return Err(e);
                },
            };
        let eff = addr.wrapping_add(self.x);
        let v = match self.read(eff as u16) {
                Ok(v) => v,
                Err(e) => {
                    return Err(e);
                },
            };
        let mut out: Vec<u8> = Vec::new();
        out.push(0x24);
        push_hex2(&mut out, addr);
        out.push(0x2C);
        out.push(0x58);
        out.push(0x20);
        out.push(0x40);
        out.push(0x20);
        push_hex2(&mut out, eff);
        out.push(0x20);
        out.push(0x3D);
        out.push(0x20);
        push_hex2(&mut out, v);
        proof {
            assert(out@ =~= seq![0x24u8] + spec_hex2(addr) + seq![0x2Cu8, 0x58u8, 0x20u8, 0x40u8, 0x20u8] + spec_hex2(eff)
                + seq![0x20u8, 0x3Du8, 0x20u8] + spec_hex2(v));
        }
        Ok(out)
    }

    fn otext_zero_page_indexed_y(&self, _entry: OpcodeEntry) -> (r: Result<Vec<u8>, EmuError>)
        requires
            self@.wf(),
            _entry.mode is ZeroPageIndexedY,
        ensures
            (r matches Ok(v) ==> spec_operand_text(self@, _entry) == Ok::<Seq<u8>, EmuError>(v@)),
            (r matches Err(e) ==> spec_operand_text(self@, _entry) == Err::<Seq<u8>, EmuError>(
                e,
            )),
    {
        proof {
            reveal(spec_operand_text);
        }
        let addr = match self.read(self.pc.wrapping_add(1)) {
                Ok(v) => v,
                Err(e) => {
                    return Err(e);
                },
            };
        let eff = addr.wrapping_add(self.y);
        let v = match self.read(eff as u16) {
                Ok(v) => v,
                Err(e) => {
                    return Err(e);
                },
            };
        let mut out: Vec<u8> = Vec::new();
        out.push(0x24);
        push_hex2(&mut out, addr);
        out.push(0x2C);
        out.push(0x59);
        out.push(0x20);
        out.push(0x40);
        out.push(0x20);
        push_hex2(&mut out, eff);
        out.push(0x20);
        out.push(0x3D);
        out.push(0x20);
        push_hex2(&mut out, v);
        proof {
            assert(out@ =~= seq![0x24u8] + spec_hex2(addr) + seq![0x2Cu8, 0x59u8, 0x20u8, 0x40u8, 0x20u8] + spec_hex2(eff)
                + seq![0x20u8, 0x3Du8, 0x20u8] + spec_hex2(v));
        }
        Ok(out)
    }

    fn otext_relative(&self, _entry: OpcodeEntry) -> (r: Result<Vec<u8>, EmuError>)
        requires
            self@.wf(),
            _entry.mode is Relative,
        ensures
            (r matches Ok(v) ==> spec_operand_text(self@, _entry) == Ok::<Seq<u8>, EmuError>(v@)),
            (r matches Err(e) ==> spec_operand_text(self@, _entry) == Err::<Seq<u8>, EmuError>(
                e,
            )),
    {
        proof {
            reveal(spec_operand_text);
        }
        let b = match self.read(self.pc.wrapping_add(1)) {
                Ok(v) => v,
                Err(e) => {
                    return Err(e);
                },
            };
        let extension: u16 = if b >= 0x80 {
            b as u16 + 0xFF00
        } else {
            b as u16
        };
        let target = self.pc.wrapping_add(2).wrapping_add(extension);
        let mut out: Vec<u8> = Vec::new();
        out.push(0x24);
        push_hex4(&mut out, target);
        proof {
            assert(out@ =~= seq![0x24u8] + spec_hex4(target));
        }
        Ok(out)
    }

    fn otext_absolute(&self, entry: OpcodeEntry) -> (r: Result<Vec<u8>, EmuError>)
        requires
            self@.wf(),
            entry.mode is Absolute,
        ensures
            (r matches Ok(v) ==> spec_operand_text(self@, entry) == Ok::<Seq<u8>, EmuError>(v@)),
            (r matches Err(e) ==> spec_operand_text(self@, entry) == Err::<Seq<u8>, EmuError>(
                e,
            )),
    {
        proof {
            reveal(spec_operand_text);
        }
        let addr = match self.read_u16(self.pc.wrapping_add(1)) {
                Ok(v) => v,
                Err(e) => {
                    return Err(e);
                },
            };
        let is_jump = match entry.instruction {
            Instruction::JMP => true,
            Instruction::JSR => true,
            _ => false,
        };
        let mut out: Vec<u8> = Vec::new();
        if is_jump {
        out.push(0x24);
            push_hex4(&mut out, addr);
            proof {
                assert(out@ =~= seq![0x24u8] + spec_hex4(addr));
            }
            Ok(out)
        } else {
            let v = match self.read(addr) {
                Ok(v) => v,
                Err(e) => {
                    return Err(e);
                },
            };
        out.push(0x24);
            push_hex4(&mut out, addr);
        out.push(0x20);
        out.push(0x3D);
        out.push(0x20);
            push_hex2(&mut out, v);
            proof {
                assert(out@ =~= seq![0x24u8] + spec_hex4(addr) + seq![0x20u8, 0x3Du8, 0x20u8] + spec_hex2(v));
            }
            Ok(out)
        }
    }

    fn otext_absolute_indexed_x(&self, _entry: OpcodeEntry) -> (r: Result<Vec<u8>, EmuError>)
        requires
            self@.wf(),
            _entry.mode is AbsoluteIndexedX,
        ensures
            (r matches Ok(v) ==> spec_operand_text(self@, _entry) == Ok::<Seq<u8>, EmuError>(v@)),
            (r matches Err(e) ==> spec_operand_text(self@, _entry) == Err::<Seq<u8>, EmuError>(
                e,
            )),
    {
        proof {
            reveal(spec_operand_text);
        }
        let base = match self.read_u16(self.pc.wrapping_add(1)) {
                Ok(v) => v,
                Err(e) => {
                    return Err(e);
                },
            };
        let eff = base.wrapping_add(self.x as u16);
        let v = match self.read(eff) {
                Ok(v) => v,
                Err(e) => {
                    return Err(e);
                },
            };
        let mut out: Vec<u8> = Vec::new();
        out.push(0x24);
        push_hex4(&mut out, base);
        out.push(0x2C);
        out.push(0x58);
        out.push(0x20);
        out.push(0x40);
        out.push(0x20);
        push_hex4(&mut out, eff);
        out.push(0x20);
        out.push(0x3D);
        out.push(0x20);
        push_hex2(&mut out, v);
        proof {
            assert(out@ =~= seq![0x24u8] + spec_hex4(base) + seq![0x2Cu8, 0x58u8, 0x20u8, 0x40u8, 0x20u8] + spec_hex4(eff)
                + seq![0x20u8, 0x3Du8, 0x20u8] + spec_hex2(v));
        }
        Ok(out)
    }

    fn otext_absolute_indexed_y(&self, _entry: OpcodeEntry) -> (r: Result<Vec<u8>, EmuError>)
        requires
            self@.wf(),
            _entry.mode is AbsoluteIndexedY,
        ensures
            (r matches Ok(v) ==> spec_operand_text(self@, _entry) == Ok::<Seq<u8>, EmuError>(v@)),
            (r matches Err(e) ==> spec_operand_text(self@, _entry) == Err::<Seq<u8>, EmuError>(
                e,
            )),
    {
        proof {
            reveal(spec_operand_text);
        }
        let base = match self.read_u16(self.pc.wrapping_add(1)) {
                Ok(v) => v,
                Err(e) => {
                    return Err(e);
                },
            };
        let eff = base.wrapping_add(self.y as u16);
        let v = match self.read(eff) {
                Ok(v) => v,
                Err(e) => {
                    return Err(e);
                },
            };
        let mut out: Vec<u8> = Vec::new();
        out.push(0x24);
        push_hex4(&mut out, base);
        out.push(0x2C);
        out.push(0x59);
        out.push(0x20);
        out.push(0x40);
        out.push(0x20);
        push_hex4(&mut out, eff);
        out.push(0x20);
        out.push(0x3D);
        out.push(0x20);
        push_hex2(&mut out, v);
        proof {
            assert(out@ =~= seq![0x24u8] + spec_hex4(base) + seq![0x2Cu8, 0x59u8, 0x20u8, 0x40u8, 0x20u8] + spec_hex4(eff)
                + seq![0x20u8, 0x3Du8, 0x20u8] + spec_hex2(v));
        }
        Ok(out)
    }

    fn otext_indirect(&self, _entry: OpcodeEntry) -> (r: Result<Vec<u8>, EmuError>)
        requires
            self@.wf(),
            _entry.mode is Indirect,
        ensures
            (r matches Ok(v) ==> spec_operand_text(self@, _entry) == Ok::<Seq<u8>, EmuError>(v@)),
            (r matches Err(e) ==> spec_operand_text(self@, _entry) == Err::<Seq<u8>, EmuError>(
                e,
            )),
    {
        proof {
            reveal(spec_operand_text);
        }
        let pointer = match self.read_u16(self.pc.wrapping_add(1)) {
                Ok(v) => v,
                Err(e) => {
                    return Err(e);
                },
            };
        let lo = match self.read(pointer) {
                Ok(v) => v,
                Err(e) => {
                    return Err(e);
                },
            };
        let hi_address: u16 = if pointer % 0x100 == 0xFF {
            (pointer / 0x100) * 0x100
        } else {
            pointer.wrapping_add(1)
        };
        let hi = match self.read(hi_address) {
                Ok(v) => v,
                Err(e) => {
                    return Err(e);
                },
            };
        let resolved: u16 = (hi as u16) * 0x100 + lo as u16;
        let mut out: Vec<u8> = Vec::new();
        out.push(0x28);
        out.push(0x24);
        push_hex4(&mut out, pointer);
        out.push(0x29);
        out.push(0x20);
        out.push(0x3D);
        out.push(0x20);
        push_hex4(&mut out, resolved);
        proof {
            assert(out@ =~= seq![0x28u8, 0x24u8] + spec_hex4(pointer) + seq![0x29u8, 0x20u8, 0x3Du8, 0x20u8] + spec_hex4(resolved));
        }
        Ok(out)
    }

    fn otext_indexed_indirect(&self, _entry: OpcodeEntry) -> (r: Result<Vec<u8>, EmuError>)
        requires
            self@.wf(),
            _entry.mode is IndexedIndirect,
        ensures
            (r matches Ok(v) ==> spec_operand_text(self@, _entry) == Ok::<Seq<u8>, EmuError>(v@)),
            (r matches Err(e) ==> spec_operand_text(self@, _entry) == Err::<Seq<u8>, EmuError>(
                e,
            )),
    {
        proof {
            reveal(spec_operand_text);
        }
        let arg = match self.read(self.pc.wrapping_add(1)) {
                Ok(v) => v,
                Err(e) => {
                    return Err(e);
                },
            };
        let p = arg.wrapping_add(self.x);
        let lo = match self.read(p as u16) {
                Ok(v) => v,
                Err(e) => {
                    return Err(e);
                },
            };
        let hi = match self.read(p.wrapping_add(1) as u16) {
                Ok(v) => v,
                Err(e) => {
                    return Err(e);
                },
            };
        let addr: u16 = (hi as u16) * 0x100 + lo as u16;
        let v = match self.read(addr) {
                Ok(v) => v,
                Err(e) => {
                    return Err(e);
                },
            };
        let mut out: Vec<u8> = Vec::new();
        out.push(0x28);
        out.push(0x24);
        push_hex2(&mut out, arg);
        out.push(0x2C);
        out.push(0x58);
        out.push(0x29);
        out.push(0x20);
        out.push(0x40);
        out.push(0x20);
        push_hex2(&mut out, p);
        out.push(0x20);
        out.push(0x3D);
        out.push(0x20);
        push_hex4(&mut out, addr);
        out.push(0x20);
        out.push(0x3D);
        out.push(0x20);
        push_hex2(&mut out, v);
        proof {
            assert(out@ =~= seq![0x28u8, 0x24u8] + spec_hex2(arg) + seq![0x2Cu8, 0x58u8, 0x29u8, 0x20u8, 0x40u8, 0x20u8] + spec_hex2(p)
                + seq![0x20u8, 0x3Du8, 0x20u8] + spec_hex4(addr) + seq![0x20u8, 0x3Du8, 0x20u8] + spec_hex2(v));
        }
        Ok(out)
    }

    #[verifier::rlimit(60)]
    fn otext_indirect_indexed(&self, _entry: OpcodeEntry) -> (r: Result<Vec<u8>, EmuError>)
        requires
            self@.wf(),
            _entry.mode is IndirectIndexed,
        ensures
            (r matches Ok(v) ==> spec_operand_text(self@, _entry) == Ok::<Seq<u8>, EmuError>(v@)),
            (r matches Err(e) ==> spec_operand_text(self@, _entry) == Err::<Seq<u8>, EmuError>(
                e,
            )),
    {
        proof {
            reveal(spec_operand_text);
        }
        let arg = match self.read(self.pc.wrapping_add(1)) {
                Ok(v) => v,
                Err(e) => {
                    return Err(e);
                },
            };
        let lo = match self.read(arg as u16) {
                Ok(v) => v,
                Err(e) => {
                    return Err(e);
                },
            };
        let hi = match self.read(arg.wrapping_add(1) as u16) {
                Ok(v) => v,
                Err(e) => {
                    return Err(e);
                },
            };
        let base: u16 = (hi as u16) * 0x100 + lo as u16;
        let eff = base.wrapping_add(self.y as u16);
        let v = match self.read(eff) {
                Ok(v) => v,
                Err(e) => {
                    return Err(e);
                },
            };
        let mut out: Vec<u8> = Vec::new();
        out.push(0x28);
        out.push(0x24);
        push_hex2(&mut out, arg);
        out.push(0x29);
        out.push(0x2C);
        out.push(0x59);
        out.push(0x20);
        out.push(0x3D);
        out.push(0x20);
        push_hex4(&mut out, base);
        out.push(0x20);
        out.push(0x40);
        out.push(0x20);
        push_hex4(&mut out, eff);
        out.push(0x20);
        out.push(0x3D);
        out.push(0x20);
        push_hex2(&mut out, v);
        proof {
            assert(out@ =~= seq![0x28u8, 0x24u8] + spec_hex2(arg) + seq![0x29u8, 0x2Cu8, 0x59u8, 0x20u8, 0x3Du8, 0x20u8] + spec_hex4(base)
                + seq![0x20u8, 0x40u8, 0x20u8] + spec_hex4(eff) + seq![0x20u8, 0x3Du8, 0x20u8] + spec_hex2(v));
        }
        Ok(out)
    }


    /// The raw-bytes field of the log line: `count` bytes from PC,
    /// two hex digits and a space each.
    fn raw_bytes_text(&self, count: u8) -> (r: Result<Vec<u8>, EmuError>)
        requires
            self@.wf(),
            1 <= count <= 3,
        ensures
            (r matches Ok(v) ==> spec_raw_bytes(self@, count as int) == Ok::<Seq<u8>, EmuError>(
                v@,
            )),
            (r matches Err(e) ==> spec_raw_bytes(self@, count as int) == Err::<Seq<u8>, EmuError>(
                e,
            )),
    {
        proof {
            reveal(spec_raw_bytes);
        }
        let b0 = match self.read(self.pc) {
            Ok(v) => v,
            Err(e) => {
                return Err(e);
            },
        };
        let mut raw: Vec<u8> = Vec::new();
        push_hex2(&mut raw, b0);
        raw.push(0x20);
        if count >= 2 {
            let b1 = match self.read(self.pc.wrapping_add(1)) {
                Ok(v) => v,
                Err(e) => {
                    return Err(e);
                },
            };
            push_hex2(&mut raw, b1);
            raw.push(0x20);
        }
        if count >= 3 {
            let b2 = match self.read(self.pc.wrapping_add(2)) {
                Ok(v) => v,
                Err(e) => {
                    return Err(e);
                },
            };
            push_hex2(&mut raw, b2);
            raw.push(0x20);
        }
        proof {
            assert(spec_raw_bytes(self@, count as int) matches Ok(s) && s =~= raw@);
        }
        Ok(raw)
    }

    /// Assembles one log line from its already-rendered pieces.
    fn assemble_line(&self, raw: &Vec<u8>, operand: &Vec<u8>, instruction: Instruction) -> (out:
        Vec<u8>)
        ensures
            out@ == spec_hex4(self.pc) + spec_spaces(2) + spec_pad(raw@, 10) + spec_mnemonic(
                instruction,
            ) + spec_spaces(1) + spec_pad(operand@, 28) + spec_registers_text(self@),
    {
        let mut out: Vec<u8> = Vec::new();
        push_hex4(&mut out, self.pc);
        out.push(0x20);
        out.push(0x20);
        push_padded(&mut out, raw, 10);
        push_mnemonic(&mut out, instruction);
        out.push(0x20);
        push_padded(&mut out, operand, 28);
        out.push(0x41);
        out.push(0x3A);
        push_hex2(&mut out, self.a);
        out.push(0x20);
        out.push(0x58);
        out.push(0x3A);
        push_hex2(&mut out, self.x);
        out.push(0x20);
        out.push(0x59);
        out.push(0x3A);
        push_hex2(&mut out, self.y);
        out.push(0x20);
        out.push(0x50);
        out.push(0x3A);
        let p = self.flags.to_byte();
        push_hex2(&mut out, p);
        out.push(0x20);
        out.push(0x53);
        out.push(0x50);
        out.push(0x3A);
        push_hex2(&mut out, self.s);
        proof {
            assert(out@ =~= spec_hex4(self.pc) + spec_spaces(2) + spec_pad(raw@, 10)
                + spec_mnemonic(instruction) + spec_spaces(1) + spec_pad(operand@, 28)
                + spec_registers_text(self@));
        }
        out
    }

    /// Renders the reference log line for the instruction the CPU is
    /// about to execute, without running it: PC, raw bytes, mnemonic,
    /// operand rendering and register snapshot, byte-exact against the
    /// nestest format.
    #[verifier::rlimit(100)]
    pub fn disassemble_current_instruction(&self) -> (r: Result<Vec<u8>, EmuError>)
        requires
            self@.wf(),
        ensures
            (r matches Ok(v) ==> spec_log_line(self@) == Ok::<Seq<u8>, EmuError>(v@)),
            (r matches Err(e) ==> spec_log_line(self@) == Err::<Seq<u8>, EmuError>(e)),
    {
        let op = match self.read(self.pc) {
            Ok(v) => v,
            Err(e) => {
                return Err(e);
            },
        };
        let entry = opcode_entry(op);
        let count: u8 = 1 + operand_count(entry.mode);
        let raw = match self.raw_bytes_text(count) {
            Ok(v) => v,
            Err(e) => {
                return Err(e);
            },
        };
        let operand = match self.operand_text(entry) {
            Ok(v) => v,
            Err(e) => {
                return Err(e);
            },
        };
        let out = self.assemble_line(&raw, &operand, entry.instruction);
        proof {
            assert(spec_log_line(self@) matches Ok(s) && s == out@);
        }
        Ok(out)
    }

}

} // verus!
