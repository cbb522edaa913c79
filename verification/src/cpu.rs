//! The CPU interpreter: registers, the 2 KiB of mirrored internal RAM,
//! the memory bus, the stack in page 1, the addressing-mode resolver,
//! the instruction executor and the clock pacing. Every public
//! operation is specified against the mathematical machine model
//! `CpuView`; one whole instruction executes atomically at its fetch
//! tick and later ticks idle until its cycle budget is spent.

use crate::cartridge::{spec_cartridge_read, Cartridge, CartridgeView};
use crate::flags::{spec_flags_from_byte, spec_flags_to_byte, CPUFlags};
use crate::opcodes::{opcode_entry, spec_opcode_entry, AddressingMode, Instruction};
use crate::util::page_of;
use crate::EmuError;
use vstd::prelude::*;

verus! {

/// The interpreter state: 8-bit registers A, X and Y, the stack
/// pointer S addressing page 1, the 16-bit program counter, the flag
/// set, 2 KiB of internal RAM, the cartridge, the resolved effective
/// address of the current instruction, and the count of clock ticks
/// the current instruction still has to pay for.
pub struct CPU {
    pub a: u8,
    pub x: u8,
    pub y: u8,
    pub pc: u16,
    pub s: u8,
    pub flags: CPUFlags,
    pub ram: Vec<u8>,
    pub cartridge: Cartridge,
    pub instruction_target: u16,
    pub cycles_remaining: u8,
    /// When set, every executed instruction first appends its
    /// reference-format log line to `log`.
    pub logging: bool,
    /// The accumulated log, one line per executed instruction.
    pub log: Vec<u8>,
}

/// The mathematical machine state.
pub struct CpuView {
    pub a: u8,
    pub x: u8,
    pub y: u8,
    pub pc: u16,
    pub s: u8,
    pub flags: CPUFlags,
    pub ram: Seq<u8>,
    pub cartridge: CartridgeView,
    pub instruction_target: u16,
    pub cycles_remaining: u8,
    pub logging: bool,
    pub log: Seq<u8>,
}

impl View for CPU {
    type V = CpuView;

    open spec fn view(&self) -> CpuView {
        CpuView {
            a: self.a,
            x: self.x,
            y: self.y,
            pc: self.pc,
            s: self.s,
            flags: self.flags,
            ram: self.ram@,
            cartridge: self.cartridge@,
            instruction_target: self.instruction_target,
            cycles_remaining: self.cycles_remaining,
            logging: self.logging,
            log: self.log@,
        }
    }
}

impl CpuView {
    /// The machine always carries exactly 2 KiB of internal RAM.
    pub open spec fn wf(self) -> bool {
        self.ram.len() == 0x800
    }
}

/// 8-bit addition, wrapping modulo 256.
pub open spec fn wadd8(a: u8, b: u8) -> u8 {
    if a + b > 0xFF {
        (a + b - 0x100) as u8
    } else {
        (a + b) as u8
    }
}

/// 8-bit subtraction, wrapping modulo 256.
pub open spec fn wsub8(a: u8, b: u8) -> u8 {
    if a - b < 0 {
        (a - b + 0x100) as u8
    } else {
        (a - b) as u8
    }
}

/// 16-bit addition, wrapping modulo 65536.
pub open spec fn wadd16(a: u16, b: u16) -> u16 {
    if a + b > 0xFFFF {
        (a + b - 0x10000) as u16
    } else {
        (a + b) as u16
    }
}

/// 16-bit subtraction, wrapping modulo 65536.
pub open spec fn wsub16(a: u16, b: u16) -> u16 {
    if a - b < 0 {
        (a - b + 0x10000) as u16
    } else {
        (a - b) as u16
    }
}

/// A relative-branch operand sign-extended to 16 bits.
pub open spec fn spec_sign_extend(offset: u8) -> u16 {
    if offset >= 0x80 {
        (offset + 0xFF00) as u16
    } else {
        offset as u16
    }
}

/// What the bus answers a read: mirrored RAM below `$2000`, a fatal
/// `UnmappedRegion` in the PPU/APU/test windows `[$2000, $401F]`, and
/// the cartridge through its mapper from `$4020` up.
pub open spec fn spec_read(c: CpuView, address: u16) -> Result<u8, EmuError> {
    if address < 0x2000 {
        Ok(c.ram[address as int % 0x800])
    } else if address < 0x4020 {
        Err(EmuError::UnmappedRegion)
    } else {
        spec_cartridge_read(c.cartridge, address)
    }
}

/// What the bus does with a write: mirrored RAM below `$2000` takes
/// the byte; the PPU/APU/test windows are a fatal `UnmappedRegion`;
/// the cartridge space is read-only PRG-ROM under NROM, so a write
/// there is `AddressOutOfMapperRange`.
pub open spec fn spec_write(c: CpuView, address: u16, value: u8) -> Result<CpuView, EmuError> {
    if address < 0x2000 {
        Ok(CpuView { ram: c.ram.update(address as int % 0x800, value), ..c })
    } else if address < 0x4020 {
        Err(EmuError::UnmappedRegion)
    } else {
        Err(EmuError::AddressOutOfMapperRange)
    }
}

/// A 16-bit little-endian read: low byte at `address`, high byte at
/// `address + 1` (wrapping).
pub open spec fn spec_read_u16(c: CpuView, address: u16) -> Result<u16, EmuError> {
    match spec_read(c, address) {
        Err(e) => Err(e),
        Ok(lsb) => match spec_read(c, wadd16(address, 1)) {
            Err(e) => Err(e),
            Ok(msb) => Ok((msb * 0x100 + lsb) as u16),
        },
    }
}

/// A push: the byte goes to `$0100 + S`, then S decrements with 8-bit
/// wrap. The stack never leaves page 1.
pub open spec fn spec_push_u8(c: CpuView, value: u8) -> CpuView {
    CpuView { ram: c.ram.update(0x100 + c.s, value), s: wsub8(c.s, 1), ..c }
}

/// A 16-bit push: high byte first, then low byte.
pub open spec fn spec_push_u16(c: CpuView, value: u16) -> CpuView {
    spec_push_u8(spec_push_u8(c, (value / 0x100) as u8), (value % 0x100) as u8)
}

/// A pop: S increments with 8-bit wrap, then the byte at `$0100 + S`
/// is read.
pub open spec fn spec_pop_u8(c: CpuView) -> (CpuView, u8) {
    let s = wadd8(c.s, 1);
    (CpuView { s, ..c }, c.ram[0x100 + s])
}

/// A 16-bit pop, the reverse of `spec_push_u16`: the low byte lies on
/// top of the stack and comes off first, the high byte follows.
pub open spec fn spec_pop_u16(c: CpuView) -> (CpuView, u16) {
    let (c1, lsb) = spec_pop_u8(c);
    let (c2, msb) = spec_pop_u8(c1);
    (c2, (msb * 0x100 + lsb) as u16)
}


/// The effective-address resolution of one addressing mode: the
/// operand bytes consumed (PC advances over them), the effective
/// address or immediate datum written to `instruction_target`, and the
/// extra cycle a page crossing may cost, which the executor honours
/// only for the instruction classes that pay it.
#[verifier::opaque]
pub open spec fn spec_resolve(c: CpuView, mode: AddressingMode) -> Result<
    (CpuView, u8),
    EmuError,
> {
    match mode {
        AddressingMode::Implicit => Ok((c, 0)),
        AddressingMode::Accumulator => Ok((c, 0)),
        AddressingMode::Immediate => match spec_read(c, c.pc) {
            Err(e) => Err(e),
            Ok(b) => Ok(
                (CpuView { pc: wadd16(c.pc, 1), instruction_target: b as u16, ..c }, 0),
            ),
        },
        AddressingMode::ZeroPage => match spec_read(c, c.pc) {
            Err(e) => Err(e),
            Ok(b) => Ok(
                (CpuView { pc: wadd16(c.pc, 1), instruction_target: b as u16, ..c }, 0),
            ),
        },
        AddressingMode::ZeroPageIndexedX => match spec_read(c, c.pc) {
            Err(e) => Err(e),
            Ok(b) => Ok(
                (
                    CpuView {
                        pc: wadd16(c.pc, 1),
                        instruction_target: wadd8(b, c.x) as u16,
                        ..c
                    },
                    0,
                ),
            ),
        },
        AddressingMode::ZeroPageIndexedY => match spec_read(c, c.pc) {
            Err(e) => Err(e),
            Ok(b) => Ok(
                (
                    CpuView {
                        pc: wadd16(c.pc, 1),
                        instruction_target: wadd8(b, c.y) as u16,
                        ..c
                    },
                    0,
                ),
            ),
        },
        AddressingMode::Relative => match spec_read(c, c.pc) {
            Err(e) => Err(e),
            Ok(b) => {
                let pc1 = wadd16(c.pc, 1);
                let target = wadd16(pc1, spec_sign_extend(b));
                let extra: u8 = if page_of(pc1) != page_of(target) {
                    1
                } else {
                    0
                };
                Ok((CpuView { pc: pc1, instruction_target: target, ..c }, extra))
            },
        },
        AddressingMode::Absolute => match spec_read_u16(c, c.pc) {
            Err(e) => Err(e),
            Ok(base) => Ok(
                (CpuView { pc: wadd16(c.pc, 2), instruction_target: base, ..c }, 0),
            ),
        },
        AddressingMode::AbsoluteIndexedX => match spec_read_u16(c, c.pc) {
            Err(e) => Err(e),
            Ok(base) => {
                let target = wadd16(base, c.x as u16);
                let extra: u8 = if page_of(base) != page_of(target) {
                    1
                } else {
                    0
                };
                Ok((CpuView { pc: wadd16(c.pc, 2), instruction_target: target, ..c }, extra))
            },
        },
        AddressingMode::AbsoluteIndexedY => match spec_read_u16(c, c.pc) {
            Err(e) => Err(e),
            Ok(base) => {
                let target = wadd16(base, c.y as u16);
                let extra: u8 = if page_of(base) != page_of(target) {
                    1
                } else {
                    0
                };
                Ok((CpuView { pc: wadd16(c.pc, 2), instruction_target: target, ..c }, extra))
            },
        },
        AddressingMode::Indirect => match spec_read_u16(c, c.pc) {
            Err(e) => Err(e),
            Ok(pointer) => match spec_read(c, pointer) {
                Err(e) => Err(e),
                Ok(lo) => {
                    // The original hardware bug: a pointer ending in $FF
                    // fetches its high byte from the start of the same
                    // page, not from the next page.
                    let hi_address: u16 = if pointer % 0x100 == 0xFF {
                        ((pointer / 0x100) * 0x100) as u16
                    } else {
                        wadd16(pointer, 1)
                    };
                    match spec_read(c, hi_address) {
                        Err(e) => Err(e),
                        Ok(hi) => Ok(
                            (
                                CpuView {
                                    pc: wadd16(c.pc, 2),
                                    instruction_target: (hi * 0x100 + lo) as u16,
                                    ..c
                                },
                                0,
                            ),
                        ),
                    }
                },
            },
        },
        AddressingMode::IndexedIndirect => match spec_read(c, c.pc) {
            Err(e) => Err(e),
            Ok(b) => {
                let p = wadd8(b, c.x);
                match spec_read(c, p as u16) {
                    Err(e) => Err(e),
                    Ok(lo) => match spec_read(c, wadd8(p, 1) as u16) {
                        Err(e) => Err(e),
                        Ok(hi) => Ok(
                            (
                                CpuView {
                                    pc: wadd16(c.pc, 1),
                                    instruction_target: (hi * 0x100 + lo) as u16,
                                    ..c
                                },
                                0,
                            ),
                        ),
                    },
                }
            },
        },
        AddressingMode::IndirectIndexed => match spec_read(c, c.pc) {
            Err(e) => Err(e),
            Ok(b) => match spec_read(c, b as u16) {
                Err(e) => Err(e),
                Ok(lo) => match spec_read(c, wadd8(b, 1) as u16) {
                    Err(e) => Err(e),
                    Ok(hi) => {
                        let base = (hi * 0x100 + lo) as u16;
                        let target = wadd16(base, c.y as u16);
                        let extra: u8 = if page_of(base) != page_of(target) {
                            1
                        } else {
                            0
                        };
                        Ok(
                            (
                                CpuView { pc: wadd16(c.pc, 1), instruction_target: target, ..c },
                                extra,
                            ),
                        )
                    },
                },
            },
        },
    }
}

/// The operand of a data instruction: the immediate datum held in
/// `instruction_target`, or the byte read at the effective address.
pub open spec fn spec_operand(c: CpuView, mode: AddressingMode) -> Result<u8, EmuError> {
    if mode is Immediate {
        Ok(c.instruction_target as u8)
    } else {
        spec_read(c, c.instruction_target)
    }
}

/// The flags after a byte result: Z set exactly when the result is
/// zero, N mirroring its bit 7.
pub open spec fn spec_nz(f: CPUFlags, v: u8) -> CPUFlags {
    CPUFlags { zero: v == 0, negative: v >= 0x80, ..f }
}

/// A branch after its condition is decided: taken jumps to the
/// resolved target and costs one extra cycle; not taken changes
/// nothing. The returned boolean gates the resolver's page-cross
/// cycle, so an untaken branch never pays it.
pub open spec fn spec_branch(c: CpuView, taken: bool) -> (CpuView, bool) {
    if taken {
        (
            CpuView {
                pc: c.instruction_target,
                cycles_remaining: wadd8(c.cycles_remaining, 1),
                ..c
            },
            true,
        )
    } else {
        (c, false)
    }
}

/// Arithmetic shift left: bit 0 becomes 0, old bit 7 leaves into the
/// carry.
pub open spec fn spec_asl(v: u8) -> u8 {
    if 2 * v > 0xFF {
        (2 * v - 0x100) as u8
    } else {
        (2 * v) as u8
    }
}

/// Logical shift right: bit 7 becomes 0, old bit 0 leaves into the
/// carry.
pub open spec fn spec_lsr(v: u8) -> u8 {
    v / 2
}

/// Rotate left through the carry: the old carry enters at bit 0.
pub open spec fn spec_rol(v: u8, carry_in: bool) -> u8 {
    (spec_asl(v) + (if carry_in {
        1int
    } else {
        0int
    })) as u8
}

/// Rotate right through the carry: the old carry enters at bit 7.
pub open spec fn spec_ror(v: u8, carry_in: bool) -> u8 {
    (v / 2 + (if carry_in {
        0x80int
    } else {
        0int
    })) as u8
}

/// One instruction's effect on the machine after its addressing mode
/// has been resolved: the registers, flags, memory cells and PC it
/// changes, and whether it belongs to the class that pays the
/// resolver's page-cross cycle (for a branch: whether it was taken,
/// whose own penalty the executor has already charged).
#[verifier::opaque]
pub open spec fn spec_execute(
    c: CpuView,
    instruction: Instruction,
    mode: AddressingMode,
) -> Result<(CpuView, bool), EmuError> {
    match instruction {
        Instruction::ADC => match spec_operand(c, mode) {
            Err(e) => Err(e),
            Ok(m) => {
                let carry: int = if c.flags.carry {
                    1
                } else {
                    0
                };
                let sum = c.a + m + carry;
                let a2 = (if sum > 0xFF {
                    sum - 0x100
                } else {
                    sum
                }) as u8;
                Ok(
                    (
                        CpuView {
                            a: a2,
                            flags: (CPUFlags {
                                carry: sum > 0xFF,
                                overflow: ((c.a >= 0x80) == (m >= 0x80)) && ((c.a >= 0x80) != (a2
                                    >= 0x80)),
                                zero: a2 == 0,
                                negative: a2 >= 0x80,
                                ..c.flags
                            }),
                            ..c
                        },
                        true,
                    ),
                )
            },
        },
        Instruction::AND => match spec_operand(c, mode) {
            Err(e) => Err(e),
            Ok(m) => {
                let a2 = c.a & m;
                Ok((CpuView { a: a2, flags: spec_nz(c.flags, a2), ..c }, true))
            },
        },
        Instruction::ASL => if mode is Accumulator {
            let r = spec_asl(c.a);
            Ok(
                (
                    CpuView {
                        a: r,
                        flags: (CPUFlags { carry: c.a >= 0x80, zero: r == 0, negative: r >= 0x80, ..c.flags }),
                        ..c
                    },
                    false,
                ),
            )
        } else {
            match spec_read(c, c.instruction_target) {
                Err(e) => Err(e),
                Ok(v) => {
                    let r = spec_asl(v);
                    match spec_write(c, c.instruction_target, r) {
                        Err(e) => Err(e),
                        Ok(c1) => Ok(
                            (
                                CpuView {
                                    flags: (CPUFlags {
                                        carry: v >= 0x80,
                                        zero: r == 0,
                                        negative: r >= 0x80,
                                        ..c.flags
                                    }),
                                    ..c1
                                },
                                false,
                            ),
                        ),
                    }
                },
            }
        },
        Instruction::BCC => Ok(spec_branch(c, !c.flags.carry)),
        Instruction::BCS => Ok(spec_branch(c, c.flags.carry)),
        Instruction::BEQ => Ok(spec_branch(c, c.flags.zero)),
        Instruction::BIT => match spec_read(c, c.instruction_target) {
            Err(e) => Err(e),
            Ok(m) => Ok(
                (
                    CpuView {
                        flags: (CPUFlags {
                            zero: (c.a & m) == 0,
                            negative: m >= 0x80,
                            overflow: (m / 0x40) % 2 == 1,
                            ..c.flags
                        }),
                        ..c
                    },
                    false,
                ),
            ),
        },
        Instruction::BMI => Ok(spec_branch(c, c.flags.negative)),
        Instruction::BNE => Ok(spec_branch(c, !c.flags.zero)),
        Instruction::BPL => Ok(spec_branch(c, !c.flags.negative)),
        Instruction::BRK => match spec_read_u16(c, 0xFFFE) {
            Err(e) => Err(e),
            Ok(vector) => {
                let c1 = spec_push_u16(c, c.pc);
                let c2 = spec_push_u8(c1, (spec_flags_to_byte(c.flags) + 0x10) as u8);
                Ok(
                    (
                        CpuView {
                            pc: vector,
                            flags: (CPUFlags { interrupt_disable: true, ..c.flags }),
                            ..c2
                        },
                        false,
                    ),
                )
            },
        },
        Instruction::BVC => Ok(spec_branch(c, !c.flags.overflow)),
        Instruction::BVS => Ok(spec_branch(c, c.flags.overflow)),
        Instruction::CLC => Ok(
            (CpuView { flags: (CPUFlags { carry: false, ..c.flags }), ..c }, false),
        ),
        Instruction::CLD => Ok(
            (CpuView { flags: (CPUFlags { decimal_mode: false, ..c.flags }), ..c }, false),
        ),
        Instruction::CLI => Ok(
            (CpuView { flags: (CPUFlags { interrupt_disable: false, ..c.flags }), ..c }, false),
        ),
        Instruction::CLV => Ok(
            (CpuView { flags: (CPUFlags { overflow: false, ..c.flags }), ..c }, false),
        ),
        Instruction::CMP => match spec_operand(c, mode) {
            Err(e) => Err(e),
            Ok(m) => Ok(
                (
                    CpuView {
                        flags: (CPUFlags {
                            carry: c.a >= m,
                            zero: c.a == m,
                            negative: wsub8(c.a, m) >= 0x80,
                            ..c.flags
                        }),
                        ..c
                    },
                    true,
                ),
            ),
        },
        Instruction::CPX => match spec_operand(c, mode) {
            Err(e) => Err(e),
            Ok(m) => Ok(
                (
                    CpuView {
                        flags: (CPUFlags {
                            carry: c.x >= m,
                            zero: c.x == m,
                            negative: wsub8(c.x, m) >= 0x80,
                            ..c.flags
                        }),
                        ..c
                    },
                    false,
                ),
            ),
        },
        Instruction::CPY => match spec_operand(c, mode) {
            Err(e) => Err(e),
            Ok(m) => Ok(
                (
                    CpuView {
                        flags: (CPUFlags {
                            carry: c.y >= m,
                            zero: c.y == m,
                            negative: wsub8(c.y, m) >= 0x80,
                            ..c.flags
                        }),
                        ..c
                    },
                    false,
                ),
            ),
        },
        Instruction::DEC => match spec_read(c, c.instruction_target) {
            Err(e) => Err(e),
            Ok(v) => {
                let r = wsub8(v, 1);
                match spec_write(c, c.instruction_target, r) {
                    Err(e) => Err(e),
                    Ok(c1) => Ok((CpuView { flags: spec_nz(c.flags, r), ..c1 }, false)),
                }
            },
        },
        Instruction::DEX => {
            let r = wsub8(c.x, 1);
            Ok((CpuView { x: r, flags: spec_nz(c.flags, r), ..c }, false))
        },
        Instruction::DEY => {
            let r = wsub8(c.y, 1);
            Ok((CpuView { y: r, flags: spec_nz(c.flags, r), ..c }, false))
        },
        Instruction::EOR => match spec_operand(c, mode) {
            Err(e) => Err(e),
            Ok(m) => {
                let a2 = c.a ^ m;
                Ok((CpuView { a: a2, flags: spec_nz(c.flags, a2), ..c }, true))
            },
        },
        Instruction::INC => match spec_read(c, c.instruction_target) {
            Err(e) => Err(e),
            Ok(v) => {
                let r = wadd8(v, 1);
                match spec_write(c, c.instruction_target, r) {
                    Err(e) => Err(e),
                    Ok(c1) => Ok((CpuView { flags: spec_nz(c.flags, r), ..c1 }, false)),
                }
            },
        },
        Instruction::INX => {
            let r = wadd8(c.x, 1);
            Ok((CpuView { x: r, flags: spec_nz(c.flags, r), ..c }, false))
        },
        Instruction::INY => {
            let r = wadd8(c.y, 1);
            Ok((CpuView { y: r, flags: spec_nz(c.flags, r), ..c }, false))
        },
        Instruction::JMP => Ok((CpuView { pc: c.instruction_target, ..c }, false)),
        Instruction::JSR => {
            let c1 = spec_push_u16(c, wsub16(c.pc, 1));
            Ok((CpuView { pc: c.instruction_target, ..c1 }, false))
        },
        Instruction::LDA => match spec_operand(c, mode) {
            Err(e) => Err(e),
            Ok(m) => Ok((CpuView { a: m, flags: spec_nz(c.flags, m), ..c }, true)),
        },
        Instruction::LDX => match spec_operand(c, mode) {
            Err(e) => Err(e),
            Ok(m) => Ok((CpuView { x: m, flags: spec_nz(c.flags, m), ..c }, true)),
        },
        Instruction::LDY => match spec_operand(c, mode) {
            Err(e) => Err(e),
            Ok(m) => Ok((CpuView { y: m, flags: spec_nz(c.flags, m), ..c }, true)),
        },
        Instruction::LSR => if mode is Accumulator {
            let r = spec_lsr(c.a);
            Ok(
                (
                    CpuView {
                        a: r,
                        flags: (CPUFlags { carry: c.a % 2 == 1, zero: r == 0, negative: r >= 0x80, ..c.flags }),
                        ..c
                    },
                    false,
                ),
            )
        } else {
            match spec_read(c, c.instruction_target) {
                Err(e) => Err(e),
                Ok(v) => {
                    let r = spec_lsr(v);
                    match spec_write(c, c.instruction_target, r) {
                        Err(e) => Err(e),
                        Ok(c1) => Ok(
                            (
                                CpuView {
                                    flags: (CPUFlags {
                                        carry: v % 2 == 1,
                                        zero: r == 0,
                                        negative: r >= 0x80,
                                        ..c.flags
                                    }),
                                    ..c1
                                },
                                false,
                            ),
                        ),
                    }
                },
            }
        },
        Instruction::NOP => Ok((c, false)),
        Instruction::ORA => match spec_operand(c, mode) {
            Err(e) => Err(e),
            Ok(m) => {
                let a2 = c.a | m;
                Ok((CpuView { a: a2, flags: spec_nz(c.flags, a2), ..c }, true))
            },
        },
        Instruction::PHA => Ok((spec_push_u8(c, c.a), false)),
        Instruction::PHP => Ok(
            (spec_push_u8(c, (spec_flags_to_byte(c.flags) + 0x10) as u8), false),
        ),
        Instruction::PLA => {
            let (c1, v) = spec_pop_u8(c);
            Ok((CpuView { a: v, flags: spec_nz(c.flags, v), ..c1 }, false))
        },
        Instruction::PLP => {
            let (c1, v) = spec_pop_u8(c);
            Ok((CpuView { flags: spec_flags_from_byte(v), ..c1 }, false))
        },
        Instruction::ROL => if mode is Accumulator {
            let r = spec_rol(c.a, c.flags.carry);
            Ok(
                (
                    CpuView {
                        a: r,
                        flags: (CPUFlags { carry: c.a >= 0x80, zero: r == 0, negative: r >= 0x80, ..c.flags }),
                        ..c
                    },
                    false,
                ),
            )
        } else {
            match spec_read(c, c.instruction_target) {
                Err(e) => Err(e),
                Ok(v) => {
                    let r = spec_rol(v, c.flags.carry);
                    match spec_write(c, c.instruction_target, r) {
                        Err(e) => Err(e),
                        Ok(c1) => Ok(
                            (
                                CpuView {
                                    flags: (CPUFlags {
                                        carry: v >= 0x80,
                                        zero: r == 0,
                                        negative: r >= 0x80,
                                        ..c.flags
                                    }),
                                    ..c1
                                },
                                false,
                            ),
                        ),
                    }
                },
            }
        },
        Instruction::ROR => if mode is Accumulator {
            let r = spec_ror(c.a, c.flags.carry);
            Ok(
                (
                    CpuView {
                        a: r,
                        flags: (CPUFlags { carry: c.a % 2 == 1, zero: r == 0, negative: r >= 0x80, ..c.flags }),
                        ..c
                    },
                    false,
                ),
            )
        } else {
            match spec_read(c, c.instruction_target) {
                Err(e) => Err(e),
                Ok(v) => {
                    let r = spec_ror(v, c.flags.carry);
                    match spec_write(c, c.instruction_target, r) {
                        Err(e) => Err(e),
                        Ok(c1) => Ok(
                            (
                                CpuView {
                                    flags: (CPUFlags {
                                        carry: v % 2 == 1,
                                        zero: r == 0,
                                        negative: r >= 0x80,
                                        ..c.flags
                                    }),
                                    ..c1
                                },
                                false,
                            ),
                        ),
                    }
                },
            }
        },
        Instruction::RTI => {
            let (c1, p) = spec_pop_u8(c);
            let (c2, v) = spec_pop_u16(CpuView { flags: spec_flags_from_byte(p), ..c1 });
            Ok((CpuView { pc: v, ..c2 }, false))
        },
        Instruction::RTS => {
            let (c1, v) = spec_pop_u16(c);
            Ok((CpuView { pc: wadd16(v, 1), ..c1 }, false))
        },
        Instruction::SBC => match spec_operand(c, mode) {
            Err(e) => Err(e),
            Ok(m) => {
                let borrow: int = if c.flags.carry {
                    0
                } else {
                    1
                };
                let diff = c.a - m - borrow;
                let a2 = (if diff < 0 {
                    diff + 0x100
                } else {
                    diff
                }) as u8;
                Ok(
                    (
                        CpuView {
                            a: a2,
                            flags: (CPUFlags {
                                carry: diff >= 0,
                                overflow: ((c.a >= 0x80) != (m >= 0x80)) && ((c.a >= 0x80) != (a2
                                    >= 0x80)),
                                zero: a2 == 0,
                                negative: a2 >= 0x80,
                                ..c.flags
                            }),
                            ..c
                        },
                        true,
                    ),
                )
            },
        },
        Instruction::SEC => Ok(
            (CpuView { flags: (CPUFlags { carry: true, ..c.flags }), ..c }, false),
        ),
        Instruction::SED => Ok(
            (CpuView { flags: (CPUFlags { decimal_mode: true, ..c.flags }), ..c }, false),
        ),
        Instruction::SEI => Ok(
            (CpuView { flags: (CPUFlags { interrupt_disable: true, ..c.flags }), ..c }, false),
        ),
        Instruction::STA => match spec_write(c, c.instruction_target, c.a) {
            Err(e) => Err(e),
            Ok(c1) => Ok((c1, false)),
        },
        Instruction::STX => match spec_write(c, c.instruction_target, c.x) {
            Err(e) => Err(e),
            Ok(c1) => Ok((c1, false)),
        },
        Instruction::STY => match spec_write(c, c.instruction_target, c.y) {
            Err(e) => Err(e),
            Ok(c1) => Ok((c1, false)),
        },
        Instruction::TAX => Ok(
            (CpuView { x: c.a, flags: spec_nz(c.flags, c.a), ..c }, false),
        ),
        Instruction::TAY => Ok(
            (CpuView { y: c.a, flags: spec_nz(c.flags, c.a), ..c }, false),
        ),
        Instruction::TSX => Ok(
            (CpuView { x: c.s, flags: spec_nz(c.flags, c.s), ..c }, false),
        ),
        Instruction::TXA => Ok(
            (CpuView { a: c.x, flags: spec_nz(c.flags, c.x), ..c }, false),
        ),
        Instruction::TXS => Ok((CpuView { s: c.x, ..c }, false)),
        Instruction::TYA => Ok(
            (CpuView { a: c.y, flags: spec_nz(c.flags, c.y), ..c }, false),
        ),
    }
}


/// One whole instruction step at its fetch tick: the reference log
/// line is appended first when logging is on, then the opcode byte is
/// fetched and decoded, the base cycle budget installed, the
/// addressing mode resolved and the instruction executed; the
/// resolver's page-cross extra is added only when the executed
/// instruction pays it.
pub open spec fn spec_step(c: CpuView) -> Result<CpuView, EmuError> {
    match spec_read(c, c.pc) {
        Err(e) => Err(e),
        Ok(op) => {
            let entry = spec_opcode_entry(op);
            match (if c.logging {
                crate::disassembler::spec_log_line(c)
            } else {
                Ok(Seq::empty())
            }) {
                Err(e) => Err(e),
                Ok(line) => {
                    let c0 = if c.logging {
                        CpuView { log: c.log + line + seq![0x0Au8], ..c }
                    } else {
                        c
                    };
                    let c1 = CpuView {
                        pc: wadd16(c0.pc, 1),
                        cycles_remaining: entry.cycles,
                        ..c0
                    };
                    match spec_resolve(c1, entry.mode) {
                        Err(e) => Err(e),
                        Ok(resolved) => match spec_execute(
                            resolved.0,
                            entry.instruction,
                            entry.mode,
                        ) {
                            Err(e) => Err(e),
                            Ok(executed) => Ok(
                                CpuView {
                                    cycles_remaining: if executed.1 {
                                        wadd8(executed.0.cycles_remaining, resolved.1)
                                    } else {
                                        executed.0.cycles_remaining
                                    },
                                    ..executed.0
                                },
                            ),
                        },
                    }
                },
            }
        },
    }
}

/// One clock tick: a pending cycle is paid off, or, with none pending,
/// the next instruction executes whole and its budget (less the fetch
/// tick itself) becomes pending. Each instruction so occupies exactly
/// its cycle count in ticks.
pub open spec fn spec_run(c: CpuView) -> Result<CpuView, EmuError> {
    if c.cycles_remaining > 0 {
        Ok(CpuView { cycles_remaining: (c.cycles_remaining - 1) as u8, ..c })
    } else {
        match spec_step(c) {
            Err(e) => Err(e),
            Ok(c1) => Ok(CpuView { cycles_remaining: wsub8(c1.cycles_remaining, 1), ..c1 }),
        }
    }
}

/// Appends a whole byte string to a log buffer.
fn append_bytes(out: &mut Vec<u8>, piece: &Vec<u8>)
    ensures
        final(out)@ == old(out)@ + piece@,
{
    let mut i: usize = 0;
    while i < piece.len()
        invariant
            i <= piece@.len(),
            out@.len() == old(out)@.len() + i,
            forall|j: int| 0 <= j < old(out)@.len() ==> out@[j] == old(out)@[j],
            forall|j: int| 0 <= j < i ==> out@[old(out)@.len() + j] == piece@[j],
        decreases piece@.len() - i,
    {
        out.push(piece[i]);
        i = i + 1;
    }
    proof {
        assert(out@ =~= old(out)@ + piece@);
    }
}


/// The instructions whose data access is a pure read, which pay the
/// page-cross cycle of an indexed addressing mode.
pub open spec fn spec_is_read_instruction(instruction: Instruction) -> bool {
    match instruction {
        Instruction::ADC | Instruction::AND | Instruction::CMP | Instruction::EOR
            | Instruction::LDA | Instruction::LDX | Instruction::LDY | Instruction::ORA
            | Instruction::SBC => true,
        _ => false,
    }
}

/// The store and read-modify-write instructions, which never pay a
/// page-cross cycle.
pub open spec fn spec_is_store_or_rmw(instruction: Instruction) -> bool {
    match instruction {
        Instruction::ASL | Instruction::DEC | Instruction::INC | Instruction::LSR
            | Instruction::ROL | Instruction::ROR | Instruction::STA | Instruction::STX
            | Instruction::STY => true,
        _ => false,
    }
}

/// Writing a byte anywhere in the mirrored RAM window makes it
/// readable at all four mirrors of that cell: the write at `a` lands
/// at `a mod $800`, and a read at `(a mod $800) + k * $800` returns
/// it for every `k` in `0..4`.
pub proof fn lemma_ram_mirroring(c: CpuView, a: u16, v: u8, k: u16)
    requires
        c.wf(),
        a < 0x2000,
        k < 4,
    ensures
        spec_write(c, a, v) matches Ok(c1) && spec_read(
            c1,
            (a % 0x800 + k * 0x800) as u16,
        ) == Ok::<u8, EmuError>(v),
{
    let m = a % 0x800;
    if k == 0 {
        assert((m + 0 * 0x800) % 0x800 == m);
    } else if k == 1 {
        assert((m + 1 * 0x800) % 0x800 == m);
    } else if k == 2 {
        assert((m + 2 * 0x800) % 0x800 == m);
    } else {
        assert((m + 3 * 0x800) % 0x800 == m);
    }
}

/// A push followed by a pop hands the pushed byte back and restores
/// the stack pointer, from every starting S: at S = $00 the pointer
/// wraps down to $FF within page 1 and back.
pub proof fn lemma_stack_push_pop(c: CpuView, v: u8)
    requires
        c.wf(),
    ensures
        ({
            let c1 = spec_push_u8(c, v);
            let (c2, r) = spec_pop_u8(c1);
            r == v && c2 == (CpuView { ram: c.ram.update(0x100 + c.s, v), ..c })
        }),
{
}

/// A 16-bit push followed by a 16-bit pop hands the pushed word back
/// and restores the stack pointer, from every starting S; only the
/// two stack cells written remain changed. This is the symmetry JSR
/// and RTS rest on.
pub proof fn lemma_stack_push_pop_u16(c: CpuView, v: u16)
    requires
        c.wf(),
    ensures
        ({
            let c1 = spec_push_u16(c, v);
            let (c2, r) = spec_pop_u16(c1);
            r == v && c2 == (CpuView {
                ram: c.ram.update(0x100 + c.s, (v / 0x100) as u8).update(
                    0x100 + wsub8(c.s, 1),
                    (v % 0x100) as u8,
                ),
                ..c
            })
        }),
{
    assert((v / 0x100) * 0x100 + v % 0x100 == v) by (nonlinear_arith);
}

/// Zero-page indexed addressing never escapes page 0: whatever the
/// base and index, the resolved effective address has high byte 0.
pub proof fn lemma_zero_page_indexing_stays_in_page_zero(c: CpuView, mode: AddressingMode)
    requires
        c.wf(),
        mode is ZeroPageIndexedX || mode is ZeroPageIndexedY,
    ensures
        spec_resolve(c, mode) matches Ok(resolved) ==> resolved.0.instruction_target < 0x100
            && page_of(resolved.0.instruction_target) == 0,
{
    reveal(spec_resolve);
}

/// Page-cross cycle accounting. For the read instructions
/// (ADC, AND, CMP, EOR, LDA, LDX, LDY, ORA, SBC) under
/// AbsoluteIndexedX, AbsoluteIndexedY or IndirectIndexed, the
/// resolver's extra cycle is paid, and it is 1 exactly when the
/// indexed address leaves the page of its base; for the stores and
/// read-modify-write instructions the executor refuses the extra, so
/// a crossing never adds a cycle. `spec_step` adds the extra exactly
/// when the executor accepts it.
pub proof fn lemma_page_cross_cycle_accounting(
    c: CpuView,
    instruction: Instruction,
    mode: AddressingMode,
)
    requires
        c.wf(),
        spec_is_read_instruction(instruction) || spec_is_store_or_rmw(instruction),
        mode is AbsoluteIndexedX || mode is AbsoluteIndexedY || mode is IndirectIndexed,
    ensures
        (match spec_resolve(c, mode) {
            Ok(resolved) => {
                &&& (match spec_execute(resolved.0, instruction, mode) {
                    Ok(executed) => executed.1 == spec_is_read_instruction(instruction),
                    Err(e) => true,
                })
                &&& (mode is AbsoluteIndexedX ==> (match spec_read_u16(c, c.pc) {
                    Ok(base) => resolved.1 == (if page_of(base) != page_of(
                        wadd16(base, c.x as u16),
                    ) {
                        1u8
                    } else {
                        0u8
                    }),
                    Err(e) => true,
                }))
                &&& (mode is AbsoluteIndexedY ==> (match spec_read_u16(c, c.pc) {
                    Ok(base) => resolved.1 == (if page_of(base) != page_of(
                        wadd16(base, c.y as u16),
                    ) {
                        1u8
                    } else {
                        0u8
                    }),
                    Err(e) => true,
                }))
                &&& (mode is IndirectIndexed ==> (match spec_read(c, c.pc) {
                    Ok(b) => match spec_read(c, b as u16) {
                        Ok(lo) => match spec_read(c, wadd8(b, 1) as u16) {
                            Ok(hi) => resolved.1 == (if page_of((hi * 0x100 + lo) as u16)
                                != page_of(wadd16((hi * 0x100 + lo) as u16, c.y as u16)) {
                                1u8
                            } else {
                                0u8
                            }),
                            Err(e) => true,
                        },
                        Err(e) => true,
                    },
                    Err(e) => true,
                }))
            },
            Err(e) => true,
        }),
{
    reveal(spec_resolve);
    reveal(spec_execute);
}

impl CPU {
    /// A freshly powered CPU: registers zero, S at `$FF`, flags clear,
    /// RAM zeroed, no cycles pending. The caller sets PC (typically
    /// `$C000` for the reference test, or the reset vector) before
    /// clocking.
    pub fn new(cartridge: Cartridge) -> (r: Self)
        ensures
            r@ == (CpuView {
                a: 0,
                x: 0,
                y: 0,
                pc: 0,
                s: 0xFF,
                flags: (CPUFlags {
                    carry: false,
                    zero: false,
                    interrupt_disable: false,
                    decimal_mode: false,
                    overflow: false,
                    negative: false,
                }),
                ram: Seq::new(0x800, |i: int| 0u8),
                cartridge: cartridge@,
                instruction_target: 0,
                cycles_remaining: 0,
                logging: false,
                log: Seq::<u8>::empty(),
            }),
            r@.wf(),
    {
        let mut ram: Vec<u8> = Vec::new();
        let mut i: usize = 0;
        while i < 0x800
            invariant
                i <= 0x800,
                ram@.len() == i,
                forall|j: int| 0 <= j < i ==> ram@[j] == 0u8,
            decreases 0x800 - i,
        {
            ram.push(0);
            i = i + 1;
        }
        proof {
            assert(ram@ =~= Seq::new(0x800, |i: int| 0u8));
        }
        Self {
            a: 0,
            x: 0,
            y: 0,
            pc: 0,
            s: 0xFF,
            flags: CPUFlags::new(),
            ram,
            cartridge,
            instruction_target: 0,
            cycles_remaining: 0,
            logging: false,
            log: Vec::new(),
        }
    }

    /// Resolves the addressing mode of the current instruction:
    /// consumes the operand bytes, writes the effective address (or
    /// immediate datum) into `instruction_target`, and returns the
    /// extra cycle count a page crossing may cost. On an error nothing
    /// changes.
    pub fn compute_instruction_target(&mut self, addressing_mode: AddressingMode) -> (r: Result<
        u8,
        EmuError,
    >)
        requires
            old(self)@.wf(),
        ensures
            final(self)@.wf(),
            final(self)@.cartridge == old(self)@.cartridge,
            match spec_resolve(old(self)@, addressing_mode) {
                Ok(pair) => r == Ok::<u8, EmuError>(pair.1) && final(self)@ == pair.0,
                Err(e) => r == Err::<u8, EmuError>(e) && final(self)@ == old(self)@,
            },
    {
        match addressing_mode {
            AddressingMode::Implicit => self.resolve_implicit(),
            AddressingMode::Accumulator => self.resolve_accumulator(),
            AddressingMode::Immediate => self.resolve_immediate(),
            AddressingMode::ZeroPage => self.resolve_zero_page(),
            AddressingMode::ZeroPageIndexedX => self.resolve_zero_page_indexed_x(),
            AddressingMode::ZeroPageIndexedY => self.resolve_zero_page_indexed_y(),
            AddressingMode::Relative => self.resolve_relative(),
            AddressingMode::Absolute => self.resolve_absolute(),
            AddressingMode::AbsoluteIndexedX => self.resolve_absolute_indexed_x(),
            AddressingMode::AbsoluteIndexedY => self.resolve_absolute_indexed_y(),
            AddressingMode::Indirect => self.resolve_indirect(),
            AddressingMode::IndexedIndirect => self.resolve_indexed_indirect(),
            AddressingMode::IndirectIndexed => self.resolve_indirect_indexed(),
        }
    }

    fn resolve_implicit(&mut self) -> (r: Result<u8, EmuError>)
        requires
            old(self)@.wf(),
        ensures
            final(self)@.wf(),
            final(self)@.cartridge == old(self)@.cartridge,
            match spec_resolve(old(self)@, AddressingMode::Implicit) {
                Ok(pair) => r == Ok::<u8, EmuError>(pair.1) && final(self)@ == pair.0,
                Err(e) => r == Err::<u8, EmuError>(e) && final(self)@ == old(self)@,
            },
    {
        proof {
            reveal(spec_resolve);
        }
        Ok(0)
    }

    fn resolve_accumulator(&mut self) -> (r: Result<u8, EmuError>)
        requires
            old(self)@.wf(),
        ensures
            final(self)@.wf(),
            final(self)@.cartridge == old(self)@.cartridge,
            match spec_resolve(old(self)@, AddressingMode::Accumulator) {
                Ok(pair) => r == Ok::<u8, EmuError>(pair.1) && final(self)@ == pair.0,
                Err(e) => r == Err::<u8, EmuError>(e) && final(self)@ == old(self)@,
            },
    {
        proof {
            reveal(spec_resolve);
        }
        Ok(0)
    }

    fn resolve_immediate(&mut self) -> (r: Result<u8, EmuError>)
        requires
            old(self)@.wf(),
        ensures
            final(self)@.wf(),
            final(self)@.cartridge == old(self)@.cartridge,
            match spec_resolve(old(self)@, AddressingMode::Immediate) {
                Ok(pair) => r == Ok::<u8, EmuError>(pair.1) && final(self)@ == pair.0,
                Err(e) => r == Err::<u8, EmuError>(e) && final(self)@ == old(self)@,
            },
    {
        proof {
            reveal(spec_resolve);
        }
        let b = match self.read(self.pc) {
            Ok(v) => v,
            Err(e) => {
                return Err(e);
            },
        };
        self.instruction_target = b as u16;
        self.pc = self.pc.wrapping_add(1);
        Ok(0)
    
    }

    fn resolve_zero_page(&mut self) -> (r: Result<u8, EmuError>)
        requires
            old(self)@.wf(),
        ensures
            final(self)@.wf(),
            final(self)@.cartridge == old(self)@.cartridge,
            match spec_resolve(old(self)@, AddressingMode::ZeroPage) {
                Ok(pair) => r == Ok::<u8, EmuError>(pair.1) && final(self)@ == pair.0,
                Err(e) => r == Err::<u8, EmuError>(e) && final(self)@ == old(self)@,
            },
    {
        proof {
            reveal(spec_resolve);
        }
        let b = match self.read(self.pc) {
            Ok(v) => v,
            Err(e) => {
                return Err(e);
            },
        };
        self.instruction_target = b as u16;
        self.pc = self.pc.wrapping_add(1);
        Ok(0)
    
    }

    fn resolve_zero_page_indexed_x(&mut self) -> (r: Result<u8, EmuError>)
        requires
            old(self)@.wf(),
        ensures
            final(self)@.wf(),
            final(self)@.cartridge == old(self)@.cartridge,
            match spec_resolve(old(self)@, AddressingMode::ZeroPageIndexedX) {
                Ok(pair) => r == Ok::<u8, EmuError>(pair.1) && final(self)@ == pair.0,
                Err(e) => r == Err::<u8, EmuError>(e) && final(self)@ == old(self)@,
            },
    {
        proof {
            reveal(spec_resolve);
        }
        let b = match self.read(self.pc) {
            Ok(v) => v,
            Err(e) => {
                return Err(e);
            },
        };
        self.instruction_target = b.wrapping_add(self.x) as u16;
        self.pc = self.pc.wrapping_add(1);
        Ok(0)
    
    }

    fn resolve_zero_page_indexed_y(&mut self) -> (r: Result<u8, EmuError>)
        requires
            old(self)@.wf(),
        ensures
            final(self)@.wf(),
            final(self)@.cartridge == old(self)@.cartridge,
            match spec_resolve(old(self)@, AddressingMode::ZeroPageIndexedY) {
                Ok(pair) => r == Ok::<u8, EmuError>(pair.1) && final(self)@ == pair.0,
                Err(e) => r == Err::<u8, EmuError>(e) && final(self)@ == old(self)@,
            },
    {
        proof {
            reveal(spec_resolve);
        }
        let b = match self.read(self.pc) {
            Ok(v) => v,
            Err(e) => {
                return Err(e);
            },
        };
        self.instruction_target = b.wrapping_add(self.y) as u16;
        self.pc = self.pc.wrapping_add(1);
        Ok(0)
    
    }

    fn resolve_relative(&mut self) -> (r: Result<u8, EmuError>)
        requires
            old(self)@.wf(),
        ensures
            final(self)@.wf(),
            final(self)@.cartridge == old(self)@.cartridge,
            match spec_resolve(old(self)@, AddressingMode::Relative) {
                Ok(pair) => r == Ok::<u8, EmuError>(pair.1) && final(self)@ == pair.0,
                Err(e) => r == Err::<u8, EmuError>(e) && final(self)@ == old(self)@,
            },
    {
        proof {
            reveal(spec_resolve);
        }
        let b = match self.read(self.pc) {
            Ok(v) => v,
            Err(e) => {
                return Err(e);
            },
        };
        // The sign bit of the offset is repeated through the
        // high byte before the 16-bit addition.
        let extension: u16 = if b >= 0x80 {
            b as u16 + 0xFF00
        } else {
            b as u16
        };
        let pc1 = self.pc.wrapping_add(1);
        let target = pc1.wrapping_add(extension);
        self.instruction_target = target;
        self.pc = pc1;
        if page_of(pc1) != page_of(target) {
            Ok(1)
        } else {
            Ok(0)
        }
    
    }

    fn resolve_absolute(&mut self) -> (r: Result<u8, EmuError>)
        requires
            old(self)@.wf(),
        ensures
            final(self)@.wf(),
            final(self)@.cartridge == old(self)@.cartridge,
            match spec_resolve(old(self)@, AddressingMode::Absolute) {
                Ok(pair) => r == Ok::<u8, EmuError>(pair.1) && final(self)@ == pair.0,
                Err(e) => r == Err::<u8, EmuError>(e) && final(self)@ == old(self)@,
            },
    {
        proof {
            reveal(spec_resolve);
        }
        let base = match self.read_u16(self.pc) {
            Ok(v) => v,
            Err(e) => {
                return Err(e);
            },
        };
        self.instruction_target = base;
        self.pc = self.pc.wrapping_add(2);
        Ok(0)
    
    }

    fn resolve_absolute_indexed_x(&mut self) -> (r: Result<u8, EmuError>)
        requires
            old(self)@.wf(),
        ensures
            final(self)@.wf(),
            final(self)@.cartridge == old(self)@.cartridge,
            match spec_resolve(old(self)@, AddressingMode::AbsoluteIndexedX) {
                Ok(pair) => r == Ok::<u8, EmuError>(pair.1) && final(self)@ == pair.0,
                Err(e) => r == Err::<u8, EmuError>(e) && final(self)@ == old(self)@,
            },
    {
        proof {
            reveal(spec_resolve);
        }
        let base = match self.read_u16(self.pc) {
            Ok(v) => v,
            Err(e) => {
                return Err(e);
            },
        };
        let target = base.wrapping_add(self.x as u16);
        self.instruction_target = target;
        self.pc = self.pc.wrapping_add(2);
        if page_of(base) != page_of(target) {
            Ok(1)
        } else {
            Ok(0)
        }
    
    }

    fn resolve_absolute_indexed_y(&mut self) -> (r: Result<u8, EmuError>)
        requires
            old(self)@.wf(),
        ensures
            final(self)@.wf(),
            final(self)@.cartridge == old(self)@.cartridge,
            match spec_resolve(old(self)@, AddressingMode::AbsoluteIndexedY) {
                Ok(pair) => r == Ok::<u8, EmuError>(pair.1) && final(self)@ == pair.0,
                Err(e) => r == Err::<u8, EmuError>(e) && final(self)@ == old(self)@,
            },
    {
        proof {
            reveal(spec_resolve);
        }
        let base = match self.read_u16(self.pc) {
            Ok(v) => v,
            Err(e) => {
                return Err(e);
            },
        };
        let target = base.wrapping_add(self.y as u16);
        self.instruction_target = target;
        self.pc = self.pc.wrapping_add(2);
        if page_of(base) != page_of(target) {
            Ok(1)
        } else {
            Ok(0)
        }
    
    }

    fn resolve_indirect(&mut self) -> (r: Result<u8, EmuError>)
        requires
            old(self)@.wf(),
        ensures
            final(self)@.wf(),
            final(self)@.cartridge == old(self)@.cartridge,
            match spec_resolve(old(self)@, AddressingMode::Indirect) {
                Ok(pair) => r == Ok::<u8, EmuError>(pair.1) && final(self)@ == pair.0,
                Err(e) => r == Err::<u8, EmuError>(e) && final(self)@ == old(self)@,
            },
    {
        proof {
            reveal(spec_resolve);
        }
        let pointer = match self.read_u16(self.pc) {
            Ok(v) => v,
            Err(e) => {
                return Err(e);
            },
        };
        let lo = match self.read(pointer) {
            Ok(v) => v,
            Err(e) => {
                return Err(e);
            },
        };
        // The original hardware bug: a pointer ending in $FF
        // fetches its high byte from the start of the same
        // page, not from the next page.
        let hi_address: u16 = if pointer % 0x100 == 0xFF {
            (pointer / 0x100) * 0x100
        } else {
            pointer.wrapping_add(1)
        };
        let hi = match self.read(hi_address) {
            Ok(v) => v,
            Err(e) => {
                return Err(e);
            },
        };
        self.instruction_target = (hi as u16) * 0x100 + lo as u16;
        self.pc = self.pc.wrapping_add(2);
        Ok(0)
    
    }

    fn resolve_indexed_indirect(&mut self) -> (r: Result<u8, EmuError>)
        requires
            old(self)@.wf(),
        ensures
            final(self)@.wf(),
            final(self)@.cartridge == old(self)@.cartridge,
            match spec_resolve(old(self)@, AddressingMode::IndexedIndirect) {
                Ok(pair) => r == Ok::<u8, EmuError>(pair.1) && final(self)@ == pair.0,
                Err(e) => r == Err::<u8, EmuError>(e) && final(self)@ == old(self)@,
            },
    {
        proof {
            reveal(spec_resolve);
        }
        let b = match self.read(self.pc) {
            Ok(v) => v,
            Err(e) => {
                return Err(e);
            },
        };
        let p = b.wrapping_add(self.x);
        let lo = match self.read(p as u16) {
            Ok(v) => v,
            Err(e) => {
                return Err(e);
            },
        };
        let hi = match self.read(p.wrapping_add(1) as u16) {
            Ok(v) => v,
            Err(e) => {
                return Err(e);
            },
        };
        self.instruction_target = (hi as u16) * 0x100 + lo as u16;
        self.pc = self.pc.wrapping_add(1);
        Ok(0)
    
    }

    fn resolve_indirect_indexed(&mut self) -> (r: Result<u8, EmuError>)
        requires
            old(self)@.wf(),
        ensures
            final(self)@.wf(),
            final(self)@.cartridge == old(self)@.cartridge,
            match spec_resolve(old(self)@, AddressingMode::IndirectIndexed) {
                Ok(pair) => r == Ok::<u8, EmuError>(pair.1) && final(self)@ == pair.0,
                Err(e) => r == Err::<u8, EmuError>(e) && final(self)@ == old(self)@,
            },
    {
        proof {
            reveal(spec_resolve);
        }
        let b = match self.read(self.pc) {
            Ok(v) => v,
            Err(e) => {
                return Err(e);
            },
        };
        let lo = match self.read(b as u16) {
            Ok(v) => v,
            Err(e) => {
                return Err(e);
            },
        };
        let hi = match self.read(b.wrapping_add(1) as u16) {
            Ok(v) => v,
            Err(e) => {
                return Err(e);
            },
        };
        let base = (hi as u16) * 0x100 + lo as u16;
        let target = base.wrapping_add(self.y as u16);
        self.instruction_target = target;
        self.pc = self.pc.wrapping_add(1);
        if page_of(base) != page_of(target) {
            Ok(1)
        } else {
            Ok(0)
        }
    
    }

    /// Fetches, decodes and executes the instruction at PC as one
    /// atomic step, appending its log line first when logging is on.
    /// On an error the machine is no longer meaningful: the error is
    /// fatal and the host stops clocking.
    pub fn execute_next_instruction(&mut self) -> (r: Result<(), EmuError>)
        requires
            old(self)@.wf(),
        ensures
            final(self)@.wf(),
            final(self)@.cartridge == old(self)@.cartridge,
            match spec_step(old(self)@) {
                Ok(c) => r is Ok && final(self)@ == c,
                Err(e) => r == Err::<(), EmuError>(e),
            },
    {
        let op = match self.read(self.pc) {
            Ok(v) => v,
            Err(e) => {
                return Err(e);
            },
        };
        let entry = opcode_entry(op);
        if self.logging {
            let line = match self.disassemble_current_instruction() {
                Ok(v) => v,
                Err(e) => {
                    return Err(e);
                },
            };
            append_bytes(&mut self.log, &line);
            self.log.push(0x0A);
            proof {
                assert(self.log@ =~= old(self)@.log + line@ + seq![0x0Au8]);
            }
        }
        self.cycles_remaining = entry.cycles;
        self.pc = self.pc.wrapping_add(1);
        let extra = match self.compute_instruction_target(entry.mode) {
            Ok(v) => v,
            Err(e) => {
                return Err(e);
            },
        };
        let pays = match self.execute_instruction(entry.instruction, entry.mode) {
            Ok(v) => v,
            Err(e) => {
                return Err(e);
            },
        };
        if pays {
            self.cycles_remaining = self.cycles_remaining.wrapping_add(extra);
        }
        Ok(())
    }

    /// One clock tick, as the host's loop drives it: pays off one
    /// pending cycle, or executes the next instruction when none is
    /// pending.
    pub fn run(&mut self) -> (r: Result<(), EmuError>)
        requires
            old(self)@.wf(),
        ensures
            final(self)@.wf(),
            match spec_run(old(self)@) {
                Ok(c) => r is Ok && final(self)@ == c,
                Err(e) => r == Err::<(), EmuError>(e),
            },
    {
        if self.cycles_remaining > 0 {
            self.cycles_remaining = self.cycles_remaining - 1;
            return Ok(());
        }
        match self.execute_next_instruction() {
            Ok(u) => u,
            Err(e) => {
                return Err(e);
            },
        };
        self.cycles_remaining = self.cycles_remaining.wrapping_sub(1);
        Ok(())
    }

    /// Reads one byte through the bus.
    pub fn read(&self, address: u16) -> (r: Result<u8, EmuError>)
        requires
            self@.wf(),
        ensures
            r == spec_read(self@, address),
    {
        if address < 0x2000 {
            Ok(self.ram[(address % 0x800) as usize])
        } else if address < 0x4020 {
            Err(EmuError::UnmappedRegion)
        } else {
            self.cartridge.read(address)
        }
    }

    /// Writes one byte through the bus. On an error nothing changes.
    pub fn write(&mut self, address: u16, value: u8) -> (r: Result<(), EmuError>)
        requires
            old(self)@.wf(),
        ensures
            final(self)@.wf(),
            match spec_write(old(self)@, address, value) {
                Ok(c) => r is Ok && final(self)@ == c,
                Err(e) => r == Err::<(), EmuError>(e) && final(self)@ == old(self)@,
            },
    {
        if address < 0x2000 {
            self.ram[(address % 0x800) as usize] = value;
            Ok(())
        } else if address < 0x4020 {
            Err(EmuError::UnmappedRegion)
        } else {
            Err(EmuError::AddressOutOfMapperRange)
        }
    }

    /// A mutable reference to the RAM cell an address routes to. RAM
    /// is the only writable region, so the bus is asked for an address
    /// below `$2000`; mirroring applies.
    pub fn get_reference_to(&mut self, address: u16) -> (r: &mut u8)
        requires
            old(self)@.wf(),
            address < 0x2000,
        ensures
            *r == old(self)@.ram[address as int % 0x800],
            final(self)@ == (CpuView {
                ram: old(self)@.ram.update(address as int % 0x800, *final(r)),
                ..old(self)@
            }),
    {
        &mut self.ram[(address % 0x800) as usize]
    }

    /// Reads a 16-bit little-endian word through the bus.
    pub fn read_u16(&self, address: u16) -> (r: Result<u16, EmuError>)
        requires
            self@.wf(),
        ensures
            r == spec_read_u16(self@, address),
    {
        let lsb = match self.read(address) {
            Ok(v) => v,
            Err(e) => {
                return Err(e);
            },
        };
        let msb = match self.read(address.wrapping_add(1)) {
            Ok(v) => v,
            Err(e) => {
                return Err(e);
            },
        };
        Ok((msb as u16) * 0x100 + lsb as u16)
    }

    /// Pushes one byte onto the stack in page 1; S wraps within the
    /// page.
    pub fn push_u8(&mut self, value: u8)
        requires
            old(self)@.wf(),
        ensures
            final(self)@.wf(),
            final(self)@ == spec_push_u8(old(self)@, value),
    {
        let address: usize = 0x100 + self.s as usize;
        self.ram[address] = value;
        self.s = self.s.wrapping_sub(1);
    }

    /// Pushes a 16-bit word: high byte first, then low byte.
    pub fn push_u16(&mut self, value: u16)
        requires
            old(self)@.wf(),
        ensures
            final(self)@.wf(),
            final(self)@ == spec_push_u16(old(self)@, value),
    {
        self.push_u8((value / 0x100) as u8);
        self.push_u8((value % 0x100) as u8);
    }

    /// Pops one byte from the stack in page 1; S wraps within the
    /// page.
    pub fn pop_u8(&mut self) -> (r: u8)
        requires
            old(self)@.wf(),
        ensures
            final(self)@.wf(),
            (final(self)@, r) == spec_pop_u8(old(self)@),
    {
        self.s = self.s.wrapping_add(1);
        self.ram[0x100 + self.s as usize]
    }

    /// Pops a 16-bit word: the low byte comes off first, then the
    /// high byte.
    pub fn pop_u16(&mut self) -> (r: u16)
        requires
            old(self)@.wf(),
        ensures
            final(self)@.wf(),
            (final(self)@, r) == spec_pop_u16(old(self)@),
    {
        let lsb = self.pop_u8();
        let msb = self.pop_u8();
        (msb as u16) * 0x100 + lsb as u16
    }

    /// The instructions the dispatch chain handles in its stage 2.
    pub open spec fn dispatch_group_2(instruction: Instruction) -> bool {
        match instruction {
            Instruction::CLD | Instruction::CLI | Instruction::CLV | Instruction::CMP | Instruction::CPX | Instruction::CPY | Instruction::DEC | Instruction::DEX | Instruction::DEY | Instruction::EOR | Instruction::INC | Instruction::INX | Instruction::INY | Instruction::JMP => true,
            _ => false,
        }
    }

    /// The instructions the dispatch chain handles in its stage 3.
    pub open spec fn dispatch_group_3(instruction: Instruction) -> bool {
        match instruction {
            Instruction::JSR | Instruction::LDA | Instruction::LDX | Instruction::LDY | Instruction::LSR | Instruction::NOP | Instruction::ORA | Instruction::PHA | Instruction::PHP | Instruction::PLA | Instruction::PLP | Instruction::ROL | Instruction::ROR | Instruction::RTI => true,
            _ => false,
        }
    }

    /// The instructions the dispatch chain handles in its stage 4.
    pub open spec fn dispatch_group_4(instruction: Instruction) -> bool {
        match instruction {
            Instruction::RTS | Instruction::SBC | Instruction::SEC | Instruction::SED | Instruction::SEI | Instruction::STA | Instruction::STX | Instruction::STY | Instruction::TAX | Instruction::TAY | Instruction::TSX | Instruction::TXA | Instruction::TXS | Instruction::TYA => true,
            _ => false,
        }
    }

    /// Executes one decoded instruction whose addressing mode has
    /// already been resolved into `instruction_target`. Returns
    /// whether the instruction pays the resolver's page-cross cycle
    /// (for a branch: whether it was taken). On an error nothing
    /// changes.
    #[verifier::rlimit(60)]
    pub fn execute_instruction(
        &mut self,
        instruction: Instruction,
        addressing_mode: AddressingMode,
    ) -> (r: Result<bool, EmuError>)
        requires
            old(self)@.wf(),
        ensures
            final(self)@.wf(),
            final(self)@.cartridge == old(self)@.cartridge,
            match spec_execute(old(self)@, instruction, addressing_mode) {
                Ok(pair) => r == Ok::<bool, EmuError>(pair.1) && final(self)@ == pair.0,
                Err(e) => r == Err::<bool, EmuError>(e) && final(self)@ == old(self)@,
            },
    {
        match instruction {
            Instruction::ADC => self.exec_adc(addressing_mode),
            Instruction::AND => self.exec_and(addressing_mode),
            Instruction::ASL => self.exec_asl(addressing_mode),
            Instruction::BCC => self.exec_bcc(addressing_mode),
            Instruction::BCS => self.exec_bcs(addressing_mode),
            Instruction::BEQ => self.exec_beq(addressing_mode),
            Instruction::BIT => self.exec_bit(addressing_mode),
            Instruction::BMI => self.exec_bmi(addressing_mode),
            Instruction::BNE => self.exec_bne(addressing_mode),
            Instruction::BPL => self.exec_bpl(addressing_mode),
            Instruction::BRK => self.exec_brk(addressing_mode),
            Instruction::BVC => self.exec_bvc(addressing_mode),
            Instruction::BVS => self.exec_bvs(addressing_mode),
            Instruction::CLC => self.exec_clc(addressing_mode),
            _ => self.exec_dispatch_2(instruction, addressing_mode),
        }
    }

    #[verifier::rlimit(60)]
    fn exec_dispatch_2(
        &mut self,
        instruction: Instruction,
        addressing_mode: AddressingMode,
    ) -> (r: Result<bool, EmuError>)
        requires
            Self::dispatch_group_2(instruction) || Self::dispatch_group_3(instruction) || Self::dispatch_group_4(instruction),
            old(self)@.wf(),
        ensures
            final(self)@.wf(),
            final(self)@.cartridge == old(self)@.cartridge,
            match spec_execute(old(self)@, instruction, addressing_mode) {
                Ok(pair) => r == Ok::<bool, EmuError>(pair.1) && final(self)@ == pair.0,
                Err(e) => r == Err::<bool, EmuError>(e) && final(self)@ == old(self)@,
            },
    {
        match instruction {
            Instruction::CLD => self.exec_cld(addressing_mode),
            Instruction::CLI => self.exec_cli(addressing_mode),
            Instruction::CLV => self.exec_clv(addressing_mode),
            Instruction::CMP => self.exec_cmp(addressing_mode),
            Instruction::CPX => self.exec_cpx(addressing_mode),
            Instruction::CPY => self.exec_cpy(addressing_mode),
            Instruction::DEC => self.exec_dec(addressing_mode),
            Instruction::DEX => self.exec_dex(addressing_mode),
            Instruction::DEY => self.exec_dey(addressing_mode),
            Instruction::EOR => self.exec_eor(addressing_mode),
            Instruction::INC => self.exec_inc(addressing_mode),
            Instruction::INX => self.exec_inx(addressing_mode),
            Instruction::INY => self.exec_iny(addressing_mode),
            Instruction::JMP => self.exec_jmp(addressing_mode),
            _ => self.exec_dispatch_3(instruction, addressing_mode),
        }
    }

    #[verifier::rlimit(60)]
    fn exec_dispatch_3(
        &mut self,
        instruction: Instruction,
        addressing_mode: AddressingMode,
    ) -> (r: Result<bool, EmuError>)
        requires
            Self::dispatch_group_3(instruction) || Self::dispatch_group_4(instruction),
            old(self)@.wf(),
        ensures
            final(self)@.wf(),
            final(self)@.cartridge == old(self)@.cartridge,
            match spec_execute(old(self)@, instruction, addressing_mode) {
                Ok(pair) => r == Ok::<bool, EmuError>(pair.1) && final(self)@ == pair.0,
                Err(e) => r == Err::<bool, EmuError>(e) && final(self)@ == old(self)@,
            },
    {
        match instruction {
            Instruction::JSR => self.exec_jsr(addressing_mode),
            Instruction::LDA => self.exec_lda(addressing_mode),
            Instruction::LDX => self.exec_ldx(addressing_mode),
            Instruction::LDY => self.exec_ldy(addressing_mode),
            Instruction::LSR => self.exec_lsr(addressing_mode),
            Instruction::NOP => self.exec_nop(addressing_mode),
            Instruction::ORA => self.exec_ora(addressing_mode),
            Instruction::PHA => self.exec_pha(addressing_mode),
            Instruction::PHP => self.exec_php(addressing_mode),
            Instruction::PLA => self.exec_pla(addressing_mode),
            Instruction::PLP => self.exec_plp(addressing_mode),
            Instruction::ROL => self.exec_rol(addressing_mode),
            Instruction::ROR => self.exec_ror(addressing_mode),
            Instruction::RTI => self.exec_rti(addressing_mode),
            _ => self.exec_dispatch_4(instruction, addressing_mode),
        }
    }

    #[verifier::rlimit(60)]
    fn exec_dispatch_4(
        &mut self,
        instruction: Instruction,
        addressing_mode: AddressingMode,
    ) -> (r: Result<bool, EmuError>)
        requires
            Self::dispatch_group_4(instruction),
            old(self)@.wf(),
        ensures
            final(self)@.wf(),
            final(self)@.cartridge == old(self)@.cartridge,
            match spec_execute(old(self)@, instruction, addressing_mode) {
                Ok(pair) => r == Ok::<bool, EmuError>(pair.1) && final(self)@ == pair.0,
                Err(e) => r == Err::<bool, EmuError>(e) && final(self)@ == old(self)@,
            },
    {
        match instruction {
            Instruction::RTS => self.exec_rts(addressing_mode),
            Instruction::SBC => self.exec_sbc(addressing_mode),
            Instruction::SEC => self.exec_sec(addressing_mode),
            Instruction::SED => self.exec_sed(addressing_mode),
            Instruction::SEI => self.exec_sei(addressing_mode),
            Instruction::STA => self.exec_sta(addressing_mode),
            Instruction::STX => self.exec_stx(addressing_mode),
            Instruction::STY => self.exec_sty(addressing_mode),
            Instruction::TAX => self.exec_tax(addressing_mode),
            Instruction::TAY => self.exec_tay(addressing_mode),
            Instruction::TSX => self.exec_tsx(addressing_mode),
            Instruction::TXA => self.exec_txa(addressing_mode),
            Instruction::TXS => self.exec_txs(addressing_mode),
            _ => self.exec_tya(addressing_mode),
        }
    }

    /// The operand of a data instruction: the immediate datum held in
    /// `instruction_target`, or the byte read at the effective
    /// address.
    fn operand_value(&self, addressing_mode: AddressingMode) -> (r: Result<u8, EmuError>)
        requires
            self@.wf(),
        ensures
            r == spec_operand(self@, addressing_mode),
    {
        match addressing_mode {
            AddressingMode::Immediate => Ok(self.instruction_target as u8),
            _ => self.read(self.instruction_target),
        }
    }

    fn exec_adc(&mut self, addressing_mode: AddressingMode) -> (r: Result<bool, EmuError>)
        requires
            old(self)@.wf(),
        ensures
            final(self)@.wf(),
            final(self)@.cartridge == old(self)@.cartridge,
            match spec_execute(old(self)@, Instruction::ADC, addressing_mode) {
                Ok(pair) => r == Ok::<bool, EmuError>(pair.1) && final(self)@ == pair.0,
                Err(e) => r == Err::<bool, EmuError>(e) && final(self)@ == old(self)@,
            },
    {
        proof {
            reveal(spec_execute);
        }
        let value = match self.operand_value(addressing_mode) {
            Ok(v) => v,
            Err(e) => {
                return Err(e);
            },
        };
        let carry: u8 = if self.flags.carry {
            1
        } else {
            0
        };
        let sum: u16 = self.a as u16 + value as u16 + carry as u16;
        let a2: u8 = if sum > 0xFF {
            (sum - 0x100) as u8
        } else {
            sum as u8
        };
        let old_a = self.a;
        self.a = a2;
        self.flags.carry = sum > 0xFF;
        self.flags.overflow = ((old_a >= 0x80) == (value >= 0x80)) && ((old_a >= 0x80) != (a2
            >= 0x80));
        self.flags.zero = a2 == 0;
        self.flags.negative = a2 >= 0x80;
        Ok(true)
    }
    fn exec_and(&mut self, addressing_mode: AddressingMode) -> (r: Result<bool, EmuError>)
        requires
            old(self)@.wf(),
        ensures
            final(self)@.wf(),
            final(self)@.cartridge == old(self)@.cartridge,
            match spec_execute(old(self)@, Instruction::AND, addressing_mode) {
                Ok(pair) => r == Ok::<bool, EmuError>(pair.1) && final(self)@ == pair.0,
                Err(e) => r == Err::<bool, EmuError>(e) && final(self)@ == old(self)@,
            },
    {
        proof {
            reveal(spec_execute);
        }
        let value = match self.operand_value(addressing_mode) {
            Ok(v) => v,
            Err(e) => {
                return Err(e);
            },
        };
        let a2: u8 = self.a & value;
        self.a = a2;
        self.flags.zero = a2 == 0;
        self.flags.negative = a2 >= 0x80;
        Ok(true)
    }
    fn exec_asl(&mut self, addressing_mode: AddressingMode) -> (r: Result<bool, EmuError>)
        requires
            old(self)@.wf(),
        ensures
            final(self)@.wf(),
            final(self)@.cartridge == old(self)@.cartridge,
            match spec_execute(old(self)@, Instruction::ASL, addressing_mode) {
                Ok(pair) => r == Ok::<bool, EmuError>(pair.1) && final(self)@ == pair.0,
                Err(e) => r == Err::<bool, EmuError>(e) && final(self)@ == old(self)@,
            },
    {
        proof {
            reveal(spec_execute);
        }
        match addressing_mode {
            AddressingMode::Accumulator => {
                let v = self.a;
                let r: u8 = if v >= 0x80 {
            ((v as u16) * 2 - 0x100) as u8
        } else {
            v * 2
        };
                self.a = r;
                self.flags.carry = v >= 0x80;
                self.flags.zero = r == 0;
                self.flags.negative = r >= 0x80;
                Ok(false)
            },
            _ => {
                let v = match self.read(self.instruction_target) {
                    Ok(v) => v,
                    Err(e) => {
                        return Err(e);
                    },
                };
                let r: u8 = if v >= 0x80 {
            ((v as u16) * 2 - 0x100) as u8
        } else {
            v * 2
        };
                match self.write(self.instruction_target, r) {
                    Ok(u) => u,
                    Err(e) => {
                        return Err(e);
                    },
                };
                self.flags.carry = v >= 0x80;
                self.flags.zero = r == 0;
                self.flags.negative = r >= 0x80;
                Ok(false)
            },
        }
    }
    fn exec_bcc(&mut self, _addressing_mode: AddressingMode) -> (r: Result<bool, EmuError>)
        requires
            old(self)@.wf(),
        ensures
            final(self)@.wf(),
            final(self)@.cartridge == old(self)@.cartridge,
            match spec_execute(old(self)@, Instruction::BCC, _addressing_mode) {
                Ok(pair) => r == Ok::<bool, EmuError>(pair.1) && final(self)@ == pair.0,
                Err(e) => r == Err::<bool, EmuError>(e) && final(self)@ == old(self)@,
            },
    {
        proof {
            reveal(spec_execute);
        }
        if !self.flags.carry {
            self.pc = self.instruction_target;
            self.cycles_remaining = self.cycles_remaining.wrapping_add(1);
            Ok(true)
        } else {
            Ok(false)
        }
    }
    fn exec_bcs(&mut self, _addressing_mode: AddressingMode) -> (r: Result<bool, EmuError>)
        requires
            old(self)@.wf(),
        ensures
            final(self)@.wf(),
            final(self)@.cartridge == old(self)@.cartridge,
            match spec_execute(old(self)@, Instruction::BCS, _addressing_mode) {
                Ok(pair) => r == Ok::<bool, EmuError>(pair.1) && final(self)@ == pair.0,
                Err(e) => r == Err::<bool, EmuError>(e) && final(self)@ == old(self)@,
            },
    {
        proof {
            reveal(spec_execute);
        }
        if self.flags.carry {
            self.pc = self.instruction_target;
            self.cycles_remaining = self.cycles_remaining.wrapping_add(1);
            Ok(true)
        } else {
            Ok(false)
        }
    }
    fn exec_beq(&mut self, _addressing_mode: AddressingMode) -> (r: Result<bool, EmuError>)
        requires
            old(self)@.wf(),
        ensures
            final(self)@.wf(),
            final(self)@.cartridge == old(self)@.cartridge,
            match spec_execute(old(self)@, Instruction::BEQ, _addressing_mode) {
                Ok(pair) => r == Ok::<bool, EmuError>(pair.1) && final(self)@ == pair.0,
                Err(e) => r == Err::<bool, EmuError>(e) && final(self)@ == old(self)@,
            },
    {
        proof {
            reveal(spec_execute);
        }
        if self.flags.zero {
            self.pc = self.instruction_target;
            self.cycles_remaining = self.cycles_remaining.wrapping_add(1);
            Ok(true)
        } else {
            Ok(false)
        }
    }
    fn exec_bit(&mut self, _addressing_mode: AddressingMode) -> (r: Result<bool, EmuError>)
        requires
            old(self)@.wf(),
        ensures
            final(self)@.wf(),
            final(self)@.cartridge == old(self)@.cartridge,
            match spec_execute(old(self)@, Instruction::BIT, _addressing_mode) {
                Ok(pair) => r == Ok::<bool, EmuError>(pair.1) && final(self)@ == pair.0,
                Err(e) => r == Err::<bool, EmuError>(e) && final(self)@ == old(self)@,
            },
    {
        proof {
            reveal(spec_execute);
        }
        let value = match self.read(self.instruction_target) {
            Ok(v) => v,
            Err(e) => {
                return Err(e);
            },
        };
        self.flags.zero = (self.a & value) == 0;
        self.flags.negative = value >= 0x80;
        self.flags.overflow = (value / 0x40) % 2 == 1;
        Ok(false)
    }
    fn exec_bmi(&mut self, _addressing_mode: AddressingMode) -> (r: Result<bool, EmuError>)
        requires
            old(self)@.wf(),
        ensures
            final(self)@.wf(),
            final(self)@.cartridge == old(self)@.cartridge,
            match spec_execute(old(self)@, Instruction::BMI, _addressing_mode) {
                Ok(pair) => r == Ok::<bool, EmuError>(pair.1) && final(self)@ == pair.0,
                Err(e) => r == Err::<bool, EmuError>(e) && final(self)@ == old(self)@,
            },
    {
        proof {
            reveal(spec_execute);
        }
        if self.flags.negative {
            self.pc = self.instruction_target;
            self.cycles_remaining = self.cycles_remaining.wrapping_add(1);
            Ok(true)
        } else {
            Ok(false)
        }
    }
    fn exec_bne(&mut self, _addressing_mode: AddressingMode) -> (r: Result<bool, EmuError>)
        requires
            old(self)@.wf(),
        ensures
            final(self)@.wf(),
            final(self)@.cartridge == old(self)@.cartridge,
            match spec_execute(old(self)@, Instruction::BNE, _addressing_mode) {
                Ok(pair) => r == Ok::<bool, EmuError>(pair.1) && final(self)@ == pair.0,
                Err(e) => r == Err::<bool, EmuError>(e) && final(self)@ == old(self)@,
            },
    {
        proof {
            reveal(spec_execute);
        }
        if !self.flags.zero {
            self.pc = self.instruction_target;
            self.cycles_remaining = self.cycles_remaining.wrapping_add(1);
            Ok(true)
        } else {
            Ok(false)
        }
    }
    fn exec_bpl(&mut self, _addressing_mode: AddressingMode) -> (r: Result<bool, EmuError>)
        requires
            old(self)@.wf(),
        ensures
            final(self)@.wf(),
            final(self)@.cartridge == old(self)@.cartridge,
            match spec_execute(old(self)@, Instruction::BPL, _addressing_mode) {
                Ok(pair) => r == Ok::<bool, EmuError>(pair.1) && final(self)@ == pair.0,
                Err(e) => r == Err::<bool, EmuError>(e) && final(self)@ == old(self)@,
            },
    {
        proof {
            reveal(spec_execute);
        }
        if !self.flags.negative {
            self.pc = self.instruction_target;
            self.cycles_remaining = self.cycles_remaining.wrapping_add(1);
            Ok(true)
        } else {
            Ok(false)
        }
    }
    fn exec_brk(&mut self, _addressing_mode: AddressingMode) -> (r: Result<bool, EmuError>)
        requires
            old(self)@.wf(),
        ensures
            final(self)@.wf(),
            final(self)@.cartridge == old(self)@.cartridge,
            match spec_execute(old(self)@, Instruction::BRK, _addressing_mode) {
                Ok(pair) => r == Ok::<bool, EmuError>(pair.1) && final(self)@ == pair.0,
                Err(e) => r == Err::<bool, EmuError>(e) && final(self)@ == old(self)@,
            },
    {
        proof {
            reveal(spec_execute);
        }
        let vector = match self.read_u16(0xFFFE) {
            Ok(v) => v,
            Err(e) => {
                return Err(e);
            },
        };
        let status: u8 = self.flags.to_byte() + 0x10;
        let return_pc = self.pc;
        self.push_u16(return_pc);
        self.push_u8(status);
        self.pc = vector;
        self.flags.interrupt_disable = true;
        Ok(false)
    }
    fn exec_bvc(&mut self, _addressing_mode: AddressingMode) -> (r: Result<bool, EmuError>)
        requires
            old(self)@.wf(),
        ensures
            final(self)@.wf(),
            final(self)@.cartridge == old(self)@.cartridge,
            match spec_execute(old(self)@, Instruction::BVC, _addressing_mode) {
                Ok(pair) => r == Ok::<bool, EmuError>(pair.1) && final(self)@ == pair.0,
                Err(e) => r == Err::<bool, EmuError>(e) && final(self)@ == old(self)@,
            },
    {
        proof {
            reveal(spec_execute);
        }
        if !self.flags.overflow {
            self.pc = self.instruction_target;
            self.cycles_remaining = self.cycles_remaining.wrapping_add(1);
            Ok(true)
        } else {
            Ok(false)
        }
    }
    fn exec_bvs(&mut self, _addressing_mode: AddressingMode) -> (r: Result<bool, EmuError>)
        requires
            old(self)@.wf(),
        ensures
            final(self)@.wf(),
            final(self)@.cartridge == old(self)@.cartridge,
            match spec_execute(old(self)@, Instruction::BVS, _addressing_mode) {
                Ok(pair) => r == Ok::<bool, EmuError>(pair.1) && final(self)@ == pair.0,
                Err(e) => r == Err::<bool, EmuError>(e) && final(self)@ == old(self)@,
            },
    {
        proof {
            reveal(spec_execute);
        }
        if self.flags.overflow {
            self.pc = self.instruction_target;
            self.cycles_remaining = self.cycles_remaining.wrapping_add(1);
            Ok(true)
        } else {
            Ok(false)
        }
    }
    fn exec_clc(&mut self, _addressing_mode: AddressingMode) -> (r: Result<bool, EmuError>)
        requires
            old(self)@.wf(),
        ensures
            final(self)@.wf(),
            final(self)@.cartridge == old(self)@.cartridge,
            match spec_execute(old(self)@, Instruction::CLC, _addressing_mode) {
                Ok(pair) => r == Ok::<bool, EmuError>(pair.1) && final(self)@ == pair.0,
                Err(e) => r == Err::<bool, EmuError>(e) && final(self)@ == old(self)@,
            },
    {
        proof {
            reveal(spec_execute);
        }
        self.flags.carry = false;
        Ok(false)
    }
    fn exec_cld(&mut self, _addressing_mode: AddressingMode) -> (r: Result<bool, EmuError>)
        requires
            old(self)@.wf(),
        ensures
            final(self)@.wf(),
            final(self)@.cartridge == old(self)@.cartridge,
            match spec_execute(old(self)@, Instruction::CLD, _addressing_mode) {
                Ok(pair) => r == Ok::<bool, EmuError>(pair.1) && final(self)@ == pair.0,
                Err(e) => r == Err::<bool, EmuError>(e) && final(self)@ == old(self)@,
            },
    {
        proof {
            reveal(spec_execute);
        }
        self.flags.decimal_mode = false;
        Ok(false)
    }
    fn exec_cli(&mut self, _addressing_mode: AddressingMode) -> (r: Result<bool, EmuError>)
        requires
            old(self)@.wf(),
        ensures
            final(self)@.wf(),
            final(self)@.cartridge == old(self)@.cartridge,
            match spec_execute(old(self)@, Instruction::CLI, _addressing_mode) {
                Ok(pair) => r == Ok::<bool, EmuError>(pair.1) && final(self)@ == pair.0,
                Err(e) => r == Err::<bool, EmuError>(e) && final(self)@ == old(self)@,
            },
    {
        proof {
            reveal(spec_execute);
        }
        self.flags.interrupt_disable = false;
        Ok(false)
    }
    fn exec_clv(&mut self, _addressing_mode: AddressingMode) -> (r: Result<bool, EmuError>)
        requires
            old(self)@.wf(),
        ensures
            final(self)@.wf(),
            final(self)@.cartridge == old(self)@.cartridge,
            match spec_execute(old(self)@, Instruction::CLV, _addressing_mode) {
                Ok(pair) => r == Ok::<bool, EmuError>(pair.1) && final(self)@ == pair.0,
                Err(e) => r == Err::<bool, EmuError>(e) && final(self)@ == old(self)@,
            },
    {
        proof {
            reveal(spec_execute);
        }
        self.flags.overflow = false;
        Ok(false)
    }
    fn exec_cmp(&mut self, addressing_mode: AddressingMode) -> (r: Result<bool, EmuError>)
        requires
            old(self)@.wf(),
        ensures
            final(self)@.wf(),
            final(self)@.cartridge == old(self)@.cartridge,
            match spec_execute(old(self)@, Instruction::CMP, addressing_mode) {
                Ok(pair) => r == Ok::<bool, EmuError>(pair.1) && final(self)@ == pair.0,
                Err(e) => r == Err::<bool, EmuError>(e) && final(self)@ == old(self)@,
            },
    {
        proof {
            reveal(spec_execute);
        }
        let value = match self.operand_value(addressing_mode) {
            Ok(v) => v,
            Err(e) => {
                return Err(e);
            },
        };
        let d: u8 = if self.a < value {
            (self.a as u16 + 0x100 - value as u16) as u8
        } else {
            self.a - value
        };
        self.flags.carry = self.a >= value;
        self.flags.zero = self.a == value;
        self.flags.negative = d >= 0x80;
        Ok(true)
    }
    fn exec_cpx(&mut self, addressing_mode: AddressingMode) -> (r: Result<bool, EmuError>)
        requires
            old(self)@.wf(),
        ensures
            final(self)@.wf(),
            final(self)@.cartridge == old(self)@.cartridge,
            match spec_execute(old(self)@, Instruction::CPX, addressing_mode) {
                Ok(pair) => r == Ok::<bool, EmuError>(pair.1) && final(self)@ == pair.0,
                Err(e) => r == Err::<bool, EmuError>(e) && final(self)@ == old(self)@,
            },
    {
        proof {
            reveal(spec_execute);
        }
        let value = match self.operand_value(addressing_mode) {
            Ok(v) => v,
            Err(e) => {
                return Err(e);
            },
        };
        let d: u8 = if self.x < value {
            (self.x as u16 + 0x100 - value as u16) as u8
        } else {
            self.x - value
        };
        self.flags.carry = self.x >= value;
        self.flags.zero = self.x == value;
        self.flags.negative = d >= 0x80;
        Ok(false)
    }
    fn exec_cpy(&mut self, addressing_mode: AddressingMode) -> (r: Result<bool, EmuError>)
        requires
            old(self)@.wf(),
        ensures
            final(self)@.wf(),
            final(self)@.cartridge == old(self)@.cartridge,
            match spec_execute(old(self)@, Instruction::CPY, addressing_mode) {
                Ok(pair) => r == Ok::<bool, EmuError>(pair.1) && final(self)@ == pair.0,
                Err(e) => r == Err::<bool, EmuError>(e) && final(self)@ == old(self)@,
            },
    {
        proof {
            reveal(spec_execute);
        }
        let value = match self.operand_value(addressing_mode) {
            Ok(v) => v,
            Err(e) => {
                return Err(e);
            },
        };
        let d: u8 = if self.y < value {
            (self.y as u16 + 0x100 - value as u16) as u8
        } else {
            self.y - value
        };
        self.flags.carry = self.y >= value;
        self.flags.zero = self.y == value;
        self.flags.negative = d >= 0x80;
        Ok(false)
    }
    fn exec_dec(&mut self, _addressing_mode: AddressingMode) -> (r: Result<bool, EmuError>)
        requires
            old(self)@.wf(),
        ensures
            final(self)@.wf(),
            final(self)@.cartridge == old(self)@.cartridge,
            match spec_execute(old(self)@, Instruction::DEC, _addressing_mode) {
                Ok(pair) => r == Ok::<bool, EmuError>(pair.1) && final(self)@ == pair.0,
                Err(e) => r == Err::<bool, EmuError>(e) && final(self)@ == old(self)@,
            },
    {
        proof {
            reveal(spec_execute);
        }
        let v = match self.read(self.instruction_target) {
            Ok(v) => v,
            Err(e) => {
                return Err(e);
            },
        };
        let r: u8 = v.wrapping_sub(1);
        match self.write(self.instruction_target, r) {
            Ok(u) => u,
            Err(e) => {
                return Err(e);
            },
        };
        self.flags.zero = r == 0;
        self.flags.negative = r >= 0x80;
        Ok(false)
    }
    fn exec_dex(&mut self, _addressing_mode: AddressingMode) -> (r: Result<bool, EmuError>)
        requires
            old(self)@.wf(),
        ensures
            final(self)@.wf(),
            final(self)@.cartridge == old(self)@.cartridge,
            match spec_execute(old(self)@, Instruction::DEX, _addressing_mode) {
                Ok(pair) => r == Ok::<bool, EmuError>(pair.1) && final(self)@ == pair.0,
                Err(e) => r == Err::<bool, EmuError>(e) && final(self)@ == old(self)@,
            },
    {
        proof {
            reveal(spec_execute);
        }
        let r: u8 = self.x.wrapping_sub(1);
        self.x = r;
        self.flags.zero = r == 0;
        self.flags.negative = r >= 0x80;
        Ok(false)
    }
    fn exec_dey(&mut self, _addressing_mode: AddressingMode) -> (r: Result<bool, EmuError>)
        requires
            old(self)@.wf(),
        ensures
            final(self)@.wf(),
            final(self)@.cartridge == old(self)@.cartridge,
            match spec_execute(old(self)@, Instruction::DEY, _addressing_mode) {
                Ok(pair) => r == Ok::<bool, EmuError>(pair.1) && final(self)@ == pair.0,
                Err(e) => r == Err::<bool, EmuError>(e) && final(self)@ == old(self)@,
            },
    {
        proof {
            reveal(spec_execute);
        }
        let r: u8 = self.y.wrapping_sub(1);
        self.y = r;
        self.flags.zero = r == 0;
        self.flags.negative = r >= 0x80;
        Ok(false)
    }
    fn exec_eor(&mut self, addressing_mode: AddressingMode) -> (r: Result<bool, EmuError>)
        requires
            old(self)@.wf(),
        ensures
            final(self)@.wf(),
            final(self)@.cartridge == old(self)@.cartridge,
            match spec_execute(old(self)@, Instruction::EOR, addressing_mode) {
                Ok(pair) => r == Ok::<bool, EmuError>(pair.1) && final(self)@ == pair.0,
                Err(e) => r == Err::<bool, EmuError>(e) && final(self)@ == old(self)@,
            },
    {
        proof {
            reveal(spec_execute);
        }
        let value = match self.operand_value(addressing_mode) {
            Ok(v) => v,
            Err(e) => {
                return Err(e);
            },
        };
        let a2: u8 = self.a ^ value;
        self.a = a2;
        self.flags.zero = a2 == 0;
        self.flags.negative = a2 >= 0x80;
        Ok(true)
    }
    fn exec_inc(&mut self, _addressing_mode: AddressingMode) -> (r: Result<bool, EmuError>)
        requires
            old(self)@.wf(),
        ensures
            final(self)@.wf(),
            final(self)@.cartridge == old(self)@.cartridge,
            match spec_execute(old(self)@, Instruction::INC, _addressing_mode) {
                Ok(pair) => r == Ok::<bool, EmuError>(pair.1) && final(self)@ == pair.0,
                Err(e) => r == Err::<bool, EmuError>(e) && final(self)@ == old(self)@,
            },
    {
        proof {
            reveal(spec_execute);
        }
        let v = match self.read(self.instruction_target) {
            Ok(v) => v,
            Err(e) => {
                return Err(e);
            },
        };
        let r: u8 = v.wrapping_add(1);
        match self.write(self.instruction_target, r) {
            Ok(u) => u,
            Err(e) => {
                return Err(e);
            },
        };
        self.flags.zero = r == 0;
        self.flags.negative = r >= 0x80;
        Ok(false)
    }
    fn exec_inx(&mut self, _addressing_mode: AddressingMode) -> (r: Result<bool, EmuError>)
        requires
            old(self)@.wf(),
        ensures
            final(self)@.wf(),
            final(self)@.cartridge == old(self)@.cartridge,
            match spec_execute(old(self)@, Instruction::INX, _addressing_mode) {
                Ok(pair) => r == Ok::<bool, EmuError>(pair.1) && final(self)@ == pair.0,
                Err(e) => r == Err::<bool, EmuError>(e) && final(self)@ == old(self)@,
            },
    {
        proof {
            reveal(spec_execute);
        }
        let r: u8 = self.x.wrapping_add(1);
        self.x = r;
        self.flags.zero = r == 0;
        self.flags.negative = r >= 0x80;
        Ok(false)
    }
    fn exec_iny(&mut self, _addressing_mode: AddressingMode) -> (r: Result<bool, EmuError>)
        requires
            old(self)@.wf(),
        ensures
            final(self)@.wf(),
            final(self)@.cartridge == old(self)@.cartridge,
            match spec_execute(old(self)@, Instruction::INY, _addressing_mode) {
                Ok(pair) => r == Ok::<bool, EmuError>(pair.1) && final(self)@ == pair.0,
                Err(e) => r == Err::<bool, EmuError>(e) && final(self)@ == old(self)@,
            },
    {
        proof {
            reveal(spec_execute);
        }
        let r: u8 = self.y.wrapping_add(1);
        self.y = r;
        self.flags.zero = r == 0;
        self.flags.negative = r >= 0x80;
        Ok(false)
    }
    fn exec_jmp(&mut self, _addressing_mode: AddressingMode) -> (r: Result<bool, EmuError>)
        requires
            old(self)@.wf(),
        ensures
            final(self)@.wf(),
            final(self)@.cartridge == old(self)@.cartridge,
            match spec_execute(old(self)@, Instruction::JMP, _addressing_mode) {
                Ok(pair) => r == Ok::<bool, EmuError>(pair.1) && final(self)@ == pair.0,
                Err(e) => r == Err::<bool, EmuError>(e) && final(self)@ == old(self)@,
            },
    {
        proof {
            reveal(spec_execute);
        }
        self.pc = self.instruction_target;
        Ok(false)
    }
    fn exec_jsr(&mut self, _addressing_mode: AddressingMode) -> (r: Result<bool, EmuError>)
        requires
            old(self)@.wf(),
        ensures
            final(self)@.wf(),
            final(self)@.cartridge == old(self)@.cartridge,
            match spec_execute(old(self)@, Instruction::JSR, _addressing_mode) {
                Ok(pair) => r == Ok::<bool, EmuError>(pair.1) && final(self)@ == pair.0,
                Err(e) => r == Err::<bool, EmuError>(e) && final(self)@ == old(self)@,
            },
    {
        proof {
            reveal(spec_execute);
        }
        let return_pc = self.pc.wrapping_sub(1);
        self.push_u16(return_pc);
        self.pc = self.instruction_target;
        Ok(false)
    }
    fn exec_lda(&mut self, addressing_mode: AddressingMode) -> (r: Result<bool, EmuError>)
        requires
            old(self)@.wf(),
        ensures
            final(self)@.wf(),
            final(self)@.cartridge == old(self)@.cartridge,
            match spec_execute(old(self)@, Instruction::LDA, addressing_mode) {
                Ok(pair) => r == Ok::<bool, EmuError>(pair.1) && final(self)@ == pair.0,
                Err(e) => r == Err::<bool, EmuError>(e) && final(self)@ == old(self)@,
            },
    {
        proof {
            reveal(spec_execute);
        }
        let value = match self.operand_value(addressing_mode) {
            Ok(v) => v,
            Err(e) => {
                return Err(e);
            },
        };
        self.a = value;
        self.flags.zero = value == 0;
        self.flags.negative = value >= 0x80;
        Ok(true)
    }
    fn exec_ldx(&mut self, addressing_mode: AddressingMode) -> (r: Result<bool, EmuError>)
        requires
            old(self)@.wf(),
        ensures
            final(self)@.wf(),
            final(self)@.cartridge == old(self)@.cartridge,
            match spec_execute(old(self)@, Instruction::LDX, addressing_mode) {
                Ok(pair) => r == Ok::<bool, EmuError>(pair.1) && final(self)@ == pair.0,
                Err(e) => r == Err::<bool, EmuError>(e) && final(self)@ == old(self)@,
            },
    {
        proof {
            reveal(spec_execute);
        }
        let value = match self.operand_value(addressing_mode) {
            Ok(v) => v,
            Err(e) => {
                return Err(e);
            },
        };
        self.x = value;
        self.flags.zero = value == 0;
        self.flags.negative = value >= 0x80;
        Ok(true)
    }
    fn exec_ldy(&mut self, addressing_mode: AddressingMode) -> (r: Result<bool, EmuError>)
        requires
            old(self)@.wf(),
        ensures
            final(self)@.wf(),
            final(self)@.cartridge == old(self)@.cartridge,
            match spec_execute(old(self)@, Instruction::LDY, addressing_mode) {
                Ok(pair) => r == Ok::<bool, EmuError>(pair.1) && final(self)@ == pair.0,
                Err(e) => r == Err::<bool, EmuError>(e) && final(self)@ == old(self)@,
            },
    {
        proof {
            reveal(spec_execute);
        }
        let value = match self.operand_value(addressing_mode) {
            Ok(v) => v,
            Err(e) => {
                return Err(e);
            },
        };
        self.y = value;
        self.flags.zero = value == 0;
        self.flags.negative = value >= 0x80;
        Ok(true)
    }
    fn exec_lsr(&mut self, addressing_mode: AddressingMode) -> (r: Result<bool, EmuError>)
        requires
            old(self)@.wf(),
        ensures
            final(self)@.wf(),
            final(self)@.cartridge == old(self)@.cartridge,
            match spec_execute(old(self)@, Instruction::LSR, addressing_mode) {
                Ok(pair) => r == Ok::<bool, EmuError>(pair.1) && final(self)@ == pair.0,
                Err(e) => r == Err::<bool, EmuError>(e) && final(self)@ == old(self)@,
            },
    {
        proof {
            reveal(spec_execute);
        }
        match addressing_mode {
            AddressingMode::Accumulator => {
                let v = self.a;
                let r: u8 = v / 2;
                self.a = r;
                self.flags.carry = v % 2 == 1;
                self.flags.zero = r == 0;
                self.flags.negative = r >= 0x80;
                Ok(false)
            },
            _ => {
                let v = match self.read(self.instruction_target) {
                    Ok(v) => v,
                    Err(e) => {
                        return Err(e);
                    },
                };
                let r: u8 = v / 2;
                match self.write(self.instruction_target, r) {
                    Ok(u) => u,
                    Err(e) => {
                        return Err(e);
                    },
                };
                self.flags.carry = v % 2 == 1;
                self.flags.zero = r == 0;
                self.flags.negative = r >= 0x80;
                Ok(false)
            },
        }
    }
    fn exec_nop(&mut self, _addressing_mode: AddressingMode) -> (r: Result<bool, EmuError>)
        requires
            old(self)@.wf(),
        ensures
            final(self)@.wf(),
            final(self)@.cartridge == old(self)@.cartridge,
            match spec_execute(old(self)@, Instruction::NOP, _addressing_mode) {
                Ok(pair) => r == Ok::<bool, EmuError>(pair.1) && final(self)@ == pair.0,
                Err(e) => r == Err::<bool, EmuError>(e) && final(self)@ == old(self)@,
            },
    {
        proof {
            reveal(spec_execute);
        }
        Ok(false)
    }
    fn exec_ora(&mut self, addressing_mode: AddressingMode) -> (r: Result<bool, EmuError>)
        requires
            old(self)@.wf(),
        ensures
            final(self)@.wf(),
            final(self)@.cartridge == old(self)@.cartridge,
            match spec_execute(old(self)@, Instruction::ORA, addressing_mode) {
                Ok(pair) => r == Ok::<bool, EmuError>(pair.1) && final(self)@ == pair.0,
                Err(e) => r == Err::<bool, EmuError>(e) && final(self)@ == old(self)@,
            },
    {
        proof {
            reveal(spec_execute);
        }
        let value = match self.operand_value(addressing_mode) {
            Ok(v) => v,
            Err(e) => {
                return Err(e);
            },
        };
        let a2: u8 = self.a | value;
        self.a = a2;
        self.flags.zero = a2 == 0;
        self.flags.negative = a2 >= 0x80;
        Ok(true)
    }
    fn exec_pha(&mut self, _addressing_mode: AddressingMode) -> (r: Result<bool, EmuError>)
        requires
            old(self)@.wf(),
        ensures
            final(self)@.wf(),
            final(self)@.cartridge == old(self)@.cartridge,
            match spec_execute(old(self)@, Instruction::PHA, _addressing_mode) {
                Ok(pair) => r == Ok::<bool, EmuError>(pair.1) && final(self)@ == pair.0,
                Err(e) => r == Err::<bool, EmuError>(e) && final(self)@ == old(self)@,
            },
    {
        proof {
            reveal(spec_execute);
        }
        let value = self.a;
        self.push_u8(value);
        Ok(false)
    }
    fn exec_php(&mut self, _addressing_mode: AddressingMode) -> (r: Result<bool, EmuError>)
        requires
            old(self)@.wf(),
        ensures
            final(self)@.wf(),
            final(self)@.cartridge == old(self)@.cartridge,
            match spec_execute(old(self)@, Instruction::PHP, _addressing_mode) {
                Ok(pair) => r == Ok::<bool, EmuError>(pair.1) && final(self)@ == pair.0,
                Err(e) => r == Err::<bool, EmuError>(e) && final(self)@ == old(self)@,
            },
    {
        proof {
            reveal(spec_execute);
        }
        let status: u8 = self.flags.to_byte() + 0x10;
        self.push_u8(status);
        Ok(false)
    }
    fn exec_pla(&mut self, _addressing_mode: AddressingMode) -> (r: Result<bool, EmuError>)
        requires
            old(self)@.wf(),
        ensures
            final(self)@.wf(),
            final(self)@.cartridge == old(self)@.cartridge,
            match spec_execute(old(self)@, Instruction::PLA, _addressing_mode) {
                Ok(pair) => r == Ok::<bool, EmuError>(pair.1) && final(self)@ == pair.0,
                Err(e) => r == Err::<bool, EmuError>(e) && final(self)@ == old(self)@,
            },
    {
        proof {
            reveal(spec_execute);
        }
        let v = self.pop_u8();
        self.a = v;
        self.flags.zero = v == 0;
        self.flags.negative = v >= 0x80;
        Ok(false)
    }
    fn exec_plp(&mut self, _addressing_mode: AddressingMode) -> (r: Result<bool, EmuError>)
        requires
            old(self)@.wf(),
        ensures
            final(self)@.wf(),
            final(self)@.cartridge == old(self)@.cartridge,
            match spec_execute(old(self)@, Instruction::PLP, _addressing_mode) {
                Ok(pair) => r == Ok::<bool, EmuError>(pair.1) && final(self)@ == pair.0,
                Err(e) => r == Err::<bool, EmuError>(e) && final(self)@ == old(self)@,
            },
    {
        proof {
            reveal(spec_execute);
        }
        let v = self.pop_u8();
        self.flags = CPUFlags::from_byte(v);
        Ok(false)
    }
    #[verifier::rlimit(60)]
    fn exec_rol(&mut self, addressing_mode: AddressingMode) -> (r: Result<bool, EmuError>)
        requires
            old(self)@.wf(),
        ensures
            final(self)@.wf(),
            final(self)@.cartridge == old(self)@.cartridge,
            match spec_execute(old(self)@, Instruction::ROL, addressing_mode) {
                Ok(pair) => r == Ok::<bool, EmuError>(pair.1) && final(self)@ == pair.0,
                Err(e) => r == Err::<bool, EmuError>(e) && final(self)@ == old(self)@,
            },
    {
        proof {
            reveal(spec_execute);
        }
        let carry_in = self.flags.carry;
        match addressing_mode {
            AddressingMode::Accumulator => {
                let v = self.a;
                let r: u8 = {
            let doubled: u8 = if v >= 0x80 {
                ((v as u16) * 2 - 0x100) as u8
            } else {
                v * 2
            };
            doubled + (if carry_in {
                1u8
            } else {
                0u8
            })
        };
                self.a = r;
                self.flags.carry = v >= 0x80;
                self.flags.zero = r == 0;
                self.flags.negative = r >= 0x80;
                Ok(false)
            },
            _ => {
                let v = match self.read(self.instruction_target) {
                    Ok(v) => v,
                    Err(e) => {
                        return Err(e);
                    },
                };
                let r: u8 = {
            let doubled: u8 = if v >= 0x80 {
                ((v as u16) * 2 - 0x100) as u8
            } else {
                v * 2
            };
            doubled + (if carry_in {
                1u8
            } else {
                0u8
            })
        };
                match self.write(self.instruction_target, r) {
                    Ok(u) => u,
                    Err(e) => {
                        return Err(e);
                    },
                };
                self.flags.carry = v >= 0x80;
                self.flags.zero = r == 0;
                self.flags.negative = r >= 0x80;
                Ok(false)
            },
        }
    }
    fn exec_ror(&mut self, addressing_mode: AddressingMode) -> (r: Result<bool, EmuError>)
        requires
            old(self)@.wf(),
        ensures
            final(self)@.wf(),
            final(self)@.cartridge == old(self)@.cartridge,
            match spec_execute(old(self)@, Instruction::ROR, addressing_mode) {
                Ok(pair) => r == Ok::<bool, EmuError>(pair.1) && final(self)@ == pair.0,
                Err(e) => r == Err::<bool, EmuError>(e) && final(self)@ == old(self)@,
            },
    {
        proof {
            reveal(spec_execute);
        }
        let carry_in = self.flags.carry;
        match addressing_mode {
            AddressingMode::Accumulator => {
                let v = self.a;
                let r: u8 = v / 2 + (if carry_in {
            0x80u8
        } else {
            0u8
        });
                self.a = r;
                self.flags.carry = v % 2 == 1;
                self.flags.zero = r == 0;
                self.flags.negative = r >= 0x80;
                Ok(false)
            },
            _ => {
                let v = match self.read(self.instruction_target) {
                    Ok(v) => v,
                    Err(e) => {
                        return Err(e);
                    },
                };
                let r: u8 = v / 2 + (if carry_in {
            0x80u8
        } else {
            0u8
        });
                match self.write(self.instruction_target, r) {
                    Ok(u) => u,
                    Err(e) => {
                        return Err(e);
                    },
                };
                self.flags.carry = v % 2 == 1;
                self.flags.zero = r == 0;
                self.flags.negative = r >= 0x80;
                Ok(false)
            },
        }
    }
    fn exec_rti(&mut self, _addressing_mode: AddressingMode) -> (r: Result<bool, EmuError>)
        requires
            old(self)@.wf(),
        ensures
            final(self)@.wf(),
            final(self)@.cartridge == old(self)@.cartridge,
            match spec_execute(old(self)@, Instruction::RTI, _addressing_mode) {
                Ok(pair) => r == Ok::<bool, EmuError>(pair.1) && final(self)@ == pair.0,
                Err(e) => r == Err::<bool, EmuError>(e) && final(self)@ == old(self)@,
            },
    {
        proof {
            reveal(spec_execute);
        }
        let p = self.pop_u8();
        self.flags = CPUFlags::from_byte(p);
        let v = self.pop_u16();
        self.pc = v;
        Ok(false)
    }
    fn exec_rts(&mut self, _addressing_mode: AddressingMode) -> (r: Result<bool, EmuError>)
        requires
            old(self)@.wf(),
        ensures
            final(self)@.wf(),
            final(self)@.cartridge == old(self)@.cartridge,
            match spec_execute(old(self)@, Instruction::RTS, _addressing_mode) {
                Ok(pair) => r == Ok::<bool, EmuError>(pair.1) && final(self)@ == pair.0,
                Err(e) => r == Err::<bool, EmuError>(e) && final(self)@ == old(self)@,
            },
    {
        proof {
            reveal(spec_execute);
        }
        let v = self.pop_u16();
        self.pc = v.wrapping_add(1);
        Ok(false)
    }
    fn exec_sbc(&mut self, addressing_mode: AddressingMode) -> (r: Result<bool, EmuError>)
        requires
            old(self)@.wf(),
        ensures
            final(self)@.wf(),
            final(self)@.cartridge == old(self)@.cartridge,
            match spec_execute(old(self)@, Instruction::SBC, addressing_mode) {
                Ok(pair) => r == Ok::<bool, EmuError>(pair.1) && final(self)@ == pair.0,
                Err(e) => r == Err::<bool, EmuError>(e) && final(self)@ == old(self)@,
            },
    {
        proof {
            reveal(spec_execute);
        }
        let value = match self.operand_value(addressing_mode) {
            Ok(v) => v,
            Err(e) => {
                return Err(e);
            },
        };
        let borrow: u8 = if self.flags.carry {
            0
        } else {
            1
        };
        let total: u16 = value as u16 + borrow as u16;
        let a16: u16 = self.a as u16;
        let a2: u8 = if a16 < total {
            (a16 + 0x100 - total) as u8
        } else {
            (a16 - total) as u8
        };
        let old_a = self.a;
        self.a = a2;
        self.flags.carry = a16 >= total;
        self.flags.overflow = ((old_a >= 0x80) != (value >= 0x80)) && ((old_a >= 0x80) != (a2
            >= 0x80));
        self.flags.zero = a2 == 0;
        self.flags.negative = a2 >= 0x80;
        Ok(true)
    }
    fn exec_sec(&mut self, _addressing_mode: AddressingMode) -> (r: Result<bool, EmuError>)
        requires
            old(self)@.wf(),
        ensures
            final(self)@.wf(),
            final(self)@.cartridge == old(self)@.cartridge,
            match spec_execute(old(self)@, Instruction::SEC, _addressing_mode) {
                Ok(pair) => r == Ok::<bool, EmuError>(pair.1) && final(self)@ == pair.0,
                Err(e) => r == Err::<bool, EmuError>(e) && final(self)@ == old(self)@,
            },
    {
        proof {
            reveal(spec_execute);
        }
        self.flags.carry = true;
        Ok(false)
    }
    fn exec_sed(&mut self, _addressing_mode: AddressingMode) -> (r: Result<bool, EmuError>)
        requires
            old(self)@.wf(),
        ensures
            final(self)@.wf(),
            final(self)@.cartridge == old(self)@.cartridge,
            match spec_execute(old(self)@, Instruction::SED, _addressing_mode) {
                Ok(pair) => r == Ok::<bool, EmuError>(pair.1) && final(self)@ == pair.0,
                Err(e) => r == Err::<bool, EmuError>(e) && final(self)@ == old(self)@,
            },
    {
        proof {
            reveal(spec_execute);
        }
        self.flags.decimal_mode = true;
        Ok(false)
    }
    fn exec_sei(&mut self, _addressing_mode: AddressingMode) -> (r: Result<bool, EmuError>)
        requires
            old(self)@.wf(),
        ensures
            final(self)@.wf(),
            final(self)@.cartridge == old(self)@.cartridge,
            match spec_execute(old(self)@, Instruction::SEI, _addressing_mode) {
                Ok(pair) => r == Ok::<bool, EmuError>(pair.1) && final(self)@ == pair.0,
                Err(e) => r == Err::<bool, EmuError>(e) && final(self)@ == old(self)@,
            },
    {
        proof {
            reveal(spec_execute);
        }
        self.flags.interrupt_disable = true;
        Ok(false)
    }
    fn exec_sta(&mut self, _addressing_mode: AddressingMode) -> (r: Result<bool, EmuError>)
        requires
            old(self)@.wf(),
        ensures
            final(self)@.wf(),
            final(self)@.cartridge == old(self)@.cartridge,
            match spec_execute(old(self)@, Instruction::STA, _addressing_mode) {
                Ok(pair) => r == Ok::<bool, EmuError>(pair.1) && final(self)@ == pair.0,
                Err(e) => r == Err::<bool, EmuError>(e) && final(self)@ == old(self)@,
            },
    {
        proof {
            reveal(spec_execute);
        }
        match self.write(self.instruction_target, self.a) {
            Ok(u) => u,
            Err(e) => {
                return Err(e);
            },
        };
        Ok(false)
    }
    fn exec_stx(&mut self, _addressing_mode: AddressingMode) -> (r: Result<bool, EmuError>)
        requires
            old(self)@.wf(),
        ensures
            final(self)@.wf(),
            final(self)@.cartridge == old(self)@.cartridge,
            match spec_execute(old(self)@, Instruction::STX, _addressing_mode) {
                Ok(pair) => r == Ok::<bool, EmuError>(pair.1) && final(self)@ == pair.0,
                Err(e) => r == Err::<bool, EmuError>(e) && final(self)@ == old(self)@,
            },
    {
        proof {
            reveal(spec_execute);
        }
        match self.write(self.instruction_target, self.x) {
            Ok(u) => u,
            Err(e) => {
                return Err(e);
            },
        };
        Ok(false)
    }
    fn exec_sty(&mut self, _addressing_mode: AddressingMode) -> (r: Result<bool, EmuError>)
        requires
            old(self)@.wf(),
        ensures
            final(self)@.wf(),
            final(self)@.cartridge == old(self)@.cartridge,
            match spec_execute(old(self)@, Instruction::STY, _addressing_mode) {
                Ok(pair) => r == Ok::<bool, EmuError>(pair.1) && final(self)@ == pair.0,
                Err(e) => r == Err::<bool, EmuError>(e) && final(self)@ == old(self)@,
            },
    {
        proof {
            reveal(spec_execute);
        }
        match self.write(self.instruction_target, self.y) {
            Ok(u) => u,
            Err(e) => {
                return Err(e);
            },
        };
        Ok(false)
    }
    fn exec_tax(&mut self, _addressing_mode: AddressingMode) -> (r: Result<bool, EmuError>)
        requires
            old(self)@.wf(),
        ensures
            final(self)@.wf(),
            final(self)@.cartridge == old(self)@.cartridge,
            match spec_execute(old(self)@, Instruction::TAX, _addressing_mode) {
                Ok(pair) => r == Ok::<bool, EmuError>(pair.1) && final(self)@ == pair.0,
                Err(e) => r == Err::<bool, EmuError>(e) && final(self)@ == old(self)@,
            },
    {
        proof {
            reveal(spec_execute);
        }
        let r = self.a;
        self.x = r;
        self.flags.zero = r == 0;
        self.flags.negative = r >= 0x80;
        Ok(false)
    }
    fn exec_tay(&mut self, _addressing_mode: AddressingMode) -> (r: Result<bool, EmuError>)
        requires
            old(self)@.wf(),
        ensures
            final(self)@.wf(),
            final(self)@.cartridge == old(self)@.cartridge,
            match spec_execute(old(self)@, Instruction::TAY, _addressing_mode) {
                Ok(pair) => r == Ok::<bool, EmuError>(pair.1) && final(self)@ == pair.0,
                Err(e) => r == Err::<bool, EmuError>(e) && final(self)@ == old(self)@,
            },
    {
        proof {
            reveal(spec_execute);
        }
        let r = self.a;
        self.y = r;
        self.flags.zero = r == 0;
        self.flags.negative = r >= 0x80;
        Ok(false)
    }
    fn exec_tsx(&mut self, _addressing_mode: AddressingMode) -> (r: Result<bool, EmuError>)
        requires
            old(self)@.wf(),
        ensures
            final(self)@.wf(),
            final(self)@.cartridge == old(self)@.cartridge,
            match spec_execute(old(self)@, Instruction::TSX, _addressing_mode) {
                Ok(pair) => r == Ok::<bool, EmuError>(pair.1) && final(self)@ == pair.0,
                Err(e) => r == Err::<bool, EmuError>(e) && final(self)@ == old(self)@,
            },
    {
        proof {
            reveal(spec_execute);
        }
        let r = self.s;
        self.x = r;
        self.flags.zero = r == 0;
        self.flags.negative = r >= 0x80;
        Ok(false)
    }
    fn exec_txa(&mut self, _addressing_mode: AddressingMode) -> (r: Result<bool, EmuError>)
        requires
            old(self)@.wf(),
        ensures
            final(self)@.wf(),
            final(self)@.cartridge == old(self)@.cartridge,
            match spec_execute(old(self)@, Instruction::TXA, _addressing_mode) {
                Ok(pair) => r == Ok::<bool, EmuError>(pair.1) && final(self)@ == pair.0,
                Err(e) => r == Err::<bool, EmuError>(e) && final(self)@ == old(self)@,
            },
    {
        proof {
            reveal(spec_execute);
        }
        let r = self.x;
        self.a = r;
        self.flags.zero = r == 0;
        self.flags.negative = r >= 0x80;
        Ok(false)
    }
    fn exec_txs(&mut self, _addressing_mode: AddressingMode) -> (r: Result<bool, EmuError>)
        requires
            old(self)@.wf(),
        ensures
            final(self)@.wf(),
            final(self)@.cartridge == old(self)@.cartridge,
            match spec_execute(old(self)@, Instruction::TXS, _addressing_mode) {
                Ok(pair) => r == Ok::<bool, EmuError>(pair.1) && final(self)@ == pair.0,
                Err(e) => r == Err::<bool, EmuError>(e) && final(self)@ == old(self)@,
            },
    {
        proof {
            reveal(spec_execute);
        }
        self.s = self.x;
        Ok(false)
    }
    fn exec_tya(&mut self, _addressing_mode: AddressingMode) -> (r: Result<bool, EmuError>)
        requires
            old(self)@.wf(),
        ensures
            final(self)@.wf(),
            final(self)@.cartridge == old(self)@.cartridge,
            match spec_execute(old(self)@, Instruction::TYA, _addressing_mode) {
                Ok(pair) => r == Ok::<bool, EmuError>(pair.1) && final(self)@ == pair.0,
                Err(e) => r == Err::<bool, EmuError>(e) && final(self)@ == old(self)@,
            },
    {
        proof {
            reveal(spec_execute);
        }
        let r = self.y;
        self.a = r;
        self.flags.zero = r == 0;
        self.flags.negative = r >= 0x80;
        Ok(false)
    }
}

} // verus!
