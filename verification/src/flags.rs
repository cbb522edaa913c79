//! The 6502 processor-status register: six semantic flags packed to and
//! from the 8-bit P-register layout `N V 1 B D I Z C` (bit 7 down to
//! bit 0). Bit 5 is always 1 in the packed byte; bit 4 ("B") is packed
//! as 0 and forced on by the BRK/PHP push paths; both are discarded
//! when a byte is unpacked.

use vstd::prelude::*;

verus! {

/// The six semantic flags of the 6502 status register.
#[derive(Clone, Copy, Debug, PartialEq, Eq, Structural)]
pub struct CPUFlags {
    pub carry: bool,
    pub zero: bool,
    pub interrupt_disable: bool,
    pub decimal_mode: bool,
    pub overflow: bool,
    pub negative: bool,
}

/// The packed status byte of `f`: carry in bit 0, zero in bit 1,
/// interrupt-disable in bit 2, decimal in bit 3, overflow in bit 6,
/// negative in bit 7; bit 5 always 1 and bit 4 ("B") always 0.
pub open spec fn spec_flags_to_byte(f: CPUFlags) -> u8 {
    ((if f.carry {
        0x01int
    } else {
        0int
    }) + (if f.zero {
        0x02int
    } else {
        0int
    }) + (if f.interrupt_disable {
        0x04int
    } else {
        0int
    }) + (if f.decimal_mode {
        0x08int
    } else {
        0int
    }) + 0x20 + (if f.overflow {
        0x40int
    } else {
        0int
    }) + (if f.negative {
        0x80int
    } else {
        0int
    })) as u8
}

/// The flag set encoded by the byte `b`; bits 4 and 5 are ignored.
pub open spec fn spec_flags_from_byte(b: u8) -> CPUFlags {
    CPUFlags {
        carry: b % 2 == 1,
        zero: (b / 0x02) % 2 == 1,
        interrupt_disable: (b / 0x04) % 2 == 1,
        decimal_mode: (b / 0x08) % 2 == 1,
        overflow: (b / 0x40) % 2 == 1,
        negative: (b / 0x80) % 2 == 1,
    }
}

impl CPUFlags {
    /// All flags clear, the state the CPU starts in.
    pub fn new() -> (r: Self)
        ensures
            r == (CPUFlags {
                carry: false,
                zero: false,
                interrupt_disable: false,
                decimal_mode: false,
                overflow: false,
                negative: false,
            }),
    {
        Self {
            carry: false,
            zero: false,
            interrupt_disable: false,
            decimal_mode: false,
            overflow: false,
            negative: false,
        }
    }

    /// Packs the six flags into the P-register byte layout, with bit 5
    /// set and bit 4 clear; the BRK/PHP push paths set bit 4 themselves.
    pub fn to_byte(&self) -> (r: u8)
        ensures
            r == spec_flags_to_byte(*self),
    {
        (if self.carry {
            0x01u8
        } else {
            0
        }) + (if self.zero {
            0x02u8
        } else {
            0
        }) + (if self.interrupt_disable {
            0x04u8
        } else {
            0
        }) + (if self.decimal_mode {
            0x08u8
        } else {
            0
        }) + 0x20 + (if self.overflow {
            0x40u8
        } else {
            0
        }) + (if self.negative {
            0x80u8
        } else {
            0
        })
    }

    /// Reconstitutes the six flags from a status byte, discarding bits
    /// 4 and 5.
    pub fn from_byte(byte: u8) -> (r: Self)
        ensures
            r == spec_flags_from_byte(byte),
    {
        Self {
            carry: byte % 2 == 1,
            zero: (byte / 0x02) % 2 == 1,
            interrupt_disable: (byte / 0x04) % 2 == 1,
            decimal_mode: (byte / 0x08) % 2 == 1,
            overflow: (byte / 0x40) % 2 == 1,
            negative: (byte / 0x80) % 2 == 1,
        }
    }
}

/// Packing is a retraction of unpacking: repacking the flags decoded
/// from any byte returns that byte with bit 5 forced on and bit 4
/// forced off.
pub proof fn lemma_to_byte_of_from_byte(b: u8)
    ensures
        spec_flags_to_byte(spec_flags_from_byte(b)) == (b | 0x20) & !0x10,
{
    assert(spec_flags_to_byte(spec_flags_from_byte(b)) == (b | 0x20) & !0x10) by (bit_vector);
}

/// Unpacking inverts packing exactly: the six flags survive a round
/// trip through the packed byte.
pub proof fn lemma_from_byte_of_to_byte(f: CPUFlags)
    ensures
        spec_flags_from_byte(spec_flags_to_byte(f)) == f,
{
}

} // verus!
