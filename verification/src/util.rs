//! Bit-level utilities shared by the iNES header parser, the flags
//! register and the CPU core: single-bit and bit-range access over 8-
//! and 16-bit words, and page extraction from 16-bit addresses.

use core::ops::RangeInclusive;
use vstd::prelude::*;

verus! {

/// The page of an address is its high byte; two addresses are on the
/// same page exactly when `page_of` agrees on them.
#[verifier::allow_in_spec]
pub fn page_of(address: u16) -> u8
    returns
        ((address / 0x100) as u8),
{
    (address / 0x100) as u8
}

/// Relies on `core::ops::RangeInclusive::start`, which returns the lower
/// bound of the range; vstd pins the view of a freshly built range, and
/// this core never iterates one, so the bound is the one the range was
/// built with.
pub assume_specification<Idx>[ RangeInclusive::<Idx>::start ](
    r: &RangeInclusive<Idx>,
) -> (ret: &Idx)
    ensures
        *ret == r@.start,
;

/// Relies on `core::ops::RangeInclusive::end`, which returns the upper
/// bound of the range, under the same reading as `start` above.
pub assume_specification<Idx>[ RangeInclusive::<Idx>::end ](
    r: &RangeInclusive<Idx>,
) -> (ret: &Idx)
    ensures
        *ret == r@.end,
;

/// Two to the power `n`.
pub open spec fn pow2(n: nat) -> nat
    decreases n,
{
    if n == 0 {
        1
    } else {
        2 * pow2((n - 1) as nat)
    }
}

/// The 8-bit word whose `n` least significant bits are ones.
pub open spec fn spec_low_ones_u8(n: u8) -> u8 {
    ((1u16 << n) - 1) as u8
}

/// The 16-bit word whose `n` least significant bits are ones.
pub open spec fn spec_low_ones_u16(n: u8) -> u16 {
    ((1u32 << n) - 1) as u16
}

fn low_ones_u8(n: u8) -> (r: u8)
    requires
        n <= 8,
    ensures
        r == spec_low_ones_u8(n),
{
    proof {
        assert(1u16 << n >= 1 && 1u16 << n <= 0x100) by (bit_vector)
            requires
                n <= 8,
        ;
    }
    ((1u16 << n) - 1) as u8
}

fn low_ones_u16(n: u8) -> (r: u16)
    requires
        n <= 16,
    ensures
        r == spec_low_ones_u16(n),
{
    proof {
        assert(1u32 << n >= 1 && 1u32 << n <= 0x10000) by (bit_vector)
            requires
                n <= 16,
        ;
    }
    ((1u32 << n) - 1) as u16
}

/// Get and set single bits and bit ranges of an unsigned word. The
/// range forms address bits `lo..=hi` (inclusive, `hi` below the word
/// width) and preserve every bit outside the range; the value handed to
/// `set_bits` supplies the `hi - lo + 1` least significant bits.
pub trait BitOperations: Sized + Copy {
    /// Number of bits in the word.
    spec fn width(&self) -> u8;

    /// Whether bit `index` of the word is set.
    spec fn bit_value(&self, index: u8) -> bool;

    /// The word with bit `index` forced to `value`, other bits kept.
    spec fn with_bit(&self, index: u8, value: bool) -> Self;

    /// Bits `lo..=hi` of the word, moved down to the least significant
    /// positions.
    spec fn bits_value(&self, lo: u8, hi: u8) -> Self;

    /// The word with bits `lo..=hi` replaced by the low bits of
    /// `value`, other bits kept.
    spec fn with_bits(&self, lo: u8, hi: u8, value: Self) -> Self;

    /// The word with every bit in `lo..=hi` forced to `value`, other
    /// bits kept.
    spec fn with_bits_all(&self, lo: u8, hi: u8, value: bool) -> Self;

    fn get_bit(&self, index: u8) -> (r: bool)
        requires
            index < self.width(),
        ensures
            r == self.bit_value(index),
    ;

    fn set_bit(&mut self, index: u8, value: bool)
        requires
            index < old(self).width(),
        ensures
            *final(self) == old(self).with_bit(index, value),
    ;

    fn get_bits(&self, range: RangeInclusive<u8>) -> (r: Self)
        requires
            range@.start <= range@.end < self.width(),
        ensures
            r == self.bits_value(range@.start, range@.end),
    ;

    fn set_bits(&mut self, range: RangeInclusive<u8>, value: Self)
        requires
            range@.start <= range@.end < old(self).width(),
        ensures
            *final(self) == old(self).with_bits(range@.start, range@.end, value),
    ;

    fn set_bits_all(&mut self, range: RangeInclusive<u8>, value: bool)
        requires
            range@.start <= range@.end < old(self).width(),
        ensures
            *final(self) == old(self).with_bits_all(range@.start, range@.end, value),
    ;
}


/// Setting a bit range touches nothing outside it: every bit below
/// `lo` or above `hi` keeps its value.
pub proof fn lemma_with_bits_preserves_outside_u8(v: u8, lo: u8, hi: u8, value: u8, j: u8)
    by (bit_vector)
    requires
        lo <= hi < 8,
        j < 8,
        j < lo || j > hi,
    ensures
        v.with_bits(lo, hi, value).bit_value(j) == v.bit_value(j),
{
}

/// Setting a bit range installs the low bits of the value: bit `j` of
/// the result, for `j` in the range, is bit `j - lo` of the value.
pub proof fn lemma_with_bits_installs_value_u8(v: u8, lo: u8, hi: u8, value: u8, j: u8)
    by (bit_vector)
    requires
        lo <= hi < 8,
        lo <= j <= hi,
    ensures
        v.with_bits(lo, hi, value).bit_value(j) == value.bit_value((j - lo) as u8),
{
}

/// Reading a bit range back returns exactly the bits just written:
/// the value masked to the width of the range.
pub proof fn lemma_bits_round_trip_u8(v: u8, lo: u8, hi: u8, value: u8)
    by (bit_vector)
    requires
        lo <= hi < 8,
    ensures
        v.with_bits(lo, hi, value).bits_value(lo, hi) == value & spec_low_ones_u8((hi + 1 - lo) as u8),
{
}

/// Setting a single bit reads back as set or clear, and leaves every
/// other bit alone.
pub proof fn lemma_with_bit_u8(v: u8, i: u8, value: bool, j: u8)
    by (bit_vector)
    requires
        i < 8,
        j < 8,
    ensures
        v.with_bit(i, value).bit_value(i) == value,
        i != j ==> v.with_bit(i, value).bit_value(j) == v.bit_value(j),
{
}


/// Setting a bit range of a 16-bit word touches nothing outside it.
pub proof fn lemma_with_bits_preserves_outside_u16(v: u16, lo: u8, hi: u8, value: u16, j: u8)
    by (bit_vector)
    requires
        lo <= hi < 16,
        j < 16,
        j < lo || j > hi,
    ensures
        v.with_bits(lo, hi, value).bit_value(j) == v.bit_value(j),
{
}

/// Setting a bit range of a 16-bit word installs the low bits of the
/// value.
pub proof fn lemma_with_bits_installs_value_u16(v: u16, lo: u8, hi: u8, value: u16, j: u8)
    by (bit_vector)
    requires
        lo <= hi < 16,
        lo <= j <= hi,
    ensures
        v.with_bits(lo, hi, value).bit_value(j) == value.bit_value((j - lo) as u8),
{
}

/// Reading a bit range of a 16-bit word back returns the value masked
/// to the width of the range.
pub proof fn lemma_bits_round_trip_u16(v: u16, lo: u8, hi: u8, value: u16)
    by (bit_vector)
    requires
        lo <= hi < 16,
    ensures
        v.with_bits(lo, hi, value).bits_value(lo, hi) == value & spec_low_ones_u16(
            (hi + 1 - lo) as u8,
        ),
{
}

/// Setting a single bit of a 16-bit word reads back as set or clear
/// and leaves every other bit alone.
pub proof fn lemma_with_bit_u16(v: u16, i: u8, value: bool, j: u8)
    by (bit_vector)
    requires
        i < 16,
        j < 16,
    ensures
        v.with_bit(i, value).bit_value(i) == value,
        i != j ==> v.with_bit(i, value).bit_value(j) == v.bit_value(j),
{
}

impl BitOperations for u8 {
    open spec fn width(&self) -> u8 {
        8
    }

    open spec fn bit_value(&self, index: u8) -> bool {
        (*self >> index) & 1 == 1
    }

    open spec fn with_bit(&self, index: u8, value: bool) -> u8 {
        if value {
            *self | (1u8 << index)
        } else {
            *self & !(1u8 << index)
        }
    }

    open spec fn bits_value(&self, lo: u8, hi: u8) -> u8 {
        (*self >> lo) & spec_low_ones_u8((hi + 1 - lo) as u8)
    }

    open spec fn with_bits(&self, lo: u8, hi: u8, value: u8) -> u8 {
        (*self & !(spec_low_ones_u8((hi + 1 - lo) as u8) << lo)) | ((value & spec_low_ones_u8(
            (hi + 1 - lo) as u8,
        )) << lo)
    }

    open spec fn with_bits_all(&self, lo: u8, hi: u8, value: bool) -> u8 {
        if value {
            *self | (spec_low_ones_u8((hi + 1 - lo) as u8) << lo)
        } else {
            *self & !(spec_low_ones_u8((hi + 1 - lo) as u8) << lo)
        }
    }

    fn get_bit(&self, index: u8) -> (r: bool) {
        (*self >> index) & 1 == 1
    }

    fn set_bit(&mut self, index: u8, value: bool) {
        if value {
            *self = *self | (1u8 << index);
        } else {
            *self = *self & !(1u8 << index);
        }
    }

    fn get_bits(&self, range: RangeInclusive<u8>) -> (r: u8) {
        let lo: u8 = *range.start();
        let hi: u8 = *range.end();
        let mask: u8 = low_ones_u8(hi + 1 - lo);
        (*self >> lo) & mask
    }

    fn set_bits(&mut self, range: RangeInclusive<u8>, value: u8) {
        let lo: u8 = *range.start();
        let hi: u8 = *range.end();
        let mask: u8 = low_ones_u8(hi + 1 - lo);
        *self = (*self & !(mask << lo)) | ((value & mask) << lo);
    }

    fn set_bits_all(&mut self, range: RangeInclusive<u8>, value: bool) {
        let lo: u8 = *range.start();
        let hi: u8 = *range.end();
        let mask: u8 = low_ones_u8(hi + 1 - lo);
        if value {
            *self = *self | (mask << lo);
        } else {
            *self = *self & !(mask << lo);
        }
    }
}

impl BitOperations for u16 {
    open spec fn width(&self) -> u8 {
        16
    }

    open spec fn bit_value(&self, index: u8) -> bool {
        (*self >> index) & 1 == 1
    }

    open spec fn with_bit(&self, index: u8, value: bool) -> u16 {
        if value {
            *self | (1u16 << index)
        } else {
            *self & !(1u16 << index)
        }
    }

    open spec fn bits_value(&self, lo: u8, hi: u8) -> u16 {
        (*self >> lo) & spec_low_ones_u16((hi + 1 - lo) as u8)
    }

    open spec fn with_bits(&self, lo: u8, hi: u8, value: u16) -> u16 {
        (*self & !(spec_low_ones_u16((hi + 1 - lo) as u8) << lo)) | ((value & spec_low_ones_u16(
            (hi + 1 - lo) as u8,
        )) << lo)
    }

    open spec fn with_bits_all(&self, lo: u8, hi: u8, value: bool) -> u16 {
        if value {
            *self | (spec_low_ones_u16((hi + 1 - lo) as u8) << lo)
        } else {
            *self & !(spec_low_ones_u16((hi + 1 - lo) as u8) << lo)
        }
    }

    fn get_bit(&self, index: u8) -> (r: bool) {
        (*self >> index) & 1 == 1
    }

    fn set_bit(&mut self, index: u8, value: bool) {
        if value {
            *self = *self | (1u16 << index);
        } else {
            *self = *self & !(1u16 << index);
        }
    }

    fn get_bits(&self, range: RangeInclusive<u8>) -> (r: u16) {
        let lo: u8 = *range.start();
        let hi: u8 = *range.end();
        let mask: u16 = low_ones_u16(hi + 1 - lo);
        (*self >> lo) & mask
    }

    fn set_bits(&mut self, range: RangeInclusive<u8>, value: u16) {
        let lo: u8 = *range.start();
        let hi: u8 = *range.end();
        let mask: u16 = low_ones_u16(hi + 1 - lo);
        *self = (*self & !(mask << lo)) | ((value & mask) << lo);
    }

    fn set_bits_all(&mut self, range: RangeInclusive<u8>, value: bool) {
        let lo: u8 = *range.start();
        let hi: u8 = *range.end();
        let mask: u16 = low_ones_u16(hi + 1 - lo);
        if value {
            *self = *self | (mask << lo);
        } else {
            *self = *self & !(mask << lo);
        }
    }
}

} // verus!
