//! The two measured attributes of a recipe: how much of an ingredient goes in,
//! and how long the cooking takes.

use vstd::prelude::*;

verus! {

/// An ingredient quantity, held as the bit pattern of an IEEE 754
/// single-precision number. The library never computes with quantities; it
/// stores them and hands them back bit for bit.
#[derive(Clone, Copy, Debug, PartialEq, Eq, Structural)]
pub struct Quantity {
    pub bits: u32,
}

impl Quantity {
    /// The quantity with the given bit pattern.
    pub fn from_bits(bits: u32) -> (quantity: Quantity)
        ensures
            quantity.bits == bits,
    {
        Quantity { bits }
    }

    /// The bit pattern of the quantity.
    pub fn to_bits(self) -> (bits: u32)
        ensures
            bits == self.bits,
    {
        self.bits
    }
}

/// A cooking time: whole seconds and the nanoseconds beyond them.
#[derive(Clone, Copy, Debug, PartialEq, Eq, Structural)]
pub struct CookingTime {
    pub secs: u64,
    pub nanos: u32,
}

/// What a cooking time is once it has been through the store, which keeps
/// whole seconds only.
pub open spec fn whole_seconds(time: CookingTime) -> CookingTime {
    CookingTime { secs: time.secs, nanos: 0 }
}

/// The value of the signed 64-bit seconds column that stands for `secs`: the
/// same 64 bits, read as two's complement.
pub open spec fn column_of_seconds(secs: u64) -> i64 {
    if secs <= i64::MAX {
        secs as i64
    } else {
        (secs - 0x1_0000_0000_0000_0000) as i64
    }
}

/// The seconds that a value of the seconds column stands for.
pub open spec fn seconds_of_column(column: i64) -> u64 {
    if column >= 0 {
        column as u64
    } else {
        (column + 0x1_0000_0000_0000_0000) as u64
    }
}

/// Reading back a written seconds column gives the seconds that were written.
pub proof fn lemma_seconds_column_round_trip(secs: u64)
    ensures
        seconds_of_column(column_of_seconds(secs)) == secs,
{
}

impl CookingTime {
    /// A cooking time of whole seconds.
    pub fn from_secs(secs: u64) -> (time: CookingTime)
        ensures
            time == (CookingTime { secs, nanos: 0 }),
    {
        CookingTime { secs, nanos: 0 }
    }

    /// The whole seconds of the cooking time.
    pub fn as_secs(self) -> (secs: u64)
        ensures
            secs == self.secs,
    {
        self.secs
    }

    /// The value written to the seconds column for this cooking time. The
    /// nanoseconds are dropped.
    pub fn to_column(self) -> (column: i64)
        ensures
            column == column_of_seconds(self.secs),
    {
        if self.secs <= 0x7fff_ffff_ffff_ffff {
            self.secs as i64
        } else {
            let low: u64 = self.secs - 0x8000_0000_0000_0000;
            (low as i64) + i64::MIN
        }
    }

    /// The cooking time read from a value of the seconds column.
    pub fn from_column(column: i64) -> (time: CookingTime)
        ensures
            time == (CookingTime { secs: seconds_of_column(column), nanos: 0 }),
    {
        if column >= 0 {
            CookingTime { secs: column as u64, nanos: 0 }
        } else {
            let low: i64 = column - i64::MIN;
            CookingTime { secs: (low as u64) + 0x8000_0000_0000_0000, nanos: 0 }
        }
    }
}

} // verus!
