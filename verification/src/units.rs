//! Display units for byte counts and byte rates, chosen at fixed thresholds
//! at powers of 1024.

use vstd::prelude::*;

verus! {

/// The unit a byte amount (or a bytes-per-second rate) is displayed in.
#[derive(Clone, Copy, Debug, PartialEq, Eq, Structural)]
pub enum ByteUnit {
    /// Plain bytes, below 1024.
    Bytes,
    /// Kibibytes, from 1024 up to (but excluding) 1024².
    Kilo,
    /// Mebibytes, from 1024² up to (but excluding) 1024³.
    Mega,
    /// Gibibytes, from 1024³ on.
    Giga,
}

/// The unit an amount of `amount` bytes (or bytes per second) falls in.
pub open spec fn spec_unit_for(amount: u128) -> ByteUnit {
    if amount < 1024 {
        ByteUnit::Bytes
    } else if amount < 1024 * 1024 {
        ByteUnit::Kilo
    } else if amount < 1024 * 1024 * 1024 {
        ByteUnit::Mega
    } else {
        ByteUnit::Giga
    }
}

impl ByteUnit {
    /// Number of bytes one displayed unit stands for.
    pub open spec fn spec_divisor(self) -> int {
        match self {
            ByteUnit::Bytes => 1,
            ByteUnit::Kilo => 1024,
            ByteUnit::Mega => 1048576,
            ByteUnit::Giga => 1073741824,
        }
    }

    /// Number of bytes one displayed unit stands for.
    pub fn divisor(self) -> (d: u64)
        ensures
            d == self.spec_divisor(),
    {
        match self {
            ByteUnit::Bytes => 1,
            ByteUnit::Kilo => 1024,
            ByteUnit::Mega => 1024 * 1024,
            ByteUnit::Giga => 1024 * 1024 * 1024,
        }
    }
}

/// Chooses the display unit for `amount` bytes (or bytes per second):
/// plain bytes below 1 KiB, kibibytes below 1 MiB, mebibytes below 1 GiB,
/// and gibibytes from there on.
pub fn unit_for(amount: u128) -> (u: ByteUnit)
    ensures
        u == spec_unit_for(amount),
{
    if amount < 1024 {
        ByteUnit::Bytes
    } else if amount < 1024 * 1024 {
        ByteUnit::Kilo
    } else if amount < 1024 * 1024 * 1024 {
        ByteUnit::Mega
    } else {
        ByteUnit::Giga
    }
}

} // verus!
