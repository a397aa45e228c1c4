//! Playback rates.
//!
//! A rate is an IEEE 754 double, carried by its bit pattern. Every question
//! that playback asks of a rate is answered from the bits.

use vstd::prelude::*;

verus! {

/// The bit that holds the sign of a double.
pub const SIGN_BIT: u64 = 0x8000_0000_0000_0000;

/// The bit pattern of positive infinity; the patterns above it, sign aside,
/// are the NaNs.
pub const INFINITY_BITS: u64 = 0x7ff0_0000_0000_0000;

/// The bit pattern of `1.0`.
pub const NORMAL_BITS: u64 = 0x3ff0_0000_0000_0000;

/// A playback rate: `1.0` is normal speed, negative rates play backwards.
#[derive(Debug, Clone, Copy, PartialEq, Eq, Structural)]
pub struct Speed {
    /// The rate as `f64::to_bits` gives it.
    pub bits: u64,
}

impl Speed {
    /// The bits without the sign.
    pub open spec fn magnitude(self) -> int {
        if self.bits >= SIGN_BIT {
            self.bits - SIGN_BIT
        } else {
            self.bits as int
        }
    }

    /// The rate is not a number.
    pub open spec fn nan(self) -> bool {
        self.magnitude() > INFINITY_BITS
    }

    /// The rate is positive or negative zero.
    pub open spec fn zero(self) -> bool {
        self.magnitude() == 0
    }

    /// The rate is neither infinite nor a NaN.
    pub open spec fn finite(self) -> bool {
        self.magnitude() < INFINITY_BITS
    }

    /// The rate compares greater than `0.0`: the sign is clear, and the rate
    /// is neither zero nor a NaN.
    pub open spec fn forward(self) -> bool {
        0 < self.bits <= INFINITY_BITS
    }

    /// A rate at which a stream can play: finite and not zero.
    pub open spec fn playable(self) -> bool {
        self.finite() && !self.zero()
    }

    /// The rate with the given bit pattern.
    pub fn from_bits(bits: u64) -> (speed: Speed)
        ensures
            speed.bits == bits,
    {
        Speed { bits }
    }

    /// Normal speed, `1.0`.
    pub fn normal() -> (speed: Speed)
        ensures
            speed.bits == NORMAL_BITS,
            speed.forward(),
            speed.playable(),
    {
        Speed { bits: NORMAL_BITS }
    }

    /// The bit pattern of the rate.
    pub fn to_bits(&self) -> (bits: u64)
        ensures
            bits == self.bits,
    {
        self.bits
    }

    /// Whether the rate is not a number.
    pub fn is_nan(&self) -> (r: bool)
        ensures
            r == self.nan(),
    {
        let magnitude: u64 = if self.bits >= SIGN_BIT {
            self.bits - SIGN_BIT
        } else {
            self.bits
        };
        magnitude > INFINITY_BITS
    }

    /// Whether the rate plays forwards, that is, compares greater than `0.0`.
    pub fn is_forward(&self) -> (r: bool)
        ensures
            r == self.forward(),
    {
        0 < self.bits && self.bits <= INFINITY_BITS
    }

    /// Whether a stream can play at this rate.
    pub fn is_playable(&self) -> (r: bool)
        ensures
            r == self.playable(),
    {
        let magnitude: u64 = if self.bits >= SIGN_BIT {
            self.bits - SIGN_BIT
        } else {
            self.bits
        };
        0 < magnitude && magnitude < INFINITY_BITS
    }
}

} // verus!
