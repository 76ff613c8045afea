//! The gates around the calibration of a noise scale.
//!
//! A scale is found by numerical search outside this library. What the
//! library decides is which requests are worth the search, and which answers
//! are a scale at all. It holds real numbers in the IEEE 754 binary64
//! encoding, by their bit patterns, and decides by integer comparison: among
//! patterns with a clear sign bit, a greater pattern is a greater number.

use crate::error::EngineError;
use vstd::prelude::*;

verus! {

/// The bit pattern of the number one.
pub const ONE_BITS: u64 = 0x3FF0_0000_0000_0000;

/// The bit pattern of positive infinity.
pub const INFINITY_BITS: u64 = 0x7FF0_0000_0000_0000;

/// The bit pattern of the tolerance an engine starts with, five in a hundred.
pub const DEFAULT_ALPHA_BITS: u64 = 0x3FA9_9999_9999_999A;

/// A real number in the IEEE 754 binary64 encoding.
#[derive(Clone, Copy, Debug, PartialEq, Eq, Structural)]
pub struct Binary64 {
    pub bits: u64,
}

/// The sign bit of a pattern.
pub open spec fn sign_field(bits: u64) -> u64 {
    bits >> 63
}

/// The biased exponent of a pattern.
pub open spec fn exponent_field(bits: u64) -> u64 {
    (bits >> 52) & 0x7FF
}

impl Binary64 {
    /// The number lies strictly between zero and one.
    pub open spec fn is_probability(self) -> bool {
        0 < self.bits < ONE_BITS
    }

    /// The number is greater than zero and is not infinite.
    pub open spec fn is_positive_finite(self) -> bool {
        0 < self.bits < INFINITY_BITS
    }

    /// Decides whether the number lies strictly between zero and one.
    pub fn in_open_unit(&self) -> (r: bool)
        ensures
            r == self.is_probability(),
    {
        0 < self.bits && self.bits < ONE_BITS
    }

    /// Decides whether the number is greater than zero and not infinite.
    pub fn positive_finite(&self) -> (r: bool)
        ensures
            r == self.is_positive_finite(),
    {
        0 < self.bits && self.bits < INFINITY_BITS
    }
}

/// A pattern lies strictly between zero and one exactly if it is not zero, its
/// sign bit is clear and its exponent is below the bias, so that it stands for
/// less than two to the power zero.
pub proof fn law_probability_by_fields(x: Binary64)
    ensures
        x.is_probability() <==> (x.bits != 0 && sign_field(x.bits) == 0 && exponent_field(x.bits)
            < 1023),
{
    let bits = x.bits;
    assert((0 < bits && bits < 0x3FF0_0000_0000_0000u64) <==> (bits != 0 && bits >> 63 == 0 && (bits
        >> 52) & 0x7FF < 1023)) by (bit_vector);
}

/// A pattern is positive and finite exactly if it is not zero, its sign bit is
/// clear and its exponent is not the one kept for infinities and for what is
/// no number.
pub proof fn law_positive_finite_by_fields(x: Binary64)
    ensures
        x.is_positive_finite() <==> (x.bits != 0 && sign_field(x.bits) == 0 && exponent_field(
            x.bits,
        ) < 2047),
{
    let bits = x.bits;
    assert((0 < bits && bits < 0x7FF0_0000_0000_0000u64) <==> (bits != 0 && bits >> 63 == 0 && (bits
        >> 52) & 0x7FF < 2047)) by (bit_vector);
}

/// A scale exists for this request: the accuracy is above zero and the
/// tolerance lies strictly between zero and one.
pub open spec fn calibration_defined(accuracy: int, alpha: Binary64) -> bool {
    accuracy > 0 && alpha.is_probability()
}

/// Refuses a request for which no finite scale exists.
pub fn check_calibration(accuracy: usize, alpha: Binary64) -> (r: Result<(), EngineError>)
    ensures
        r is Ok <==> calibration_defined(accuracy as int, alpha),
        r is Err ==> r == Err::<(), EngineError>(EngineError::Calibration),
{
    if accuracy > 0 && alpha.in_open_unit() {
        Ok(())
    } else {
        Err(EngineError::Calibration)
    }
}

/// What the engine makes of a calibration's outcome: the scale where one was
/// found and is positive and finite, an error in every other case.
pub open spec fn scale_of(raw: Option<Binary64>) -> Result<Binary64, EngineError> {
    match raw {
        Some(scale) => if scale.is_positive_finite() {
            Ok(scale)
        } else {
            Err(EngineError::Calibration)
        },
        None => Err(EngineError::Calibration),
    }
}

/// Accepts the outcome of a calibration only if it is a positive, finite
/// scale.
pub fn accept_scale(raw: Option<Binary64>) -> (r: Result<Binary64, EngineError>)
    ensures
        r == scale_of(raw),
        r matches Ok(scale) ==> scale.is_positive_finite(),
{
    match raw {
        Some(scale) => {
            if scale.positive_finite() {
                Ok(scale)
            } else {
                Err(EngineError::Calibration)
            }
        },
        None => Err(EngineError::Calibration),
    }
}

} // verus!
