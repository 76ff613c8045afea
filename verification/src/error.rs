//! What can go wrong while the counts are refreshed.

use vstd::prelude::*;

verus! {

/// Why a refresh did not produce a new pair of vectors.
#[derive(Clone, Copy, Debug, PartialEq, Eq, Structural)]
pub enum EngineError {
    /// The text is malformed, or does not fit the schema.
    Data,
    /// No noise scale meets the accuracy and the tolerance asked for.
    Calibration,
    /// No noise could be drawn at the calibrated scale.
    Sampling,
}

} // verus!
