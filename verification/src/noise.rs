//! Adding drawn noise to a count vector.

use crate::aggregator::naturals;
use crate::error::EngineError;
use vstd::prelude::*;

verus! {

/// `x`, or the nearest signed 64-bit number where `x` is none.
pub open spec fn clamp_signed(x: int) -> i64 {
    if x > i64::MAX {
        i64::MAX
    } else if x < i64::MIN {
        i64::MIN
    } else {
        x as i64
    }
}

/// Each count with its own draw added, entry by entry.
pub open spec fn noised_counts(counts: Seq<nat>, draws: Seq<i64>) -> Seq<i64> {
    Seq::new(counts.len(), |i: int| clamp_signed(counts[i] + draws[i]))
}

/// What the engine makes of a sampler's outcome: the noised vector where one
/// draw came for each count, an error where none came or their number is
/// wrong.
pub open spec fn noised_of(counts: Seq<nat>, drawn: Option<Seq<i64>>) -> Result<
    Seq<i64>,
    EngineError,
> {
    match drawn {
        Some(draws) => if draws.len() == counts.len() {
            Ok(noised_counts(counts, draws))
        } else {
            Err(EngineError::Sampling)
        },
        None => Err(EngineError::Sampling),
    }
}

/// Adds to each count the draw at the same index.
///
/// The draws are taken as they are: one per count, each used once, so that
/// independent draws give independent noise. A sum beyond the signed 64-bit
/// range stops at the range's end.
pub fn add_noise(counts: &Vec<u64>, draws: &Vec<i64>) -> (r: Result<Vec<i64>, EngineError>)
    ensures
        match r {
            Ok(noised) => noised_of(naturals(counts@), Some(draws@)) == Ok::<Seq<i64>, EngineError>(
                noised@,
            ),
            Err(e) => noised_of(naturals(counts@), Some(draws@)) == Err::<Seq<i64>, EngineError>(e),
        },
        r is Ok <==> draws@.len() == counts@.len(),
        r matches Ok(noised) ==> noised@.len() == counts@.len(),
{
    if draws.len() != counts.len() {
        return Err(EngineError::Sampling);
    }
    let mut noised: Vec<i64> = Vec::new();
    let mut i: usize = 0;
    while i < counts.len()
        invariant
            i <= counts@.len(),
            draws@.len() == counts@.len(),
            noised@.len() == i,
            forall|k: int| 0 <= k < i ==> noised@[k] == clamp_signed(counts@[k] + draws@[k]),
        decreases counts@.len() - i,
    {
        let sum: i128 = counts[i] as i128 + draws[i] as i128;
        let entry: i64 = if sum > i64::MAX as i128 {
            i64::MAX
        } else {
            sum as i64
        };
        noised.push(entry);
        i = i + 1;
    }
    assert(noised@ =~= noised_counts(naturals(counts@), draws@));
    Ok(noised)
}

} // verus!
