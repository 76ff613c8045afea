//! The engine as a state machine over mathematical values.
//!
//! A refresh needs two pieces of work that the engine does not do itself:
//! finding a noise scale, and drawing the noise. So a refresh runs in steps.
//! Each step ends with a demand that says what the engine waits for, and the
//! answer to it is the next step's input.

use crate::aggregator::{separator, table_counts};
use crate::calibration::{calibration_defined, scale_of, Binary64};
use crate::error::EngineError;
use crate::noise::noised_of;
use crate::tabular::text_table;
use vstd::prelude::*;

verus! {

/// How many accuracy levels there are: the levels are 0 up to one less.
pub const ACCURACY_LEVELS: usize = 100;

/// The family of the noise.
#[derive(Clone, Copy, Debug, PartialEq, Eq, Structural)]
pub enum NoiseType {
    Laplace,
    Gaussian,
}

/// How the last refresh ended.
#[derive(Clone, Copy, Debug, PartialEq, Eq, Structural)]
pub enum RefreshStatus {
    /// The cached vectors were made for the parameters in force.
    Fresh,
    /// A refresh is under way; the cached vectors are those of before.
    Pending,
    /// The refresh failed; the cached vectors are those of before.
    Failed(EngineError),
}

/// Where a refresh stands.
#[derive(Clone, Copy, Debug, PartialEq, Eq, Structural)]
pub enum Stage {
    /// No refresh is under way.
    Idle,
    /// The rows are counted; the scale is awaited.
    AwaitScale,
    /// The scale is accepted; the draws are awaited.
    AwaitNoise(Binary64),
}

/// What the engine waits for.
#[derive(Clone, Copy, Debug, PartialEq, Eq, Structural)]
pub enum Demand {
    /// A scale for this mechanism, accuracy and tolerance.
    Calibrate { mechanism: NoiseType, accuracy: usize, alpha: Binary64 },
    /// This many independent draws from the mechanism's distribution at this
    /// scale, centred at zero.
    Perturb { mechanism: NoiseType, scale: Binary64, draws: usize },
    /// Nothing: the refresh has ended, well or not.
    Settled,
}

/// The level after `level`, the first one after the last.
pub open spec fn next_level(level: int) -> int {
    if level + 1 >= ACCURACY_LEVELS {
        0
    } else {
        level + 1
    }
}

/// The level before `level`, the last one before the first.
pub open spec fn previous_level(level: int) -> int {
    if level <= 0 {
        ACCURACY_LEVELS - 1
    } else {
        level - 1
    }
}

impl NoiseType {
    /// The other family.
    pub open spec fn flipped(self) -> NoiseType {
        match self {
            NoiseType::Laplace => NoiseType::Gaussian,
            NoiseType::Gaussian => NoiseType::Laplace,
        }
    }
}

/// All that an engine holds.
pub struct EngineState {
    /// The text of the data set.
    pub body: Seq<char>,
    /// The field that is counted.
    pub field: Seq<char>,
    pub mechanism: NoiseType,
    /// The accuracy level, which is also the accuracy asked of the noise.
    pub accuracy: int,
    /// The tolerance: how likely a draw may exceed the accuracy.
    pub alpha: Binary64,
    /// The cached true counts.
    pub true_counts: Seq<nat>,
    /// The cached noised counts.
    pub noised: Seq<i64>,
    pub status: RefreshStatus,
    pub stage: Stage,
    /// The counts of the refresh under way; empty when none is.
    pub staged: Seq<nat>,
}

impl EngineState {
    /// The count vector of the active field, if the text yields one.
    pub open spec fn counts(self) -> Option<Seq<nat>> {
        table_counts(text_table(separator(), self.body), self.field)
    }

    /// What holds of every state that an engine reaches.
    pub open spec fn wf(self) -> bool {
        &&& 0 <= self.accuracy < ACCURACY_LEVELS
        &&& self.noised.len() == self.true_counts.len()
        &&& (self.status is Pending <==> !(self.stage is Idle))
        &&& (self.stage is Idle ==> self.staged.len() == 0)
        &&& (!(self.stage is Idle) ==> self.counts() == Some(self.staged) && calibration_defined(
            self.accuracy,
            self.alpha,
        ))
        &&& (self.stage matches Stage::AwaitNoise(scale) ==> scale.is_positive_finite())
        &&& (self.status is Fresh ==> self.counts() == Some(self.true_counts))
    }

    /// The state an engine is made in, before its first refresh begins:
    /// nothing is cached.
    pub open spec fn blank(body: Seq<char>, field: Seq<char>, alpha: Binary64) -> EngineState {
        EngineState {
            body,
            field,
            mechanism: NoiseType::Laplace,
            accuracy: 0,
            alpha,
            true_counts: Seq::empty(),
            noised: Seq::empty(),
            status: RefreshStatus::Failed(EngineError::Data),
            stage: Stage::Idle,
            staged: Seq::empty(),
        }
    }

    /// The refresh has ended in failure: the cached vectors stay.
    pub open spec fn failed(self, error: EngineError) -> EngineState {
        EngineState {
            status: RefreshStatus::Failed(error),
            stage: Stage::Idle,
            staged: Seq::empty(),
            ..self
        }
    }

    /// A refresh is begun, dropping one that was under way. The rows are
    /// counted at once. The refresh fails at once if the text yields no count
    /// vector, or if no scale exists for the accuracy and the tolerance, as
    /// at accuracy level zero; else the scale is awaited.
    pub open spec fn refreshed(self) -> EngineState {
        match self.counts() {
            None => self.failed(EngineError::Data),
            Some(counts) => if calibration_defined(self.accuracy, self.alpha) {
                EngineState {
                    status: RefreshStatus::Pending,
                    stage: Stage::AwaitScale,
                    staged: counts,
                    ..self
                }
            } else {
                self.failed(EngineError::Calibration)
            },
        }
    }

    /// The mechanism is flipped, and a refresh begun.
    pub open spec fn toggled(self) -> EngineState {
        (EngineState { mechanism: self.mechanism.flipped(), ..self }).refreshed()
    }

    /// The accuracy level is advanced, and a refresh begun.
    pub open spec fn increased(self) -> EngineState {
        (EngineState { accuracy: next_level(self.accuracy), ..self }).refreshed()
    }

    /// The accuracy level is taken back, and a refresh begun.
    pub open spec fn decreased(self) -> EngineState {
        (EngineState { accuracy: previous_level(self.accuracy), ..self }).refreshed()
    }

    /// Another field becomes the active one, the accuracy level goes back to
    /// zero, and a refresh is begun.
    pub open spec fn switched(self, field: Seq<char>) -> EngineState {
        (EngineState { field, accuracy: 0, ..self }).refreshed()
    }

    /// The outcome of the calibration has come. Where no scale is awaited it
    /// is ignored. An outcome that is no positive finite scale ends the
    /// refresh in failure; a scale is kept, and the draws are awaited.
    pub open spec fn scale_found(self, raw: Option<Binary64>) -> EngineState {
        if self.stage is AwaitScale {
            match scale_of(raw) {
                Ok(scale) => EngineState { stage: Stage::AwaitNoise(scale), ..self },
                Err(error) => self.failed(error),
            }
        } else {
            self
        }
    }

    /// The outcome of the sampling has come. Where no draws are awaited it is
    /// ignored. Without one draw for each count the refresh ends in failure;
    /// else both cached vectors are replaced together.
    pub open spec fn noise_drawn(self, drawn: Option<Seq<i64>>) -> EngineState {
        if self.stage is AwaitNoise {
            match noised_of(self.staged, drawn) {
                Ok(noised) => EngineState {
                    true_counts: self.staged,
                    noised,
                    status: RefreshStatus::Fresh,
                    stage: Stage::Idle,
                    staged: Seq::empty(),
                    ..self
                },
                Err(error) => self.failed(error),
            }
        } else {
            self
        }
    }

    /// What the engine waits for in this state.
    pub open spec fn demand(self) -> Demand {
        match self.stage {
            Stage::Idle => Demand::Settled,
            Stage::AwaitScale => Demand::Calibrate {
                mechanism: self.mechanism,
                accuracy: self.accuracy as usize,
                alpha: self.alpha,
            },
            Stage::AwaitNoise(scale) => Demand::Perturb {
                mechanism: self.mechanism,
                scale,
                draws: self.staged.len() as usize,
            },
        }
    }
}

/// Every step takes a valid state to a valid state.
pub proof fn law_steps_keep_validity(
    s: EngineState,
    field: Seq<char>,
    raw: Option<Binary64>,
    drawn: Option<Seq<i64>>,
)
    requires
        s.wf(),
    ensures
        s.refreshed().wf(),
        s.toggled().wf(),
        s.increased().wf(),
        s.decreased().wf(),
        s.switched(field).wf(),
        s.scale_found(raw).wf(),
        s.noise_drawn(drawn).wf(),
{
}

/// The state an engine starts in is valid, whatever the text, the field and
/// the tolerance.
pub proof fn law_start_is_valid(body: Seq<char>, field: Seq<char>, alpha: Binary64)
    ensures
        EngineState::blank(body, field, alpha).refreshed().wf(),
{
}

/// Whatever the outcomes of calibration and sampling, a refresh leaves the
/// true counts as they were or replaces them by the count vector of the
/// active field; the noised counts keep the length of the true counts.
pub proof fn law_refresh_outcome(s: EngineState, raw: Option<Binary64>, drawn: Option<Seq<i64>>)
    requires
        s.wf(),
    ensures
        ({
            let t = s.refreshed().scale_found(raw).noise_drawn(drawn);
            &&& t.stage is Idle
            &&& t.noised.len() == t.true_counts.len()
            &&& if t.status is Fresh {
                s.counts() == Some(t.true_counts)
            } else {
                t.true_counts == s.true_counts && t.noised == s.noised
            }
        }),
{
}

/// A refresh that follows a successful refresh, with no other step between
/// them, never changes the true counts, whatever noise is drawn.
pub proof fn law_refresh_repeatable(
    s: EngineState,
    raw1: Option<Binary64>,
    drawn1: Option<Seq<i64>>,
    raw2: Option<Binary64>,
    drawn2: Option<Seq<i64>>,
)
    requires
        s.wf(),
        s.refreshed().scale_found(raw1).noise_drawn(drawn1).status is Fresh,
    ensures
        ({
            let first = s.refreshed().scale_found(raw1).noise_drawn(drawn1);
            let second = first.refreshed().scale_found(raw2).noise_drawn(drawn2);
            second.true_counts == first.true_counts
        }),
{
    let first = s.refreshed().scale_found(raw1).noise_drawn(drawn1);
    law_refresh_outcome(s, raw1, drawn1);
    law_steps_keep_validity(s, s.field, raw1, drawn1);
    law_steps_keep_validity(s.refreshed(), s.field, raw1, drawn1);
    law_steps_keep_validity(s.refreshed().scale_found(raw1), s.field, raw1, drawn1);
    law_refresh_outcome(first, raw2, drawn2);
}

/// Advancing the accuracy level and taking it back, in either order, gives
/// the level that was there.
pub proof fn law_accuracy_round_trip(s: EngineState)
    requires
        s.wf(),
    ensures
        s.increased().decreased().accuracy == s.accuracy,
        s.decreased().increased().accuracy == s.accuracy,
{
}

/// Past the last level comes the first, and before the first the last; in
/// between, a step moves the level by one.
pub proof fn law_accuracy_wraps(s: EngineState)
    requires
        s.wf(),
    ensures
        s.accuracy == ACCURACY_LEVELS - 1 ==> s.increased().accuracy == 0,
        s.accuracy == 0 ==> s.decreased().accuracy == ACCURACY_LEVELS - 1,
        s.accuracy < ACCURACY_LEVELS - 1 ==> s.increased().accuracy == s.accuracy + 1,
        s.accuracy > 0 ==> s.decreased().accuracy == s.accuracy - 1,
{
}

/// What the engine asks for is well defined: a calibration only where a scale
/// exists for the accuracy and the tolerance, draws only at a scale that is
/// positive and finite, and one draw for each count.
pub proof fn law_demands_are_sound(s: EngineState)
    requires
        s.wf(),
    ensures
        s.demand() matches Demand::Calibrate { mechanism, accuracy, alpha } ==> mechanism
            == s.mechanism && accuracy > 0 && alpha.is_probability(),
        s.demand() matches Demand::Perturb { mechanism, scale, draws } ==> mechanism == s.mechanism
            && scale.is_positive_finite() && s.counts() is Some && draws
            == s.counts().unwrap().len(),
        s.demand() is Settled <==> !(s.status is Pending),
{
}

/// A change of mechanism, accuracy or field never rides on a scale found
/// before it: the step ends with the refresh failed or with a new scale
/// awaited, and the cached pair is no longer called fresh.
pub proof fn law_change_recalibrates(s: EngineState, field: Seq<char>)
    ensures
        !(s.toggled().stage is AwaitNoise) && !(s.toggled().status is Fresh),
        !(s.increased().stage is AwaitNoise) && !(s.increased().status is Fresh),
        !(s.decreased().stage is AwaitNoise) && !(s.decreased().status is Fresh),
        !(s.switched(field).stage is AwaitNoise) && !(s.switched(field).status is Fresh),
        !(s.refreshed().stage is AwaitNoise) && !(s.refreshed().status is Fresh),
{
}

/// A switch of field puts the accuracy level back to zero, whatever it was.
pub proof fn law_switch_resets_accuracy(s: EngineState, field: Seq<char>)
    ensures
        s.switched(field).accuracy == 0,
        s.switched(field).field == field,
{
}

} // verus!
