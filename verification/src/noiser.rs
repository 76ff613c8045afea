//! The engine: the counts of one field of a data set, kept together with
//! their noised release while an operator tunes the noise.

use crate::aggregator::{aggregate, naturals};
use crate::calibration::{accept_scale, check_calibration, Binary64, DEFAULT_ALPHA_BITS};
use crate::dataset::{bucket_labels, bucket_strings, texts, CsvDataSet, BUCKET_COUNT};
use crate::error::EngineError;
use crate::noise::add_noise;
use crate::state::{Demand, EngineState, NoiseType, RefreshStatus, Stage, ACCURACY_LEVELS};
use vstd::prelude::*;
use vstd::string::*;

verus! {

impl NoiseType {
    /// The other family.
    pub fn toggled(self) -> (r: NoiseType)
        ensures
            r == self.flipped(),
    {
        match self {
            NoiseType::Laplace => NoiseType::Gaussian,
            NoiseType::Gaussian => NoiseType::Laplace,
        }
    }

    /// The family's name as text.
    pub open spec fn name(self) -> Seq<char> {
        match self {
            NoiseType::Laplace => "Laplace"@,
            NoiseType::Gaussian => "Gaussian"@,
        }
    }

    /// The family's name, for display.
    pub fn label(&self) -> (r: String)
        ensures
            r@ == self.name(),
    {
        match self {
            NoiseType::Laplace => String::from_str("Laplace"),
            NoiseType::Gaussian => String::from_str("Gaussian"),
        }
    }
}

/// What a sampler handed back, as a mathematical value.
pub open spec fn drawn_view(drawn: Option<Vec<i64>>) -> Option<Seq<i64>> {
    match drawn {
        Some(draws) => Some(draws@),
        None => None,
    }
}

/// The engine. It reads its data set and never changes it.
pub struct Noiser<'a> {
    dataset: &'a CsvDataSet<'a>,
    aggregate_field: &'a String,
    noise_type: NoiseType,
    accuracy: usize,
    alpha: Binary64,
    aggregated_data: Vec<u64>,
    noised_data: Vec<i64>,
    status: RefreshStatus,
    stage: Stage,
    staged: Vec<u64>,
}

impl<'a> View for Noiser<'a> {
    type V = EngineState;

    closed spec fn view(&self) -> EngineState {
        EngineState {
            body: self.dataset@,
            field: self.aggregate_field@,
            mechanism: self.noise_type,
            accuracy: self.accuracy as int,
            alpha: self.alpha,
            true_counts: naturals(self.aggregated_data@),
            noised: self.noised_data@,
            status: self.status,
            stage: self.stage,
            staged: naturals(self.staged@),
        }
    }
}

/// The steps of an engine. Each step but the two that bring an outcome
/// changes one parameter and begins a refresh; every step says what the
/// engine then waits for.
pub trait NoiseApplier<'a>: Sized + View<V = EngineState> {
    /// An engine on `dataset` that counts `aggregate_field`, with Laplace
    /// noise, at accuracy level zero and the default tolerance, its first
    /// refresh begun. No scale exists for an accuracy of zero, so this first
    /// refresh has ended already, in failure, and nothing is cached: the
    /// first pair of vectors comes with a refresh at a level above zero.
    fn new(dataset: &'a CsvDataSet<'a>, aggregate_field: &'a String) -> (r: Self)
        ensures
            r@ == EngineState::blank(
                dataset@,
                aggregate_field@,
                Binary64 { bits: DEFAULT_ALPHA_BITS },
            ).refreshed(),
            r@.wf(),
    ;

    /// Flips the mechanism and begins a refresh.
    fn toggle_noise_type(&mut self) -> (r: Demand)
        requires
            old(self)@.wf(),
        ensures
            final(self)@ == old(self)@.toggled(),
            final(self)@.wf(),
            r == final(self)@.demand(),
    ;

    /// Advances the accuracy level by one, from the last level to the first,
    /// and begins a refresh.
    fn increase_noise(&mut self) -> (r: Demand)
        requires
            old(self)@.wf(),
        ensures
            final(self)@ == old(self)@.increased(),
            final(self)@.wf(),
            r == final(self)@.demand(),
    ;

    /// Takes the accuracy level back by one, from the first level to the
    /// last, and begins a refresh.
    fn decrease_noise(&mut self) -> (r: Demand)
        requires
            old(self)@.wf(),
        ensures
            final(self)@ == old(self)@.decreased(),
            final(self)@.wf(),
            r == final(self)@.demand(),
    ;

    /// Begins a refresh with the parameters as they are.
    fn refresh_data(&mut self) -> (r: Demand)
        requires
            old(self)@.wf(),
        ensures
            final(self)@ == old(self)@.refreshed(),
            final(self)@.wf(),
            r == final(self)@.demand(),
    ;
}

impl<'a> Noiser<'a> {
    /// An engine like a new one, but with the tolerance `alpha`. A tolerance
    /// that does not lie strictly between zero and one is kept as it is, and
    /// fails every refresh.
    pub fn with_alpha(
        dataset: &'a CsvDataSet<'a>,
        aggregate_field: &'a String,
        alpha: Binary64,
    ) -> (r: Self)
        ensures
            r@ == EngineState::blank(dataset@, aggregate_field@, alpha).refreshed(),
            r@.wf(),
    {
        let mut engine = Noiser {
            dataset,
            aggregate_field,
            noise_type: NoiseType::Laplace,
            accuracy: 0,
            alpha,
            aggregated_data: Vec::new(),
            noised_data: Vec::new(),
            status: RefreshStatus::Failed(EngineError::Data),
            stage: Stage::Idle,
            staged: Vec::new(),
        };
        assert(engine@.true_counts =~= Seq::<nat>::empty());
        assert(engine@.staged =~= Seq::<nat>::empty());
        assert(engine@ == EngineState::blank(dataset@, aggregate_field@, alpha));
        engine.begin();
        engine
    }

    /// Ends the refresh in failure; the cached vectors stay.
    fn fail(&mut self, error: EngineError)
        ensures
            final(self)@ == old(self)@.failed(error),
    {
        self.status = RefreshStatus::Failed(error);
        self.stage = Stage::Idle;
        self.staged = Vec::new();
        assert(self@.staged =~= Seq::<nat>::empty());
    }

    /// Begins a refresh, from any state.
    fn begin(&mut self) -> (r: Demand)
        requires
            old(self).accuracy < ACCURACY_LEVELS,
        ensures
            final(self)@ == old(self)@.refreshed(),
            r == final(self)@.demand(),
    {
        match aggregate(self.dataset, self.aggregate_field) {
            Ok(counts) => {
                match check_calibration(self.accuracy, self.alpha) {
                    Ok(()) => {
                        self.staged = counts;
                        self.stage = Stage::AwaitScale;
                        self.status = RefreshStatus::Pending;
                        Demand::Calibrate {
                            mechanism: self.noise_type,
                            accuracy: self.accuracy,
                            alpha: self.alpha,
                        }
                    },
                    Err(_) => {
                        self.fail(EngineError::Calibration);
                        Demand::Settled
                    },
                }
            },
            Err(_) => {
                self.fail(EngineError::Data);
                Demand::Settled
            },
        }
    }

    /// Makes `field` the active field, puts the accuracy level back to zero
    /// and begins a refresh.
    pub fn switch_field(&mut self, field: &'a String) -> (r: Demand)
        requires
            old(self)@.wf(),
        ensures
            final(self)@ == old(self)@.switched(field@),
            final(self)@.wf(),
            r == final(self)@.demand(),
    {
        self.aggregate_field = field;
        self.accuracy = 0;
        self.begin()
    }

    /// Takes the outcome of the calibration that the engine asked for:
    /// the scale found, or nothing where none was.
    pub fn scale_found(&mut self, raw: Option<Binary64>) -> (r: Demand)
        requires
            old(self)@.wf(),
        ensures
            final(self)@ == old(self)@.scale_found(raw),
            final(self)@.wf(),
            r == final(self)@.demand(),
    {
        match self.stage {
            Stage::AwaitScale => {
                match accept_scale(raw) {
                    Ok(scale) => {
                        self.stage = Stage::AwaitNoise(scale);
                        Demand::Perturb {
                            mechanism: self.noise_type,
                            scale,
                            draws: self.staged.len(),
                        }
                    },
                    Err(error) => {
                        self.fail(error);
                        Demand::Settled
                    },
                }
            },
            Stage::AwaitNoise(scale) => Demand::Perturb {
                mechanism: self.noise_type,
                scale,
                draws: self.staged.len(),
            },
            Stage::Idle => Demand::Settled,
        }
    }

    /// Takes the outcome of the sampling that the engine asked for: the
    /// draws, or nothing where none could be drawn.
    pub fn noise_drawn(&mut self, drawn: Option<Vec<i64>>) -> (r: Demand)
        requires
            old(self)@.wf(),
        ensures
            final(self)@ == old(self)@.noise_drawn(drawn_view(drawn)),
            final(self)@.wf(),
            r == final(self)@.demand(),
    {
        match self.stage {
            Stage::AwaitNoise(_) => {
                let sum = match drawn {
                    Some(draws) => add_noise(&self.staged, &draws),
                    None => Err(EngineError::Sampling),
                };
                match sum {
                    Ok(noised) => {
                        std::mem::swap(&mut self.aggregated_data, &mut self.staged);
                        self.staged = Vec::new();
                        self.noised_data = noised;
                        self.status = RefreshStatus::Fresh;
                        self.stage = Stage::Idle;
                        assert(self@.staged =~= Seq::<nat>::empty());
                    },
                    Err(error) => {
                        self.fail(error);
                    },
                }
                Demand::Settled
            },
            Stage::AwaitScale => Demand::Calibrate {
                mechanism: self.noise_type,
                accuracy: self.accuracy,
                alpha: self.alpha,
            },
            Stage::Idle => Demand::Settled,
        }
    }
}

impl<'a> Noiser<'a> {
    /// The field that is counted.
    pub fn aggregate_field(&self) -> (r: &'a String)
        ensures
            r@ == self@.field,
    {
        self.aggregate_field
    }

    /// The mechanism in force.
    pub fn noise_type(&self) -> (r: NoiseType)
        ensures
            r == self@.mechanism,
    {
        self.noise_type
    }

    /// The accuracy level in force.
    pub fn accuracy(&self) -> (r: usize)
        ensures
            r == self@.accuracy,
    {
        self.accuracy
    }

    /// The tolerance in force.
    pub fn alpha(&self) -> (r: Binary64)
        ensures
            r == self@.alpha,
    {
        self.alpha
    }

    /// The cached true counts.
    pub fn aggregated_data(&self) -> (r: &Vec<u64>)
        ensures
            naturals(r@) == self@.true_counts,
    {
        &self.aggregated_data
    }

    /// The cached noised counts.
    pub fn noised_data(&self) -> (r: &Vec<i64>)
        ensures
            r@ == self@.noised,
    {
        &self.noised_data
    }

    /// How the last refresh ended.
    pub fn status(&self) -> (r: RefreshStatus)
        ensures
            r == self@.status,
    {
        self.status
    }

    /// What the engine waits for.
    pub fn demand(&self) -> (r: Demand)
        ensures
            r == self@.demand(),
    {
        match self.stage {
            Stage::Idle => Demand::Settled,
            Stage::AwaitScale => Demand::Calibrate {
                mechanism: self.noise_type,
                accuracy: self.accuracy,
                alpha: self.alpha,
            },
            Stage::AwaitNoise(scale) => Demand::Perturb {
                mechanism: self.noise_type,
                scale,
                draws: self.staged.len(),
            },
        }
    }

    /// The bucket labels of the active field, aligned with both cached
    /// vectors.
    pub fn buckets(&self) -> (r: Vec<String>)
        ensures
            texts(r@) == bucket_labels(self@.field),
            r@.len() == BUCKET_COUNT,
    {
        bucket_strings(self.aggregate_field)
    }
}

impl<'a> NoiseApplier<'a> for Noiser<'a> {
    fn new(dataset: &'a CsvDataSet<'a>, aggregate_field: &'a String) -> (r: Self) {
        Noiser::with_alpha(dataset, aggregate_field, Binary64 { bits: DEFAULT_ALPHA_BITS })
    }

    fn toggle_noise_type(&mut self) -> (r: Demand) {
        self.noise_type = self.noise_type.toggled();
        self.begin()
    }

    fn increase_noise(&mut self) -> (r: Demand) {
        self.accuracy = if self.accuracy + 1 >= ACCURACY_LEVELS {
            0
        } else {
            self.accuracy + 1
        };
        self.begin()
    }

    fn decrease_noise(&mut self) -> (r: Demand) {
        self.accuracy = if self.accuracy == 0 {
            ACCURACY_LEVELS - 1
        } else {
            self.accuracy - 1
        };
        self.begin()
    }

    fn refresh_data(&mut self) -> (r: Demand) {
        self.begin()
    }
}

} // verus!
