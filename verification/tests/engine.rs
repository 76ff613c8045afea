use dp_counts::calibration::{Binary64, DEFAULT_ALPHA_BITS};
use dp_counts::dataset::CsvDataSet;
use dp_counts::error::EngineError;
use dp_counts::noiser::{NoiseApplier, Noiser};
use dp_counts::state::{Demand, NoiseType, RefreshStatus, ACCURACY_LEVELS};

const BODY: &str = "59,1,9,1,10000,1\n31,0,1,3,20000,0\n18,0,9,3,20000,0\n";

fn pattern(x: f64) -> Binary64 {
    Binary64 { bits: x.to_bits() }
}

fn educ_counts() -> Vec<u64> {
    let mut v = vec![0u64; 20];
    v[0] = 1;
    v[8] = 2;
    v
}

fn income_counts() -> Vec<u64> {
    let mut v = vec![0u64; 20];
    v[0] = 1;
    v[1] = 2;
    v
}

fn draws(first: i64) -> Vec<i64> {
    (0..20).map(|i| first - i).collect()
}

fn finish(engine: &mut Noiser, scale: f64, noise: Vec<i64>) {
    assert!(matches!(engine.demand(), Demand::Calibrate { .. }));
    let next = engine.scale_found(Some(pattern(scale)));
    assert!(matches!(next, Demand::Perturb { .. }));
    assert_eq!(engine.noise_drawn(Some(noise)), Demand::Settled);
}

#[test]
fn a_new_engine_starts_with_laplace_at_level_zero() {
    let body = BODY.to_string();
    let field = "educ".to_string();
    let dataset = CsvDataSet { data: &body };
    let engine = Noiser::new(&dataset, &field);
    assert_eq!(engine.noise_type(), NoiseType::Laplace);
    assert_eq!(engine.accuracy(), 0);
    assert_eq!(engine.alpha(), Binary64 { bits: DEFAULT_ALPHA_BITS });
    assert_eq!(engine.alpha().bits, 0.05f64.to_bits());
    assert_eq!(engine.aggregate_field(), "educ");
}

#[test]
fn at_level_zero_no_scale_exists_and_the_refresh_fails() {
    let body = BODY.to_string();
    let field = "educ".to_string();
    let dataset = CsvDataSet { data: &body };
    let mut engine = Noiser::new(&dataset, &field);
    assert_eq!(engine.status(), RefreshStatus::Failed(EngineError::Calibration));
    assert_eq!(engine.demand(), Demand::Settled);
    assert!(engine.aggregated_data().is_empty());
    assert!(engine.noised_data().is_empty());
    assert_eq!(engine.refresh_data(), Demand::Settled);
    assert_eq!(engine.status(), RefreshStatus::Failed(EngineError::Calibration));
}

#[test]
fn a_new_engine_on_malformed_text_reports_the_data() {
    let body = "59,1,9,1\n".to_string();
    let field = "educ".to_string();
    let dataset = CsvDataSet { data: &body };
    let mut engine = Noiser::new(&dataset, &field);
    assert_eq!(engine.status(), RefreshStatus::Failed(EngineError::Data));
    assert_eq!(engine.increase_noise(), Demand::Settled);
    assert_eq!(engine.accuracy(), 1);
    assert_eq!(engine.status(), RefreshStatus::Failed(EngineError::Data));
}

#[test]
fn a_refresh_runs_in_three_steps() {
    let body = BODY.to_string();
    let field = "educ".to_string();
    let dataset = CsvDataSet { data: &body };
    let mut engine = Noiser::new(&dataset, &field);
    let first = engine.increase_noise();
    assert_eq!(
        first,
        Demand::Calibrate {
            mechanism: NoiseType::Laplace,
            accuracy: 1,
            alpha: pattern(0.05)
        }
    );
    assert_eq!(engine.status(), RefreshStatus::Pending);
    assert!(engine.aggregated_data().is_empty());
    let second = engine.scale_found(Some(pattern(0.3338)));
    assert_eq!(
        second,
        Demand::Perturb {
            mechanism: NoiseType::Laplace,
            scale: pattern(0.3338),
            draws: 20
        }
    );
    assert_eq!(engine.status(), RefreshStatus::Pending);
    assert!(engine.noised_data().is_empty());
    let third = engine.noise_drawn(Some(draws(3)));
    assert_eq!(third, Demand::Settled);
    assert_eq!(engine.status(), RefreshStatus::Fresh);
    assert_eq!(engine.aggregated_data(), &educ_counts());
    let mut noised: Vec<i64> = draws(3);
    noised[0] += 1;
    noised[8] += 2;
    assert_eq!(engine.noised_data(), &noised);
    assert_eq!(engine.noised_data()[0], 4);
    assert_eq!(engine.noised_data()[19], -16);
}

#[test]
fn two_refreshes_give_the_same_true_counts_and_their_own_noise() {
    let body = BODY.to_string();
    let field = "educ".to_string();
    let dataset = CsvDataSet { data: &body };
    let mut engine = Noiser::new(&dataset, &field);
    engine.increase_noise();
    finish(&mut engine, 0.5, draws(0));
    let first_true = engine.aggregated_data().clone();
    let first_noised = engine.noised_data().clone();
    engine.refresh_data();
    finish(&mut engine, 0.5, draws(7));
    assert_eq!(engine.aggregated_data(), &first_true);
    assert_eq!(engine.aggregated_data(), &educ_counts());
    assert_ne!(engine.noised_data(), &first_noised);
    assert_eq!(engine.noised_data().len(), first_noised.len());
}

#[test]
fn increase_then_decrease_returns_to_the_level() {
    let body = BODY.to_string();
    let field = "educ".to_string();
    let dataset = CsvDataSet { data: &body };
    let mut engine = Noiser::new(&dataset, &field);
    for _ in 0..ACCURACY_LEVELS {
        let level = engine.accuracy();
        engine.increase_noise();
        engine.decrease_noise();
        assert_eq!(engine.accuracy(), level);
        engine.decrease_noise();
        engine.increase_noise();
        assert_eq!(engine.accuracy(), level);
        engine.increase_noise();
    }
    assert_eq!(engine.accuracy(), 0);
}

#[test]
fn the_accuracy_level_wraps_at_both_ends() {
    let body = BODY.to_string();
    let field = "educ".to_string();
    let dataset = CsvDataSet { data: &body };
    let mut engine = Noiser::new(&dataset, &field);
    assert_eq!(ACCURACY_LEVELS, 100);
    engine.decrease_noise();
    assert_eq!(engine.accuracy(), 99);
    engine.increase_noise();
    assert_eq!(engine.accuracy(), 0);
    for expected in 1..100 {
        engine.increase_noise();
        assert_eq!(engine.accuracy(), expected);
    }
    engine.increase_noise();
    assert_eq!(engine.accuracy(), 0);
}

#[test]
fn switching_the_field_resets_the_level_and_changes_the_labels() {
    let body = BODY.to_string();
    let educ = "educ".to_string();
    let income = "income".to_string();
    let dataset = CsvDataSet { data: &body };
    let mut engine = Noiser::new(&dataset, &educ);
    engine.increase_noise();
    engine.increase_noise();
    engine.increase_noise();
    assert_eq!(engine.accuracy(), 3);
    let before = engine.buckets();
    assert_eq!(before.len(), 20);
    assert_eq!(before[0], "1");
    assert_eq!(before[19], "20");
    engine.switch_field(&income);
    assert_eq!(engine.accuracy(), 0);
    assert_eq!(engine.aggregate_field(), "income");
    let after = engine.buckets();
    let expected: Vec<String> = (1..=20u32).map(|i| (i * 10000).to_string()).collect();
    assert_eq!(after, expected);
    assert_eq!(after.len(), before.len());
    assert_ne!(after, before);
}

#[test]
fn after_a_switch_the_counts_are_those_of_the_new_field() {
    let body = BODY.to_string();
    let educ = "educ".to_string();
    let income = "income".to_string();
    let dataset = CsvDataSet { data: &body };
    let mut engine = Noiser::new(&dataset, &educ);
    engine.increase_noise();
    finish(&mut engine, 1.0, vec![0; 20]);
    assert_eq!(engine.aggregated_data(), &educ_counts());
    assert_eq!(engine.switch_field(&income), Demand::Settled);
    assert_eq!(engine.status(), RefreshStatus::Failed(EngineError::Calibration));
    assert_eq!(engine.aggregated_data(), &educ_counts());
    engine.increase_noise();
    finish(&mut engine, 1.0, vec![0; 20]);
    assert_eq!(engine.status(), RefreshStatus::Fresh);
    assert_eq!(engine.aggregated_data(), &income_counts());
    let noised: Vec<i64> = income_counts().iter().map(|&c| c as i64).collect();
    assert_eq!(engine.noised_data(), &noised);
}

#[test]
fn switching_to_a_field_that_is_no_column_fails_the_refresh() {
    let body = BODY.to_string();
    let educ = "educ".to_string();
    let other = "height".to_string();
    let dataset = CsvDataSet { data: &body };
    let mut engine = Noiser::new(&dataset, &educ);
    engine.increase_noise();
    finish(&mut engine, 1.0, draws(2));
    let kept_true = engine.aggregated_data().clone();
    let kept_noised = engine.noised_data().clone();
    engine.switch_field(&other);
    assert_eq!(engine.status(), RefreshStatus::Failed(EngineError::Data));
    assert_eq!(engine.increase_noise(), Demand::Settled);
    assert_eq!(engine.status(), RefreshStatus::Failed(EngineError::Data));
    assert_eq!(engine.aggregated_data(), &kept_true);
    assert_eq!(engine.noised_data(), &kept_noised);
}

#[test]
fn toggling_flips_the_mechanism_and_asks_for_its_scale() {
    let body = BODY.to_string();
    let field = "educ".to_string();
    let dataset = CsvDataSet { data: &body };
    let mut engine = Noiser::new(&dataset, &field);
    engine.increase_noise();
    let demand = engine.toggle_noise_type();
    assert_eq!(engine.noise_type(), NoiseType::Gaussian);
    assert_eq!(
        demand,
        Demand::Calibrate {
            mechanism: NoiseType::Gaussian,
            accuracy: 1,
            alpha: pattern(0.05)
        }
    );
    let next = engine.scale_found(Some(pattern(0.51)));
    assert_eq!(
        next,
        Demand::Perturb {
            mechanism: NoiseType::Gaussian,
            scale: pattern(0.51),
            draws: 20
        }
    );
    engine.toggle_noise_type();
    assert_eq!(engine.noise_type(), NoiseType::Laplace);
    assert_eq!(engine.accuracy(), 1);
}

#[test]
fn a_failed_calibration_keeps_the_last_pair() {
    let body = BODY.to_string();
    let field = "educ".to_string();
    let dataset = CsvDataSet { data: &body };
    let mut engine = Noiser::new(&dataset, &field);
    engine.increase_noise();
    finish(&mut engine, 1.0, draws(5));
    let kept_true = engine.aggregated_data().clone();
    let kept_noised = engine.noised_data().clone();
    engine.refresh_data();
    assert_eq!(engine.scale_found(None), Demand::Settled);
    assert_eq!(engine.status(), RefreshStatus::Failed(EngineError::Calibration));
    assert_eq!(engine.aggregated_data(), &kept_true);
    assert_eq!(engine.noised_data(), &kept_noised);
    engine.refresh_data();
    assert_eq!(engine.scale_found(Some(pattern(0.0))), Demand::Settled);
    assert_eq!(engine.status(), RefreshStatus::Failed(EngineError::Calibration));
    engine.refresh_data();
    assert_eq!(engine.scale_found(Some(pattern(f64::INFINITY))), Demand::Settled);
    assert_eq!(engine.status(), RefreshStatus::Failed(EngineError::Calibration));
    engine.refresh_data();
    assert_eq!(engine.scale_found(Some(pattern(-2.0))), Demand::Settled);
    assert_eq!(engine.status(), RefreshStatus::Failed(EngineError::Calibration));
    assert_eq!(engine.aggregated_data(), &kept_true);
    assert_eq!(engine.noised_data(), &kept_noised);
}

#[test]
fn a_failed_sampling_keeps_the_last_pair() {
    let body = BODY.to_string();
    let field = "educ".to_string();
    let dataset = CsvDataSet { data: &body };
    let mut engine = Noiser::new(&dataset, &field);
    engine.increase_noise();
    finish(&mut engine, 1.0, draws(5));
    let kept_true = engine.aggregated_data().clone();
    let kept_noised = engine.noised_data().clone();
    engine.refresh_data();
    engine.scale_found(Some(pattern(1.0)));
    assert_eq!(engine.noise_drawn(None), Demand::Settled);
    assert_eq!(engine.status(), RefreshStatus::Failed(EngineError::Sampling));
    assert_eq!(engine.aggregated_data(), &kept_true);
    assert_eq!(engine.noised_data(), &kept_noised);
}

#[test]
fn draws_of_the_wrong_number_fail_the_refresh() {
    let body = BODY.to_string();
    let field = "educ".to_string();
    let dataset = CsvDataSet { data: &body };
    let mut engine = Noiser::new(&dataset, &field);
    engine.increase_noise();
    engine.scale_found(Some(pattern(1.0)));
    assert_eq!(engine.noise_drawn(Some(vec![0; 19])), Demand::Settled);
    assert_eq!(engine.status(), RefreshStatus::Failed(EngineError::Sampling));
    assert!(engine.aggregated_data().is_empty());
    assert!(engine.noised_data().is_empty());
    engine.refresh_data();
    engine.scale_found(Some(pattern(1.0)));
    assert_eq!(engine.noise_drawn(Some(vec![0; 21])), Demand::Settled);
    assert_eq!(engine.status(), RefreshStatus::Failed(EngineError::Sampling));
    engine.refresh_data();
    engine.scale_found(Some(pattern(1.0)));
    assert_eq!(engine.noise_drawn(Some(Vec::new())), Demand::Settled);
    assert_eq!(engine.status(), RefreshStatus::Failed(EngineError::Sampling));
}

#[test]
fn an_outcome_that_nothing_waits_for_is_ignored() {
    let body = BODY.to_string();
    let field = "educ".to_string();
    let dataset = CsvDataSet { data: &body };
    let mut engine = Noiser::new(&dataset, &field);
    assert_eq!(engine.scale_found(Some(pattern(1.0))), Demand::Settled);
    assert_eq!(engine.noise_drawn(Some(draws(1))), Demand::Settled);
    assert_eq!(engine.status(), RefreshStatus::Failed(EngineError::Calibration));
    assert!(engine.noised_data().is_empty());
    let asked = engine.increase_noise();
    assert_eq!(engine.noise_drawn(Some(draws(1))), asked);
    assert_eq!(engine.status(), RefreshStatus::Pending);
    let waiting = engine.scale_found(Some(pattern(1.0)));
    assert_eq!(engine.scale_found(Some(pattern(2.0))), waiting);
    assert_eq!(engine.scale_found(None), waiting);
    assert_eq!(engine.status(), RefreshStatus::Pending);
    assert_eq!(engine.noise_drawn(Some(vec![0; 20])), Demand::Settled);
    assert_eq!(engine.status(), RefreshStatus::Fresh);
    assert_eq!(engine.noise_drawn(Some(draws(9))), Demand::Settled);
    assert_eq!(engine.noised_data()[0], 1);
}

#[test]
fn a_step_drops_the_refresh_under_way() {
    let body = BODY.to_string();
    let field = "educ".to_string();
    let dataset = CsvDataSet { data: &body };
    let mut engine = Noiser::new(&dataset, &field);
    engine.increase_noise();
    engine.scale_found(Some(pattern(1.0)));
    let asked = engine.increase_noise();
    assert_eq!(
        asked,
        Demand::Calibrate {
            mechanism: NoiseType::Laplace,
            accuracy: 2,
            alpha: pattern(0.05)
        }
    );
    assert_eq!(engine.noise_drawn(Some(vec![0; 20])), asked);
    assert_eq!(engine.status(), RefreshStatus::Pending);
    assert!(engine.noised_data().is_empty());
}

#[test]
fn a_tolerance_outside_the_unit_fails_every_refresh() {
    let body = BODY.to_string();
    let field = "educ".to_string();
    let dataset = CsvDataSet { data: &body };
    for alpha in [0.0, 1.0, 1.5, -0.05, f64::NAN] {
        let mut engine = Noiser::with_alpha(&dataset, &field, pattern(alpha));
        assert_eq!(engine.increase_noise(), Demand::Settled);
        assert_eq!(engine.accuracy(), 1);
        assert_eq!(engine.status(), RefreshStatus::Failed(EngineError::Calibration));
    }
}

#[test]
fn a_chosen_tolerance_is_handed_to_the_calibration() {
    let body = BODY.to_string();
    let field = "income".to_string();
    let dataset = CsvDataSet { data: &body };
    let mut engine = Noiser::with_alpha(&dataset, &field, pattern(0.25));
    assert_eq!(engine.alpha(), pattern(0.25));
    assert_eq!(
        engine.decrease_noise(),
        Demand::Calibrate {
            mechanism: NoiseType::Laplace,
            accuracy: 99,
            alpha: pattern(0.25)
        }
    );
}

#[test]
fn the_pair_has_one_entry_for_each_bucket() {
    let body = BODY.to_string();
    let field = "income".to_string();
    let dataset = CsvDataSet { data: &body };
    let mut engine = Noiser::new(&dataset, &field);
    engine.increase_noise();
    finish(&mut engine, 2.5, draws(-3));
    assert_eq!(engine.aggregated_data().len(), engine.buckets().len());
    assert_eq!(engine.noised_data().len(), engine.buckets().len());
    assert_eq!(engine.aggregated_data(), &income_counts());
}
