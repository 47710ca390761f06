use seqbench::aggregate::{TooFewValues, MIN_TRIALS};
use seqbench::bench::{
    benchmark_extarray, benchmark_fresh, benchmark_general_tarjan, benchmark_optarray,
    benchmark_segarray, benchmark_simple_tarjan, benchmark_vector, run_fresh_trials, run_trials,
};
use seqbench::clock::{low_millis, millis_since};
use seqbench::config::{Config, ConfigError, DEFAULT_SIZE, DEFAULT_TRIALS};
use seqbench::container::{Violation, MAX_LEN};
use seqbench::harness::{evaluate, measure, standard_lineup, summarize, RunError, Variant};
use seqbench::phases::{trial_times, Times, Trial};
use seqbench::report::Report;
use seqbench::tarjan_general::general_array;

#[test]
fn a_run_needs_four_trials() {
    assert_eq!(Config::new(5, 0).err(), Some(ConfigError::TooFewTrials));
    assert_eq!(Config::new(5, 3).err(), Some(ConfigError::TooFewTrials));
    let config = Config::new(5, 4).unwrap();
    assert_eq!(config.size(), 5);
    assert_eq!(config.trials(), 4);
    let config = Config::new(0, 7).unwrap();
    assert_eq!(config.size(), 0);
    assert_eq!(config.trials(), 7);
    assert_eq!(MIN_TRIALS, 4);
}

#[test]
fn a_run_takes_no_workload_beyond_the_largest_length() {
    assert!(Config::new(MAX_LEN, 4).is_ok());
    assert_eq!(Config::new(MAX_LEN + 1, 4).err(), Some(ConfigError::WorkloadTooLarge));
    // too few trials are reported first
    assert_eq!(Config::new(MAX_LEN + 1, 3).err(), Some(ConfigError::TooFewTrials));
}

#[test]
fn a_run_without_numbers_has_the_usual_ones() {
    let config = Config::default();
    assert_eq!(config.size(), 100_000_000);
    assert_eq!(config.trials(), 7);
    assert_eq!(DEFAULT_SIZE, 100_000_000);
    assert_eq!(DEFAULT_TRIALS, 7);
}

#[test]
fn one_trial_succeeds_on_each_array() {
    for size in [0usize, 1, 5, 2000] {
        let trial = benchmark_vector(size).unwrap();
        assert_eq!((trial.scanned, trial.removed), (size, size));
        let trial = benchmark_segarray(size).unwrap();
        assert_eq!((trial.scanned, trial.removed), (size, size));
        let trial = benchmark_optarray(size).unwrap();
        assert_eq!((trial.scanned, trial.removed), (size, size));
        let trial = benchmark_extarray(size).unwrap();
        assert_eq!((trial.scanned, trial.removed), (size, size));
        let trial = benchmark_fresh::<tzarrays::simple::OptimalArray<usize>>(size).unwrap();
        assert_eq!((trial.scanned, trial.removed), (size, size));
        let trial = benchmark_fresh::<tzarrays::general::OptimalArray<usize>>(size).unwrap();
        assert_eq!((trial.scanned, trial.removed), (size, size));
    }
}

#[test]
fn a_reused_array_serves_trial_after_trial() {
    let mut general = general_array(4).unwrap();
    let mut simple = tzarrays::simple::OptimalArray::<usize>::new();
    for _ in 0..3 {
        let trial = benchmark_general_tarjan(&mut general, 5000).unwrap();
        assert_eq!((trial.scanned, trial.removed), (5000, 5000));
        assert!(general.is_empty());
        let trial = benchmark_simple_tarjan(&mut simple, 5000).unwrap();
        assert_eq!((trial.scanned, trial.removed), (5000, 5000));
        assert!(simple.is_empty());
    }
    general.push(1);
    assert_eq!(
        benchmark_general_tarjan(&mut general, 2).err(),
        Some(Violation { index: 0, found: 1 })
    );
    assert_eq!(general.len(), 3);
    simple.push(0);
    assert_eq!(
        benchmark_simple_tarjan(&mut simple, 2).err(),
        Some(Violation { index: 1, found: 0 })
    );
    assert_eq!(simple.len(), 3);
}

#[test]
fn trials_come_back_one_for_each() {
    assert_eq!(run_fresh_trials::<Vec<usize>>(10, 0).unwrap().len(), 0);
    assert_eq!(run_fresh_trials::<Vec<usize>>(10, 7).unwrap().len(), 7);
    assert_eq!(run_fresh_trials::<segment_array::SegmentArray<usize>>(10, 5).unwrap().len(), 5);
    let mut array = extarray::ExtensibleArray::<usize>::new();
    assert_eq!(run_trials(&mut array, 100, 6).unwrap().len(), 6);
    assert!(array.is_empty());
    assert_eq!(run_trials(&mut array, 100, 0).unwrap().len(), 0);
    for trial in run_fresh_trials::<Vec<usize>>(10, 7).unwrap() {
        assert_eq!((trial.scanned, trial.removed), (10, 10));
    }
}

#[test]
fn the_first_trial_reads_what_the_array_held() {
    let mut array = optarray::OptimalArray::<usize>::new();
    array.push(0);
    array.push(1);
    let trials = run_trials(&mut array, 0, 3).unwrap();
    let loads: Vec<(usize, usize)> = trials.iter().map(|t| (t.scanned, t.removed)).collect();
    assert_eq!(loads, vec![(2, 2), (0, 0), (0, 0)]);
    let trials = run_trials(&mut array, 9, 2).unwrap();
    let loads: Vec<(usize, usize)> = trials.iter().map(|t| (t.scanned, t.removed)).collect();
    assert_eq!(loads, vec![(9, 9), (9, 9)]);
}

#[test]
fn the_times_of_the_trials_keep_their_order() {
    let mut trials = Vec::new();
    for i in 0..5u64 {
        let times = Times { create: i, ordered: 10 + i, popall: 20 + i };
        trials.push(Trial { times, scanned: 3, removed: 3 });
    }
    let times = trial_times(&trials);
    assert_eq!(times.len(), 5);
    assert_eq!(times[0], Times { create: 0, ordered: 10, popall: 20 });
    assert_eq!(times[4], Times { create: 4, ordered: 14, popall: 24 });
    assert_eq!(trial_times(&Vec::new()), Vec::<Times>::new());
}

#[test]
fn a_row_needs_four_trials() {
    let create = [10u64, 2, 7, 100, 50, 3, 8];
    let mut trials = Vec::new();
    for value in create {
        let times = Times { create: value, ordered: 2 * value, popall: 0 };
        trials.push(Trial { times, scanned: 5, removed: 5 });
    }
    let row = summarize(&Variant::Segment, &trials).unwrap();
    assert_eq!(row.variant, Variant::Segment);
    assert_eq!(row.report, Report { create: 5, ordered: 11, popall: 0 });
    trials.truncate(3);
    assert_eq!(
        summarize(&Variant::Segment, &trials),
        Err(RunError::TooFewTrials(TooFewValues { given: 3 }))
    );
}

#[test]
fn trials_on_a_used_array_end_at_the_first() {
    let mut array = optarray::OptimalArray::<usize>::new();
    array.push(3);
    assert_eq!(run_trials(&mut array, 4, 0).unwrap().len(), 0);
    assert_eq!(array.len(), 1);
    assert_eq!(run_trials(&mut array, 4, 3).err(), Some(Violation { index: 0, found: 3 }));
    assert_eq!(array.len(), 5);
}

#[test]
fn the_lineup_is_the_seven_usual_variants() {
    let lineup = standard_lineup();
    assert_eq!(
        lineup,
        vec![
            Variant::Vector,
            Variant::Segment,
            Variant::Optimal,
            Variant::Extensible,
            Variant::General { r: 3 },
            Variant::General { r: 4 },
            Variant::Simple,
        ]
    );
    for variant in lineup.iter() {
        assert!(variant.is_valid());
    }
}

#[test]
fn a_general_variant_needs_an_r_in_range() {
    assert!(!Variant::General { r: 0 }.is_valid());
    assert!(!Variant::General { r: 1 }.is_valid());
    assert!(Variant::General { r: 2 }.is_valid());
    assert!(Variant::General { r: 31 }.is_valid());
    assert!(!Variant::General { r: 32 }.is_valid());
    assert!(Variant::Vector.is_valid());
    assert!(Variant::Simple.is_valid());
}

#[test]
fn variants_have_names_and_labels() {
    assert_eq!(Variant::Vector.name(), "std::vec::Vec");
    assert_eq!(Variant::Segment.name(), "SegmentArray");
    assert_eq!(Variant::Optimal.name(), "OptimalArray");
    assert_eq!(Variant::Extensible.name(), "ExtensibleArray");
    assert_eq!(Variant::General { r: 3 }.name(), "GeneralArray");
    assert_eq!(Variant::Simple.name(), "SimpleArray");
    assert_eq!(Variant::Vector.label(), "std::vec::Vec");
    assert_eq!(Variant::General { r: 3 }.label(), "GeneralArray (r=3)");
    assert_eq!(Variant::General { r: 12 }.label(), "GeneralArray (r=12)");
    assert_eq!(Variant::Simple.label(), "SimpleArray");
}

#[test]
fn variants_announce_their_measuring() {
    assert_eq!(Variant::Vector.announcement(), "measuring std::vec::Vec...");
    assert_eq!(Variant::Segment.announcement(), "measuring SegmentArray...");
    assert_eq!(Variant::Optimal.announcement(), "measuring OptimalArray...");
    assert_eq!(Variant::Extensible.announcement(), "measuring ExtensibleArray...");
    assert_eq!(Variant::General { r: 3 }.announcement(), "measuring GeneralArray (r=3)...");
    assert_eq!(Variant::General { r: 4 }.announcement(), "measuring GeneralArray (r=4)...");
    assert_eq!(Variant::Simple.announcement(), "measuring SimpleArray...");
}

#[test]
fn every_variant_is_measured_and_reported() {
    let config = Config::new(5, 7).unwrap();
    for variant in standard_lineup() {
        let trials = measure(&variant, &config).unwrap();
        assert_eq!(trials.len(), 7);
        for trial in trials {
            assert_eq!((trial.scanned, trial.removed), (5, 5));
        }
        assert_eq!(evaluate(&variant, &config).unwrap().variant, variant);
    }
    let config = Config::new(3000, 4).unwrap();
    for variant in standard_lineup() {
        assert_eq!(measure(&variant, &config).unwrap().len(), 4);
    }
    let wide = Variant::General { r: 31 };
    assert_eq!(measure(&wide, &config).unwrap().len(), 4);
}

#[test]
fn a_timing_holds_the_low_bits_of_the_milliseconds() {
    assert_eq!(low_millis(0), 0);
    assert_eq!(low_millis(28), 28);
    assert_eq!(low_millis(u64::MAX as u128), u64::MAX);
    assert_eq!(low_millis(u64::MAX as u128 + 1), 0);
    assert_eq!(low_millis((1u128 << 64) + 5), 5);
    assert_eq!(low_millis(u128::MAX), u64::MAX);
}

#[test]
fn the_clock_does_not_run_backwards() {
    let start = std::time::Instant::now();
    let first = millis_since(&start);
    let second = millis_since(&start);
    assert!(first <= second);
    assert!(second < 60_000);
}
