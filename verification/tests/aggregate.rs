use seqbench::aggregate::{
    compute_average, TooFewValues, DIVISOR_SHORTFALL, DROPPED_HIGH, DROPPED_LOW, MIN_TRIALS,
};
use seqbench::phases::Times;
use seqbench::report::{append_decimal, average_times, phase_column, Phase, Report};

#[test]
fn constants_name_the_trim_and_the_divisor() {
    assert_eq!(DROPPED_LOW, 1);
    assert_eq!(DROPPED_HIGH, 2);
    assert_eq!(DIVISOR_SHORTFALL, 2);
    assert_eq!(MIN_TRIALS, 4);
}

#[test]
fn seven_unsorted_values_give_the_trimmed_mean() {
    // ascending: 2 3 7 8 10 50 100; kept: 3 7 8 10; 28 / 5 = 5
    assert_eq!(compute_average(vec![10, 2, 7, 100, 50, 3, 8]), Ok(5));
}

#[test]
fn seven_values_sum_four_and_divide_by_five() {
    // kept: 10 10 10 10; 40 / 5 = 8, where a plain mean of the kept would be 10
    assert_eq!(compute_average(vec![0, 10, 10, 10, 10, 99, 99]), Ok(8));
    // kept: 2 3 4 5; 14 / 5 = 2
    assert_eq!(compute_average(vec![1, 2, 3, 4, 5, 6, 7]), Ok(2));
    // kept: 5 5 5 5; 20 / 5 = 4
    assert_eq!(compute_average(vec![5, 5, 5, 5, 5, 5, 5]), Ok(4));
}

#[test]
fn four_values_keep_one_and_divide_by_two() {
    // ascending: 1 2 3 4; kept: 2; 2 / 2 = 1
    assert_eq!(compute_average(vec![4, 1, 3, 2]), Ok(1));
    assert_eq!(compute_average(vec![0, 0, 0, 0]), Ok(0));
    // kept: 9; 9 / 2 = 4
    assert_eq!(compute_average(vec![9, 9, 9, 9]), Ok(4));
}

#[test]
fn five_values_keep_two_and_divide_by_three() {
    // ascending: 1 20 30 40 50; kept: 20 30; 50 / 3 = 16
    assert_eq!(compute_average(vec![50, 1, 40, 20, 30]), Ok(16));
}

#[test]
fn the_order_of_the_values_does_not_matter() {
    let expected = compute_average(vec![2, 3, 7, 8, 10, 50, 100]).unwrap();
    assert_eq!(expected, 5);
    assert_eq!(compute_average(vec![100, 50, 10, 8, 7, 3, 2]), Ok(expected));
    assert_eq!(compute_average(vec![7, 100, 2, 50, 3, 10, 8]), Ok(expected));
    assert_eq!(compute_average(vec![8, 3, 50, 100, 7, 2, 10]), Ok(expected));
}

#[test]
fn the_extremes_do_not_matter() {
    let expected = compute_average(vec![10, 2, 7, 100, 50, 3, 8]).unwrap();
    // the lowest made lower
    assert_eq!(compute_average(vec![10, 0, 7, 100, 50, 3, 8]), Ok(expected));
    // the highest made higher
    assert_eq!(compute_average(vec![10, 2, 7, u64::MAX, 50, 3, 8]), Ok(expected));
    // the second highest made higher, past the highest
    assert_eq!(compute_average(vec![10, 2, 7, 100, 5000, 3, 8]), Ok(expected));
    // all three at once
    assert_eq!(compute_average(vec![10, 1, 7, u64::MAX, u64::MAX - 1, 3, 8]), Ok(expected));
}

#[test]
fn a_value_that_counts_does_matter() {
    assert_eq!(compute_average(vec![10, 2, 7, 100, 50, 3, 8]), Ok(5));
    // 10 becomes 20: kept 3 7 8 20; 38 / 5 = 7
    assert_eq!(compute_average(vec![20, 2, 7, 100, 50, 3, 8]), Ok(7));
}

#[test]
fn the_largest_values_do_not_overflow() {
    // kept: four times u64::MAX; the sum is beyond u64, the result is not
    let all = vec![u64::MAX; 7];
    let expected = ((u64::MAX as u128 * 4) / 5) as u64;
    assert_eq!(compute_average(all), Ok(expected));
    assert_eq!(compute_average(vec![u64::MAX; 4]), Ok(u64::MAX / 2));
}

fn trials() -> Vec<Times> {
    let create = [10u64, 2, 7, 100, 50, 3, 8];
    let ordered = [1u64, 2, 3, 4, 5, 6, 7];
    let popall = [0u64, 10, 10, 10, 10, 99, 99];
    let mut times = Vec::new();
    for i in 0..7 {
        times.push(Times { create: create[i], ordered: ordered[i], popall: popall[i] });
    }
    times
}

#[test]
fn a_column_holds_one_phase_in_trial_order() {
    let times = trials();
    assert_eq!(phase_column(&times, Phase::Create), vec![10, 2, 7, 100, 50, 3, 8]);
    assert_eq!(phase_column(&times, Phase::Ordered), vec![1, 2, 3, 4, 5, 6, 7]);
    assert_eq!(phase_column(&times, Phase::PopAll), vec![0, 10, 10, 10, 10, 99, 99]);
    assert_eq!(phase_column(&Vec::new(), Phase::Create), Vec::<u64>::new());
    assert_eq!(times[3].of(Phase::Create), 100);
    assert_eq!(times[3].of(Phase::Ordered), 4);
    assert_eq!(times[3].of(Phase::PopAll), 10);
}

#[test]
fn a_report_aggregates_each_phase() {
    let report = average_times(&trials());
    assert_eq!(report, Ok(Report { create: 5, ordered: 2, popall: 8 }));
}

#[test]
fn a_report_line_has_the_three_labels_in_order() {
    let report = Report { create: 5, ordered: 0, popall: 12 };
    assert_eq!(report.line(), "create: 5, ordered: 0, pop-all: 12");
    let report = Report { create: 1234567890, ordered: 10, popall: u64::MAX };
    assert_eq!(
        report.line(),
        "create: 1234567890, ordered: 10, pop-all: 18446744073709551615"
    );
}

#[test]
fn decimal_digits_go_behind_what_is_there() {
    let mut out = String::from("n=");
    append_decimal(&mut out, 0);
    assert_eq!(out, "n=0");
    append_decimal(&mut out, 9);
    append_decimal(&mut out, 10);
    append_decimal(&mut out, 907);
    assert_eq!(out, "n=0910907");
}

#[test]
fn fewer_than_four_values_are_refused() {
    assert_eq!(compute_average(vec![]), Err(TooFewValues { given: 0 }));
    assert_eq!(compute_average(vec![5]), Err(TooFewValues { given: 1 }));
    assert_eq!(compute_average(vec![5, 6]), Err(TooFewValues { given: 2 }));
    assert_eq!(compute_average(vec![5, 6, 7]), Err(TooFewValues { given: 3 }));
    assert_eq!(compute_average(vec![4, 1, 3, 2]), Ok(1));
    assert_eq!(compute_average(vec![10, 2, 7, 100, 50, 3, 8]), Ok(5));
}

#[test]
fn fewer_than_four_trials_are_refused() {
    let mut times = trials();
    assert_eq!(average_times(&times), Ok(Report { create: 5, ordered: 2, popall: 8 }));
    times.truncate(4);
    // create: 2 7 10 100, kept 7, 7 / 2 = 3; ordered: kept 2, 1; pop-all: kept 10, 5
    assert_eq!(average_times(&times), Ok(Report { create: 3, ordered: 1, popall: 5 }));
    times.truncate(3);
    assert_eq!(average_times(&times), Err(TooFewValues { given: 3 }));
    assert_eq!(average_times(&Vec::new()), Err(TooFewValues { given: 0 }));
}
