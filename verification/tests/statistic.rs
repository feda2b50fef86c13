//! Streaming statistics: dispersion, range, Welford accumulators and
//! drawdown.

use barter::statistic::algorithm::WelfordOnline;
use barter::statistic::dispersion::{Dispersion, Range};
use barter::statistic::summary::TradingSummary;

#[test]
fn dispersion() {
    let mut dispersion = Dispersion::new();

    // Dataset, in hundredths: [1.10, 1.20, 1.30, 1.40, 0.60].
    let dataset: [i64; 5] = [110, 120, 130, 140, 60];

    // Expected outputs per step: range bounds and the exact population
    // variance fraction (numerator n*A - S^2 over denominator n^2).
    let expected_high: [i64; 5] = [110, 120, 130, 140, 140];
    let expected_low: [i64; 5] = [110, 110, 110, 110, 60];
    let expected_var_num: [i128; 5] = [0, 100, 600, 2000, 19400];
    let expected_var_den: [i128; 5] = [1, 4, 9, 16, 25];

    for i in 0..dataset.len() {
        dispersion.update(dataset[i]);

        assert!(dispersion.range.activated);
        assert_eq!(dispersion.range.highest, expected_high[i]);
        assert_eq!(dispersion.range.lowest, expected_low[i]);

        let (num, den) = dispersion.welford.calculate_population_variance().unwrap();
        assert_eq!(num, expected_var_num[i]);
        assert_eq!(den, expected_var_den[i]);
    }

    // Final exact population variance: 19400 / 25 == 776 (i.e. 0.0776 in
    // squared whole units).
    let (num, den) = dispersion.welford.calculate_population_variance().unwrap();
    assert_eq!(num / den, 776);
}

#[test]
fn range() {
    // Dataset in hundredths: [0.10, 1.01, ..., 1.07, 9999.00].
    let dataset: [i64; 9] = [10, 101, 102, 103, 104, 105, 106, 107, 999900];
    let mut actual_range = Range::default();

    for &value in &dataset {
        actual_range.update(value);
    }

    let expected_range = Range { activated: true, highest: 999900, lowest: 10 };

    assert_eq!(actual_range, expected_range);
    assert_eq!(actual_range.calculate(), 999890);
}

#[test]
fn range_update_is_idempotent_for_repeated_values() {
    let mut once = Range::default();
    once.update(42);
    once.update(-7);

    let mut twice = Range::default();
    twice.update(42);
    twice.update(42);
    twice.update(-7);
    twice.update(-7);

    assert_eq!(once, twice);
}

#[test]
fn welford_matches_naive_mean_and_variance() {
    let samples: [i64; 4] = [1, 2, 3, 4];
    let mut welford = WelfordOnline::new();
    for &x in &samples {
        welford.update(x);
    }

    assert_eq!(welford.count, 4);
    assert_eq!(welford.sum, 10);
    assert_eq!(welford.sum_sq, 30);

    // Naive mean 10/4; reported exactly as that fraction.
    let (mean_num, mean_den) = welford.calculate_mean().unwrap();
    assert_eq!(mean_num, 10);
    assert_eq!(mean_den, 4);

    // Naive population variance 1.25 == 20/16.
    let (var_num, var_den) = welford.calculate_population_variance().unwrap();
    assert_eq!(var_num, 20);
    assert_eq!(var_den, 16);

    // Sample variance 5/3 == 20/12.
    let (s_num, s_den) = welford.calculate_sample_variance().unwrap();
    assert_eq!(s_num, 20);
    assert_eq!(s_den, 12);
}

#[test]
fn welford_empty_reports_nothing() {
    let welford = WelfordOnline::new();
    assert!(welford.calculate_mean().is_none());
    assert!(welford.calculate_population_variance().is_none());
    assert!(welford.calculate_sample_variance().is_none());
}

#[test]
fn drawdown_tracks_peak_and_deepest_fall() {
    let mut summary = TradingSummary::new(10_000);
    assert_eq!(summary.peak_equity, 10_000);
    assert_eq!(summary.max_drawdown, 0);

    // Equity rises: the peak follows, no drawdown yet.
    summary.update(500, 11_000);
    assert_eq!(summary.peak_equity, 11_000);
    assert_eq!(summary.max_drawdown, 0);

    // Equity falls below the peak: the fall is recorded.
    summary.update(-900, 9_500);
    assert_eq!(summary.peak_equity, 11_000);
    assert_eq!(summary.max_drawdown, 1_500);

    // A shallower fall does not shrink the record.
    summary.update(100, 10_500);
    assert_eq!(summary.peak_equity, 11_000);
    assert_eq!(summary.max_drawdown, 1_500);

    assert_eq!(summary.dispersion.welford.count, 3);

    // The downside accumulators saw [0, -900, 0]: only the loss counts.
    assert_eq!(summary.downside.count, 3);
    assert_eq!(summary.downside.sum, -900);
    assert_eq!(summary.downside.sum_sq, 810_000);
}
