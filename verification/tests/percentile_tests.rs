use telemetry_report::stats::{find_max, find_min, find_percentiles, percentile, into_ascending};
use telemetry_report::summary::Percentiles;

#[test]
fn median_of_four_values_is_the_second() {
    // rank = 50 * 4 = 200, a multiple of 100: the element below position 2.
    assert_eq!(percentile(&vec![1, 2, 3, 4], 50), 2);
    assert_eq!(find_percentiles(vec![1, 2, 3, 4], 50), 2);
}

#[test]
fn exact_rank_selects_element_below_position() {
    // rank = 75 * 4 = 300: the element below position 3.
    assert_eq!(percentile(&vec![1, 2, 3, 4], 75), 3);
}

#[test]
fn fractional_rank_averages_neighbours_rounding_down() {
    // rank = 90 * 4 = 360: floor((sorted[3] + sorted[2]) / 2) = floor(7 / 2).
    assert_eq!(percentile(&vec![1, 2, 3, 4], 90), 3);
    // rank = 50 * 3 = 150: floor((20 + 10) / 2).
    assert_eq!(percentile(&vec![10, 20, 30], 50), 15);
    // rank = 75 * 3 = 225 and 90 * 3 = 270: floor((30 + 20) / 2).
    assert_eq!(percentile(&vec![10, 20, 30], 75), 25);
    assert_eq!(percentile(&vec![10, 20, 30], 90), 25);
}

#[test]
fn rank_below_one_hundred_selects_first_element() {
    // rank = 25 * 2 = 50, position 0.
    assert_eq!(percentile(&vec![5, 7], 25), 5);
    // rank = 49 * 2 = 98, position 0.
    assert_eq!(percentile(&vec![5, 7], 49), 5);
}

#[test]
fn percentile_zero_selects_first_element() {
    assert_eq!(percentile(&vec![5, 7, 9], 0), 5);
}

#[test]
fn percentile_one_hundred_selects_last_element() {
    assert_eq!(percentile(&vec![1, 2, 3], 100), 3);
    assert_eq!(percentile(&vec![8], 100), 8);
}

#[test]
fn singleton_has_its_value_at_every_percentile() {
    let mut p: usize = 0;
    while p <= 100 {
        assert_eq!(percentile(&vec![42], p), 42);
        assert_eq!(find_percentiles(vec![42], p), 42);
        p += 1;
    }
}

#[test]
fn average_of_largest_values_does_not_overflow() {
    // rank = 75 * 2 = 150: floor((MAX + MAX) / 2).
    assert_eq!(percentile(&vec![u64::MAX, u64::MAX], 75), u64::MAX);
    // floor((MAX + (MAX - 1)) / 2) = MAX - 1.
    assert_eq!(percentile(&vec![u64::MAX - 1, u64::MAX], 75), u64::MAX - 1);
}

#[test]
fn find_percentiles_sorts_before_selecting() {
    // Unsorted, position 2 would select 1; sorted, it selects 2.
    assert_eq!(find_percentiles(vec![4, 1, 3, 2], 50), 2);
    assert_eq!(find_percentiles(vec![30, 10, 20], 50), 15);
    assert_eq!(find_percentiles(vec![9, 8, 7, 6, 5, 4, 3, 2, 1, 0], 90), 8);
}

#[test]
fn into_ascending_is_ascending_and_keeps_every_value() {
    assert_eq!(into_ascending(vec![3, 1, 2, 3, 0, 1]), vec![0, 1, 1, 2, 3, 3]);
    assert_eq!(into_ascending(vec![u64::MAX, 0]), vec![0, u64::MAX]);
    assert_eq!(into_ascending(Vec::new()), Vec::<u64>::new());
}

#[test]
fn percentiles_do_not_depend_on_order() {
    let a = Percentiles::new(vec![7, 1, 9, 4, 4, 12, 3]);
    let b = Percentiles::new(vec![12, 9, 7, 4, 4, 3, 1]);
    let c = Percentiles::new(vec![1, 3, 4, 4, 7, 9, 12]);
    assert_eq!(a, b);
    assert_eq!(a, c);
}

#[test]
fn percentiles_of_seven_values() {
    // sorted: 1 3 4 4 7 9 12; ranks 350, 525, 630: positions 3, 5, 6.
    let p = Percentiles::new(vec![7, 1, 9, 4, 4, 12, 3]);
    assert_eq!(p.percentile_50, 4);
    assert_eq!(p.percentile_75, 8);
    assert_eq!(p.percentile_90, 10);
}

#[test]
fn percentiles_are_ordered() {
    let samples: Vec<Vec<u64>> = vec![
        vec![1],
        vec![2, 1],
        vec![1, 2, 3, 4],
        vec![100, 0, 50, 25, 75],
        vec![5, 5, 5, 5, 5, 5],
        vec![u64::MAX, 0, u64::MAX, 1],
        vec![9, 8, 7, 6, 5, 4, 3, 2, 1, 0, 10, 11],
    ];
    for sample in samples {
        let low = find_min(sample.clone());
        let high = find_max(sample.clone());
        let p = Percentiles::new(sample);
        assert!(p.percentile_50 <= p.percentile_75);
        assert!(p.percentile_75 <= p.percentile_90);
        assert!(low <= p.percentile_50);
        assert!(p.percentile_90 <= high);
    }
}

#[test]
fn percentile_grows_with_p() {
    let sorted: Vec<u64> = vec![2, 3, 5, 7, 11, 13, 17];
    let mut p: usize = 1;
    while p <= 100 {
        assert!(percentile(&sorted, p - 1) <= percentile(&sorted, p));
        p += 1;
    }
}

#[test]
fn default_percentiles_are_zero() {
    let p = Percentiles::default();
    assert_eq!(p.percentile_50, 0);
    assert_eq!(p.percentile_75, 0);
    assert_eq!(p.percentile_90, 0);
}

#[test]
fn extrema_of_a_sample() {
    assert_eq!(find_max(vec![3, 9, 2, 9, 1]), 9);
    assert_eq!(find_min(vec![3, 9, 2, 9, 1]), 1);
    assert_eq!(find_max(vec![6]), 6);
    assert_eq!(find_min(vec![6]), 6);
    assert_eq!(find_max(vec![0, u64::MAX]), u64::MAX);
    assert_eq!(find_min(vec![u64::MAX, 0]), 0);
}
