use fanservice::aggregator::{ExcessAggregator, UNPOPULATED, WINDOW};

#[test]
fn window_reports_the_highest_of_ten() {
    let values: [i64; 10] = [-3, 17, -40_000, 5, 16, 0, -1, 2, 9, 11];
    let mut window = ExcessAggregator::new();
    for v in values {
        window.record(v);
    }
    assert_eq!(window.smoothed(), 17);
}

#[test]
fn eleventh_sample_evicts_the_oldest() {
    let mut window = ExcessAggregator::new();
    window.record(900);
    for v in 1..=9 {
        window.record(v);
    }
    assert_eq!(window.smoothed(), 900);
    window.record(-5);
    // the window now holds 1..=9 and -5
    assert_eq!(window.smoothed(), 9);
}

#[test]
fn hot_sample_holds_until_it_ages_out() {
    let mut window = ExcessAggregator::new();
    window.record(1_000);
    for _ in 0..(WINDOW - 1) {
        window.record(-50_000);
        assert_eq!(window.smoothed(), 1_000);
    }
    window.record(-50_000);
    assert_eq!(window.smoothed(), -50_000);
}

#[test]
fn unpopulated_slots_never_raise_the_excess() {
    let mut window = ExcessAggregator::new();
    assert_eq!(window.smoothed(), UNPOPULATED);
    window.record(-70_000);
    assert_eq!(window.smoothed(), -70_000);
    window.record(-80_000);
    assert_eq!(window.smoothed(), -70_000);
}

#[test]
fn window_wraps_many_times() {
    let mut window = ExcessAggregator::new();
    for v in 0..1_000i64 {
        window.record(-v);
        let oldest_kept = if v >= 9 { v - 9 } else { 0 };
        assert_eq!(window.smoothed(), -oldest_kept);
    }
}
