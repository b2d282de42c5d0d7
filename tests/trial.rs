use bench_tokio_sleep::consumer::Strategy;
use bench_tokio_sleep::trial::{expected_sum, run_trial, TrialReport};

const ALL: [Strategy; 5] = [
    Strategy::Baseline,
    Strategy::Timeout,
    Strategy::Sleep,
    Strategy::ReusedSleep,
    Strategy::ReusedBoxedSleep,
];

#[test]
fn empty_trial_sums_to_zero() {
    for s in ALL {
        assert_eq!(run_trial(s, 0).sum, 0);
    }
    assert_eq!(
        run_trial(Strategy::Baseline, 0),
        TrialReport { sum: 0, timers_created: 0, rearms: 0 }
    );
    assert_eq!(
        run_trial(Strategy::Sleep, 0),
        TrialReport { sum: 0, timers_created: 1, rearms: 0 }
    );
    assert_eq!(
        run_trial(Strategy::ReusedSleep, 0),
        TrialReport { sum: 0, timers_created: 1, rearms: 0 }
    );
}

#[test]
fn five_values_sum_to_ten() {
    for s in ALL {
        assert_eq!(run_trial(s, 5).sum, 10);
    }
}

#[test]
fn reused_timer_thousand_values_one_slot() {
    for s in [Strategy::ReusedSleep, Strategy::ReusedBoxedSleep] {
        let r = run_trial(s, 1000);
        assert_eq!(r.sum, 499500);
        assert_eq!(r.timers_created, 1);
        assert_eq!(r.rearms, 1000);
    }
}

#[test]
fn fresh_timers_one_per_wait() {
    for s in [Strategy::Timeout, Strategy::Sleep] {
        let r = run_trial(s, 1000);
        assert_eq!(r.sum, 499500);
        assert_eq!(r.timers_created, 1001);
        assert_eq!(r.rearms, 0);
    }
    let r = run_trial(Strategy::Baseline, 1000);
    assert_eq!(r, TrialReport { sum: 499500, timers_created: 0, rearms: 0 });
}

#[test]
fn every_strategy_sums_closed_form() {
    for n in [1u64, 2, 3, 10, 77, 256] {
        for s in ALL {
            assert_eq!(run_trial(s, n).sum, n * (n - 1) / 2);
        }
    }
}

#[test]
fn same_trial_twice_same_sum() {
    for s in ALL {
        let a = run_trial(s, 321);
        let b = run_trial(s, 321);
        assert_eq!(a, b);
        assert_eq!(a.sum, 51360);
    }
}

#[test]
fn expected_sum_values() {
    assert_eq!(expected_sum(0), Some(0));
    assert_eq!(expected_sum(1), Some(0));
    assert_eq!(expected_sum(5), Some(10));
    assert_eq!(expected_sum(1000), Some(499500));
    assert_eq!(expected_sum(6074001000), Some(18446744070963499500));
    assert_eq!(expected_sum(6074001001), None);
    assert_eq!(expected_sum(u64::MAX), None);
}
