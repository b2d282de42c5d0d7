use bench_tokio_sleep::consumer::{Action, Consumer, Event, Phase, Strategy, Wait};

#[test]
fn timer_fire_aborts_deadline_strategies() {
    for s in [
        Strategy::Timeout,
        Strategy::Sleep,
        Strategy::ReusedSleep,
        Strategy::ReusedBoxedSleep,
    ] {
        let mut c = Consumer::new(s);
        assert!(s.enforces_deadline());
        assert_ne!(c.wait(), Wait::Unbounded);
        assert_eq!(c.step(Event::Received(4)), if s.reuses_timer() { Action::Rearm } else { Action::Continue });
        assert_ne!(c.wait(), Wait::Unbounded);
        assert_eq!(c.step(Event::TimerFired), Action::Abort);
        assert_eq!(c.phase(), Phase::Aborted);
    }
}

#[test]
fn baseline_has_no_deadline() {
    let s = Strategy::Baseline;
    assert!(!s.enforces_deadline());
    let mut c = Consumer::new(s);
    for v in [3u64, 9, 1] {
        assert_eq!(c.wait(), Wait::Unbounded);
        assert_eq!(c.step(Event::Received(v)), Action::Continue);
    }
    assert_eq!(c.wait(), Wait::Unbounded);
    assert_eq!(c.step(Event::Closed), Action::Finish(13));
    assert_eq!(c.phase(), Phase::Finished);
    assert_eq!(c.timers_created(), 0);
}

#[test]
fn waits_per_strategy() {
    let expect = [
        (Strategy::Baseline, Wait::Unbounded),
        (Strategy::Timeout, Wait::FreshTimer),
        (Strategy::Sleep, Wait::FreshTimer),
        (Strategy::ReusedSleep, Wait::PersistentTimer),
        (Strategy::ReusedBoxedSleep, Wait::PersistentTimer),
    ];
    for (s, w) in expect {
        let mut c = Consumer::new(s);
        assert_eq!(c.strategy(), s);
        assert_eq!(c.phase(), Phase::Ready);
        assert_eq!(c.wait(), w);
        assert_eq!(c.phase(), Phase::Waiting(w));
    }
}

#[test]
fn reused_timer_counts() {
    let mut c = Consumer::new(Strategy::ReusedBoxedSleep);
    assert_eq!(c.timers_created(), 1);
    for v in [10u64, 20, 30] {
        c.wait();
        assert_eq!(c.step(Event::Received(v)), Action::Rearm);
    }
    assert_eq!(c.sum(), 60);
    c.wait();
    assert_eq!(c.step(Event::Closed), Action::Finish(60));
    assert_eq!(c.timers_created(), 1);
    assert_eq!(c.rearms(), 3);
}

#[test]
fn fresh_timer_counts() {
    let mut c = Consumer::new(Strategy::Timeout);
    assert_eq!(c.timers_created(), 0);
    c.wait();
    c.step(Event::Received(u64::MAX));
    c.wait();
    assert_eq!(c.step(Event::Closed), Action::Finish(u64::MAX));
    assert_eq!(c.timers_created(), 2);
    assert_eq!(c.rearms(), 0);
}
