//! One trial without a runtime: a producer of `0..n` and a consumer joined by
//! a channel of capacity one, which makes them take turns.

use vstd::prelude::*;
use crate::consumer::{
    Action, Consumer, Event, Strategy, begin_wait, end_wait, initial, round,
    run, sum_of,
};
use crate::producer::{Producer, ascending};

verus! {

/// The events that a consumer sees while `n` values arrive.
pub open spec fn deliveries(n: nat) -> Seq<Event> {
    Seq::new(n, |i: int| Event::Received(i as u64))
}

/// The sum of `0..n`, in closed form.
pub open spec fn triangle(n: nat) -> int {
    n * (n - 1) / 2
}

/// Timer slots that a trial of `n` values allocates under `strategy`: the
/// reusing strategies one, the fresh-timer ones one per wait, the final wait
/// that sees closure included.
pub open spec fn timers_for(strategy: Strategy, n: nat) -> nat {
    if strategy.spec_reuses_timer() {
        1
    } else if strategy.spec_fresh_timers() {
        n + 1
    } else {
        0
    }
}

/// Re-arms of the persistent timer in a trial of `n` values.
pub open spec fn rearms_for(strategy: Strategy, n: nat) -> nat {
    if strategy.spec_reuses_timer() {
        n
    } else {
        0
    }
}

/// What a trial reports.
#[derive(Clone, Copy, Debug, PartialEq, Eq, Structural)]
pub struct TrialReport {
    /// The sum that the consume loop returned.
    pub sum: u64,
    /// Timer slots allocated over the whole loop.
    pub timers_created: u64,
    /// Re-arms of the persistent timer over the whole loop.
    pub rearms: u64,
}

proof fn lemma_sum_ascending(n: nat)
    requires
        n <= u64::MAX + 1,
    ensures
        sum_of(ascending(n)) == triangle(n),
    decreases n,
{
    if n > 0 {
        let m = (n - 1) as nat;
        lemma_sum_ascending(m);
        assert(ascending(n).drop_last() =~= ascending(m));
        assert(triangle(n) == triangle(m) + m) by (nonlinear_arith)
            requires
                n == m + 1,
                triangle(n) == n * (n - 1) / 2,
                triangle(m) == m * (m - 1) / 2,
        ;
    }
}

proof fn lemma_triangle_bounds(n: nat)
    requires
        triangle(n) <= u64::MAX,
    ensures
        0 <= triangle(n),
        n < u64::MAX,
{
    assert(0 <= n * (n - 1) / 2) by (nonlinear_arith);
    if n >= 0x1_0000_0000 * 2 {
        assert(n * (n - 1) / 2 > u64::MAX) by (nonlinear_arith)
            requires
                n >= 0x1_0000_0000 * 2,
        ;
    }
}

proof fn lemma_triangle_grows(i: nat, n: nat)
    requires
        i < n,
    ensures
        triangle(i) + i <= triangle(n),
{
    assert(i * (i - 1) / 2 + i <= n * (n - 1) / 2) by (nonlinear_arith)
        requires
            i < n,
    ;
}

proof fn lemma_run_deliveries(strategy: Strategy, n: nat)
    requires
        n <= u64::MAX + 1,
    ensures
        run(initial(strategy), deliveries(n)).phase is Ready,
        run(initial(strategy), deliveries(n)).strategy == strategy,
        run(initial(strategy), deliveries(n)).received == ascending(n),
        run(initial(strategy), deliveries(n)).timers_created == (if strategy.spec_fresh_timers() {
            n
        } else {
            timers_for(strategy, n)
        }),
        run(initial(strategy), deliveries(n)).rearms == rearms_for(strategy, n),
    decreases n,
{
    if n == 0 {
        assert(deliveries(0) =~= Seq::<Event>::empty());
        assert(ascending(0) =~= Seq::<u64>::empty());
    } else {
        let m = (n - 1) as nat;
        lemma_run_deliveries(strategy, m);
        assert(deliveries(n).drop_last() =~= deliveries(m));
        assert(ascending(m).push(m as u64) =~= ascending(n));
    }
}

/// A trial of `n` values, under every strategy, finishes with the sum of
/// `0..n`, having received exactly `0..n` in order.
pub proof fn lemma_trial_sum(strategy: Strategy, n: nat)
    requires
        n <= u64::MAX,
        triangle(n) <= u64::MAX,
    ensures
        end_wait(begin_wait(run(initial(strategy), deliveries(n))), Event::Closed).1
            == Action::Finish(triangle(n) as u64),
        run(initial(strategy), deliveries(n).push(Event::Closed)).phase is Finished,
        run(initial(strategy), deliveries(n).push(Event::Closed)).received == ascending(n),
{
    lemma_run_deliveries(strategy, n);
    lemma_sum_ascending(n);
    assert(deliveries(n).push(Event::Closed).drop_last() =~= deliveries(n));
}

/// A reusing strategy gets through a trial of `n` values with one timer slot,
/// re-armed once per value; a fresh-timer strategy allocates one per wait.
pub proof fn lemma_trial_timers(strategy: Strategy, n: nat)
    requires
        n <= u64::MAX,
    ensures
        run(initial(strategy), deliveries(n).push(Event::Closed)).timers_created == timers_for(
            strategy,
            n,
        ),
        run(initial(strategy), deliveries(n).push(Event::Closed)).rearms == rearms_for(strategy, n),
        strategy.spec_reuses_timer() ==> timers_for(strategy, n) == 1 && rearms_for(strategy, n)
            == n,
{
    lemma_run_deliveries(strategy, n);
    assert(deliveries(n).push(Event::Closed).drop_last() =~= deliveries(n));
}

/// Two consumers made afresh for one strategy end in the same state on the
/// same events: a trial leaves nothing behind that a later one could see.
pub proof fn lemma_repeatable(strategy: Strategy, events: Seq<Event>, a: Consumer, b: Consumer)
    requires
        a@ == initial(strategy),
        b@ == initial(strategy),
    ensures
        run(a@, events) == run(b@, events),
{
}

/// The sum of `0..n`, or `None` where it does not fit in `u64`.
pub fn expected_sum(n: u64) -> (r: Option<u64>)
    ensures
        r == (if triangle(n as nat) <= u64::MAX {
            Some(triangle(n as nat) as u64)
        } else {
            None::<u64>
        }),
{
    let below: u128 = if n > 0 { n as u128 - 1 } else { 0 };
    assert((n as u128) * below <= u128::MAX) by (nonlinear_arith)
        requires
            n <= u64::MAX,
            below <= n,
    ;
    let wide = (n as u128) * below / 2;
    assert(wide == triangle(n as nat)) by (nonlinear_arith)
        requires
            wide == (n as int) * (below as int) / 2,
            n == 0 ==> wide == 0,
            n > 0 ==> below == n - 1,
    ;
    if wide <= u64::MAX as u128 {
        Some(wide as u64)
    } else {
        None
    }
}

/// Runs one trial of `n` values under `strategy`, with the producer and the
/// consumer taking turns as a channel of capacity one makes them, and no
/// timer ever firing.
pub fn run_trial(strategy: Strategy, n: u64) -> (r: TrialReport)
    requires
        triangle(n as nat) <= u64::MAX,
    ensures
        r.sum == triangle(n as nat),
        r.timers_created == timers_for(strategy, n as nat),
        r.rearms == rearms_for(strategy, n as nat),
{
    let mut consumer = Consumer::new(strategy);
    let mut producer = Producer::new(n);
    proof {
        lemma_triangle_bounds(n as nat);
        lemma_run_deliveries(strategy, 0);
    }
    loop
        invariant
            consumer.wf(),
            producer.wf(),
            producer@.count == n,
            triangle(n as nat) <= u64::MAX,
            0 <= triangle(n as nat),
            n < u64::MAX,
            consumer@ == run(initial(strategy), deliveries(producer@.sent)),
        decreases n - producer@.sent,
    {
        let i = producer.sent();
        proof {
            lemma_run_deliveries(strategy, i as nat);
            lemma_sum_ascending(i as nat);
            if i < n {
                lemma_triangle_grows(i as nat, n as nat);
            }
        }
        let ghost before = consumer@;
        let _ = consumer.wait();
        match producer.next_value() {
            Some(v) => {
                let _ = consumer.step(Event::Received(v));
                proof {
                    assert(deliveries((i + 1) as nat).drop_last() =~= deliveries(i as nat));
                    assert(consumer@ == round(before, Event::Received(i)));
                }
            },
            None => {
                let action = consumer.step(Event::Closed);
                proof {
                    lemma_trial_sum(strategy, n as nat);
                    lemma_trial_timers(strategy, n as nat);
                    assert(deliveries(n as nat).push(Event::Closed).drop_last() =~= deliveries(
                        n as nat,
                    ));
                }
                let sum = match action {
                    Action::Finish(s) => s,
                    _ => consumer.sum(),
                };
                return TrialReport {
                    sum,
                    timers_created: consumer.timers_created(),
                    rearms: consumer.rearms(),
                };
            },
        }
    }
}

} // verus!
