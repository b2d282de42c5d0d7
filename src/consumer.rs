//! The consume loop of each strategy as a state machine.
//!
//! A driver alternates two calls: `wait` says what to race the next receive
//! against, and `step` takes what won the race and says what to do next.

use vstd::prelude::*;

verus! {

/// How a consumer bounds each wait for the next value.
#[derive(Clone, Copy, Debug, PartialEq, Eq, Structural)]
pub enum Strategy {
    /// Drains the channel with no deadline at all.
    Baseline,
    /// Wraps each receive in the runtime's deadline combinator: a fresh timer per wait.
    Timeout,
    /// Races each receive against a freshly built sleep.
    Sleep,
    /// Races every receive against one sleep kept in the loop's frame, re-armed after each value.
    ReusedSleep,
    /// As `ReusedSleep`, with the one sleep behind a single heap allocation.
    ReusedBoxedSleep,
}

impl Strategy {
    pub open spec fn spec_enforces_deadline(self) -> bool {
        !(self is Baseline)
    }

    pub open spec fn spec_reuses_timer(self) -> bool {
        self is ReusedSleep || self is ReusedBoxedSleep
    }

    pub open spec fn spec_fresh_timers(self) -> bool {
        self is Timeout || self is Sleep
    }

    /// Whether a wait of this strategy can fail on a deadline.
    pub fn enforces_deadline(&self) -> (r: bool)
        ensures
            r == self.spec_enforces_deadline(),
    {
        !matches!(self, Strategy::Baseline)
    }

    /// Whether this strategy keeps one timer for the whole loop.
    pub fn reuses_timer(&self) -> (r: bool)
        ensures
            r == self.spec_reuses_timer(),
    {
        matches!(self, Strategy::ReusedSleep | Strategy::ReusedBoxedSleep)
    }

    /// Whether this strategy makes a new timer for every wait.
    pub fn fresh_timers(&self) -> (r: bool)
        ensures
            r == self.spec_fresh_timers(),
    {
        matches!(self, Strategy::Timeout | Strategy::Sleep)
    }
}

/// What the next receive is raced against.
#[derive(Clone, Copy, Debug, PartialEq, Eq, Structural)]
pub enum Wait {
    /// Nothing: the receive may take as long as it takes.
    Unbounded,
    /// A timer made for this wait alone, armed one window from now.
    FreshTimer,
    /// The consumer's one persistent timer, polled where it stands.
    PersistentTimer,
}

/// What ended a wait.
#[derive(Clone, Copy, Debug, PartialEq, Eq, Structural)]
pub enum Event {
    /// The channel delivered a value.
    Received(u64),
    /// The channel is closed and drained.
    Closed,
    /// The timer raced against the receive fired first.
    TimerFired,
}

/// What the driver does after a wait.
#[derive(Clone, Copy, Debug, PartialEq, Eq, Structural)]
pub enum Action {
    /// Wait again.
    Continue,
    /// Re-arm the persistent timer, in place, to one window from now; then wait again.
    Rearm,
    /// The loop is over and returns this sum.
    Finish(u64),
    /// No value came within the window: the trial is invalid and must abort.
    Abort,
}

/// Where a consumer stands between calls.
#[derive(Clone, Copy, Debug, PartialEq, Eq, Structural)]
pub enum Phase {
    /// About to wait for the next value.
    Ready,
    /// Waiting, racing the receive against the given wait.
    Waiting(Wait),
    /// The channel closed; the sum is final.
    Finished,
    /// A deadline passed.
    Aborted,
}

/// The abstract state of a consumer.
pub struct ConsumerState {
    pub strategy: Strategy,
    pub phase: Phase,
    /// The values received so far, in order.
    pub received: Seq<u64>,
    /// Timer slots allocated so far.
    pub timers_created: nat,
    /// Times the persistent timer was re-armed.
    pub rearms: nat,
}

/// The sum of a sequence of values, as an unbounded integer.
pub open spec fn sum_of(s: Seq<u64>) -> int
    decreases s.len(),
{
    if s.len() == 0 {
        0
    } else {
        sum_of(s.drop_last()) + s.last()
    }
}

/// What a wait of `strategy` races the receive against.
pub open spec fn wait_of(strategy: Strategy) -> Wait {
    match strategy {
        Strategy::Baseline => Wait::Unbounded,
        Strategy::Timeout => Wait::FreshTimer,
        Strategy::Sleep => Wait::FreshTimer,
        Strategy::ReusedSleep => Wait::PersistentTimer,
        Strategy::ReusedBoxedSleep => Wait::PersistentTimer,
    }
}

/// A consumer before its loop starts: the reusing strategies have made their one timer.
pub open spec fn initial(strategy: Strategy) -> ConsumerState {
    ConsumerState {
        strategy,
        phase: Phase::Ready,
        received: Seq::empty(),
        timers_created: if strategy.spec_reuses_timer() { 1 } else { 0 },
        rearms: 0,
    }
}

/// The state once a wait has begun: a fresh-timer strategy has made one more timer.
pub open spec fn begin_wait(s: ConsumerState) -> ConsumerState {
    ConsumerState {
        phase: Phase::Waiting(wait_of(s.strategy)),
        timers_created: if s.strategy.spec_fresh_timers() {
            s.timers_created + 1
        } else {
            s.timers_created
        },
        ..s
    }
}

/// The state and action after `e` ended a wait.
pub open spec fn end_wait(s: ConsumerState, e: Event) -> (ConsumerState, Action) {
    match e {
        Event::Received(v) => (
            ConsumerState {
                phase: Phase::Ready,
                received: s.received.push(v),
                rearms: if s.strategy.spec_reuses_timer() { s.rearms + 1 } else { s.rearms },
                ..s
            },
            if s.strategy.spec_reuses_timer() { Action::Rearm } else { Action::Continue },
        ),
        Event::Closed => (
            ConsumerState { phase: Phase::Finished, ..s },
            Action::Finish(sum_of(s.received) as u64),
        ),
        Event::TimerFired => (ConsumerState { phase: Phase::Aborted, ..s }, Action::Abort),
    }
}

/// One whole round from a ready state: wait, then take `e`. A state that is
/// not ready stays as it is.
pub open spec fn round(s: ConsumerState, e: Event) -> ConsumerState {
    if s.phase is Ready {
        end_wait(begin_wait(s), e).0
    } else {
        s
    }
}

/// The state after one round per event, in order.
pub open spec fn run(s: ConsumerState, events: Seq<Event>) -> ConsumerState
    decreases events.len(),
{
    if events.len() == 0 {
        s
    } else {
        round(run(s, events.drop_last()), events.last())
    }
}

/// A consumer of a channel of `u64` values under one strategy.
pub struct Consumer {
    strategy: Strategy,
    phase: Phase,
    sum: u64,
    timers_created: u64,
    rearms: u64,
    received: Ghost<Seq<u64>>,
}

impl View for Consumer {
    type V = ConsumerState;

    closed spec fn view(&self) -> ConsumerState {
        ConsumerState {
            strategy: self.strategy,
            phase: self.phase,
            received: self.received@,
            timers_created: self.timers_created as nat,
            rearms: self.rearms as nat,
        }
    }
}

impl Consumer {
    /// The consumer's fields agree with its abstract state.
    pub closed spec fn wf(&self) -> bool {
        self.sum == sum_of(self.received@)
    }

    /// A consumer of `strategy` before its first wait.
    pub fn new(strategy: Strategy) -> (r: Consumer)
        ensures
            r.wf(),
            r@ == initial(strategy),
    {
        let timers_created: u64 = if strategy.reuses_timer() { 1 } else { 0 };
        Consumer {
            strategy,
            phase: Phase::Ready,
            sum: 0,
            timers_created,
            rearms: 0,
            received: Ghost(Seq::empty()),
        }
    }

    pub fn strategy(&self) -> (r: Strategy)
        ensures
            r == self@.strategy,
    {
        self.strategy
    }

    pub fn phase(&self) -> (r: Phase)
        ensures
            r == self@.phase,
    {
        self.phase
    }

    /// The sum of the values received so far.
    pub fn sum(&self) -> (r: u64)
        requires
            self.wf(),
        ensures
            r == sum_of(self@.received),
    {
        self.sum
    }

    /// How many timer slots the loop has allocated so far.
    pub fn timers_created(&self) -> (r: u64)
        ensures
            r == self@.timers_created,
    {
        self.timers_created
    }

    /// How many times the persistent timer has been re-armed.
    pub fn rearms(&self) -> (r: u64)
        ensures
            r == self@.rearms,
    {
        self.rearms
    }

    /// Begins a wait and says what to race the receive against.
    pub fn wait(&mut self) -> (r: Wait)
        requires
            old(self).wf(),
            old(self)@.phase is Ready,
            old(self)@.strategy.spec_fresh_timers() ==> old(self)@.timers_created < u64::MAX,
        ensures
            final(self).wf(),
            final(self)@ == begin_wait(old(self)@),
            r == wait_of(old(self)@.strategy),
    {
        let w = match self.strategy {
            Strategy::Baseline => Wait::Unbounded,
            Strategy::Timeout | Strategy::Sleep => Wait::FreshTimer,
            Strategy::ReusedSleep | Strategy::ReusedBoxedSleep => Wait::PersistentTimer,
        };
        if self.strategy.fresh_timers() {
            self.timers_created = self.timers_created + 1;
        }
        self.phase = Phase::Waiting(w);
        w
    }

    /// Takes what ended the current wait and says what to do next.
    ///
    /// A timer can fire only where one was raced, and a received value must
    /// keep the sum within `u64`.
    pub fn step(&mut self, e: Event) -> (r: Action)
        requires
            old(self).wf(),
            old(self)@.phase is Waiting,
            e is TimerFired ==> old(self)@.phase->Waiting_0 != Wait::Unbounded,
            e is Received ==> sum_of(old(self)@.received) + e->Received_0 <= u64::MAX,
            e is Received && old(self)@.strategy.spec_reuses_timer() ==> old(self)@.rearms
                < u64::MAX,
        ensures
            final(self).wf(),
            (final(self)@, r) == end_wait(old(self)@, e),
    {
        match e {
            Event::Received(v) => {
                self.sum = self.sum + v;
                self.received = Ghost(self.received@.push(v));
                self.phase = Phase::Ready;
                proof {
                    assert(self.received@.drop_last() =~= old(self).received@);
                }
                if self.strategy.reuses_timer() {
                    self.rearms = self.rearms + 1;
                    Action::Rearm
                } else {
                    Action::Continue
                }
            },
            Event::Closed => {
                self.phase = Phase::Finished;
                Action::Finish(self.sum)
            },
            Event::TimerFired => {
                self.phase = Phase::Aborted;
                Action::Abort
            },
        }
    }
}

/// A timer can end a wait exactly when the strategy enforces a deadline: a
/// deadline-enforcing strategy races every receive against a timer, and its
/// firing aborts the loop; a baseline wait races nothing, so only a value or
/// closure ends it, and neither of those ever aborts.
pub proof fn lemma_fire_aborts_iff_deadline(s: ConsumerState, e: Event)
    requires
        s.phase is Ready,
    ensures
        s.strategy.spec_enforces_deadline() <==> wait_of(s.strategy) != Wait::Unbounded,
        s.strategy.spec_enforces_deadline() && e is TimerFired ==> end_wait(begin_wait(s), e)
            == (ConsumerState { phase: Phase::Aborted, ..begin_wait(s) }, Action::Abort),
        end_wait(begin_wait(s), e).1 == Action::Abort <==> e is TimerFired,
{
}

} // verus!
