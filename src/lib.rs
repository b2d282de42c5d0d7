//! Deadline-guarded consumption of a capacity-one channel.
//!
//! Each consume strategy is a state machine: the loop that awaits the channel
//! and the timers asks it what to race next, reports what happened, and is told
//! what to do. The sums, the timer bookkeeping and the deadline arithmetic are
//! proved here; the runtime that performs the waits stays outside.

pub mod clock;
pub mod consumer;
pub mod producer;
pub mod trial;
