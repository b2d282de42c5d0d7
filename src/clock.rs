//! Deadlines on the runtime's timeline, in nanoseconds from a fixed epoch.

use vstd::prelude::*;

verus! {

/// The inactivity window: a wait that sees no value for this long fails.
pub const DEADLINE_WINDOW_NANOS: u64 = 10_000_000_000;

/// The instant one `window` after `now`, if the timeline can represent it.
pub fn deadline_after(now: u64, window: u64) -> (r: Option<u64>)
    ensures
        r == (if now + window <= u64::MAX { Some((now + window) as u64) } else { None::<u64> }),
{
    now.checked_add(window)
}

/// A pair of readings taken at one moment: the runtime's clock and an external
/// high-resolution clock, both in nanoseconds from their own epochs.
#[derive(Clone, Copy, Debug, PartialEq, Eq, Structural)]
pub struct OriginPair {
    pub runtime: u64,
    pub external: u64,
}

/// Where an external reading, shifted by `window`, falls on the runtime's
/// timeline. An external instant earlier than the origin counts as the origin.
pub open spec fn translated(origin: OriginPair, external_now: int, window: int) -> int {
    let shifted = external_now + window;
    let elapsed = if shifted >= origin.external { shifted - origin.external } else { 0 };
    origin.runtime + elapsed
}

impl OriginPair {
    /// The runtime instant one `window` after the external reading
    /// `external_now`, translated through this pair by a fixed offset; `None`
    /// where an intermediate instant does not fit the timeline.
    pub fn deadline_after(&self, external_now: u64, window: u64) -> (r: Option<u64>)
        ensures
            r == (if external_now + window <= u64::MAX
                && translated(*self, external_now as int, window as int) <= u64::MAX {
                Some(translated(*self, external_now as int, window as int) as u64)
            } else {
                None::<u64>
            }),
    {
        match external_now.checked_add(window) {
            None => None,
            Some(shifted) => {
                let elapsed = shifted.saturating_sub(self.external);
                self.runtime.checked_add(elapsed)
            },
        }
    }
}

} // verus!
