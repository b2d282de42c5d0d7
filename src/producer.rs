//! The producing side of a trial: the values `0..count`, ascending, then closure.

use vstd::prelude::*;

verus! {

/// The abstract state of a producer: how many values it has sent, of how many.
pub struct ProducerState {
    pub sent: nat,
    pub count: nat,
}

/// The values `0..n`, ascending.
pub open spec fn ascending(n: nat) -> Seq<u64> {
    Seq::new(n, |i: int| i as u64)
}

/// What one call of `next_value` returns, and the state after it.
pub open spec fn produce(p: ProducerState) -> (ProducerState, Option<u64>) {
    if p.sent < p.count {
        (ProducerState { sent: p.sent + 1, ..p }, Some(p.sent as u64))
    } else {
        (p, None)
    }
}

/// What `k` calls of `next_value` return, in order.
pub open spec fn emissions(p: ProducerState, k: nat) -> Seq<Option<u64>>
    decreases k,
{
    if k == 0 {
        Seq::empty()
    } else {
        seq![produce(p).1] + emissions(produce(p).0, (k - 1) as nat)
    }
}

/// Hands out `0..count` one at a time, then reports closure for good.
pub struct Producer {
    sent: u64,
    count: u64,
}

impl View for Producer {
    type V = ProducerState;

    closed spec fn view(&self) -> ProducerState {
        ProducerState { sent: self.sent as nat, count: self.count as nat }
    }
}

impl Producer {
    pub open spec fn wf(&self) -> bool {
        self@.sent <= self@.count
    }

    /// A producer of the values `0..count`.
    pub fn new(count: u64) -> (r: Producer)
        ensures
            r.wf(),
            r@ == (ProducerState { sent: 0, count: count as nat }),
    {
        Producer { sent: 0, count }
    }

    /// How many values have been handed out.
    pub fn sent(&self) -> (r: u64)
        ensures
            r == self@.sent,
    {
        self.sent
    }

    /// The next value to send, or `None` once all have been sent.
    pub fn next_value(&mut self) -> (r: Option<u64>)
        requires
            old(self).wf(),
        ensures
            final(self).wf(),
            (final(self)@, r) == produce(old(self)@),
    {
        if self.sent < self.count {
            let v = self.sent;
            self.sent = self.sent + 1;
            Some(v)
        } else {
            None
        }
    }
}

proof fn lemma_emissions_from(p: ProducerState, k: nat)
    requires
        p.sent <= p.count <= u64::MAX + 1,
    ensures
        emissions(p, k).len() == k,
        forall|j: int|
            0 <= j < k ==> #[trigger] emissions(p, k)[j] == (if p.sent + j < p.count {
                Some((p.sent + j) as u64)
            } else {
                None::<u64>
            }),
    decreases k,
{
    if k > 0 {
        lemma_emissions_from(produce(p).0, (k - 1) as nat);
        assert forall|j: int| 0 <= j < k implies #[trigger] emissions(p, k)[j] == (if p.sent + j
            < p.count {
            Some((p.sent + j) as u64)
        } else {
            None::<u64>
        }) by {
            if j > 0 {
                assert(emissions(p, k)[j] == emissions(produce(p).0, (k - 1) as nat)[j - 1]);
            }
        }
    }
}

/// A producer of `n` values hands out exactly `0, 1, ..., n - 1`, each once
/// and in ascending order, and from then on reports closure on every call.
pub proof fn lemma_delivery_order(n: nat, extra: nat)
    requires
        n <= u64::MAX,
    ensures
        emissions(ProducerState { sent: 0, count: n }, n + 1 + extra) == ascending(n).map_values(
            |v: u64| Some(v),
        ) + Seq::new(extra + 1, |i: int| None::<u64>),
{
    let p = ProducerState { sent: 0, count: n };
    lemma_emissions_from(p, n + 1 + extra);
    assert(emissions(p, n + 1 + extra) =~= ascending(n).map_values(|v: u64| Some(v)) + Seq::new(
        extra + 1,
        |i: int| None::<u64>,
    ));
}

} // verus!
