use vstd::prelude::*;

verus! {

/// Usage counters of one transport, in milliseconds for the two times.
#[derive(Clone, Copy, Debug, PartialEq, Eq, Structural)]
pub struct TransportStats {
    pub request_count: u64,
    pub elapsed_ms: u64,
    pub rate_limited_ms: u64,
}

/// `a + b`, held at `u64::MAX`.
pub open spec fn sat_add(a: u64, b: int) -> u64 {
    if a + b > u64::MAX { u64::MAX } else { (a + b) as u64 }
}

/// The source of request ids of one transport: each call takes the next one.
#[derive(Clone, Copy, Debug, PartialEq, Eq, Structural)]
pub struct RequestIds {
    pub next: u64,
}

impl RequestIds {
    pub fn new() -> (r: RequestIds)
        ensures
            r.next == 0,
    {
        RequestIds { next: 0 }
    }

    /// Hands out the next id; the one after it is one larger.
    pub fn issue(&mut self) -> (id: u64)
        requires
            old(self).next < u64::MAX,
        ensures
            issued(*old(self), id, *final(self)),
    {
        let id = self.next;
        self.next = self.next + 1;
        id
    }
}

/// One call of `issue`: it handed out `id` and left `after` behind.
pub open spec fn issued(before: RequestIds, id: u64, after: RequestIds) -> bool {
    id == before.next && after.next == before.next + 1
}

/// Ids issued one after another by one source strictly increase: a call
/// that starts from where an earlier one left off, or later, hands out a
/// larger id.
pub proof fn lemma_ids_increase(
    s0: RequestIds,
    first: u64,
    s1: RequestIds,
    s2: RequestIds,
    second: u64,
    s3: RequestIds,
)
    requires
        issued(s0, first, s1),
        s1.next <= s2.next,
        issued(s2, second, s3),
    ensures
        first < second,
{
}

impl TransportStats {
    /// Time spent sleeping on rate limits is part of the whole time.
    pub open spec fn wf(self) -> bool {
        self.rate_limited_ms <= self.elapsed_ms
    }

    pub fn new() -> (r: TransportStats)
        ensures
            r.wf(),
            r.request_count == 0,
            r.elapsed_ms == 0,
            r.rate_limited_ms == 0,
    {
        TransportStats { request_count: 0, elapsed_ms: 0, rate_limited_ms: 0 }
    }

    /// Records one finished call, whatever its outcome: one more request, its
    /// whole time and its time asleep on rate limits. A whole time shorter than
    /// the time asleep (a clock that went back) counts as the time asleep.
    pub fn record_call(&mut self, elapsed_ms: u64, rate_limited_ms: u64)
        requires
            old(self).wf(),
            old(self).request_count < u64::MAX,
        ensures
            final(self).wf(),
            final(self).request_count == old(self).request_count + 1,
            final(self).rate_limited_ms == sat_add(old(self).rate_limited_ms, rate_limited_ms as int),
            final(self).elapsed_ms == sat_add(
                old(self).elapsed_ms,
                if elapsed_ms < rate_limited_ms { rate_limited_ms as int } else { elapsed_ms as int },
            ),
            final(self).elapsed_ms >= old(self).elapsed_ms,
            final(self).rate_limited_ms >= old(self).rate_limited_ms,
    {
        let whole = if elapsed_ms < rate_limited_ms { rate_limited_ms } else { elapsed_ms };
        self.request_count = self.request_count + 1;
        self.elapsed_ms = self.elapsed_ms.saturating_add(whole);
        self.rate_limited_ms = self.rate_limited_ms.saturating_add(rate_limited_ms);
    }

    /// A copy of the counters as they stand.
    pub fn snapshot(&self) -> (r: TransportStats)
        ensures
            r == *self,
    {
        *self
    }
}

} // verus!
