//! The windowed quota scheduler.
//!
//! `StreamGenerator` hands out copies of one payload at a bounded rate: at
//! most `rpu` records per time window of `unit` milliseconds, at most `batch`
//! per call. It is an explicit state machine over a sampled monotonic clock:
//! every poll passes the current time in, and whether a window boundary has
//! passed since the last observed one is computed by elapsed-time arithmetic.
//! Windows the driver never observed contribute no quota — a late poll opens
//! the current window exactly as a prompt one would, so idle time never
//! compounds into a burst.

use vstd::math::min;
use vstd::prelude::*;

use crate::payload::byte_content;
use crate::payload::clone_payload;

verus! {

/// The rate-limiting payload generator for one partition.
///
/// Per window of `unit` milliseconds it delivers at most `rpu` records;
/// `used` is the quota consumed in the window that began at `window_start`
/// (a millisecond reading of the driver's monotonic clock; the first window
/// nominally begins at time 0).
pub struct StreamGenerator {
    /// The payload template; every delivered record views these bytes.
    pub content: bytes::Bytes,
    /// Records permitted per unit of time.
    pub rpu: usize,
    /// Most records returned by a single poll.
    pub batch: usize,
    /// Quota consumed in the current window; `rpu - used` remains drainable.
    pub used: usize,
    /// Window length in milliseconds.
    pub unit: u64,
    /// Clock reading at which the current window began.
    pub window_start: u64,
}

impl StreamGenerator {
    /// The scheduler's invariant: a positive quota, a positive batch bound
    /// clamped to the quota, consumption within quota, and a window no finer
    /// than the supported 10-millisecond granularity.
    pub open spec fn wf(self) -> bool {
        &&& 1 <= self.rpu
        &&& 1 <= self.batch <= self.rpu
        &&& self.used <= self.rpu
        &&& 10 <= self.unit
    }

    /// Has a window boundary passed between `window_start` and `now`?
    pub open spec fn boundary_passed(self, now: u64) -> bool {
        self.window_start + self.unit <= now
    }

    /// The latest window boundary at or before `now`.
    pub open spec fn latest_boundary(self, now: u64) -> int {
        now - ((now - self.window_start) % (self.unit as int))
    }
}

/// Both states share payload, quota, batch bound and window length.
pub open spec fn same_config(pre: StreamGenerator, post: StreamGenerator) -> bool {
    &&& post.content == pre.content
    &&& post.rpu == pre.rpu
    &&& post.batch == pre.batch
    &&& post.unit == pre.unit
}

/// A poll that observed a window boundary: the new window opens with exactly
/// `batch` records delivered and `used` set to `batch` — not to 0, so the
/// remaining `rpu - batch` stays drainable without ever compounding across
/// windows. The window start advances to the latest boundary, skipping any
/// windows the driver missed.
pub open spec fn boundary_step(
    pre: StreamGenerator,
    post: StreamGenerator,
    delivered: int,
    now: u64,
) -> bool {
    &&& same_config(pre, post)
    &&& delivered == pre.batch
    &&& post.used == pre.batch
    &&& post.window_start == pre.latest_boundary(now)
}

/// A poll inside the window with quota left: the remaining quota is drained
/// immediately, capped at `batch`.
pub open spec fn mid_window_step(
    pre: StreamGenerator,
    post: StreamGenerator,
    delivered: int,
) -> bool {
    &&& same_config(pre, post)
    &&& pre.used < pre.rpu
    &&& delivered == min(pre.rpu - pre.used, pre.batch as int)
    &&& post.used == pre.used + delivered
    &&& post.window_start == pre.window_start
}

/// A poll inside the window with quota exhausted: the caller parks and the
/// state is untouched.
pub open spec fn parked_step(pre: StreamGenerator, post: StreamGenerator) -> bool {
    &&& pre.used >= pre.rpu
    &&& post == pre
}

impl StreamGenerator {
    /// A fresh scheduler: quota untouched, first window beginning at clock
    /// reading 0. The batch bound is clamped to the quota, so one call never
    /// delivers more than one window permits.
    pub fn new(content: bytes::Bytes, rpu: usize, batch: usize, unit: u64) -> (r: Self)
        requires
            1 <= rpu,
            1 <= batch,
            10 <= unit,
        ensures
            r.wf(),
            r.content == content,
            r.rpu == rpu,
            r.batch == min(batch as int, rpu as int),
            r.used == 0,
            r.unit == unit,
            r.window_start == 0,
    {
        StreamGenerator {
            content,
            rpu,
            // batch cannot exceed rpu
            batch: if batch > rpu { rpu } else { batch },
            used: 0,
            unit,
            window_start: 0,
        }
    }

    /// `n` copies of the payload template.
    fn copies(&self, n: usize) -> (r: Vec<bytes::Bytes>)
        ensures
            r@.len() == n,
            forall|i: int|
                0 <= i < n ==> byte_content(#[trigger] r@[i]) == byte_content(self.content),
    {
        let mut v: Vec<bytes::Bytes> = Vec::new();
        let mut i: usize = 0;
        while i < n
            invariant
                i <= n,
                v@.len() == i,
                forall|j: int|
                    0 <= j < i ==> byte_content(#[trigger] v@[j]) == byte_content(self.content),
            decreases n - i,
        {
            v.push(clone_payload(&self.content));
            i = i + 1;
        }
        v
    }

    /// One poll of the scheduler at clock reading `now` (milliseconds).
    ///
    /// Exactly one of three outcomes happens:
    /// - a boundary passed: the window opens, delivering exactly `batch`
    ///   records (`boundary_step`) — however many windows went unobserved;
    /// - mid-window with quota left: `min(rpu - used, batch)` records are
    ///   delivered at once (`mid_window_step`);
    /// - mid-window with quota exhausted: `None` — the caller must park until
    ///   the next boundary (`parked_step`).
    pub fn poll_next(&mut self, now: u64) -> (r: Option<Vec<bytes::Bytes>>)
        requires
            old(self).wf(),
            old(self).window_start <= now,
        ensures
            final(self).wf(),
            same_config(*old(self), *final(self)),
            final(self).window_start <= now,
            now < final(self).window_start + final(self).unit,
            (r is Some) == (old(self).boundary_passed(now) || old(self).used < old(self).rpu),
            r matches Some(data) ==> {
                &&& 1 <= data@.len()
                &&& (forall|i: int|
                    0 <= i < data@.len() ==> byte_content(#[trigger] data@[i]) == byte_content(
                        old(self).content,
                    ))
                &&& if old(self).boundary_passed(now) {
                    boundary_step(*old(self), *final(self), data@.len() as int, now)
                } else {
                    mid_window_step(*old(self), *final(self), data@.len() as int)
                }
            },
            r is None ==> parked_step(*old(self), *final(self)),
    {
        let elapsed = now - self.window_start;
        if elapsed >= self.unit {
            // A boundary passed: open the window at the latest boundary,
            // skipping any windows nobody observed, and deliver one batch.
            let into_window = elapsed % self.unit;
            self.window_start = now - into_window;
            self.used = self.batch;
            let data = self.copies(self.batch);
            Some(data)
        } else if self.used < self.rpu {
            // Quota remains in this window: drain up to one batch of it now.
            let remaining = self.rpu - self.used;
            let to_send = if remaining < self.batch {
                remaining
            } else {
                self.batch
            };
            self.used = self.used + to_send;
            let data = self.copies(to_send);
            Some(data)
        } else {
            // Quota exhausted: park until the next boundary.
            None
        }
    }

    /// The backlog estimate: at least `rpu - used` records are still owed in
    /// the current window (conservative — time already elapsed is ignored),
    /// and never more than `rpu` can come out of any one window.
    pub fn size_hint(&self) -> (r: (usize, Option<usize>))
        requires
            self.wf(),
        ensures
            r.0 == self.rpu - self.used,
            r.1 == Some(self.rpu),
    {
        (self.rpu - self.used, Some(self.rpu))
    }
}

/// Records delivered inside one window after it opened: each later poll is
/// either a mid-window drain or a parked call that delivers nothing.
pub open spec fn drain_step(pre: StreamGenerator, post: StreamGenerator, delivered: int) -> bool {
    ||| mid_window_step(pre, post, delivered)
    ||| (parked_step(pre, post) && delivered == 0)
}

/// The total of a sequence of delivery counts.
pub open spec fn total_delivered(counts: Seq<int>) -> int
    decreases counts.len(),
{
    if counts.len() == 0 {
        0
    } else {
        counts[0] + total_delivered(counts.drop_first())
    }
}

proof fn lemma_drain_used(states: Seq<StreamGenerator>, counts: Seq<int>)
    requires
        states.len() == counts.len() + 1,
        states[0].wf(),
        forall|i: int|
            0 <= i < counts.len() ==> #[trigger] drain_step(states[i], states[i + 1], counts[i]),
    ensures
        states.last().wf(),
        states.last().rpu == states[0].rpu,
        states.last().used == states[0].used + total_delivered(counts),
    decreases counts.len(),
{
    if counts.len() == 0 {
        assert(states.last() == states[0]);
    } else {
        assert(drain_step(states[0], states[0int + 1], counts[0]));
        assert(states[1].wf());
        let tail_states = states.drop_first();
        let tail_counts = counts.drop_first();
        assert forall|i: int|
            0 <= i < tail_counts.len() implies #[trigger] drain_step(
            tail_states[i],
            tail_states[i + 1],
            tail_counts[i],
        ) by {
            assert(drain_step(states[i + 1], states[(i + 1) + 1int], counts[i + 1]));
        }
        lemma_drain_used(tail_states, tail_counts);
        assert(tail_states.last() == states.last());
        assert(tail_states[0] == states[1]);
    }
}

/// Law: from any reachable state, the records drained before the next
/// boundary never exceed the remaining quota `rpu - used`. In particular the
/// very first window, which opens at construction with `used = 0`, delivers
/// at most `rpu` records in total.
pub proof fn lemma_drain_bounded(states: Seq<StreamGenerator>, counts: Seq<int>)
    requires
        states.len() == counts.len() + 1,
        states[0].wf(),
        forall|i: int|
            0 <= i < counts.len() ==> #[trigger] drain_step(states[i], states[i + 1], counts[i]),
    ensures
        total_delivered(counts) <= states[0].rpu - states[0].used,
{
    lemma_drain_used(states, counts);
}

/// Law: over any single complete window, cumulative records delivered never
/// exceed `rpu`. A window opens with a boundary poll that delivers `batch`
/// records and sets `used = batch`; `states` are the scheduler states from
/// that moment on and `counts` the records each later poll of the same window
/// delivered. The opening batch plus everything drained later stays within
/// the window's quota.
pub proof fn lemma_window_quota(states: Seq<StreamGenerator>, counts: Seq<int>)
    requires
        states.len() == counts.len() + 1,
        states[0].wf(),
        states[0].used == states[0].batch,
        forall|i: int|
            0 <= i < counts.len() ==> #[trigger] drain_step(states[i], states[i + 1], counts[i]),
    ensures
        states[0].batch + total_delivered(counts) <= states[0].rpu,
{
    lemma_drain_used(states, counts);
}

/// Law: skipped-window idempotence. However many whole windows passed
/// unobserved between `window_start` and `now`, a poll that observes the
/// boundary delivers exactly `batch` records — at most one window's worth,
/// with `used` reset to `batch`, never a retroactive burst.
pub proof fn lemma_skipped_windows_no_burst(
    pre: StreamGenerator,
    post: StreamGenerator,
    delivered: int,
    now: u64,
)
    requires
        pre.wf(),
        pre.boundary_passed(now),
        boundary_step(pre, post, delivered, now),
    ensures
        delivered == pre.batch,
        delivered <= pre.rpu,
        post.used == pre.batch,
        post.used <= post.rpu,
{
}

} // verus!
