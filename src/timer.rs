//! The debounce timer that hides the overlay after a quiet period.
//!
//! Each volume change arms a deadline; only the most recent one is honoured.
//! The timer thread polls [`Debounce::poll`] when it wakes, and hides the
//! overlay when it returns `true`.

use vstd::prelude::*;

verus! {

/// Quiet period, in milliseconds, after the last change before the overlay
/// hides.
pub const QUIET_PERIOD_MS: u64 = 750;

/// The deadline for a change at `now`, in milliseconds on a monotonic clock.
pub open spec fn deadline_after(now: u64) -> u64 {
    if now + QUIET_PERIOD_MS > u64::MAX {
        u64::MAX
    } else {
        (now + QUIET_PERIOD_MS) as u64
    }
}

/// Computes the deadline for a change at `now`.
pub fn deadline(now: u64) -> (r: u64)
    ensures
        r == deadline_after(now),
{
    now.saturating_add(QUIET_PERIOD_MS)
}

/// A single pending deadline, replaced by each newer one.
pub struct Debounce {
    pending: Option<u64>,
}

/// The pending deadline after `p` is polled at `now`.
pub open spec fn after_poll(p: Option<u64>, now: u64) -> Option<u64> {
    match p {
        Some(d) => if d <= now {
            None
        } else {
            p
        },
        None => None,
    }
}

/// Whether polling `p` at `now` hides the overlay.
pub open spec fn fires(p: Option<u64>, now: u64) -> bool {
    match p {
        Some(d) => d <= now,
        None => false,
    }
}

impl Debounce {
    /// The deadline waiting to be honoured, if any.
    pub closed spec fn view(&self) -> Option<u64> {
        self.pending
    }

    /// A timer with nothing pending.
    pub fn new() -> (r: Debounce)
        ensures
            r@ == None::<u64>,
    {
        Debounce { pending: None }
    }

    /// The deadline waiting to be honoured, if any: how long the timer thread
    /// may sleep.
    pub fn pending(&self) -> (r: Option<u64>)
        ensures
            r == self@,
    {
        self.pending
    }

    /// Schedules `deadline`; any earlier one is superseded.
    pub fn arm(&mut self, deadline: u64)
        ensures
            final(self)@ == Some(deadline),
    {
        self.pending = Some(deadline);
    }

    /// The timer woke at `now`: returns whether the overlay hides now. A
    /// deadline fires once, at the first poll at or after it.
    pub fn poll(&mut self, now: u64) -> (r: bool)
        ensures
            r == fires(old(self)@, now),
            final(self)@ == after_poll(old(self)@, now),
    {
        match self.pending {
            Some(d) => {
                if d <= now {
                    self.pending = None;
                    true
                } else {
                    false
                }
            },
            None => false,
        }
    }
}

/// What reaches the timer: a volume change at a time, which arms the
/// deadline after it, or a wake-up at a time.
pub enum Signal {
    Changed(u64),
    Tick(u64),
}

/// When a signal happened.
pub open spec fn time_of(s: Signal) -> u64 {
    match s {
        Signal::Changed(t) => t,
        Signal::Tick(t) => t,
    }
}

/// The pending deadline after a run of signals, from an idle timer.
pub open spec fn settled(trace: Seq<Signal>) -> Option<u64>
    decreases trace.len(),
{
    if trace.len() == 0 {
        None
    } else {
        match trace.last() {
            Signal::Changed(t) => Some(deadline_after(t)),
            Signal::Tick(t) => after_poll(settled(trace.drop_last()), t),
        }
    }
}

/// The times at which a run of signals hides the overlay, from an idle timer.
pub open spec fn hides(trace: Seq<Signal>) -> Seq<u64>
    decreases trace.len(),
{
    if trace.len() == 0 {
        Seq::empty()
    } else {
        match trace.last() {
            Signal::Changed(_) => hides(trace.drop_last()),
            Signal::Tick(t) => if fires(settled(trace.drop_last()), t) {
                hides(trace.drop_last()).push(t)
            } else {
                hides(trace.drop_last())
            },
        }
    }
}

/// The times of the volume changes in a run of signals.
pub open spec fn changes(trace: Seq<Signal>) -> Seq<u64>
    decreases trace.len(),
{
    if trace.len() == 0 {
        Seq::empty()
    } else {
        match trace.last() {
            Signal::Changed(t) => changes(trace.drop_last()).push(t),
            Signal::Tick(_) => changes(trace.drop_last()),
        }
    }
}

/// Signals come in time order, and no time is within a quiet period of the
/// clock's end.
pub open spec fn well_timed(trace: Seq<Signal>) -> bool {
    &&& forall|i: int, j: int|
        0 <= i < j < trace.len() ==> time_of(#[trigger] trace[i]) <= time_of(#[trigger] trace[j])
    &&& forall|i: int| 0 <= i < trace.len() ==> time_of(#[trigger] trace[i]) + QUIET_PERIOD_MS <= u64::MAX
}

/// Each change comes less than a quiet period after the one before it.
pub open spec fn bursty(c: Seq<u64>) -> bool {
    forall|k: int| 0 < k < c.len() ==> #[trigger] c[k] < c[k - 1] + QUIET_PERIOD_MS
}

/// Whether `s` is no wake-up at or after `bound`.
pub open spec fn woke_before(s: Signal, bound: int) -> bool {
    match s {
        Signal::Tick(t) => t < bound,
        Signal::Changed(_) => true,
    }
}

proof fn lemma_prefix(trace: Seq<Signal>)
    requires
        trace.len() > 0,
        well_timed(trace),
        bursty(changes(trace)),
    ensures
        well_timed(trace.drop_last()),
        bursty(changes(trace.drop_last())),
{
    let pre = trace.drop_last();
    assert forall|i: int, j: int| 0 <= i < j < pre.len() implies time_of(pre[i]) <= time_of(
        pre[j],
    ) by {
        assert(pre[i] == trace[i] && pre[j] == trace[j]);
    }
    assert forall|i: int| 0 <= i < pre.len() implies time_of(pre[i]) + QUIET_PERIOD_MS
        <= u64::MAX by {
        assert(pre[i] == trace[i]);
    }
    let cp = changes(pre);
    assert forall|k: int| 0 < k < cp.len() implies #[trigger] cp[k] < cp[k - 1]
        + QUIET_PERIOD_MS by {
        assert(cp[k] == changes(trace)[k] && cp[k - 1] == changes(trace)[k - 1]);
    }
}

proof fn lemma_burst_state(trace: Seq<Signal>)
    requires
        well_timed(trace),
        bursty(changes(trace)),
    ensures
        changes(trace).len() == 0 ==> settled(trace) == None::<u64> && hides(trace).len() == 0,
        changes(trace).len() > 0 ==> {
            let c = changes(trace).last();
            ||| settled(trace) == Some(deadline_after(c)) && hides(trace).len() == 0 && forall|j: int|
                0 <= j < trace.len() ==> woke_before(#[trigger] trace[j], c + QUIET_PERIOD_MS)
            ||| settled(trace) == None::<u64> && hides(trace).len() == 1 && hides(trace)[0]
                >= c + QUIET_PERIOD_MS && hides(trace)[0] <= time_of(trace.last())
        },
    decreases trace.len(),
{
    if trace.len() > 0 {
        let pre = trace.drop_last();
        lemma_prefix(trace);
        let cp = changes(pre);
        lemma_burst_state(pre);
        let last = trace.last();
        assert(time_of(last) + QUIET_PERIOD_MS <= u64::MAX) by {
            assert(last == trace[trace.len() - 1]);
        }
        if pre.len() > 0 {
            assert(time_of(pre.last()) <= time_of(last)) by {
                assert(pre.last() == trace[trace.len() - 2]);
                assert(last == trace[trace.len() - 1]);
            }
        }
        match last {
            Signal::Changed(t) => {
                if cp.len() > 0 {
                    let c = changes(trace);
                    assert(c[cp.len() - 1] == cp.last());
                    assert(c[cp.len() as int] == t);
                    assert(t < cp.last() + QUIET_PERIOD_MS);
                }
                assert forall|j: int| 0 <= j < trace.len() implies woke_before(
                    #[trigger] trace[j],
                    t + QUIET_PERIOD_MS,
                ) by {
                    if j < trace.len() - 1 {
                        assert(time_of(trace[j]) <= time_of(trace[trace.len() - 1]));
                    }
                }
            },
            Signal::Tick(t) => {
                if cp.len() > 0 && settled(trace) == Some(deadline_after(cp.last())) {
                    let c = cp.last();
                    assert forall|j: int| 0 <= j < trace.len() implies woke_before(
                        #[trigger] trace[j],
                        c + QUIET_PERIOD_MS,
                    ) by {
                        if j < trace.len() - 1 {
                            assert(pre[j] == trace[j]);
                        }
                    }
                }
            },
        }
    }
}

/// However many volume changes come less than a quiet period apart, the
/// overlay hides at most once, and never earlier than a quiet period after
/// the last change. Once the timer has woken a quiet period or more after the
/// last change, it has hidden the overlay exactly once.
pub proof fn lemma_debounce(trace: Seq<Signal>)
    requires
        well_timed(trace),
        bursty(changes(trace)),
    ensures
        hides(trace).len() <= 1,
        hides(trace).len() == 1 ==> changes(trace).len() > 0 && hides(trace)[0] >= changes(
            trace,
        ).last() + QUIET_PERIOD_MS,
        changes(trace).len() > 0 && (exists|j: int|
            0 <= j < trace.len() && !woke_before(
                #[trigger] trace[j],
                changes(trace).last() + QUIET_PERIOD_MS,
            )) ==> hides(trace).len() == 1,
{
    lemma_burst_state(trace);
}

} // verus!
