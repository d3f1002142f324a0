//! Turns bursts of raw file notifications into single changes.
//!
//! Every raw notification restarts a timer. When the timer is looked at and
//! at least the quiet window has passed since the last raw notification, one
//! change is given out and the debouncer is idle again. Times are
//! milliseconds on a clock that does not go back.

use vstd::prelude::*;

verus! {

/// The quiet window used unless another is asked for, in milliseconds.
pub const DEBOUNCE_MS: u64 = 500;

/// What the debouncer is fed: a raw notification, or a look at the timer.
#[derive(Clone, Copy, Debug, PartialEq, Eq, Structural)]
pub enum Tick {
    Raw(u64),
    Poll(u64),
}

impl Tick {
    pub open spec fn time(self) -> u64 {
        match self {
            Tick::Raw(at) => at,
            Tick::Poll(at) => at,
        }
    }
}

pub struct DebouncerView {
    pub window_ms: u64,
    /// When the last raw notification came that no change has covered yet.
    pub last_raw: Option<u64>,
}

impl DebouncerView {
    pub open spec fn idle(window_ms: u64) -> DebouncerView {
        DebouncerView { window_ms, last_raw: None }
    }

    /// Whether a look at the timer at `now_ms` gives out a change.
    pub open spec fn is_due(self, now_ms: u64) -> bool {
        match self.last_raw {
            Some(at) => now_ms - at >= self.window_ms,
            None => false,
        }
    }

    /// The state after one tick, and whether the tick gave out a change.
    pub open spec fn step(self, tick: Tick) -> (DebouncerView, bool) {
        match tick {
            Tick::Raw(at) => (DebouncerView { last_raw: Some(at), ..self }, false),
            Tick::Poll(at) => if self.is_due(at) {
                (DebouncerView { last_raw: None, ..self }, true)
            } else {
                (self, false)
            },
        }
    }

    /// The state after a sequence of ticks, and how many changes they gave
    /// out.
    pub open spec fn run(self, ticks: Seq<Tick>) -> (DebouncerView, nat)
        decreases ticks.len(),
    {
        if ticks.len() == 0 {
            (self, 0)
        } else {
            let (before, count) = self.run(ticks.drop_last());
            let (after, emitted) = before.step(ticks.last());
            (
                after,
                if emitted {
                    count + 1
                } else {
                    count
                },
            )
        }
    }
}

/// Whether `ticks` is one burst: it starts with a raw notification at
/// `start`, its times do not go back, and all of them lie less than the
/// window after `start`.
pub open spec fn is_burst(ticks: Seq<Tick>, start: u64, window_ms: u64) -> bool {
    &&& ticks.len() > 0
    &&& ticks[0] == Tick::Raw(start)
    &&& forall|i: int, j: int|
        0 <= i <= j < ticks.len() ==> (#[trigger] ticks[i]).time() <= (#[trigger] ticks[j]).time()
    &&& forall|i: int| 0 <= i < ticks.len() ==> (#[trigger] ticks[i]).time() - start < window_ms
}

#[derive(Debug)]
pub struct Debouncer {
    window_ms: u64,
    last_raw: Option<u64>,
}

impl View for Debouncer {
    type V = DebouncerView;

    closed spec fn view(&self) -> DebouncerView {
        DebouncerView { window_ms: self.window_ms, last_raw: self.last_raw }
    }
}

impl Debouncer {
    /// An idle debouncer with the given quiet window.
    pub fn new(window_ms: u64) -> (debouncer: Debouncer)
        ensures
            debouncer@ == DebouncerView::idle(window_ms),
    {
        Debouncer { window_ms, last_raw: None }
    }

    /// Whether raw notifications wait to be given out as a change.
    pub fn is_pending(&self) -> (pending: bool)
        ensures
            pending == self@.last_raw is Some,
    {
        self.last_raw.is_some()
    }

    /// Takes in a raw notification that came at `now_ms`: the timer starts
    /// again from there.
    pub fn notify(&mut self, now_ms: u64)
        ensures
            final(self)@ == old(self)@.step(Tick::Raw(now_ms)).0,
    {
        self.last_raw = Some(now_ms);
    }

    /// Looks at the timer at `now_ms`. `true` is one change: it is given
    /// exactly when raw notifications wait and the last of them came at
    /// least the window ago.
    pub fn poll(&mut self, now_ms: u64) -> (changed: bool)
        ensures
            (final(self)@, changed) == old(self)@.step(Tick::Poll(now_ms)),
    {
        match self.last_raw {
            Some(at) => {
                if now_ms >= at && now_ms - at >= self.window_ms {
                    self.last_raw = None;
                    true
                } else {
                    false
                }
            },
            None => false,
        }
    }

    /// Feeds one tick; `true` is one change.
    pub fn feed(&mut self, tick: Tick) -> (changed: bool)
        ensures
            (final(self)@, changed) == old(self)@.step(tick),
    {
        match tick {
            Tick::Raw(at) => {
                self.notify(at);
                false
            },
            Tick::Poll(at) => self.poll(at),
        }
    }
}

/// During a burst nothing is given out, and the timer runs from a raw
/// notification of the burst.
pub proof fn lemma_burst_is_held(ticks: Seq<Tick>, start: u64, window_ms: u64)
    requires
        is_burst(ticks, start, window_ms),
    ensures
        DebouncerView::idle(window_ms).run(ticks).1 == 0,
        DebouncerView::idle(window_ms).run(ticks).0.window_ms == window_ms,
        DebouncerView::idle(window_ms).run(ticks).0.last_raw matches Some(at) && start <= at
            <= ticks.last().time(),
    decreases ticks.len(),
{
    let idle = DebouncerView::idle(window_ms);
    let shorter = ticks.drop_last();
    if ticks.len() == 1 {
        assert(shorter.len() == 0);
        assert(idle.run(shorter) == (idle, 0nat));
    } else {
        assert(shorter[0] == ticks[0]);
        assert forall|i: int, j: int| 0 <= i <= j < shorter.len() implies (
        #[trigger] shorter[i]).time() <= (#[trigger] shorter[j]).time() by {
            assert(shorter[i] == ticks[i] && shorter[j] == ticks[j]);
        }
        assert forall|i: int| 0 <= i < shorter.len() implies (#[trigger] shorter[i]).time()
            - start < window_ms by {
            assert(shorter[i] == ticks[i]);
        }
        lemma_burst_is_held(shorter, start, window_ms);
        assert(shorter.last() == ticks[ticks.len() - 2]);
        assert(ticks[0].time() == start);
    }
}

/// A burst of raw notifications within the window, however often the timer
/// is looked at meanwhile, gives exactly one change once the window has
/// passed in quiet, and leaves the debouncer idle.
pub proof fn lemma_burst_gives_one_change(
    ticks: Seq<Tick>,
    start: u64,
    window_ms: u64,
    quiet_at: u64,
)
    requires
        is_burst(ticks, start, window_ms),
        quiet_at - ticks.last().time() >= window_ms,
    ensures
        DebouncerView::idle(window_ms).run(ticks.push(Tick::Poll(quiet_at))) == (
            DebouncerView::idle(window_ms),
            1nat,
        ),
{
    lemma_burst_is_held(ticks, start, window_ms);
    let all = ticks.push(Tick::Poll(quiet_at));
    assert(all.drop_last() == ticks);
}

/// An idle debouncer gives out nothing, however often the timer is looked
/// at, until a raw notification comes.
pub proof fn lemma_idle_stays_silent(window_ms: u64, ticks: Seq<Tick>)
    requires
        forall|i: int| 0 <= i < ticks.len() ==> #[trigger] ticks[i] is Poll,
    ensures
        DebouncerView::idle(window_ms).run(ticks) == (DebouncerView::idle(window_ms), 0nat),
    decreases ticks.len(),
{
    if ticks.len() > 0 {
        let shorter = ticks.drop_last();
        assert forall|i: int| 0 <= i < shorter.len() implies #[trigger] shorter[i] is Poll by {
            assert(shorter[i] == ticks[i]);
        }
        lemma_idle_stays_silent(window_ms, shorter);
        assert(ticks.last() == ticks[ticks.len() - 1]);
    }
}

} // verus!
