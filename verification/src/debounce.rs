//! Debouncing of seek reports.
//!
//! While a user scrubs, a player reports its position many times a second.
//! A report is held back until no further one has arrived for a whole idle
//! window; then the latest position is released, once. Time is a count of
//! milliseconds that never runs backwards; the caller reads the clock.

use vstd::prelude::*;

verus! {

/// The idle window that MPRIS seek reports are debounced with, in
/// milliseconds.
pub const SEEK_IDLE_WINDOW_MS: u64 = 1000;

/// A position that is held back, and the time from which it may be released.
#[derive(Clone, Copy, Debug, PartialEq, Eq, Structural)]
pub struct PendingSeek {
    pub position: i64,
    pub due: u64,
}

/// What arrives at a debouncer.
#[derive(Clone, Copy, Debug, PartialEq, Eq, Structural)]
pub enum DebounceInput {
    /// The player reported the position `position` at the time `at`.
    Seek { position: i64, at: u64 },
    /// The caller asks at the time `at` whether a position is to be released.
    Poll { at: u64 },
}

impl DebounceInput {
    /// The time of the input.
    pub open spec fn at(self) -> u64 {
        match self {
            DebounceInput::Seek { at, .. } => at,
            DebounceInput::Poll { at } => at,
        }
    }
}

/// The time from which a position reported at `at` may be released:
/// a window later, or the end of time where that lies beyond it.
pub open spec fn spec_due(at: u64, window: u64) -> u64 {
    if at + window > u64::MAX {
        u64::MAX
    } else {
        (at + window) as u64
    }
}

/// The pending position after a seek report.
pub open spec fn spec_after_seek(position: i64, at: u64, window: u64) -> Option<PendingSeek> {
    Some(PendingSeek { position, due: spec_due(at, window) })
}

/// What a poll at the time `at` releases.
pub open spec fn spec_released(pending: Option<PendingSeek>, at: u64) -> Option<i64> {
    match pending {
        Some(p) => if at >= p.due {
            Some(p.position)
        } else {
            None
        },
        None => None,
    }
}

/// The pending position after a poll at the time `at`.
pub open spec fn spec_after_poll(pending: Option<PendingSeek>, at: u64) -> Option<PendingSeek> {
    if spec_released(pending, at).is_some() {
        None
    } else {
        pending
    }
}

/// The pending position after a run of inputs.
pub open spec fn spec_pending_after(
    pending: Option<PendingSeek>,
    window: u64,
    inputs: Seq<DebounceInput>,
) -> Option<PendingSeek>
    decreases inputs.len(),
{
    if inputs.len() == 0 {
        pending
    } else {
        let before = spec_pending_after(pending, window, inputs.drop_last());
        match inputs.last() {
            DebounceInput::Seek { position, at } => spec_after_seek(position, at, window),
            DebounceInput::Poll { at } => spec_after_poll(before, at),
        }
    }
}

/// The positions released in the course of a run of inputs, in their order.
pub open spec fn spec_released_by(
    pending: Option<PendingSeek>,
    window: u64,
    inputs: Seq<DebounceInput>,
) -> Seq<i64>
    decreases inputs.len(),
{
    if inputs.len() == 0 {
        Seq::empty()
    } else {
        let earlier = spec_released_by(pending, window, inputs.drop_last());
        let before = spec_pending_after(pending, window, inputs.drop_last());
        match inputs.last() {
            DebounceInput::Seek { .. } => earlier,
            DebounceInput::Poll { at } => match spec_released(before, at) {
                Some(position) => earlier.push(position),
                None => earlier,
            },
        }
    }
}

/// The input at `m` is a poll.
pub open spec fn is_poll_at(inputs: Seq<DebounceInput>, m: int) -> bool {
    inputs[m] is Poll
}

/// The inputs strictly between `i` and `j` are all polls.
pub open spec fn only_polls_between(inputs: Seq<DebounceInput>, i: int, j: int) -> bool {
    forall|m: int| i < m < j ==> #[trigger] is_poll_at(inputs, m)
}

/// The input at `i` is not later than the one at `j`.
pub open spec fn in_order(inputs: Seq<DebounceInput>, i: int, j: int) -> bool {
    inputs[i].at() <= inputs[j].at()
}

/// The input at `j` arrives less than a window after the one at `i`.
pub open spec fn close_after(inputs: Seq<DebounceInput>, window: u64, i: int, j: int) -> bool {
    inputs[j].at() - inputs[i].at() < window
}

/// A burst: inputs in the order of their times that end with a seek report,
/// each arriving less than a window after the seek report before it.
pub open spec fn is_burst(inputs: Seq<DebounceInput>, window: u64) -> bool {
    &&& inputs.len() > 0
    &&& inputs.last() is Seek
    &&& forall|i: int, j: int| 0 <= i <= j < inputs.len() ==> #[trigger] in_order(inputs, i, j)
    &&& forall|i: int, j: int|
        0 <= i < j < inputs.len() && inputs[i] is Seek && only_polls_between(inputs, i, j)
            ==> #[trigger] close_after(inputs, window, i, j)
}

/// The seek report at `i` is the last among the first `k` inputs, and
/// `pending` is what it left.
pub open spec fn is_pending_from(
    inputs: Seq<DebounceInput>,
    window: u64,
    k: int,
    pending: Option<PendingSeek>,
    i: int,
) -> bool {
    &&& 0 <= i < k
    &&& inputs[i] is Seek
    &&& only_polls_between(inputs, i, k)
    &&& pending == spec_after_seek(inputs[i]->position, inputs[i].at(), window)
}

/// What is pending after the first `k` inputs of a burst: nothing where they
/// are all polls, else the position of the last seek report among them.
pub open spec fn holds_last_seek(
    inputs: Seq<DebounceInput>,
    window: u64,
    k: int,
    pending: Option<PendingSeek>,
) -> bool {
    match pending {
        Some(p) => exists|i: int| #[trigger] is_pending_from(inputs, window, k, pending, i),
        None => only_polls_between(inputs, -1, k),
    }
}

/// During a burst that ends a window or more before the end of time nothing
/// is released, and what is pending is the position of the seek report that
/// arrived last.
pub proof fn lemma_burst_holds_back(inputs: Seq<DebounceInput>, window: u64, k: int)
    requires
        is_burst(inputs, window),
        inputs.last().at() + window <= u64::MAX,
        0 <= k <= inputs.len(),
    ensures
        spec_released_by(None, window, inputs.take(k)).len() == 0,
        holds_last_seek(inputs, window, k, spec_pending_after(None, window, inputs.take(k))),
    decreases k,
{
    if k > 0 {
        lemma_burst_holds_back(inputs, window, k - 1);
        let prefix = inputs.take(k);
        assert(prefix.drop_last() == inputs.take(k - 1));
        assert(prefix.last() == inputs[k - 1]);
        let before = spec_pending_after(None, window, inputs.take(k - 1));
        let after = spec_pending_after(None, window, prefix);
        match inputs[k - 1] {
            DebounceInput::Seek { position, at } => {
                assert(is_pending_from(inputs, window, k, after, k - 1));
            },
            DebounceInput::Poll { at } => {
                assert(is_poll_at(inputs, k - 1));
                match before {
                    Some(p) => {
                        let i = choose|i: int|
                            #[trigger] is_pending_from(inputs, window, k - 1, before, i);
                        // The poll arrives less than a window after the seek
                        // that is pending, which lies before the end of the
                        // burst.
                        assert(close_after(inputs, window, i, k - 1));
                        assert(in_order(inputs, i, inputs.len() - 1));
                        assert(at < p.due);
                        assert(after == before);
                        assert(is_pending_from(inputs, window, k, after, i));
                    },
                    None => {},
                }
            },
        }
    } else {
        assert(inputs.take(0).len() == 0);
    }
}

/// Debounce collapse: however many seek reports a burst holds, the first poll
/// a window or more after the last of them releases exactly one position,
/// that of the last report, and nothing is pending afterwards.
pub proof fn lemma_debounce_collapse(inputs: Seq<DebounceInput>, window: u64, poll_at: u64)
    requires
        is_burst(inputs, window),
        poll_at >= inputs.last().at() + window,
    ensures
        spec_released_by(None, window, inputs.push(DebounceInput::Poll { at: poll_at })) == seq![
            inputs.last()->position,
        ],
        spec_pending_after(None, window, inputs.push(DebounceInput::Poll { at: poll_at }))
            is None,
{
    let n = inputs.len() as int;
    lemma_burst_holds_back(inputs, window, n);
    let all = inputs.push(DebounceInput::Poll { at: poll_at });
    assert(all.drop_last() == inputs);
    assert(inputs.take(n) == inputs);
    let pending = spec_pending_after(None, window, inputs);
    // The last input is a seek report, so it is the one that is pending.
    assert(pending == spec_after_seek(inputs.last()->position, inputs.last().at(), window));
    assert(spec_released_by(None, window, inputs).len() == 0);
    assert(spec_released_by(None, window, all) =~= seq![inputs.last()->position]);
}

/// Holds back seek reports until the player has been quiet for a window.
#[derive(Clone, Copy, Debug, PartialEq, Eq, Structural)]
pub struct SeekDebouncer {
    window_ms: u64,
    pending: Option<PendingSeek>,
}

impl SeekDebouncer {
    /// The idle window, in milliseconds.
    pub closed spec fn window(&self) -> u64 {
        self.window_ms
    }

    /// The position that is held back, if any.
    pub closed spec fn pending(&self) -> Option<PendingSeek> {
        self.pending
    }

    /// A debouncer with the given idle window that holds nothing back.
    pub fn new(window_ms: u64) -> (r: SeekDebouncer)
        ensures
            r.window() == window_ms,
            r.pending() is None,
    {
        SeekDebouncer { window_ms, pending: None }
    }

    /// The player reported the position `position` at the time `now`. It
    /// replaces whatever was held back, and the window starts anew.
    pub fn on_seek(&mut self, position: i64, now: u64)
        ensures
            final(self).window() == old(self).window(),
            final(self).pending() == spec_after_seek(position, now, old(self).window()),
    {
        let due = if now > u64::MAX - self.window_ms {
            u64::MAX
        } else {
            now + self.window_ms
        };
        self.pending = Some(PendingSeek { position, due });
    }

    /// Asks at the time `now` whether a position is to be released. The
    /// position held back is released once its window has passed, and then
    /// nothing is held back any more.
    pub fn poll(&mut self, now: u64) -> (released: Option<i64>)
        ensures
            final(self).window() == old(self).window(),
            released == spec_released(old(self).pending(), now),
            final(self).pending() == spec_after_poll(old(self).pending(), now),
    {
        match self.pending {
            Some(p) => {
                if now >= p.due {
                    self.pending = None;
                    Some(p.position)
                } else {
                    None
                }
            },
            None => None,
        }
    }

    /// The time at which the caller should poll next, if a position is held
    /// back.
    pub fn due(&self) -> (r: Option<u64>)
        ensures
            r == match self.pending() {
                Some(p) => Some(p.due),
                None => None,
            },
    {
        match self.pending {
            Some(p) => Some(p.due),
            None => None,
        }
    }

    /// Drops what is held back, as when the player is torn down.
    pub fn cancel(&mut self)
        ensures
            final(self).window() == old(self).window(),
            final(self).pending() is None,
    {
        self.pending = None;
    }
}

} // verus!
