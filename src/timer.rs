use vstd::prelude::*;
use crate::task::PollOutcome;

verus! {

/// The state that a timer shares between the task awaiting it and the
/// background notifier that waits out its duration: whether the duration has
/// elapsed, and the notifier that the last poll handed over.
///
/// The state moves from pending to ready once and never back.
pub struct TimerState<W> {
    ready: bool,
    last_seen: Option<W>,
}

impl<W> TimerState<W> {
    /// Whether the timer's duration has elapsed.
    pub closed spec fn is_ready(&self) -> bool {
        self.ready
    }

    /// The notifier recorded by the most recent poll, until expiry hands it out.
    pub closed spec fn last_seen(&self) -> Option<W> {
        self.last_seen
    }

    /// A pending timer that no poll has seen yet.
    pub fn new() -> (s: Self)
        ensures
            !s.is_ready(),
            s.last_seen() is None,
    {
        TimerState { ready: false, last_seen: None }
    }

    /// One poll of the timer: records `notifier` as the one to invoke on
    /// expiry, replacing any earlier one, and reports the current state
    /// without waiting.
    pub fn poll(&mut self, notifier: W) -> (r: PollOutcome)
        ensures
            final(self).is_ready() == old(self).is_ready(),
            final(self).last_seen() == Some(notifier),
            r == (if old(self).is_ready() {
                PollOutcome::Ready
            } else {
                PollOutcome::Pending
            }),
    {
        self.last_seen = Some(notifier);
        if self.ready {
            PollOutcome::Ready
        } else {
            PollOutcome::Pending
        }
    }

    /// The duration has elapsed: the timer becomes ready, and the notifier
    /// that the last poll recorded, if any, is handed out to be invoked.
    pub fn expire(&mut self) -> (r: Option<W>)
        ensures
            final(self).is_ready(),
            r == old(self).last_seen(),
            final(self).last_seen() is None,
    {
        self.ready = true;
        self.last_seen.take()
    }

    /// Whether the timer's duration has elapsed.
    pub fn ready(&self) -> (r: bool)
        ensures
            r == self.is_ready(),
    {
        self.ready
    }
}

} // verus!
