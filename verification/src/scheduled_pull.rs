//! The ticks that schedule the pulls from the mempool.

use vstd::prelude::*;

verus! {

/// The time between two pulls from the mempool, in milliseconds.
pub const PULL_INTERVAL_MS: u64 = 50;

/// A tick that becomes ready at a deadline and then yields a flag that says
/// whether it was scheduled as a backoff.
///
/// Times are milliseconds on a clock that only goes forward, read by whoever
/// polls. While the tick is pending it keeps the handle by which the latest
/// poller wants to be woken; a timer that is started with the tick takes the
/// handle out at the deadline and wakes its owner.
pub struct ScheduledPull<W> {
    pub deadline: u64,
    pub backoff: bool,
    pub waker: Option<W>,
}

impl<W> ScheduledPull<W> {
    /// A tick for `deadline`, with nobody to wake yet.
    pub fn new(deadline: u64, backoff: bool) -> (pull: Self)
        ensures
            pull.deadline == deadline,
            pull.backoff == backoff,
            pull.waker is None,
    {
        Self { deadline, backoff, waker: None }
    }

    /// The tick that follows a pull made at `now`: one interval later, and no
    /// backoff. The deadline is the end of time where the clock has less than
    /// an interval left.
    pub fn after(now: u64) -> (pull: Self)
        ensures
            pull.deadline == if now + PULL_INTERVAL_MS <= u64::MAX {
                (now + PULL_INTERVAL_MS) as u64
            } else {
                u64::MAX
            },
            !pull.backoff,
            pull.waker is None,
    {
        let deadline = if now <= u64::MAX - PULL_INTERVAL_MS {
            now + PULL_INTERVAL_MS
        } else {
            u64::MAX
        };
        Self { deadline, backoff: false, waker: None }
    }

    /// Whether a tick made at `now` needs a timer: it does unless its
    /// deadline has been reached already.
    pub fn needs_timer(&self, now: u64) -> (needed: bool)
        ensures
            needed == (now < self.deadline),
    {
        self.deadline > now
    }

    /// One poll at time `now` by a poller that `waker` wakes.
    ///
    /// Before the deadline the tick is pending, which `None` says, and keeps
    /// `waker` in place of the handle that it kept. From the deadline on it
    /// yields its flag and keeps what it kept.
    pub fn poll(&mut self, now: u64, waker: W) -> (ready: Option<bool>)
        ensures
            final(self).deadline == old(self).deadline,
            final(self).backoff == old(self).backoff,
            now < old(self).deadline ==> ready is None && final(self).waker == Some(waker),
            now >= old(self).deadline ==> ready == Some(old(self).backoff) && final(self).waker
                == old(self).waker,
    {
        if now < self.deadline {
            self.waker = Some(waker);
            None
        } else {
            Some(self.backoff)
        }
    }

    /// The timer's part at the deadline: takes out the handle of the poller
    /// to wake, if one is waiting, and leaves none behind.
    pub fn take_waker(&mut self) -> (waker: Option<W>)
        ensures
            waker == old(self).waker,
            final(self).waker is None,
            final(self).deadline == old(self).deadline,
            final(self).backoff == old(self).backoff,
    {
        self.waker.take()
    }
}

} // verus!
