//! The liveness deadline of one connection.

use vstd::prelude::*;

verus! {

/// Tracks when a connection is to be given up for dead.
///
/// Instants and the interval are counted in one unit on one monotonic clock
/// of the caller's choice. The deadline lies one interval after the last
/// reset.
#[derive(Clone, Copy, Debug, PartialEq, Eq)]
pub struct Keepalive {
    pub interval: u64,
    pub since: u64,
}

impl Keepalive {
    /// The instant at which the connection counts as dead.
    pub open spec fn deadline(self) -> int {
        self.since + self.interval
    }

    /// The time that has passed at `now` since the last reset; zero for an
    /// instant before it.
    pub open spec fn elapsed_at(self, now: u64) -> u64 {
        if now >= self.since {
            (now - self.since) as u64
        } else {
            0
        }
    }

    /// Whether the deadline has come at `now`.
    pub open spec fn expired_at(self, now: u64) -> bool {
        now >= self.deadline()
    }

    /// The time left at `now` until the deadline: zero once it has come,
    /// and never more than a full interval.
    pub open spec fn remaining_at(self, now: u64) -> u64 {
        if self.expired_at(now) {
            0
        } else {
            (self.interval - self.elapsed_at(now)) as u64
        }
    }

    /// The tracker as it is after a reset at `now`.
    pub open spec fn reset_at(self, now: u64) -> Keepalive {
        Keepalive { interval: self.interval, since: now }
    }

    /// A tracker that starts counting at `now`.
    pub fn new(interval: u64, now: u64) -> (keepalive: Keepalive)
        ensures
            keepalive == (Keepalive { interval, since: now }),
    {
        Keepalive { interval, since: now }
    }

    /// Moves the deadline to a full interval after `now`.
    pub fn reset(&mut self, now: u64)
        ensures
            *final(self) == old(self).reset_at(now),
    {
        self.since = now;
    }

    /// The time that has passed at `now` since the last reset.
    pub fn elapsed(&self, now: u64) -> (elapsed: u64)
        ensures
            elapsed == self.elapsed_at(now),
    {
        if now >= self.since {
            now - self.since
        } else {
            0
        }
    }

    /// Whether the deadline has come at `now`.
    pub fn expired(&self, now: u64) -> (expired: bool)
        ensures
            expired == self.expired_at(now),
    {
        now >= self.since && now - self.since >= self.interval
    }

    /// The time left at `now` until the deadline.
    pub fn remaining(&self, now: u64) -> (remaining: u64)
        ensures
            remaining == self.remaining_at(now),
    {
        if self.expired(now) {
            0
        } else {
            self.interval - self.elapsed(now)
        }
    }

    /// On a clock that does not run backwards, the time left is the distance
    /// to the deadline, and a full interval has passed exactly when the
    /// deadline has come.
    pub proof fn lemma_remaining_is_the_distance(self, now: u64)
        requires
            now >= self.since,
        ensures
            self.expired_at(now) <==> self.elapsed_at(now) >= self.interval,
            !self.expired_at(now) ==> self.remaining_at(now) == self.deadline() - now,
            self.expired_at(now) ==> self.remaining_at(now) == 0,
    {
    }

    /// A reset at `now` puts the deadline a full interval after `now`,
    /// whatever it was before.
    pub proof fn lemma_reset_gives_full_interval(self, now: u64)
        ensures
            self.reset_at(now).deadline() == now + self.interval,
            self.reset_at(now).interval == self.interval,
            self.reset_at(now).elapsed_at(now) == 0,
            self.interval > 0 ==> self.reset_at(now).remaining_at(now) == self.interval,
            self.interval > 0 ==> !self.reset_at(now).expired_at(now),
    {
    }
}

} // verus!
