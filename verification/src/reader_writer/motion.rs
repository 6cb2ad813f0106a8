//! Motion of threads across the screen.
//!
//! Times are in nanoseconds. Where a moving thread is seen is for the painter
//! to compute; here it is kept as the bits of two single-precision numbers.
use vstd::prelude::*;

use crate::layout::Point;

verus! {

/// The shortest time a motion takes: a millisecond.
pub const SHORTEST: u64 = 1_000_000;

/// A thread as it is seen: when, and at which place, given by the bits of its
/// two coordinates.
#[derive(Clone, Copy, Debug, PartialEq, Eq, Structural)]
pub struct Sighting {
    pub at: u64,
    pub x: u32,
    pub y: u32,
}

/// Where a motion starts.
#[derive(Clone, Copy, Debug, PartialEq, Eq, Structural)]
pub enum Origin {
    /// At a fixed place.
    Landmark(Point),
    /// Where the thread was seen, by the bits of its coordinates.
    Seen(u32, u32),
}

/// A straight motion to a fixed place.
#[derive(Clone, Copy, Debug, PartialEq, Eq, Structural)]
pub struct Motion {
    pub from: Origin,
    pub to: Point,
    pub started_at: u64,
    pub duration: u64,
}

/// How far a motion has got: so much of its time.
#[derive(Clone, Copy, Debug, PartialEq, Eq, Structural)]
pub struct Progress {
    pub elapsed: u64,
    pub whole: u64,
}

impl Motion {
    /// The time that the motion takes, a millisecond at the least.
    pub open spec fn whole(self) -> int {
        if self.duration < SHORTEST {
            SHORTEST as int
        } else {
            self.duration as int
        }
    }

    /// How much of that time has passed.
    pub open spec fn elapsed(self, now: u64) -> int {
        if now <= self.started_at {
            0
        } else if now - self.started_at >= self.whole() {
            self.whole()
        } else {
            now - self.started_at
        }
    }

    /// Staying at a place.
    pub fn stationary(at: Point, now: u64) -> (m: Self)
        ensures
            m == (Motion {
                from: Origin::Landmark(at),
                to: at,
                started_at: now,
                duration: 1_000_000,
            }),
    {
        Motion { from: Origin::Landmark(at), to: at, started_at: now, duration: SHORTEST }
    }

    /// Leaving from where a thread is seen.
    pub fn departure(seen: Sighting, to: Point, duration: u64) -> (m: Self)
        ensures
            m == departing(seen, to, duration),
            m.from == Origin::Seen(seen.x, seen.y),
            m.to == to,
            m.started_at == seen.at,
            m.duration == duration,
    {
        Motion { from: Origin::Seen(seen.x, seen.y), to, started_at: seen.at, duration }
    }

    /// How far the motion has got at a time: nowhere before it starts, and all
    /// the way once its time has passed.
    pub fn progress(&self, now: u64) -> (p: Progress)
        ensures
            p.elapsed == self.elapsed(now),
            p.whole == self.whole(),
            p.elapsed <= p.whole,
            p.whole > 0,
            p.whole >= self.duration,
            p.whole >= 1_000_000,
            p.whole == self.duration || p.whole == 1_000_000,
            now <= self.started_at ==> p.elapsed == 0,
            now > self.started_at ==> p.elapsed == now - self.started_at || (p.elapsed == p.whole
                && p.whole < now - self.started_at),
    {
        let whole: u64 = if self.duration < SHORTEST {
            SHORTEST
        } else {
            self.duration
        };
        let elapsed: u64 = now.saturating_sub(self.started_at);
        if elapsed >= whole {
            Progress { elapsed: whole, whole }
        } else {
            Progress { elapsed, whole }
        }
    }
}

/// The motion of a thread that leaves from where it is seen.
pub open spec fn departing(seen: Sighting, to: Point, duration: u64) -> Motion {
    Motion { from: Origin::Seen(seen.x, seen.y), to, started_at: seen.at, duration }
}

/// A motion takes the time it was given, and a millisecond if that is longer;
/// between its start and its end as much of it has passed as of the time.
pub proof fn law_motions_take_their_time(m: Motion, now: u64)
    ensures
        m.whole() >= m.duration,
        m.whole() >= 1_000_000,
        m.whole() == m.duration || m.whole() == 1_000_000,
        0 <= now - m.started_at <= m.whole() ==> m.elapsed(now) == now - m.started_at,
{
}

/// A motion never goes back, has not begun when it starts, and is over once
/// its time has passed.
pub proof fn law_motions_go_forward(m: Motion, now: u64, later: u64)
    requires
        now <= later,
    ensures
        m.elapsed(now) <= m.elapsed(later),
        now <= m.started_at ==> m.elapsed(now) == 0,
        now - m.started_at >= m.whole() ==> m.elapsed(now) == m.whole(),
{
}

} // verus!
