//! Lengths of time that the demos wait.
use vstd::prelude::*;

verus! {

/// Milliseconds between two repaints: thirty frames a second.
pub const REPAINT_MS: u64 = 33;

/// A length of time as a fraction of seconds.
#[derive(Clone, Copy, Debug, PartialEq, Eq, Structural)]
pub struct Seconds {
    pub numer: u64,
    pub denom: u64,
}

impl Seconds {
    /// The fraction is one.
    pub open spec fn valid(self) -> bool {
        self.denom > 0
    }

    /// The length is no shorter than `numer / denom` seconds.
    pub open spec fn at_least(self, numer: int, denom: int) -> bool {
        self.numer * denom >= numer * self.denom
    }
}

/// Thirty frames take a second, but for what whole milliseconds cannot say.
pub proof fn law_thirty_frames_a_second(frames: int)
    requires
        0 <= frames <= 30,
    ensures
        frames * REPAINT_MS <= 1000,
        30 * REPAINT_MS + 30 > 1000,
{
    assert(frames * 33 <= 1000) by (nonlinear_arith)
        requires
            0 <= frames <= 30,
    ;
}

/// How long to sleep in one go when `duration` is to pass, `elapsed` has
/// passed, and no sleep may be longer than `chunk`: what is left, cut to size.
pub fn next_nap(duration: u64, elapsed: u64, chunk: u64) -> (nap: u64)
    ensures
        elapsed >= duration ==> nap == 0,
        elapsed < duration ==> nap == crate::text::min_of(duration - elapsed, chunk as int),
        nap <= chunk,
        elapsed + nap >= duration || nap == chunk,
        elapsed <= duration ==> elapsed + nap <= duration,
{
    let remaining: u64 = duration.saturating_sub(elapsed);
    if remaining <= chunk {
        remaining
    } else {
        chunk
    }
}

} // verus!
