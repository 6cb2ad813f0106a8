//! A small xorshift generator.
use vstd::prelude::*;

verus! {

/// A generator of pseudo-random numbers.
#[derive(Clone, Copy, Debug, PartialEq, Eq, Structural)]
pub struct SmallRng {
    pub state: u64,
}

/// The state that follows a state: three shifts, each combined with what it
/// was taken from.
pub open spec fn next_state(s: u64) -> u64 {
    let a = s ^ (s << 13u64);
    let b = a ^ (a >> 7u64);
    b ^ (b << 17u64)
}

impl SmallRng {
    /// The generator will not get stuck at zero.
    pub open spec fn live(self) -> bool {
        self.state != 0
    }

    /// The generator one draw further.
    pub open spec fn drawn(self) -> SmallRng {
        SmallRng { state: next_state(self.state) }
    }

    /// The number below `upper` that the next draw gives.
    pub open spec fn pick(self, upper: usize) -> int {
        if upper <= 1 {
            0
        } else {
            (next_state(self.state) as usize) as int % upper as int
        }
    }

    /// The generator after it was asked for a number below `upper`.
    pub open spec fn picked(self, upper: usize) -> SmallRng {
        if upper <= 1 {
            self
        } else {
            self.drawn()
        }
    }

    /// A generator started from a seed, made odd so that it is not zero.
    pub fn seeded(seed: u64) -> (rng: Self)
        ensures
            rng.state == seed | 1,
            rng.live(),
    {
        assert(seed | 1 != 0) by (bit_vector);
        SmallRng { state: seed | 1 }
    }

    /// Draws a number.
    pub fn next_u64(&mut self) -> (n: u64)
        ensures
            n == next_state(old(self).state),
            *final(self) == old(self).drawn(),
            final(self).state == n,
    {
        self.state = self.state ^ (self.state << 13);
        self.state = self.state ^ (self.state >> 7);
        self.state = self.state ^ (self.state << 17);
        self.state
    }

    /// Draws a number below `upper`. Where there is no choice nothing is drawn.
    pub fn next_usize(&mut self, upper: usize) -> (n: usize)
        ensures
            n == old(self).pick(upper),
            *final(self) == old(self).picked(upper),
            upper > 0 ==> n < upper,
            upper <= 1 ==> n == 0 && *final(self) == *old(self),
            upper > 1 ==> final(self).state == next_state(old(self).state) && n
                == final(self).state as usize % upper,
    {
        if upper <= 1 {
            0
        } else {
            (self.next_u64() as usize) % upper
        }
    }
}

/// A draw adds to the state, without carries, its product with two to the
/// thirteenth, then a hundred-and-twenty-eighth part of that, then the product
/// with two to the seventeenth, what does not fit into the state being lost.
pub proof fn law_a_draw_shifts_three_times(s: u64, a: u64, b: u64)
    requires
        a ^ s == (s * 8192) % 0x1_0000_0000_0000_0000,
        b ^ a == a / 128,
    ensures
        next_state(s) ^ b == (b * 131072) % 0x1_0000_0000_0000_0000,
{
    assert((s << 13u64) == (s * 8192) % 0x1_0000_0000_0000_0000) by (bit_vector);
    assert((a >> 7u64) == a / 128) by (bit_vector);
    assert((b << 17u64) == (b * 131072) % 0x1_0000_0000_0000_0000) by (bit_vector);
    assert(a ^ s == s << 13u64 ==> a == s ^ (s << 13u64)) by (bit_vector);
    assert(b ^ a == a >> 7u64 ==> b == a ^ (a >> 7u64)) by (bit_vector);
    assert((b ^ (b << 17u64)) ^ b == b << 17u64) by (bit_vector);
}

/// Drawing keeps sums without carries: the state that follows the sum of two
/// states is the sum of those that follow them.
pub proof fn law_draws_are_linear(s: u64, t: u64)
    ensures
        next_state(s ^ t) == next_state(s) ^ next_state(t),
{
    assert(next_state(s ^ t) == next_state(s) ^ next_state(t)) by (bit_vector);
}

/// A number below some limit is what is left of the next draw when as many
/// whole limits as possible are taken away.
pub proof fn law_picks_are_remainders(rng: SmallRng, upper: usize, times: int, rest: int)
    requires
        upper > 1,
        next_state(rng.state) as usize == times * upper + rest,
        0 <= rest < upper,
    ensures
        rng.pick(upper) == rest,
        rng.picked(upper).state == next_state(rng.state),
{
    vstd::arithmetic::div_mod::lemma_fundamental_div_mod_converse(
        (next_state(rng.state) as usize) as int,
        upper as int,
        times,
        rest,
    );
}

/// A draw loses nothing: different states are followed by different states.
pub proof fn law_draws_are_distinct(s: u64, t: u64)
    requires
        next_state(s) == next_state(t),
    ensures
        s == t,
{
    let a = s ^ (s << 13u64);
    let b = a ^ (a >> 7u64);
    let c = t ^ (t << 13u64);
    let d = c ^ (c >> 7u64);
    assert(b ^ (b << 17u64) == d ^ (d << 17u64) ==> b == d) by (bit_vector);
    assert(a ^ (a >> 7u64) == c ^ (c >> 7u64) ==> a == c) by (bit_vector);
    assert(s ^ (s << 13u64) == t ^ (t << 13u64) ==> s == t) by (bit_vector);
}

/// A generator that is live stays so, however often it is drawn from.
pub proof fn law_stays_live(rng: SmallRng)
    requires
        rng.live(),
    ensures
        rng.drawn().live(),
{
    if next_state(rng.state) == 0 {
        assert(next_state(0) == 0) by (bit_vector);
        law_draws_are_distinct(rng.state, 0);
    }
}

} // verus!
