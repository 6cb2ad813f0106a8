//! Settings of the reader-writer demo, and how the command line gives them.
use vstd::prelude::*;

use crate::rng::SmallRng;
use crate::text::{parse_natural, push_decimal, same_text};
use crate::timing::Seconds;

verus! {

/// Milliseconds between the starts of two threads.
pub const START_STAGGER_MS: u64 = 90;

/// Who goes first when readers and writers both wait.
#[derive(Clone, Copy, Debug, PartialEq, Eq, Structural)]
pub enum LockPolicy {
    ReaderPriority,
    WriterPriority,
    Fair,
}

/// Settings of a run.
#[derive(Clone, Copy, Debug, PartialEq, Eq, Structural)]
pub struct ReaderWriterConfig {
    pub reader_count: usize,
    pub writer_count: usize,
    pub policy: LockPolicy,
    pub starved: bool,
}

/// How long threads are busy by themselves, in tenths of a second, and how
/// long they use the store.
#[derive(Clone, Copy, Debug, PartialEq, Eq, Structural)]
pub struct TimingProfile {
    pub wait_min_tenths: u64,
    pub wait_range_tenths: u64,
    pub access: Seconds,
}

/// The policy a flag stands for: `r` and `w` name the two priorities, anything
/// else is fair.
pub open spec fn policy_of(flag: Seq<char>) -> LockPolicy {
    if flag == "r"@ {
        LockPolicy::ReaderPriority
    } else if flag == "w"@ {
        LockPolicy::WriterPriority
    } else {
        LockPolicy::Fair
    }
}

/// The name of a policy on the screen.
pub open spec fn policy_label(policy: LockPolicy) -> Seq<char> {
    match policy {
        LockPolicy::ReaderPriority => "Reader priority"@,
        LockPolicy::WriterPriority => "Writer priority"@,
        LockPolicy::Fair => "Fair priority"@,
    }
}

/// How many threads an argument asks for: its number brought between one and
/// nine, and six if it is none.
pub open spec fn threads_asked(args: Seq<String>, i: int) -> int {
    if i < args.len() {
        match crate::text::natural(args[i]@) {
            Some(n) if n <= usize::MAX => if n < 1 {
                1
            } else if n > 9 {
                9
            } else {
                n
            },
            _ => 6,
        }
    } else {
        6
    }
}

/// The policy the third argument asks for; fair if there is none.
pub open spec fn policy_asked(args: Seq<String>) -> LockPolicy {
    if args.len() > 2 {
        policy_of(args[2]@)
    } else {
        LockPolicy::Fair
    }
}

/// Whether the fourth argument asks for starvation: `s` does.
pub open spec fn starved_asked(args: Seq<String>) -> bool {
    args.len() > 3 && args[3]@ == "s"@
}

impl LockPolicy {
    /// The policy a flag stands for.
    pub fn from_flag(flag: &str) -> (policy: Self)
        ensures
            policy == policy_of(flag@),
            policy == LockPolicy::ReaderPriority <==> flag@ == seq!['r'],
            policy == LockPolicy::WriterPriority <==> flag@ == seq!['w'],
    {
        proof {
            reveal_strlit("r");
            reveal_strlit("w");
            assert("r"@ =~= seq!['r']);
            assert("w"@ =~= seq!['w']);
            assert("r"@[0] != "w"@[0]);
        }
        if same_text(flag, "r") {
            LockPolicy::ReaderPriority
        } else if same_text(flag, "w") {
            LockPolicy::WriterPriority
        } else {
            LockPolicy::Fair
        }
    }

    /// The name of the policy on the screen.
    pub fn label(self) -> (text: &'static str)
        ensures
            text@ == policy_label(self),
            self == LockPolicy::ReaderPriority ==> text@ == "Reader priority"@,
            self == LockPolicy::WriterPriority ==> text@ == "Writer priority"@,
            self == LockPolicy::Fair ==> text@ == "Fair priority"@,
    {
        match self {
            LockPolicy::ReaderPriority => "Reader priority",
            LockPolicy::WriterPriority => "Writer priority",
            LockPolicy::Fair => "Fair priority",
        }
    }
}

fn thread_count(args: &Vec<String>, i: usize) -> (n: usize)
    ensures
        n == threads_asked(args@, i as int),
        1 <= n <= 9,
{
    if i < args.len() {
        match parse_natural(args[i].as_str(), usize::MAX as u64) {
            Some(n) => {
                if n < 1 {
                    1
                } else if n > 9 {
                    9
                } else {
                    n as usize
                }
            },
            None => 6,
        }
    } else {
        6
    }
}

impl ReaderWriterConfig {
    /// The number of threads, or one if there are none.
    pub open spec fn shares(self) -> int {
        if self.reader_count + self.writer_count == 0 {
            1
        } else {
            self.reader_count + self.writer_count
        }
    }

    /// The settings that command-line arguments ask for.
    pub fn from_args(args: &Vec<String>) -> (config: Self)
        ensures
            config.reader_count == threads_asked(args@, 0),
            config.writer_count == threads_asked(args@, 1),
            config.policy == policy_asked(args@),
            config.starved == starved_asked(args@),
            1 <= config.reader_count <= 9,
            1 <= config.writer_count <= 9,
            forall|n: int|
                args@.len() > 0 && #[trigger] crate::text::natural(args@[0]@) == Some(n) && 1 <= n
                    <= 9 ==> config.reader_count == n,
            forall|n: int|
                args@.len() > 1 && #[trigger] crate::text::natural(args@[1]@) == Some(n) && 1 <= n
                    <= 9 ==> config.writer_count == n,
            args@.len() > 0 && crate::text::natural(args@[0]@) == Some(0int) ==> config.reader_count
                == 1,
            args@.len() > 1 && crate::text::natural(args@[1]@) == Some(0int) ==> config.writer_count
                == 1,
            args@.len() > 0 && crate::text::natural(args@[0]@) is Some && 9 < crate::text::natural(
                args@[0]@,
            )->0 <= usize::MAX ==> config.reader_count == 9,
            args@.len() > 1 && crate::text::natural(args@[1]@) is Some && 9 < crate::text::natural(
                args@[1]@,
            )->0 <= usize::MAX ==> config.writer_count == 9,
            args@.len() == 0 || crate::text::natural(args@[0]@) is None || crate::text::natural(
                args@[0]@,
            )->0 > usize::MAX ==> config.reader_count == 6,
            args@.len() <= 1 || crate::text::natural(args@[1]@) is None || crate::text::natural(
                args@[1]@,
            )->0 > usize::MAX ==> config.writer_count == 6,
            config.policy == LockPolicy::ReaderPriority <==> args@.len() > 2 && args@[2]@
                == seq!['r'],
            config.policy == LockPolicy::WriterPriority <==> args@.len() > 2 && args@[2]@
                == seq!['w'],
            config.starved <==> args@.len() > 3 && args@[3]@ == seq!['s'],
    {
        proof {
            reveal_strlit("s");
            assert("s"@ =~= seq!['s']);
        }
        let reader_count: usize = thread_count(args, 0);
        let writer_count: usize = thread_count(args, 1);
        let policy = if args.len() > 2 {
            LockPolicy::from_flag(args[2].as_str())
        } else {
            LockPolicy::Fair
        };
        let starved: bool = args.len() > 3 && same_text(args[3].as_str(), "s");
        ReaderWriterConfig { reader_count, writer_count, policy, starved }
    }

    /// The pace of the run. An access lasts an even share of a second; in a
    /// starved run threads are less busy by themselves, and under reader
    /// priority an access lasts twenty times as long.
    pub fn timing(&self) -> (t: TimingProfile)
        requires
            self.reader_count + self.writer_count <= usize::MAX,
        ensures
            t.valid(),
            t.access.denom == self.shares(),
            self.reader_count + self.writer_count > 0 ==> t.access.denom == self.reader_count
                + self.writer_count,
            self.reader_count + self.writer_count == 0 ==> t.access.denom == 1,
            t.access.numer == (if self.starved && self.policy == LockPolicy::ReaderPriority {
                20int
            } else {
                1
            }),
            t.wait_min_tenths == (if !self.starved {
                20int
            } else if self.policy == LockPolicy::ReaderPriority {
                0
            } else {
                2
            }),
            t.wait_range_tenths == (if !self.starved {
                50int
            } else if self.policy == LockPolicy::ReaderPriority {
                20
            } else {
                10
            }),
    {
        let total: usize = self.reader_count + self.writer_count;
        let shares: u64 = if total == 0 {
            1
        } else {
            total as u64
        };
        if self.starved {
            match self.policy {
                LockPolicy::ReaderPriority => TimingProfile {
                    wait_min_tenths: 0,
                    wait_range_tenths: 20,
                    access: Seconds { numer: 20, denom: shares },
                },
                LockPolicy::WriterPriority | LockPolicy::Fair => TimingProfile {
                    wait_min_tenths: 2,
                    wait_range_tenths: 10,
                    access: Seconds { numer: 1, denom: shares },
                },
            }
        } else {
            TimingProfile {
                wait_min_tenths: 20,
                wait_range_tenths: 50,
                access: Seconds { numer: 1, denom: shares },
            }
        }
    }

    /// How long a writer's thread sleeps before it starts.
    pub fn writer_delay_ms(id: usize) -> (ms: u64)
        requires
            id * START_STAGGER_MS <= u64::MAX,
        ensures
            ms == id * START_STAGGER_MS,
            ms == 90 * id,
    {
        id as u64 * START_STAGGER_MS
    }

    /// How long a reader's thread sleeps before it starts: readers follow the
    /// writers, one stagger later.
    pub fn reader_delay_ms(&self, id: usize) -> (ms: u64)
        requires
            (self.writer_count + id + 1) * START_STAGGER_MS <= u64::MAX,
        ensures
            ms == (self.writer_count + id + 1) * START_STAGGER_MS,
            ms == 90 * self.writer_count + 90 * id + 90,
    {
        self.writer_count as u64 * START_STAGGER_MS + (id as u64 + 1) * START_STAGGER_MS
    }

    /// The title of the window.
    pub fn title(&self) -> (text: String)
        ensures
            text@ == "Reader-Writer ("@ + policy_label(self.policy) + ", "@ + crate::text::decimal(
                self.reader_count as int,
            ) + " readers, "@ + crate::text::decimal(self.writer_count as int) + " writers)"@,
    {
        let mut s = String::new();
        s.append("Reader-Writer (");
        s.append(self.policy.label());
        s.append(", ");
        push_decimal(&mut s, self.reader_count as u64);
        s.append(" readers, ");
        push_decimal(&mut s, self.writer_count as u64);
        s.append(" writers)");
        assert(s@ =~= "Reader-Writer ("@ + policy_label(self.policy) + ", "@
            + crate::text::decimal(self.reader_count as int) + " readers, "@
            + crate::text::decimal(self.writer_count as int) + " writers)"@);
        s
    }

    /// The settings in words, as the control bar shows them.
    pub fn summary(&self) -> (text: String)
        ensures
            text@ == crate::text::decimal(self.reader_count as int) + " readers, "@
                + crate::text::decimal(self.writer_count as int) + " writers, "@ + policy_label(
                self.policy,
            ),
    {
        let mut s = String::new();
        push_decimal(&mut s, self.reader_count as u64);
        s.append(" readers, ");
        push_decimal(&mut s, self.writer_count as u64);
        s.append(" writers, ");
        s.append(self.policy.label());
        assert(s@ =~= crate::text::decimal(self.reader_count as int) + " readers, "@
            + crate::text::decimal(self.writer_count as int) + " writers, "@ + policy_label(
            self.policy,
        ));
        s
    }
}

impl TimingProfile {
    /// The span that waits are drawn from; one if it is given as none.
    pub open spec fn range(self) -> int {
        if self.wait_range_tenths == 0 {
            1
        } else {
            self.wait_range_tenths as int
        }
    }

    /// How long the next draw keeps a thread busy by itself.
    pub open spec fn wait_ms(self, rng: SmallRng) -> int {
        100 * (self.wait_min_tenths + crate::rng::next_state(rng.state) as int % self.range())
    }

    /// Waits are short enough to be counted in milliseconds.
    pub open spec fn valid(self) -> bool {
        100 * (self.wait_min_tenths + self.range()) <= u64::MAX && self.access.valid()
    }
}

/// How long a thread is busy by itself, by chance, in milliseconds.
pub fn random_wait_duration(rng: &mut SmallRng, timing: TimingProfile) -> (ms: u64)
    requires
        timing.valid(),
    ensures
        ms == timing.wait_ms(*old(rng)),
        *final(rng) == old(rng).drawn(),
        timing.wait_range_tenths > 0 ==> ms == 100 * (timing.wait_min_tenths + final(rng).state
            % timing.wait_range_tenths),
        timing.wait_range_tenths == 0 ==> ms == 100 * timing.wait_min_tenths,
{
    let range: u64 = if timing.wait_range_tenths > 1 {
        timing.wait_range_tenths
    } else {
        1
    };
    let tenths: u64 = timing.wait_min_tenths + rng.next_u64() % range;
    tenths * 100
}

/// The longer of an access and a hundredth of a second.
pub open spec fn access_time(timing: TimingProfile) -> Seconds {
    if timing.access.at_least(1, 100) {
        timing.access
    } else {
        Seconds { numer: 1, denom: 100 }
    }
}

/// How long an access to the store lasts: a hundredth of a second at least.
pub fn access_duration(timing: TimingProfile) -> (d: Seconds)
    ensures
        d == access_time(timing),
        d.at_least(1, 100),
        100 * d.numer >= d.denom,
        d == timing.access || (d.numer == 1 && d.denom == 100 && 100 * timing.access.numer
            < timing.access.denom),
{
    if timing.access.numer as u128 * 100 >= timing.access.denom as u128 {
        timing.access
    } else {
        Seconds { numer: 1, denom: 100 }
    }
}

} // verus!
