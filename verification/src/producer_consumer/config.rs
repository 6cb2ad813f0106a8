//! Settings of the producer-consumer demo, and how the command line gives them.
use vstd::prelude::*;

use crate::text::{parse_count, push_decimal, CountText};

verus! {

/// Slots in the buffer.
pub const CAPACITY: usize = 8;

/// The most actors on either side.
pub const MAX_ACTORS: usize = 8;

/// Milliseconds between the starts of two actors.
pub const START_STAGGER_MS: u64 = 110;

/// Settings of a run.
#[derive(Clone, Copy, Debug, PartialEq, Eq, Structural)]
pub struct ProducerConsumerConfig {
    pub producer_count: usize,
    pub consumer_count: usize,
}

/// What the arguments say about the producers; no number counts as a bad one.
pub open spec fn producers_asked(args: Seq<String>) -> CountText {
    match crate::text::count_text(args[0]@, 8) {
        CountText::NotANumber => CountText::OutOfRange,
        asked => asked,
    }
}

/// What the arguments say about the consumers: five unless they give a number.
pub open spec fn consumers_asked(args: Seq<String>) -> CountText {
    if args.len() > 1 {
        match crate::text::count_text(args[1]@, 8) {
            CountText::NotANumber => CountText::Count(5),
            asked => asked,
        }
    } else {
        CountText::Count(5)
    }
}

/// The settings that arguments ask for. Without any there are five actors on
/// either side; if either number is below one or above eight, there are eight
/// on both.
pub open spec fn config_asked(args: Seq<String>) -> ProducerConsumerConfig {
    if args.len() == 0 {
        ProducerConsumerConfig { producer_count: 5, consumer_count: 5 }
    } else {
        match (producers_asked(args), consumers_asked(args)) {
            (CountText::Count(p), CountText::Count(c)) => ProducerConsumerConfig {
                producer_count: p,
                consumer_count: c,
            },
            _ => ProducerConsumerConfig { producer_count: 8, consumer_count: 8 },
        }
    }
}

impl ProducerConsumerConfig {
    /// Between one and eight actors on either side.
    pub open spec fn valid(self) -> bool {
        1 <= self.producer_count <= 8 && 1 <= self.consumer_count <= 8
    }

    /// The settings that command-line arguments ask for.
    pub fn from_args(args: &Vec<String>) -> (config: Self)
        ensures
            config == config_asked(args@),
            config.valid(),
            args@.len() == 0 ==> config.producer_count == 5 && config.consumer_count == 5,
            args@.len() > 0 ==> {
                let p = crate::text::integer(args@[0]@);
                let c = if args@.len() > 1 {
                    crate::text::integer(args@[1]@)
                } else {
                    None
                };
                if p is Some && 1 <= p->0 <= 8 && (c is Some ==> 1 <= c->0 <= 8) {
                    &&& config.producer_count == p->0
                    &&& c is Some ==> config.consumer_count == c->0
                    &&& c is None ==> config.consumer_count == 5
                } else {
                    config.producer_count == 8 && config.consumer_count == 8
                }
            },
    {
        if args.len() == 0 {
            return ProducerConsumerConfig { producer_count: 5, consumer_count: 5 };
        }
        let producers = parse_count(args[0].as_str(), 8);
        let consumers = if args.len() > 1 {
            match parse_count(args[1].as_str(), 8) {
                CountText::NotANumber => CountText::Count(5),
                asked => asked,
            }
        } else {
            CountText::Count(5)
        };
        match producers {
            CountText::Count(producer_count) => match consumers {
                CountText::Count(consumer_count) => {
                    ProducerConsumerConfig { producer_count, consumer_count }
                },
                _ => ProducerConsumerConfig {
                    producer_count: MAX_ACTORS,
                    consumer_count: MAX_ACTORS,
                },
            },
            _ => ProducerConsumerConfig { producer_count: MAX_ACTORS, consumer_count: MAX_ACTORS },
        }
    }

    /// How long a producer's thread sleeps before it starts.
    pub fn producer_delay_ms(id: usize) -> (ms: u64)
        requires
            id * START_STAGGER_MS <= u64::MAX,
        ensures
            ms == id * START_STAGGER_MS,
            ms == 110 * id,
    {
        id as u64 * START_STAGGER_MS
    }

    /// How long a consumer's thread sleeps before it starts: consumers follow
    /// the producers, one stagger later.
    pub fn consumer_delay_ms(&self, id: usize) -> (ms: u64)
        requires
            (self.producer_count + id + 1) * START_STAGGER_MS <= u64::MAX,
        ensures
            ms == (self.producer_count + id + 1) * START_STAGGER_MS,
            ms == 110 * self.producer_count + 110 * id + 110,
    {
        self.producer_count as u64 * START_STAGGER_MS + (id as u64 + 1) * START_STAGGER_MS
    }

    /// The title of the window.
    pub fn title(&self) -> (text: String)
        ensures
            text@ == "Producer-Consumer ("@ + crate::text::decimal(self.producer_count as int)
                + " producers, "@ + crate::text::decimal(self.consumer_count as int)
                + " consumers)"@,
    {
        let mut s = String::new();
        s.append("Producer-Consumer (");
        push_decimal(&mut s, self.producer_count as u64);
        s.append(" producers, ");
        push_decimal(&mut s, self.consumer_count as u64);
        s.append(" consumers)");
        assert(s@ =~= "Producer-Consumer ("@ + crate::text::decimal(self.producer_count as int)
            + " producers, "@ + crate::text::decimal(self.consumer_count as int) + " consumers)"@);
        s
    }

    /// The settings in words, as the control bar shows them.
    pub fn summary(&self) -> (text: String)
        ensures
            text@ == crate::text::decimal(self.producer_count as int)
                + " producers  \u{00b7}  "@ + crate::text::decimal(self.consumer_count as int)
                + " consumers"@,
    {
        let mut s = String::new();
        push_decimal(&mut s, self.producer_count as u64);
        s.append(" producers  \u{00b7}  ");
        push_decimal(&mut s, self.consumer_count as u64);
        s.append(" consumers");
        assert(s@ =~= crate::text::decimal(self.producer_count as int)
            + " producers  \u{00b7}  "@ + crate::text::decimal(self.consumer_count as int)
            + " consumers"@);
        s
    }
}

} // verus!
