//! Words, colours and places on the producer-consumer screen.
use vstd::prelude::*;

use crate::color::{Rgb, Tone};
use crate::layout::{in_column, Point};
use crate::producer_consumer::board::{ActorKind, ActorState, ActorVisual, QueueStats};
use crate::producer_consumer::config::CAPACITY;
use crate::text::push_decimal;

verus! {

/// Where the column of producers stands.
pub const PRODUCER_X: i64 = 150;

/// Where the column of consumers stands.
pub const CONSUMER_X: i64 = 830;

/// Where both columns start.
pub const ACTOR_START_Y: i64 = 110;

/// Pixels from one actor to the next.
pub const ACTOR_Y_STEP: i64 = 60;

/// Pixels of the fill bar for each item in the buffer.
pub const BAR_STEP: usize = 40;

/// The word for a kind of actor.
pub open spec fn kind_label(kind: ActorKind) -> Seq<char> {
    match kind {
        ActorKind::Producer => "Producer"@,
        ActorKind::Consumer => "Consumer"@,
    }
}

/// The word for an active actor.
pub open spec fn kind_active_label(kind: ActorKind) -> Seq<char> {
    match kind {
        ActorKind::Producer => "Producing"@,
        ActorKind::Consumer => "Consuming"@,
    }
}

impl ActorKind {
    /// The word for the kind.
    pub fn label(self) -> (text: &'static str)
        ensures
            text@ == kind_label(self),
    {
        match self {
            ActorKind::Producer => "Producer",
            ActorKind::Consumer => "Consumer",
        }
    }

    /// The word for an active actor of the kind.
    pub fn active_label(self) -> (text: &'static str)
        ensures
            text@ == kind_active_label(self),
    {
        match self {
            ActorKind::Producer => "Producing",
            ActorKind::Consumer => "Consuming",
        }
    }
}

impl ActorState {
    /// The words for the state of an actor of a kind.
    pub fn label(self, kind: ActorKind) -> (text: &'static str)
        ensures
            text@ == (match self {
                ActorState::ActiveColor => kind_active_label(kind),
                ActorState::Waiting => "Waiting for lock"@,
                ActorState::HoldingLock => "Holding lock"@,
                ActorState::Stopped => "Stopped"@,
            }),
            self == ActorState::ActiveColor && kind == ActorKind::Producer ==> text@
                == "Producing"@,
            self == ActorState::ActiveColor && kind == ActorKind::Consumer ==> text@
                == "Consuming"@,
    {
        match self {
            ActorState::ActiveColor => kind.active_label(),
            ActorState::Waiting => "Waiting for lock",
            ActorState::HoldingLock => "Holding lock",
            ActorState::Stopped => "Stopped",
        }
    }

    /// The colour of the words for the state.
    pub fn text_color(self) -> (c: Rgb)
        ensures
            c == (match self {
                ActorState::Waiting => Tone::Waiting.color(),
                ActorState::HoldingLock => Tone::Active.color(),
                _ => Rgb { r: 75, g: 85, b: 99 },
            }),
            self == ActorState::Waiting ==> c == (Rgb { r: 234, g: 88, b: 12 }),
            self == ActorState::HoldingLock ==> c == (Rgb { r: 37, g: 99, b: 235 }),
    {
        match self {
            ActorState::Waiting => Tone::Waiting.rgb(),
            ActorState::HoldingLock => Tone::Active.rgb(),
            _ => Rgb { r: 75, g: 85, b: 99 },
        }
    }
}

impl ActorVisual {
    /// The colours of the actor and of its outline.
    pub fn colors(&self) -> (c: (Rgb, Rgb))
        ensures
            c == (match self.state {
                ActorState::ActiveColor => (self.color, self.color),
                ActorState::Waiting => (Tone::Waiting.color(), Tone::Waiting.color()),
                ActorState::HoldingLock => (Tone::Active.color(), Tone::Active.color()),
                ActorState::Stopped => (
                    Rgb { r: 60, g: 60, b: 75 },
                    Rgb { r: 222, g: 226, b: 230 },
                ),
            }),
    {
        match self.state {
            ActorState::ActiveColor => (self.color, self.color),
            ActorState::Waiting => (Tone::Waiting.rgb(), Tone::Waiting.rgb()),
            ActorState::HoldingLock => (Tone::Active.rgb(), Tone::Active.rgb()),
            ActorState::Stopped => (Rgb { r: 60, g: 60, b: 75 }, Rgb { r: 222, g: 226, b: 230 }),
        }
    }

    /// The name of the actor, numbered from one.
    pub fn name(&self) -> (text: String)
        requires
            self.id < usize::MAX,
        ensures
            text@ == kind_label(self.kind) + " "@ + crate::text::decimal(self.id + 1),
            self.kind == ActorKind::Producer ==> text@ == "Producer"@ + " "@
                + crate::text::decimal(self.id + 1),
            self.kind == ActorKind::Consumer ==> text@ == "Consumer"@ + " "@
                + crate::text::decimal(self.id + 1),
    {
        let mut s = String::new();
        s.append(self.kind.label());
        s.append(" ");
        push_decimal(&mut s, self.id as u64 + 1);
        assert(s@ =~= kind_label(self.kind) + " "@ + crate::text::decimal(self.id + 1));
        s
    }

    /// How far right of the actor its name is written: producers have it on
    /// their left.
    pub fn name_offset(&self) -> (dx: i64)
        ensures
            dx == (if self.kind == ActorKind::Producer {
                -46int
            } else {
                50
            }),
    {
        match self.kind {
            ActorKind::Producer => -46,
            ActorKind::Consumer => 50,
        }
    }

    /// The place of the actor.
    pub fn center(&self) -> (p: Point)
        requires
            crate::layout::fits_column(self.id as int),
        ensures
            p == (if self.kind == ActorKind::Producer {
                producer_place(self.id as int)
            } else {
                consumer_place(self.id as int)
            }),
            self.kind == ActorKind::Producer ==> p.x == 150,
            self.kind == ActorKind::Consumer ==> p.x == 830,
            p.y == 110 + 60 * self.id,
    {
        match self.kind {
            ActorKind::Producer => producer_center(self.id),
            ActorKind::Consumer => consumer_center(self.id),
        }
    }
}

/// The place of a producer.
pub open spec fn producer_place(id: int) -> Point {
    crate::layout::column_place(150, 110, 60, id)
}

/// The place of a consumer.
pub open spec fn consumer_place(id: int) -> Point {
    crate::layout::column_place(830, 110, 60, id)
}

/// The place of a producer.
pub fn producer_center(id: usize) -> (p: Point)
    requires
        crate::layout::fits_column(id as int),
    ensures
        p == producer_place(id as int),
        p.x == 150,
        p.y == 110 + 60 * id,
{
    in_column(PRODUCER_X, ACTOR_START_Y, ACTOR_Y_STEP, id)
}

/// Where a producer's items appear: right of it.
pub fn producer_item_origin(id: usize) -> (p: Point)
    requires
        crate::layout::fits_column(id as int),
    ensures
        p.x == producer_place(id as int).x + 52,
        p.y == producer_place(id as int).y,
        p.x == 202,
        p.y == 110 + 60 * id,
{
    let center: Point = producer_center(id);
    Point { x: center.x + 52, y: center.y }
}

/// The place of a consumer.
pub fn consumer_center(id: usize) -> (p: Point)
    requires
        crate::layout::fits_column(id as int),
    ensures
        p == consumer_place(id as int),
        p.x == 830,
        p.y == 110 + 60 * id,
{
    in_column(CONSUMER_X, ACTOR_START_Y, ACTOR_Y_STEP, id)
}

/// Where a consumer's items disappear: left of it.
pub fn consumer_item_target(id: usize) -> (p: Point)
    requires
        crate::layout::fits_column(id as int),
    ensures
        p.x == consumer_place(id as int).x - 54,
        p.y == consumer_place(id as int).y,
        p.x == 776,
        p.y == 110 + 60 * id,
{
    let center: Point = consumer_center(id);
    Point { x: center.x - 54, y: center.y }
}

/// The colour of the producer or consumer with a number; eight colours take
/// turns.
pub open spec fn palette_color(id: int) -> Rgb {
    let k = id % 8;
    if k == 0 {
        Rgb { r: 205, g: 62, b: 59 }
    } else if k == 1 {
        Rgb { r: 214, g: 117, b: 51 }
    } else if k == 2 {
        Rgb { r: 206, g: 166, b: 54 }
    } else if k == 3 {
        Rgb { r: 96, g: 166, b: 77 }
    } else if k == 4 {
        Rgb { r: 53, g: 144, b: 202 }
    } else if k == 5 {
        Rgb { r: 104, g: 96, b: 197 }
    } else if k == 6 {
        Rgb { r: 188, g: 83, b: 145 }
    } else {
        Rgb { r: 47, g: 170, b: 161 }
    }
}

/// The colours of actors and their items.
pub struct Colors;

impl Colors {
    /// The colour of a producer.
    pub fn producer_palette(id: usize) -> (c: Rgb)
        ensures
            c == palette_color(id as int),
            65536 * c.r + 256 * c.g + c.b == seq![
                0xcd3e3bint,
                0xd67533int,
                0xcea636int,
                0x60a64dint,
                0x3590caint,
                0x6860c5int,
                0xbc5391int,
                0x2faaa1int,
            ][id as int % 8],
    {
        match id % 8 {
            0 => Rgb { r: 205, g: 62, b: 59 },
            1 => Rgb { r: 214, g: 117, b: 51 },
            2 => Rgb { r: 206, g: 166, b: 54 },
            3 => Rgb { r: 96, g: 166, b: 77 },
            4 => Rgb { r: 53, g: 144, b: 202 },
            5 => Rgb { r: 104, g: 96, b: 197 },
            6 => Rgb { r: 188, g: 83, b: 145 },
            _ => Rgb { r: 47, g: 170, b: 161 },
        }
    }

    /// The colour of a consumer.
    pub fn consumer_palette(id: usize) -> (c: Rgb)
        ensures
            c == palette_color(id as int),
    {
        Self::producer_palette(id)
    }
}

impl QueueStats {
    /// The line below the buffer.
    pub fn line(&self) -> (text: String)
        ensures
            text@ == "Queue: "@ + crate::text::decimal(self.count as int)
                + "   Waiting producers: "@ + crate::text::decimal(self.waiting_producers as int)
                + "   Waiting consumers: "@ + crate::text::decimal(self.waiting_consumers as int),
    {
        let mut s = String::new();
        s.append("Queue: ");
        push_decimal(&mut s, self.count as u64);
        s.append("   Waiting producers: ");
        push_decimal(&mut s, self.waiting_producers as u64);
        s.append("   Waiting consumers: ");
        push_decimal(&mut s, self.waiting_consumers as u64);
        assert(s@ =~= "Queue: "@ + crate::text::decimal(self.count as int)
            + "   Waiting producers: "@ + crate::text::decimal(self.waiting_producers as int)
            + "   Waiting consumers: "@ + crate::text::decimal(self.waiting_consumers as int));
        s
    }

    /// The caption of the fill bar.
    pub fn fill_caption(&self) -> (text: String)
        ensures
            text@ == "Buffer fill: "@ + crate::text::decimal(self.count as int) + "/"@
                + crate::text::decimal(CAPACITY as int),
            text@ == "Buffer fill: "@ + crate::text::decimal(self.count as int) + "/"@
                + crate::text::decimal(8),
    {
        let mut s = String::new();
        s.append("Buffer fill: ");
        push_decimal(&mut s, self.count as u64);
        s.append("/");
        push_decimal(&mut s, CAPACITY as u64);
        assert(s@ =~= "Buffer fill: "@ + crate::text::decimal(self.count as int) + "/"@
            + crate::text::decimal(CAPACITY as int));
        s
    }

    /// The length and colour of the fill bar. An empty buffer has none, and one
    /// filled by more than 85 percent is shown as a warning.
    pub fn fill_bar(&self) -> (bar: Option<(usize, Rgb)>)
        requires
            self.count * BAR_STEP <= usize::MAX,
        ensures
            bar is Some <==> self.count > 0,
            bar matches Some((length, color)) ==> {
                &&& length == self.count * BAR_STEP
                &&& length == 40 * self.count
                &&& self.count <= 6 ==> color == (Rgb { r: 37, g: 99, b: 235 })
                &&& self.count >= 7 ==> color == (Rgb { r: 234, g: 88, b: 12 })
                &&& color == (if 100 * self.count > 85 * CAPACITY {
                    Tone::Waiting.color()
                } else {
                    Tone::Active.color()
                })
            },
    {
        if self.count == 0 {
            return None;
        }
        let color: Rgb = if 100 * self.count as u128 > 85 * CAPACITY as u128 {
            Tone::Waiting.rgb()
        } else {
            Tone::Active.rgb()
        };
        Some((self.count * BAR_STEP, color))
    }
}

/// The number on a slot, counted from one.
pub fn slot_label(slot: usize) -> (text: String)
    requires
        slot < usize::MAX,
    ensures
        text@ == crate::text::decimal(slot + 1),
{
    let mut s = String::new();
    push_decimal(&mut s, slot as u64 + 1);
    assert(s@ =~= crate::text::decimal(slot + 1));
    s
}

} // verus!
