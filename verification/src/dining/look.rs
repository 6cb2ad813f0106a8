//! What the screen shows of the table.
use vstd::prelude::*;

use crate::color::{Rgb, Tone};
use crate::dining::table::{AppState, PhilState, Table};
use crate::text::push_decimal;

verus! {

/// Meals stand in stacks of this many.
pub const MEALS_PER_STACK: usize = 10;

/// The radius of the circle the philosophers sit on; it takes as many stacks of
/// meals side by side.
pub const TABLE_RADIUS: usize = 250;

/// Where a fork is drawn.
#[derive(Clone, Copy, Debug, PartialEq, Eq, Structural)]
pub enum ForkSpot {
    /// Pulled toward the philosopher whose left fork it is.
    LeftHand,
    /// Pulled toward the philosopher whose right fork it is.
    RightHand,
    /// On the table, between the two.
    OnTable,
}

/// The colour of a philosopher.
pub open spec fn phil_tint(state: PhilState) -> Rgb {
    match state {
        PhilState::HasNone => Tone::Waiting.color(),
        PhilState::HasRight => Rgb { r: 235, g: 155, b: 45 },
        PhilState::HasLeft => Rgb { r: 150, g: 80, b: 200 },
        PhilState::HasBoth => Tone::Success.color(),
        PhilState::IsFull | PhilState::Thinking => Tone::Idle.color(),
    }
}

/// The colour of a philosopher: waiting while it holds nothing, a colour of
/// its own for either hand, success while it eats, idle otherwise.
pub fn phil_color(state: PhilState) -> (c: Rgb)
    ensures
        c == phil_tint(state),
        match state {
            PhilState::HasNone => c == (Rgb { r: 234, g: 88, b: 12 }),
            PhilState::HasRight => c == (Rgb { r: 235, g: 155, b: 45 }),
            PhilState::HasLeft => c == (Rgb { r: 150, g: 80, b: 200 }),
            PhilState::HasBoth => c == (Rgb { r: 22, g: 163, b: 74 }),
            PhilState::IsFull | PhilState::Thinking => c == (Rgb { r: 107, g: 114, b: 128 }),
        },
{
    match state {
        PhilState::HasNone => Tone::Waiting.rgb(),
        PhilState::HasRight => Rgb { r: 235, g: 155, b: 45 },
        PhilState::HasLeft => Rgb { r: 150, g: 80, b: 200 },
        PhilState::HasBoth => Tone::Success.rgb(),
        PhilState::IsFull | PhilState::Thinking => Tone::Idle.rgb(),
    }
}

/// The word for a philosopher's state.
pub fn state_label(state: PhilState) -> (text: &'static str)
    ensures
        text@ == (match state {
            PhilState::HasNone => "Hungry"@,
            PhilState::HasRight => "Has right"@,
            PhilState::HasLeft => "Has left"@,
            PhilState::HasBoth => "Eating"@,
            PhilState::IsFull => "Full"@,
            PhilState::Thinking => "Thinking"@,
        }),
{
    match state {
        PhilState::HasNone => "Hungry",
        PhilState::HasRight => "Has right",
        PhilState::HasLeft => "Has left",
        PhilState::HasBoth => "Eating",
        PhilState::IsFull => "Full",
        PhilState::Thinking => "Thinking",
    }
}

impl Table {
    /// The philosopher whose right fork this is.
    pub open spec fn right_owner(self, fork: int) -> int {
        if fork + 1 == self.count {
            0
        } else {
            fork + 1
        }
    }

    /// Where a fork is drawn: at the hand that holds it, else on the table.
    pub open spec fn fork_spot(self, fork: int) -> ForkSpot {
        match self.forks[fork].user {
            Some(user) => if user == fork {
                ForkSpot::LeftHand
            } else if user == self.right_owner(fork) {
                ForkSpot::RightHand
            } else {
                ForkSpot::OnTable
            },
            None => ForkSpot::OnTable,
        }
    }

    /// The colour of a fork: that of its holder, and black on the table.
    pub open spec fn fork_tint(self, fork: int) -> Rgb {
        match self.fork_spot(fork) {
            ForkSpot::LeftHand => if self.state(fork) == PhilState::HasBoth {
                phil_tint(PhilState::HasBoth)
            } else {
                phil_tint(PhilState::HasLeft)
            },
            ForkSpot::RightHand => if self.state(self.right_owner(fork)) == PhilState::HasBoth {
                phil_tint(PhilState::HasBoth)
            } else {
                phil_tint(PhilState::HasRight)
            },
            ForkSpot::OnTable => Tone::Black.color(),
        }
    }
}

/// Where a fork is drawn, and in which colour.
pub fn fork_visual(app: &AppState, fork_id: usize) -> (look: (ForkSpot, Rgb))
    requires
        app@.laid(),
        fork_id < app.count,
    ensures
        look.0 == app@.fork_spot(fork_id as int),
        look.1 == app@.fork_tint(fork_id as int),
        look.0 == ForkSpot::LeftHand <==> app.forks@[fork_id as int].user == Some(fork_id),
        look.0 == ForkSpot::RightHand ==> app.forks@[fork_id as int].user is Some && (
        app.forks@[fork_id as int].user->0 == fork_id + 1 || (app.forks@[fork_id as int].user->0
            == 0 && fork_id + 1 == app.count)),
        app.forks@[fork_id as int].user is None ==> look == (
            ForkSpot::OnTable,
            Rgb { r: 0, g: 0, b: 0 },
        ),
{
    let neighbour: usize = if fork_id + 1 == app.count {
        0
    } else {
        fork_id + 1
    };
    match app.forks[fork_id].user {
        Some(owner) => {
            if owner == fork_id {
                if app.philosophers[owner].state == PhilState::HasBoth {
                    (ForkSpot::LeftHand, phil_color(PhilState::HasBoth))
                } else {
                    (ForkSpot::LeftHand, phil_color(PhilState::HasLeft))
                }
            } else if owner == neighbour {
                if app.philosophers[owner].state == PhilState::HasBoth {
                    (ForkSpot::RightHand, phil_color(PhilState::HasBoth))
                } else {
                    (ForkSpot::RightHand, phil_color(PhilState::HasRight))
                }
            } else {
                (ForkSpot::OnTable, Tone::Black.rgb())
            }
        },
        None => (ForkSpot::OnTable, Tone::Black.rgb()),
    }
}

/// The stack a meal stands in, and its place in the stack.
pub fn meal_place(meal_index: usize) -> (place: (usize, usize))
    ensures
        place.0 * MEALS_PER_STACK + place.1 == meal_index,
        place.1 < MEALS_PER_STACK,
        place.0 * 10 + place.1 == meal_index,
        place.1 < 10,
{
    (meal_index / MEALS_PER_STACK, meal_index % MEALS_PER_STACK)
}

/// How many whole stacks fit beside a philosopher, up to the next one.
pub open spec fn stacks_beside(count: int) -> int {
    TABLE_RADIUS as int / count
}

proof fn lemma_stacks_beside(count: int)
    requires
        count > 0,
    ensures
        stacks_beside(count) >= 0,
        stacks_beside(count) * count <= 250 < (stacks_beside(count) + 1) * count,
        forall|stacks: int| #[trigger] (stacks * count) <= 250 ==> stacks <= stacks_beside(count),
{
    let most = stacks_beside(count);
    assert(most >= 0 && most * count <= 250 < (most + 1) * count) by (nonlinear_arith)
        requires
            most == 250int / count,
            count > 0,
    ;
    assert forall|stacks: int| #[trigger] (stacks * count) <= 250 implies stacks <= most by {
        assert(stacks <= most) by (nonlinear_arith)
            requires
                stacks * count <= 250,
                250 < (most + 1) * count,
                count > 0,
        ;
    }
}

/// How many meals of a philosopher are drawn: stacks are drawn as long as they
/// do not start past the next philosopher.
pub fn meals_drawn(meals: usize, count: usize) -> (n: usize)
    requires
        count > 0,
    ensures
        n == crate::text::min_of(
            meals as int,
            (stacks_beside(count as int) + 1) * MEALS_PER_STACK,
        ),
        n <= meals,
        n < meals ==> exists|stacks: int|
            n == 10 * (stacks + 1) && #[trigger] (stacks * count) <= 250 < (stacks + 1) * count,
        n == meals ==> exists|stacks: int|
            n <= 10 * (stacks + 1) && #[trigger] (stacks * count) <= 250,
{
    proof {
        lemma_stacks_beside(count as int);
    }
    let stacks: usize = TABLE_RADIUS / count;
    let room: usize = (stacks + 1) * MEALS_PER_STACK;
    if meals <= room {
        meals
    } else {
        room
    }
}

/// The number of meals is written out once the stacks that fit, or a single
/// stack at the least, cannot hold them all.
pub fn meal_total(meals: usize, count: usize) -> (text: Option<String>)
    requires
        count > 0,
    ensures
        text is Some <==> meals > stacks_beside(count as int) * MEALS_PER_STACK && meals
            > MEALS_PER_STACK,
        text matches Some(t) ==> t@ == "x"@ + crate::text::decimal(meals as int),
        text is Some ==> meals > 10 && forall|stacks: int|
            #[trigger] (stacks * count) <= 250 ==> meals > 10 * stacks,
        text is None ==> meals <= 10 || exists|stacks: int|
            #[trigger] (stacks * count) <= 250 && meals <= 10 * stacks,
{
    proof {
        lemma_stacks_beside(count as int);
    }
    let stacks: usize = TABLE_RADIUS / count;
    let capacity: usize = stacks * MEALS_PER_STACK;
    if meals > capacity && meals > MEALS_PER_STACK {
        let mut s = String::new();
        s.append("x");
        push_decimal(&mut s, meals as u64);
        assert(s@ =~= "x"@ + crate::text::decimal(meals as int));
        Some(s)
    } else {
        None
    }
}

/// The number on a philosopher, counted from one.
pub fn seat_label(id: usize) -> (text: String)
    requires
        id < usize::MAX,
    ensures
        text@ == crate::text::decimal(id + 1),
{
    let mut s = String::new();
    push_decimal(&mut s, id as u64 + 1);
    assert(s@ =~= crate::text::decimal(id + 1));
    s
}

/// Entries of the legend.
pub const LEGEND_ENTRIES: usize = 5;

/// An entry of the legend: the words for a state, and its colour.
pub fn legend_entry(i: usize) -> (entry: (&'static str, Rgb))
    requires
        i < LEGEND_ENTRIES,
    ensures
        i == 0 ==> entry.0@ == "Thinking"@ && entry.1 == phil_tint(PhilState::Thinking),
        i == 1 ==> entry.0@ == "With Right Fork"@ && entry.1 == phil_tint(PhilState::HasRight),
        i == 2 ==> entry.0@ == "With Left Fork"@ && entry.1 == phil_tint(PhilState::HasLeft),
        i == 3 ==> entry.0@ == "Eating"@ && entry.1 == phil_tint(PhilState::HasBoth),
        i == 4 ==> entry.0@ == "Hungry"@ && entry.1 == phil_tint(PhilState::HasNone),
{
    match i {
        0 => ("Thinking", phil_color(PhilState::Thinking)),
        1 => ("With Right Fork", phil_color(PhilState::HasRight)),
        2 => ("With Left Fork", phil_color(PhilState::HasLeft)),
        3 => ("Eating", phil_color(PhilState::HasBoth)),
        _ => ("Hungry", phil_color(PhilState::HasNone)),
    }
}

/// The line of the legend that shows the count.
pub fn counter_line(counter: usize) -> (text: String)
    ensures
        text@ == "Counter: "@ + crate::text::decimal(counter as int),
{
    let mut s = String::new();
    s.append("Counter: ");
    push_decimal(&mut s, counter as u64);
    assert(s@ =~= "Counter: "@ + crate::text::decimal(counter as int));
    s
}

} // verus!
