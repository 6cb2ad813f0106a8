//! What holds of the table as a whole, whatever the order of steps.
use vstd::prelude::*;

use crate::dining::table::{PhilAction, PhilMethod, PhilState, Table};

verus! {

/// Half a step of one philosopher.
pub enum Step {
    Check(int),
    Act(int),
}

impl Table {
    /// A philosopher's state says which of its forks it holds.
    pub open spec fn honest(self, id: int) -> bool {
        let left = self.holds(id, self.left(id));
        let right = self.holds(id, self.right(id));
        match self.state(id) {
            PhilState::HasNone | PhilState::Thinking | PhilState::IsFull => !left && !right,
            PhilState::HasLeft => left && !right,
            PhilState::HasRight => !left && right,
            PhilState::HasBoth => {
                &&& left
                &&& right
                &&& self.action(id) != PhilAction::ReleaseLeft
                &&& self.action(id) != PhilAction::ReleaseRight
            },
        }
    }

    /// A fork is held by one of the two philosophers beside it, if at all.
    pub open spec fn in_reach(self, fork: int) -> bool {
        match self.forks[fork].user {
            Some(user) => user < self.count && (self.left(user as int) == fork || self.right(
                user as int,
            ) == fork),
            None => true,
        }
    }

    /// The invariant of the table.
    pub open spec fn sound(self) -> bool {
        &&& self.laid()
        &&& 2 <= self.count <= usize::MAX
        &&& forall|i: int| 0 <= i < self.count ==> #[trigger] self.honest(i)
        &&& forall|f: int| 0 <= f < self.count ==> #[trigger] self.in_reach(f)
    }

    /// The philosopher holds both forks.
    pub open spec fn eating(self, id: int) -> bool {
        self.state(id) == PhilState::HasBoth
    }

    /// The philosopher wants both forks and holds at most one.
    pub open spec fn hungry(self, id: int) -> bool {
        self.state(id) == PhilState::HasNone || self.state(id) == PhilState::HasLeft || self.state(
            id,
        ) == PhilState::HasRight
    }

    /// The same table at another count.
    pub open spec fn at_count(self, counter: usize) -> Table {
        Table { counter, ..self }
    }

    /// The philosopher is hungry, and at no count would a check give it
    /// anything to do.
    spec fn idle(self, id: int) -> bool {
        self.hungry(id) && forall|c: usize|
            #[trigger] self.at_count(c).seeking(self.method, id) == PhilAction::DoNothing
    }

    /// Everybody is idle.
    spec fn all_idle(self) -> bool {
        forall|i: int| 0 <= i < self.count ==> #[trigger] self.idle(i)
    }

    /// No series of steps, however long and by whomever, ever changes the state
    /// of anybody.
    pub open spec fn deadlocked(self) -> bool {
        forall|steps: Seq<Step>, i: int|
            self.has_seats_for(steps) && 0 <= i < self.count ==> #[trigger] self.run(steps).state(i)
                == self.state(i)
    }

    /// The philosopher has settled on letting go of a fork.
    pub open spec fn lets_go(self, id: int) -> bool {
        self.action(id) == PhilAction::ReleaseLeft || self.action(id) == PhilAction::ReleaseRight
            || self.action(id) == PhilAction::ReleaseBoth
    }

    /// The lower-numbered fork of a philosopher is the left one.
    pub open spec fn left_first(self, id: int) -> bool {
        self.left(id) < self.right(id)
    }

    /// The philosopher holds and asks for forks in ascending order only.
    pub open spec fn orderly(self, id: int) -> bool {
        &&& match self.state(id) {
            PhilState::HasLeft => self.left_first(id),
            PhilState::HasRight => !self.left_first(id),
            PhilState::HasNone => {
                &&& self.action(id) == PhilAction::TryLeft ==> self.left_first(id)
                &&& self.action(id) == PhilAction::TryRight ==> !self.left_first(id)
            },
            PhilState::Thinking => self.action(id) == PhilAction::DoNothing,
            _ => true,
        }
        &&& self.action(id) != PhilAction::TryBoth
        &&& self.action(id) != PhilAction::ReleaseLeft
        &&& self.action(id) != PhilAction::ReleaseRight
    }

    /// Everybody keeps to the order of forks.
    pub open spec fn ordered(self) -> bool {
        &&& self.method == PhilMethod::ResourceHierarchy
        &&& forall|i: int| 0 <= i < self.count ==> #[trigger] self.orderly(i)
    }

    /// The table after half a step.
    pub open spec fn stepped(self, step: Step) -> Table {
        match step {
            Step::Check(id) => self.checked(id),
            Step::Act(id) => self.acted(id),
        }
    }

    /// The table after a series of half steps.
    pub open spec fn run(self, steps: Seq<Step>) -> Table
        decreases steps.len(),
    {
        if steps.len() == 0 {
            self
        } else {
            self.run(steps.drop_last()).stepped(steps.last())
        }
    }

    /// Every half step is one of a philosopher at the table.
    pub open spec fn has_seats_for(self, steps: Seq<Step>) -> bool {
        forall|k: int|
            0 <= k < steps.len() ==> match #[trigger] steps[k] {
                Step::Check(id) => 0 <= id < self.count,
                Step::Act(id) => 0 <= id < self.count,
            }
    }
}

/// A check keeps the table sound.
pub proof fn law_check_keeps_sound(t: Table, id: int)
    requires
        t.sound(),
        0 <= id < t.count,
    ensures
        t.checked(id).sound(),
{
    let u = t.checked(id);
    assert forall|i: int| 0 <= i < u.count implies #[trigger] u.honest(i) by {
        assert(t.honest(i));
    }
    assert forall|f: int| 0 <= f < u.count implies #[trigger] u.in_reach(f) by {
        assert(t.in_reach(f));
    }
}

proof fn lemma_acquire_keeps_sound(t: Table, id: int, fork: int)
    requires
        t.sound(),
        0 <= id < t.count,
        0 <= fork < t.count,
        t.action(id) != PhilAction::ReleaseLeft,
        t.action(id) != PhilAction::ReleaseRight,
    ensures
        t.acquired(id, fork).sound(),
{
    let u = t.acquired(id, fork);
    assert(t.honest(id));
    assert forall|i: int| 0 <= i < u.count implies #[trigger] u.honest(i) by {
        assert(t.honest(i));
    }
    assert forall|f: int| 0 <= f < u.count implies #[trigger] u.in_reach(f) by {
        assert(t.in_reach(f));
    }
}

/// An act keeps the table sound.
pub proof fn law_act_keeps_sound(t: Table, id: int)
    requires
        t.sound(),
        0 <= id < t.count,
    ensures
        t.acted(id).sound(),
{
    let u = t.acted(id);
    let left = t.left(id);
    let right = t.right(id);
    assert(t.honest(id));
    match t.action(id) {
        PhilAction::TryLeft => lemma_acquire_keeps_sound(t, id, left),
        PhilAction::TryRight => lemma_acquire_keeps_sound(t, id, right),
        PhilAction::TryBoth => {
            lemma_acquire_keeps_sound(t, id, left);
            lemma_acquire_keeps_sound(t.acquired(id, left), id, right);
        },
        _ => {
            assert forall|i: int| 0 <= i < u.count implies #[trigger] u.honest(i) by {
                assert(t.honest(i));
            }
            assert forall|f: int| 0 <= f < u.count implies #[trigger] u.in_reach(f) by {
                assert(t.in_reach(f));
            }
        },
    }
}

/// Without its last half step a series still has its seats.
pub proof fn lemma_seats_before_last(t: Table, steps: Seq<Step>)
    requires
        t.has_seats_for(steps),
        steps.len() > 0,
    ensures
        t.has_seats_for(steps.drop_last()),
        match steps.last() {
            Step::Check(id) => 0 <= id < t.count,
            Step::Act(id) => 0 <= id < t.count,
        },
{
    let before = steps.drop_last();
    assert forall|k: int| 0 <= k < before.len() implies match #[trigger] before[k] {
        Step::Check(id) => 0 <= id < t.count,
        Step::Act(id) => 0 <= id < t.count,
    } by {
        assert(before[k] == steps[k]);
    }
    assert(steps[steps.len() - 1] == steps.last());
}

/// However the philosophers' half steps are interleaved, the table stays sound.
pub proof fn law_run_keeps_sound(t: Table, steps: Seq<Step>)
    requires
        t.sound(),
        t.has_seats_for(steps),
    ensures
        t.run(steps).sound(),
        t.run(steps).count == t.count,
        t.run(steps).method == t.method,
    decreases steps.len(),
{
    if steps.len() > 0 {
        let before = steps.drop_last();
        lemma_seats_before_last(t, steps);
        law_run_keeps_sound(t, before);
        match steps.last() {
            Step::Check(id) => law_check_keeps_sound(t.run(before), id),
            Step::Act(id) => law_act_keeps_sound(t.run(before), id),
        }
    }
}

/// A fork is never in two hands, so two philosophers who share a fork never
/// eat at the same time.
pub proof fn law_neighbours_never_eat_together(t: Table, i: int, j: int)
    requires
        t.sound(),
        0 <= i < t.count,
        0 <= j < t.count,
        i != j,
        t.left(i) == t.right(j),
    ensures
        !(t.eating(i) && t.eating(j)),
{
    assert(t.honest(i));
    assert(t.honest(j));
}

/// A philosopher's state tells its forks: the left one is in its hand exactly
/// if it has the left or both, the right one exactly if it has the right or
/// both; and a fork is in no hand but those of the two beside it.
pub proof fn law_states_tell_forks(t: Table, id: int)
    requires
        t.sound(),
        0 <= id < t.count,
    ensures
        t.holds(id, t.left(id)) <==> t.state(id) == PhilState::HasLeft || t.eating(id),
        t.holds(id, t.right(id)) <==> t.state(id) == PhilState::HasRight || t.eating(id),
        t.eating(id) <==> t.holds(id, t.left(id)) && t.holds(id, t.right(id)),
        t.free(id) || t.holds(id, id) || t.holds(t.right_owner(id), id),
{
    assert(t.honest(id));
    assert(t.in_reach(id));
}

/// A philosopher's step leaves the other philosophers, the forks out of its
/// reach and the forks in other hands as they are.
pub proof fn law_step_leaves_others_alone(t: Table, id: int, other: int)
    requires
        t.sound(),
        0 <= id < t.count,
        0 <= other < t.count,
    ensures
        other != id ==> t.checked(id).philosophers[other] == t.philosophers[other],
        other != id ==> t.acted(id).philosophers[other] == t.philosophers[other],
        t.checked(id).forks == t.forks,
        other != t.left(id) && other != t.right(id) ==> t.acted(id).forks[other]
            == t.forks[other],
        !t.free(other) && !t.holds(id, other) ==> t.acted(id).forks[other] == t.forks[other],
{
}

/// A meal is counted when, and only when, an eating philosopher puts its forks
/// down; it is full then, and both forks are free.
pub proof fn law_meals_are_counted_once(t: Table, id: int)
    requires
        t.sound(),
        0 <= id < t.count,
        t.meals(id) < usize::MAX,
    ensures
        t.checked(id).meals(id) == t.meals(id),
        t.eating(id) && t.action(id) == PhilAction::ReleaseBoth ==> {
            let u = t.acted(id);
            &&& u.meals(id) == t.meals(id) + 1
            &&& u.state(id) == PhilState::IsFull
            &&& u.free(u.left(id))
            &&& u.free(u.right(id))
        },
        !(t.eating(id) && t.action(id) == PhilAction::ReleaseBoth) ==> t.acted(id).meals(id)
            == t.meals(id),
{
    assert(t.honest(id));
}

/// A philosopher who eats is full after its next step, whatever the strategy.
pub proof fn law_eating_ends(t: Table, id: int)
    requires
        t.sound(),
        0 <= id < t.count,
        t.eating(id),
    ensures
        t.checked(id).acted(id).state(id) == PhilState::IsFull,
{
    assert(t.honest(id));
    law_check_keeps_sound(t, id);
    assert(t.checked(id).honest(id));
}

/// A check under the ordered strategy keeps to the order of forks.
pub proof fn law_check_keeps_order(t: Table, id: int)
    requires
        t.sound(),
        t.ordered(),
        0 <= id < t.count,
    ensures
        t.checked(id).ordered(),
{
    let u = t.checked(id);
    assert forall|i: int| 0 <= i < u.count implies #[trigger] u.orderly(i) by {
        assert(t.orderly(i));
    }
}

/// An act under the ordered strategy keeps to the order of forks.
pub proof fn law_act_keeps_order(t: Table, id: int)
    requires
        t.sound(),
        t.ordered(),
        0 <= id < t.count,
    ensures
        t.acted(id).ordered(),
{
    let u = t.acted(id);
    assert(t.honest(id));
    assert(t.orderly(id));
    assert forall|i: int| 0 <= i < u.count implies #[trigger] u.orderly(i) by {
        assert(t.orderly(i));
    }
}

/// However half steps are interleaved, the ordered strategy keeps to the order.
pub proof fn law_run_keeps_order(t: Table, steps: Seq<Step>)
    requires
        t.sound(),
        t.ordered(),
        t.has_seats_for(steps),
    ensures
        t.run(steps).ordered(),
    decreases steps.len(),
{
    if steps.len() > 0 {
        let before = steps.drop_last();
        lemma_seats_before_last(t, steps);
        law_run_keeps_order(t, before);
        law_run_keeps_sound(t, before);
        match steps.last() {
            Step::Check(id) => law_check_keeps_order(t.run(before), id),
            Step::Act(id) => law_act_keeps_order(t.run(before), id),
        }
    }
}

/// With everybody idle under the ordered strategy nobody holds any fork numbered
/// `fork` or higher: its holder would be waiting for a higher one.
proof fn lemma_order_leaves_high_forks_free(t: Table, fork: int)
    requires
        t.sound(),
        t.ordered(),
        t.all_idle(),
        0 <= fork < t.count,
    ensures
        forall|f: int| fork <= f < t.count ==> #[trigger] t.free(f),
    decreases t.count - fork,
{
    if fork + 1 < t.count {
        lemma_order_leaves_high_forks_free(t, fork + 1);
    }
    assert(t.in_reach(fork));
    if !t.free(fork) {
        let user = t.forks[fork].user->0 as int;
        assert(t.honest(user));
        assert(t.orderly(user));
        assert(t.idle(user));
        assert(t.at_count(t.counter) == t);
        assert(t.seeking(t.method, user) == PhilAction::DoNothing);
        assert(t.free(t.left(user)) || t.free(t.right(user)));
        assert(false);
    }
}

/// Some philosopher has something to do at some count, under every strategy
/// but waiting and odd-even.
proof fn lemma_somebody_is_not_idle(t: Table)
    requires
        t.sound(),
        t.method != PhilMethod::WaitWhenBlocked,
        t.method != PhilMethod::OddEven,
        t.method == PhilMethod::ResourceHierarchy ==> t.ordered(),
    ensures
        !t.all_idle(),
{
    if t.all_idle() {
        assert(t.idle(0));
        assert(t.idle(1));
        assert(t.honest(0));
        assert(t.honest(1));
        assert(t.at_count(t.counter) == t);
        match t.method {
            PhilMethod::ResourceHierarchy => {
                lemma_order_leaves_high_forks_free(t, 0);
                assert(t.free(t.left(0)));
                assert(t.seeking(t.method, 0) == PhilAction::DoNothing);
            },
            PhilMethod::ForfeitWhenBlocked => {
                assert forall|i: int| 0 <= i < t.count implies t.state(i) == PhilState::HasNone by {
                    assert(t.idle(i));
                    assert(t.seeking(t.method, i) == PhilAction::DoNothing);
                }
                assert(t.seeking(t.method, 0) == PhilAction::DoNothing);
                assert(t.in_reach(0));
                let user = t.forks[0].user->0 as int;
                assert(t.honest(user));
                assert(false);
            },
            PhilMethod::NCountRelease => {
                assert forall|i: int| 1 <= i < t.count implies t.state(i)
                    == PhilState::HasNone by {
                    assert(t.idle(i));
                    let c = (i - 1) as usize;
                    vstd::arithmetic::div_mod::lemma_small_mod((i - 1) as nat, t.count as nat);
                    assert(t.at_count(c).seeking(t.method, i) == PhilAction::DoNothing);
                    assert(t.at_count(c).named_by_count(i));
                }
                assert(t.seeking(t.method, 1) == PhilAction::DoNothing);
                assert(t.in_reach(0));
                assert(t.in_reach(1));
                let zero = t.forks[0].user->0 as int;
                let one = t.forks[1].user->0 as int;
                assert(t.honest(zero));
                assert(t.honest(one));
                assert(false);
            },
            _ => {},
        }
    }
}

/// A number of checks of one philosopher.
spec fn checks(id: int, n: nat) -> Seq<Step> {
    Seq::new(n, |k: int| Step::Check(id))
}

proof fn lemma_one_more_check(t: Table, id: int, n: nat)
    ensures
        t.run(checks(id, n + 1)) == t.run(checks(id, n)).checked(id),
{
    assert(checks(id, n + 1).drop_last() =~= checks(id, n));
    assert(checks(id, n + 1).last() == Step::Check(id));
}

/// Checks of a hungry philosopher change nothing but the count and what it has
/// settled on; enough of them reach any count.
proof fn lemma_hungry_checks_count(t: Table, id: int, n: nat)
    requires
        t.sound(),
        0 <= id < t.count,
        t.hungry(id),
        n <= usize::MAX,
    ensures
        ({
            let u = t.run(checks(id, n));
            &&& u == t.with_action(id, u.action(id)).at_count(u.counter)
            &&& u.counter == (if t.counter + n <= usize::MAX {
                t.counter + n
            } else {
                t.counter + n - usize::MAX - 1
            })
        }),
    decreases n,
{
    if n == 0 {
        assert(t.run(checks(id, n)) == t);
        assert(t =~= t.with_action(id, t.action(id)).at_count(t.counter));
    } else {
        let before = (n - 1) as nat;
        lemma_hungry_checks_count(t, id, before);
        lemma_one_more_check(t, id, before);
        let u = t.run(checks(id, before));
        let v = t.run(checks(id, n));
        assert(u.state(id) == t.state(id));
        assert(v =~= t.with_action(id, v.action(id)).at_count(v.counter));
    }
}

/// What a hungry philosopher would settle on at a count, it does carry out
/// after some checks of its own. Gives these steps.
proof fn lemma_hungry_acts_at(t: Table, id: int, target: usize) -> (steps: Seq<Step>)
    requires
        t.sound(),
        0 <= id < t.count,
        t.hungry(id),
    ensures
        t.has_seats_for(steps),
        ({
            let action = t.at_count(target).seeking(t.method, id);
            t.run(steps).state(id) == t.with_action(id, action).acted(id).state(id)
        }),
{
    let n: nat = if target >= t.counter {
        (target - t.counter) as nat
    } else {
        (target - t.counter + usize::MAX + 1) as nat
    };
    lemma_hungry_checks_count(t, id, n);
    lemma_one_more_check(t, id, n);
    let action = t.at_count(target).seeking(t.method, id);
    let u = t.run(checks(id, n));
    let v = t.run(checks(id, n + 1));
    assert(u.counter == target);
    assert(u.state(id) == t.state(id));
    assert(u.seeking(t.method, id) == action);
    assert(v.action(id) == action);
    assert(v.forks == t.forks);
    let w = t.with_action(id, action);
    assert(v.philosophers =~= w.philosophers);
    let steps = checks(id, n + 1).push(Step::Act(id));
    assert(steps.drop_last() =~= checks(id, n + 1));
    assert(t.run(steps) == v.acted(id));
    steps
}

/// A thinker who would get hungry `k` counts from now does so. Gives the steps.
proof fn lemma_thinker_within(t: Table, id: int, k: nat) -> (steps: Seq<Step>)
    requires
        t.sound(),
        0 <= id < t.count,
        t.state(id) == PhilState::Thinking,
        t.method != PhilMethod::ForfeitWhenBlocked,
        t.counter + k <= usize::MAX,
        (t.counter + k + id) % 3 == 0,
    ensures
        t.has_seats_for(steps),
        t.run(steps).state(id) == PhilState::HasNone,
    decreases k,
{
    let u = t.checked(id);
    law_check_keeps_sound(t, id);
    if t.appetite(id) {
        lemma_single_step(t, Step::Check(id));
        seq![Step::Check(id)]
    } else {
        let rest = lemma_thinker_within(u, id, (k - 1) as nat);
        lemma_first_step(t, Step::Check(id), rest);
        seq![Step::Check(id)] + rest
    }
}

proof fn lemma_single_step(t: Table, step: Step)
    ensures
        t.run(seq![step]) == t.stepped(step),
{
    assert(seq![step].drop_last() =~= Seq::<Step>::empty());
    assert(t.run(seq![step].drop_last()) == t);
}

proof fn lemma_first_step(t: Table, step: Step, rest: Seq<Step>)
    ensures
        t.run(seq![step] + rest) == t.stepped(step).run(rest),
    decreases rest.len(),
{
    let all = seq![step] + rest;
    if rest.len() == 0 {
        assert(all =~= seq![step]);
        lemma_single_step(t, step);
    } else {
        assert(all.drop_last() =~= seq![step] + rest.drop_last());
        assert(all.last() == rest.last());
        lemma_first_step(t, step, rest.drop_last());
    }
}

/// A thinker gets hungry sooner or later. Gives the steps.
proof fn lemma_thinker_gets_hungry(t: Table, id: int) -> (steps: Seq<Step>)
    requires
        t.sound(),
        0 <= id < t.count,
        t.state(id) == PhilState::Thinking,
    ensures
        t.has_seats_for(steps),
        t.run(steps).state(id) == PhilState::HasNone,
    decreases usize::MAX - t.counter,
{
    let u = t.checked(id);
    law_check_keeps_sound(t, id);
    if u.state(id) == PhilState::HasNone {
        lemma_single_step(t, Step::Check(id));
        seq![Step::Check(id)]
    } else if t.counter + 2 <= usize::MAX {
        let k: nat = if (t.counter + 1 + id) % 3 == 0 {
            1
        } else {
            2
        };
        lemma_thinker_within(t, id, k)
    } else {
        let rest = if t.counter == usize::MAX {
            let k: nat = if id % 3 == 0 {
                0
            } else if id % 3 == 1 {
                2
            } else {
                1
            };
            lemma_thinker_within(u, id, k)
        } else {
            lemma_thinker_gets_hungry(u, id)
        };
        lemma_first_step(t, Step::Check(id), rest);
        seq![Step::Check(id)] + rest
    }
}

/// A philosopher who is not hungry has a way on, whatever the strategy. Gives
/// the steps.
proof fn lemma_way_on_unless_hungry(t: Table, i: int) -> (steps: Seq<Step>)
    requires
        t.sound(),
        0 <= i < t.count,
        !t.hungry(i),
    ensures
        t.has_seats_for(steps),
        t.run(steps).state(i) != t.state(i),
{
    if t.state(i) == PhilState::Thinking {
        lemma_thinker_gets_hungry(t, i)
    } else if t.state(i) == PhilState::HasBoth {
        law_eating_ends(t, i);
        lemma_first_step(t, Step::Check(i), seq![Step::Act(i)]);
        lemma_single_step(t.checked(i), Step::Act(i));
        seq![Step::Check(i)] + seq![Step::Act(i)]
    } else {
        lemma_single_step(t, Step::Check(i));
        seq![Step::Check(i)]
    }
}

/// Whoever holds one fork under the odd-even strategy lets go of it off its
/// turn. Gives the steps.
proof fn lemma_odd_even_lets_go(t: Table, i: int) -> (steps: Seq<Step>)
    requires
        t.sound(),
        t.method == PhilMethod::OddEven,
        0 <= i < t.count,
        t.state(i) == PhilState::HasLeft || t.state(i) == PhilState::HasRight,
    ensures
        t.has_seats_for(steps),
        t.run(steps).state(i) == PhilState::HasNone,
{
    assert(t.honest(i));
    let c: usize = if i % 2 == 0 {
        1
    } else {
        0
    };
    assert(!t.at_count(c).parity_turn(i));
    let action = t.at_count(c).seeking(t.method, i);
    assert(action == PhilAction::ReleaseLeft || action == PhilAction::ReleaseRight);
    let u = t.with_action(i, action);
    assert(u.action(i) == action && u.state(i) == t.state(i) && u.forks == t.forks);
    assert(u.acted(i).state(i) == PhilState::HasNone);
    lemma_hungry_acts_at(t, i, c)
}

/// With all forks on the table, a hungry philosopher takes one on its turn
/// under the odd-even strategy. Gives the steps.
proof fn lemma_odd_even_takes(t: Table) -> (steps: Seq<Step>)
    requires
        t.sound(),
        t.method == PhilMethod::OddEven,
        t.state(0) == PhilState::HasNone,
        t.free(0),
    ensures
        t.has_seats_for(steps),
        t.run(steps).state(0) != PhilState::HasNone,
{
    assert(t.at_count(0).parity_turn(0));
    let action = t.at_count(0).seeking(t.method, 0);
    assert(action == PhilAction::TryBoth);
    let u = t.with_action(0, action);
    assert(u.acquired(0, 0).state(0) == PhilState::HasLeft);
    assert(u.acted(0).state(0) != PhilState::HasNone);
    lemma_hungry_acts_at(t, 0, 0)
}

/// Under the strategies that look before they reach, whoever has something to
/// do gets it done. Gives the steps.
proof fn lemma_reaching_succeeds(t: Table, i: int, c: usize) -> (steps: Seq<Step>)
    requires
        t.sound(),
        t.method != PhilMethod::OddEven,
        0 <= i < t.count,
        t.hungry(i),
        t.at_count(c).seeking(t.method, i) != PhilAction::DoNothing,
    ensures
        t.has_seats_for(steps),
        t.run(steps).state(i) != t.state(i),
{
    assert(t.honest(i));
    let action = t.at_count(c).seeking(t.method, i);
    let u = t.with_action(i, action);
    assert(u.action(i) == action && u.state(i) == t.state(i) && u.forks == t.forks);
    assert(u.acted(i).state(i) != t.state(i));
    lemma_hungry_acts_at(t, i, c)
}

/// Under every strategy but waiting there are steps that change somebody's
/// state. Gives the steps and the philosopher.
proof fn lemma_way_on(t: Table) -> (way: (Seq<Step>, int))
    requires
        t.sound(),
        t.method != PhilMethod::WaitWhenBlocked,
        t.method == PhilMethod::ResourceHierarchy ==> t.ordered(),
    ensures
        t.has_seats_for(way.0),
        0 <= way.1 < t.count,
        t.run(way.0).state(way.1) != t.state(way.1),
{
    if exists|i: int| 0 <= i < t.count && !#[trigger] t.hungry(i) {
        let i = choose|i: int| 0 <= i < t.count && !#[trigger] t.hungry(i);
        (lemma_way_on_unless_hungry(t, i), i)
    } else if t.method == PhilMethod::OddEven {
        if exists|i: int| 0 <= i < t.count && #[trigger] t.state(i) != PhilState::HasNone {
            let i = choose|i: int| 0 <= i < t.count && #[trigger] t.state(i) != PhilState::HasNone;
            assert(t.hungry(i));
            (lemma_odd_even_lets_go(t, i), i)
        } else {
            assert(t.state(0) == PhilState::HasNone);
            assert(t.in_reach(0));
            if !t.free(0) {
                let user = t.forks[0].user->0 as int;
                assert(t.state(user) == PhilState::HasNone);
                assert(t.honest(user));
            }
            (lemma_odd_even_takes(t), 0)
        }
    } else {
        lemma_somebody_is_not_idle(t);
        let i = choose|i: int| 0 <= i < t.count && !#[trigger] t.idle(i);
        assert(t.hungry(i));
        let c = choose|c: usize|
            #[trigger] t.at_count(c).seeking(t.method, i) != PhilAction::DoNothing;
        (lemma_reaching_succeeds(t, i, c), i)
    }
}

/// No strategy but waiting ever deadlocks: there are always steps after which
/// some philosopher's state is another.
pub proof fn law_no_deadlock(t: Table)
    requires
        t.sound(),
        t.method != PhilMethod::WaitWhenBlocked,
        t.method == PhilMethod::ResourceHierarchy ==> t.ordered(),
    ensures
        exists|steps: Seq<Step>, i: int|
            t.has_seats_for(steps) && 0 <= i < t.count && #[trigger] t.run(steps).state(i)
                != t.state(i),
        !t.deadlocked(),
{
    let (steps, i) = lemma_way_on(t);
    assert(t.run(steps).state(i) != t.state(i));
}

/// Neither does any table that the philosophers get to, whatever the order of
/// their steps.
pub proof fn law_runs_never_deadlock(t: Table, steps: Seq<Step>)
    requires
        t.sound(),
        t.method != PhilMethod::WaitWhenBlocked,
        t.method == PhilMethod::ResourceHierarchy ==> t.ordered(),
        t.has_seats_for(steps),
    ensures
        !t.run(steps).deadlocked(),
{
    law_run_keeps_sound(t, steps);
    if t.method == PhilMethod::ResourceHierarchy {
        law_run_keeps_order(t, steps);
    }
    law_no_deadlock(t.run(steps));
}

proof fn lemma_right_hands_stay(t: Table, steps: Seq<Step>)
    requires
        t.sound(),
        t.method == PhilMethod::WaitWhenBlocked,
        forall|i: int|
            0 <= i < t.count ==> #[trigger] t.state(i) == PhilState::HasRight && !t.lets_go(i),
        t.has_seats_for(steps),
    ensures
        ({
            let u = t.run(steps);
            &&& u.sound()
            &&& u.forks == t.forks
            &&& u.count == t.count
            &&& u.method == t.method
            &&& forall|i: int|
                0 <= i < t.count ==> #[trigger] u.state(i) == PhilState::HasRight && !u.lets_go(i)
        }),
    decreases steps.len(),
{
    if steps.len() > 0 {
        let before = steps.drop_last();
        lemma_seats_before_last(t, steps);
        lemma_right_hands_stay(t, before);
        law_run_keeps_sound(t, steps);
        let u = t.run(before);
        let v = t.run(steps);
        let id = match steps.last() {
            Step::Check(id) => id,
            Step::Act(id) => id,
        };
        let next = if id + 1 == t.count {
            0
        } else {
            id + 1
        };
        assert(u.honest(next));
        assert(u.honest(id));
        assert(u.state(next) == PhilState::HasRight);
        assert(u.state(id) == PhilState::HasRight);
        assert(u.right(next) == id);
        assert(!u.free(u.left(id)));
        assert(!u.free(u.right(id)));
        assert forall|i: int| 0 <= i < t.count implies #[trigger] v.state(i) == PhilState::HasRight
            && !v.lets_go(i) by {
            assert(u.state(i) == PhilState::HasRight);
        }
        assert(v.forks =~= t.forks);
    }
}

/// The waiting strategy can deadlock: once everybody holds the right fork and
/// nobody has settled on letting go, no steps ever change a state or a hand.
pub proof fn law_waiting_can_deadlock(t: Table, steps: Seq<Step>)
    requires
        t.sound(),
        t.method == PhilMethod::WaitWhenBlocked,
        forall|i: int|
            0 <= i < t.count ==> #[trigger] t.state(i) == PhilState::HasRight && !t.lets_go(i),
        t.has_seats_for(steps),
    ensures
        t.deadlocked(),
        t.run(steps).forks == t.forks,
{
    lemma_right_hands_stay(t, steps);
    assert forall|steps: Seq<Step>, i: int|
        t.has_seats_for(steps) && 0 <= i < t.count implies #[trigger] t.run(steps).state(i)
        == t.state(i) by {
        lemma_right_hands_stay(t, steps);
        assert(t.state(i) == PhilState::HasRight);
    }
}

} // verus!
