//! The rules of the table, told by hands and forks.
//!
//! The fork at a philosopher's left hand has its own number, the one at its
//! right hand the number before, around the table.
use vstd::prelude::*;

use crate::color::Rgb;
use crate::dining::laws::Step;
use crate::dining::look::ForkSpot;
use crate::dining::table::{PhilAction, PhilMethod, PhilState, Table};
use crate::dining::worker::{PhilPhase, PhilTask, PhilosopherWorker};

verus! {

/// Each philosopher shares its left fork with the next one, whose right fork
/// it is; and no philosopher has the same fork at both hands.
pub proof fn law_neighbours_share_a_fork(t: Table, id: int, next: int)
    requires
        2 <= t.count,
        0 <= id < t.count,
        next == (if id + 1 == t.count {
            0
        } else {
            id + 1
        }),
    ensures
        t.left(id) == id,
        t.right(next) == id,
        t.right(id) != t.left(id),
        0 <= t.right(id) < t.count,
{
}

/// Settling on something by a strategy leaves everything alone but what the
/// philosopher does and has settled on, and a check everything but that and
/// the count.
pub proof fn law_checks_only_settle(t: Table, method: PhilMethod, id: int, other: int)
    requires
        t.laid(),
        0 <= id < t.count,
        0 <= other < t.count,
    ensures
        t.checked(id).forks == t.forks,
        t.checked(id).method == t.method,
        t.checked(id).count == t.count,
        t.checked(id).philosophers.len() == t.philosophers.len(),
        t.checked(id).philosophers[id].id == t.philosophers[id].id,
        t.checked(id).philosophers[id].meals == t.philosophers[id].meals,
        other != id ==> t.checked(id).philosophers[other] == t.philosophers[other],
        t.settled(method, id).forks == t.forks,
        t.settled(method, id).method == t.method,
        t.settled(method, id).count == t.count,
        t.settled(method, id).counter == t.counter,
        t.settled(method, id).philosophers.len() == t.philosophers.len(),
        t.settled(method, id).philosophers[id].id == t.philosophers[id].id,
        t.settled(method, id).philosophers[id].meals == t.philosophers[id].meals,
        other != id ==> t.settled(method, id).philosophers[other] == t.philosophers[other],
{
}

/// Every check is counted, except that of a full philosopher, who goes back to
/// thinking; after the largest number the count starts over.
pub proof fn law_checks_are_counted(t: Table, id: int)
    requires
        t.laid(),
        0 <= id < t.count,
    ensures
        t.philosophers[id].state != PhilState::IsFull && t.counter < usize::MAX ==> t.checked(
            id,
        ).counter == t.counter + 1,
        t.philosophers[id].state != PhilState::IsFull && t.counter == usize::MAX ==> t.checked(
            id,
        ).counter == 0,
        t.philosophers[id].state == PhilState::IsFull ==> t.checked(id).counter == t.counter
            && t.checked(id).philosophers[id].state == PhilState::Thinking && t.checked(
            id,
        ).philosophers[id].action == PhilAction::DoNothing,
{
}

/// A check goes by the table's strategy: what it does to its philosopher is
/// what the strategy does.
pub proof fn law_checks_follow_the_strategy(t: Table, id: int)
    requires
        t.laid(),
        0 <= id < t.count,
        t.philosophers[id].state != PhilState::IsFull,
    ensures
        t.checked(id).philosophers == t.settled(t.method, id).philosophers,
{
}

/// Whoever eats settles on putting both forks down and eats until then,
/// whatever the strategy; no strategy touches a full philosopher.
pub proof fn law_eaters_finish(t: Table, method: PhilMethod, id: int)
    requires
        t.laid(),
        0 <= id < t.count,
    ensures
        t.philosophers[id].state == PhilState::HasBoth ==> {
            let p = t.settled(method, id).philosophers[id];
            p.state == PhilState::HasBoth && p.action == PhilAction::ReleaseBoth
        },
        t.philosophers[id].state == PhilState::IsFull ==> t.settled(method, id) == t,
{
}

/// A thinker gets hungry exactly when the count and its number together are a
/// multiple of three, and thinks on otherwise. A forfeiter gets hungry at
/// once.
pub proof fn law_thinkers_get_hungry(t: Table, method: PhilMethod, id: int, threes: int, rest: int)
    requires
        t.laid(),
        0 <= id < t.count,
        t.philosophers[id].state == PhilState::Thinking,
        t.counter + id == 3 * threes + rest,
        0 <= rest < 3,
    ensures
        ({
            let p = t.settled(method, id).philosophers[id];
            if method == PhilMethod::ForfeitWhenBlocked {
                p.state == PhilState::HasNone && p.action == t.philosophers[id].action
            } else if rest == 0 {
                p.state == PhilState::HasNone && p.action == PhilAction::DoNothing
            } else {
                p == t.philosophers[id]
            }
        }),
{
}

/// Looking before they reach, the philosophers that wait, forfeit or count ask
/// for a fork exactly if it is free, the right one first.
pub proof fn law_free_forks_are_tried(t: Table, method: PhilMethod, id: int, right: int)
    requires
        t.laid(),
        0 <= id < t.count,
        right == (if id == 0 {
            t.count - 1
        } else {
            id - 1
        }),
        method == PhilMethod::WaitWhenBlocked || method == PhilMethod::ForfeitWhenBlocked || method
            == PhilMethod::NCountRelease,
        t.philosophers[id].state == PhilState::HasNone,
    ensures
        ({
            let p = t.settled(method, id).philosophers[id];
            &&& p.state == PhilState::HasNone
            &&& p.action == PhilAction::TryRight <==> t.forks[right].user is None
            &&& p.action == PhilAction::TryLeft <==> t.forks[right].user is Some
                && t.forks[id].user is None
            &&& p.action == PhilAction::DoNothing <==> t.forks[right].user is Some
                && t.forks[id].user is Some
        }),
{
}

/// Whoever holds one fork reaches for the other exactly if that is free, under
/// every strategy but odd-even.
pub proof fn law_the_other_fork_is_tried(t: Table, method: PhilMethod, id: int, right: int)
    requires
        t.laid(),
        0 <= id < t.count,
        right == (if id == 0 {
            t.count - 1
        } else {
            id - 1
        }),
        method != PhilMethod::OddEven,
    ensures
        t.philosophers[id].state == PhilState::HasRight ==> {
            let p = t.settled(method, id).philosophers[id];
            &&& p.state == PhilState::HasRight
            &&& p.action == PhilAction::TryLeft <==> t.forks[id].user is None
        },
        t.philosophers[id].state == PhilState::HasLeft ==> {
            let p = t.settled(method, id).philosophers[id];
            &&& p.state == PhilState::HasLeft
            &&& p.action == PhilAction::TryRight <==> t.forks[right].user is None
        },
{
}

/// Whoever waits, or takes forks in order, holds on to its one fork while the
/// other is taken.
pub proof fn law_waiters_hold_on(t: Table, method: PhilMethod, id: int, right: int)
    requires
        t.laid(),
        0 <= id < t.count,
        right == (if id == 0 {
            t.count - 1
        } else {
            id - 1
        }),
        method == PhilMethod::WaitWhenBlocked || method == PhilMethod::ResourceHierarchy,
    ensures
        t.philosophers[id].state == PhilState::HasRight && t.forks[id].user is Some ==> t.settled(
            method,
            id,
        ).philosophers[id].action == PhilAction::DoNothing,
        t.philosophers[id].state == PhilState::HasLeft && t.forks[right].user is Some ==> t.settled(
            method,
            id,
        ).philosophers[id].action == PhilAction::DoNothing,
{
}

/// A forfeiter gives its one fork back as soon as it finds the other taken.
pub proof fn law_forfeiters_give_back(t: Table, id: int, right: int)
    requires
        t.laid(),
        0 <= id < t.count,
        right == (if id == 0 {
            t.count - 1
        } else {
            id - 1
        }),
    ensures
        t.philosophers[id].state == PhilState::HasRight && t.forks[id].user is Some ==> t.settled(
            PhilMethod::ForfeitWhenBlocked,
            id,
        ).philosophers[id].action == PhilAction::ReleaseRight,
        t.philosophers[id].state == PhilState::HasLeft && t.forks[right].user is Some ==> t.settled(
            PhilMethod::ForfeitWhenBlocked,
            id,
        ).philosophers[id].action == PhilAction::ReleaseLeft,
{
}

/// Who counts gives its one fork back, finding the other taken, exactly when
/// the count, some rounds of the table aside, is one less than its number;
/// otherwise it holds on.
pub proof fn law_counters_give_back_when_named(
    t: Table,
    id: int,
    right: int,
    rounds: int,
    rest: int,
)
    requires
        t.laid(),
        0 <= id < t.count,
        right == (if id == 0 {
            t.count - 1
        } else {
            id - 1
        }),
        t.counter == rounds * t.count + rest,
        0 <= rest < t.count,
    ensures
        t.philosophers[id].state == PhilState::HasRight && t.forks[id].user is Some ==> t.settled(
            PhilMethod::NCountRelease,
            id,
        ).philosophers[id].action == (if rest + 1 == id {
            PhilAction::ReleaseRight
        } else {
            PhilAction::DoNothing
        }),
        t.philosophers[id].state == PhilState::HasLeft && t.forks[right].user is Some ==> t.settled(
            PhilMethod::NCountRelease,
            id,
        ).philosophers[id].action == (if rest + 1 == id {
            PhilAction::ReleaseLeft
        } else {
            PhilAction::DoNothing
        }),
{
    vstd::arithmetic::div_mod::lemma_fundamental_div_mod_converse(
        t.counter as int,
        t.count,
        rounds,
        rest,
    );
}

/// Taking forks in order, a philosopher without forks asks for the one with
/// the lower number exactly if it is free, and never for the other.
pub proof fn law_the_lower_fork_comes_first(t: Table, id: int, right: int)
    requires
        t.laid(),
        2 <= t.count,
        0 <= id < t.count,
        right == (if id == 0 {
            t.count - 1
        } else {
            id - 1
        }),
        t.philosophers[id].state == PhilState::HasNone,
    ensures
        ({
            let p = t.settled(PhilMethod::ResourceHierarchy, id).philosophers[id];
            &&& p.state == PhilState::HasNone
            &&& p.action == PhilAction::TryLeft <==> id < right && t.forks[id].user is None
            &&& p.action == PhilAction::TryRight <==> right < id && t.forks[right].user is None
            &&& p.action == PhilAction::TryLeft || p.action == PhilAction::TryRight || p.action
                == PhilAction::DoNothing
        }),
{
}

/// Under odd-even a hungry philosopher reaches for whatever it lacks when the
/// count is as odd or even as its number, and else lets go of what it has. It
/// does not look at the forks.
pub proof fn law_odd_and_even_take_turns(t: Table, id: int, twos: int, rest: int)
    requires
        t.laid(),
        0 <= id < t.count,
        t.counter - id == 2 * twos + rest,
        0 <= rest < 2,
    ensures
        ({
            let p = t.settled(PhilMethod::OddEven, id).philosophers[id];
            let same = rest == 0;
            match t.philosophers[id].state {
                PhilState::HasNone => p.state == PhilState::HasNone && p.action == (if same {
                    PhilAction::TryBoth
                } else {
                    PhilAction::DoNothing
                }),
                PhilState::HasRight => p.state == PhilState::HasRight && p.action == (if same {
                    PhilAction::TryLeft
                } else {
                    PhilAction::ReleaseRight
                }),
                PhilState::HasLeft => p.state == PhilState::HasLeft && p.action == (if same {
                    PhilAction::TryRight
                } else {
                    PhilAction::ReleaseLeft
                }),
                _ => true,
            }
        }),
{
}

/// A philosopher gets a fork exactly if the fork is one of its own two and
/// free, and the philosopher is hungry and lacks it; then the fork is in its
/// hand, and else nothing changes.
pub proof fn law_forks_are_taken_when_free(t: Table, id: int, fork: int, right: int)
    requires
        t.laid(),
        2 <= t.count <= usize::MAX,
        0 <= id < t.count,
        0 <= fork < t.count,
        right == (if id == 0 {
            t.count - 1
        } else {
            id - 1
        }),
    ensures
        ({
            let u = t.acquired(id, fork);
            let before = t.philosophers[id].state;
            let after = u.philosophers[id].state;
            let gets = t.forks[fork].user is None && ((fork == id && (before == PhilState::HasNone
                || before == PhilState::HasRight)) || (fork == right && (before
                == PhilState::HasNone || before == PhilState::HasLeft)));
            &&& t.can_acquire(id, fork) == gets
            &&& !gets ==> u == t
            &&& gets ==> {
                &&& u.method == t.method
                &&& u.count == t.count
                &&& u.counter == t.counter
                &&& u.forks[fork].user == Some(id as usize)
                &&& u.forks[fork].id == t.forks[fork].id
                &&& forall|i: int|
                    0 <= i < t.count && i != id ==> u.philosophers[i] == t.philosophers[i]
                &&& u.philosophers[id].id == t.philosophers[id].id
                &&& forall|f: int| 0 <= f < t.count && f != fork ==> u.forks[f] == t.forks[f]
                &&& u.philosophers[id].meals == t.philosophers[id].meals
                &&& u.philosophers[id].action == t.philosophers[id].action
                &&& before != PhilState::HasNone ==> after == PhilState::HasBoth
                &&& before == PhilState::HasNone && fork == id ==> after == PhilState::HasLeft
                &&& before == PhilState::HasNone && fork == right ==> after == PhilState::HasRight
            }
        }),
{
}

/// Letting go of a fork undoes taking it.
pub proof fn law_letting_go_undoes_taking(t: Table, id: int, fork: int)
    requires
        t.laid(),
        2 <= t.count <= usize::MAX,
        0 <= id < t.count,
        0 <= fork < t.count,
        t.philosophers[id].state == PhilState::HasNone,
        t.can_acquire(id, fork),
    ensures
        t.acquired(id, fork).released(id, fork) == t,
{
    let u = t.acquired(id, fork).released(id, fork);
    assert(u.forks =~= t.forks);
    assert(u.philosophers =~= t.philosophers);
}

/// A fork in other hands, or in none, cannot be let go of. A fork in the
/// philosopher's own hand is free afterwards, and no other changes hands.
pub proof fn law_only_held_forks_are_let_go(t: Table, id: int, fork: int)
    requires
        t.laid(),
        t.count <= usize::MAX,
        0 <= id < t.count,
        0 <= fork < t.count,
    ensures
        t.forks[fork].user != Some(id as usize) ==> t.released(id, fork) == t,
        t.forks[fork].user == Some(id as usize) ==> {
            let u = t.released(id, fork);
            &&& u.forks[fork].user is None
            &&& forall|f: int| 0 <= f < t.count && f != fork ==> u.forks[f] == t.forks[f]
            &&& u.method == t.method
            &&& u.count == t.count
            &&& u.counter == t.counter
            &&& u.forks[fork].id == t.forks[fork].id
            &&& forall|i: int|
                0 <= i < t.count && i != id ==> u.philosophers[i] == t.philosophers[i]
            &&& u.philosophers[id].id == t.philosophers[id].id
            &&& u.philosophers[id].action == t.philosophers[id].action
            &&& t.philosophers[id].state == PhilState::IsFull ==> u.philosophers == t.philosophers
            &&& t.philosophers[id].state == PhilState::HasBoth && t.philosophers[id].meals
                < usize::MAX ==> u.philosophers[id].state == PhilState::IsFull
                && u.philosophers[id].meals == t.philosophers[id].meals + 1
            &&& t.philosophers[id].state == PhilState::HasLeft && fork == id
                ==> u.philosophers[id].state == PhilState::HasNone && u.philosophers[id].meals
                == t.philosophers[id].meals
            &&& t.philosophers[id].state == PhilState::HasRight && fork != id
                ==> u.philosophers[id].state == PhilState::HasNone && u.philosophers[id].meals
                == t.philosophers[id].meals
        },
{
}

/// An act does to the forks what was settled on, and nothing to the count.
pub proof fn law_acts_do_what_was_settled(t: Table, id: int, right: int)
    requires
        t.laid(),
        2 <= t.count <= usize::MAX,
        0 <= id < t.count,
        right == (if id == 0 {
            t.count - 1
        } else {
            id - 1
        }),
    ensures
        t.acted(id).counter == t.counter,
        t.acted(id).method == t.method,
        t.philosophers[id].action == PhilAction::DoNothing ==> t.acted(id) == t,
        t.philosophers[id].action == PhilAction::TryLeft ==> t.acted(id) == t.acquired(id, id),
        t.philosophers[id].action == PhilAction::TryRight ==> t.acted(id) == t.acquired(id, right),
        t.philosophers[id].action == PhilAction::TryBoth ==> t.acted(id) == t.acquired(
            id,
            id,
        ).acquired(id, right),
        t.philosophers[id].action == PhilAction::ReleaseLeft ==> t.acted(id) == t.released(id, id),
        t.philosophers[id].action == PhilAction::ReleaseRight ==> t.acted(id) == t.released(
            id,
            right,
        ),
        t.philosophers[id].action == PhilAction::ReleaseBoth ==> t.acted(id) == t.released(
            id,
            id,
        ).released(id, right),
{
}

/// What an act makes of a philosopher's hands: it has each fork it reached for
/// exactly if that was free, and none it let go of; with both it eats, and
/// after both it is full.
pub proof fn law_acts_fill_or_empty_hands(t: Table, id: int, right: int)
    requires
        t.sound(),
        0 <= id < t.count,
        right == (if id == 0 {
            t.count - 1
        } else {
            id - 1
        }),
        t.philosophers[id].meals < usize::MAX,
    ensures
        ({
            let before = t.philosophers[id].state;
            let action = t.philosophers[id].action;
            let u = t.acted(id);
            let after = u.philosophers[id].state;
            let me = Some(id as usize);
            let left_free = t.forks[id].user is None;
            let right_free = t.forks[right].user is None;
            &&& before == PhilState::HasNone && action == PhilAction::TryBoth ==> {
                &&& u.forks[id].user == me <==> left_free
                &&& u.forks[right].user == me <==> right_free
                &&& after == PhilState::HasBoth <==> left_free && right_free
                &&& after == PhilState::HasLeft <==> left_free && !right_free
                &&& after == PhilState::HasRight <==> !left_free && right_free
                &&& after == PhilState::HasNone <==> !left_free && !right_free
            }
            &&& before == PhilState::HasNone && action == PhilAction::TryLeft ==> {
                &&& u.forks[id].user == me <==> left_free
                &&& u.forks[right].user != me
                &&& after == PhilState::HasLeft <==> left_free
                &&& after == PhilState::HasNone <==> !left_free
            }
            &&& before == PhilState::HasNone && action == PhilAction::TryRight ==> {
                &&& u.forks[right].user == me <==> right_free
                &&& u.forks[id].user != me
                &&& after == PhilState::HasRight <==> right_free
                &&& after == PhilState::HasNone <==> !right_free
            }
            &&& before == PhilState::HasRight && action == PhilAction::TryLeft ==> {
                &&& u.forks[right].user == me
                &&& u.forks[id].user == me <==> left_free
                &&& after == PhilState::HasBoth <==> left_free
                &&& after == PhilState::HasRight <==> !left_free
            }
            &&& before == PhilState::HasLeft && action == PhilAction::TryRight ==> {
                &&& u.forks[id].user == me
                &&& u.forks[right].user == me <==> right_free
                &&& after == PhilState::HasBoth <==> right_free
                &&& after == PhilState::HasLeft <==> !right_free
            }
            &&& before == PhilState::HasLeft && action == PhilAction::ReleaseLeft ==> after
                == PhilState::HasNone && u.forks[id].user is None
            &&& before == PhilState::HasRight && action == PhilAction::ReleaseRight ==> after
                == PhilState::HasNone && u.forks[right].user is None
            &&& before == PhilState::HasBoth && action == PhilAction::ReleaseBoth ==> {
                &&& after == PhilState::IsFull
                &&& u.forks[id].user is None
                &&& u.forks[right].user is None
                &&& u.philosophers[id].meals == t.philosophers[id].meals + 1
            }
            &&& action == PhilAction::DoNothing ==> u == t
        }),
{
    assert(t.honest(id));
}

impl Table {
    /// Nobody has settled on letting go of a fork before it has eaten.
    pub open spec fn patient(self) -> bool {
        forall|i: int|
            0 <= i < self.count && #[trigger] self.lets_go(i) ==> self.philosophers[i].state
                == PhilState::HasBoth || self.philosophers[i].state == PhilState::IsFull
    }
}

proof fn lemma_waiters_stay_patient(t: Table, step: Step)
    requires
        t.sound(),
        t.method == PhilMethod::WaitWhenBlocked,
        t.patient(),
        match step {
            Step::Check(id) => 0 <= id < t.count,
            Step::Act(id) => 0 <= id < t.count,
        },
    ensures
        t.stepped(step).patient(),
{
    let u = t.stepped(step);
    assert forall|i: int| 0 <= i < u.count && #[trigger] u.lets_go(
        i,
    ) implies u.philosophers[i].state == PhilState::HasBoth || u.philosophers[i].state
        == PhilState::IsFull by {
        assert(t.honest(i));
        assert(t.lets_go(i) ==> t.philosophers[i].state == PhilState::HasBoth
            || t.philosophers[i].state == PhilState::IsFull);
    }
}

/// Under the waiting strategy nobody ever settles on letting go of a fork
/// before it has eaten.
pub proof fn law_waiters_stay_patient(t: Table, steps: Seq<Step>)
    requires
        t.sound(),
        t.method == PhilMethod::WaitWhenBlocked,
        t.patient(),
        t.has_seats_for(steps),
    ensures
        t.run(steps).patient(),
        t.run(steps).sound(),
        t.run(steps).method == PhilMethod::WaitWhenBlocked,
        t.run(steps).count == t.count,
    decreases steps.len(),
{
    crate::dining::laws::law_run_keeps_sound(t, steps);
    if steps.len() > 0 {
        let before = steps.drop_last();
        crate::dining::laws::lemma_seats_before_last(t, steps);
        law_waiters_stay_patient(t, before);
        lemma_waiters_stay_patient(t.run(before), steps.last());
    }
}

proof fn lemma_waiters_keep_their_fork(t: Table, step: Step, id: int, fork: int)
    requires
        t.sound(),
        t.method == PhilMethod::WaitWhenBlocked,
        t.patient(),
        match step {
            Step::Check(other) => 0 <= other < t.count,
            Step::Act(other) => 0 <= other < t.count,
        },
        0 <= id < t.count,
        0 <= fork < t.count,
        t.forks[fork].user == Some(id as usize),
        t.philosophers[id].state != PhilState::HasBoth,
        t.stepped(step).philosophers[id].state != PhilState::HasBoth,
    ensures
        t.stepped(step).forks[fork].user == Some(id as usize),
        t.stepped(step).philosophers[id].state == t.philosophers[id].state,
{
    assert(t.honest(id));
    assert(t.in_reach(fork));
    assert(!t.lets_go(id));
    match step {
        Step::Check(other) => {
            crate::dining::laws::law_step_leaves_others_alone(t, other, id);
        },
        Step::Act(other) => {
            if other != id {
                crate::dining::laws::law_step_leaves_others_alone(t, other, id);
                crate::dining::laws::law_step_leaves_others_alone(t, other, fork);
            }
        },
    }
}

/// Under the waiting strategy a fork once taken stays with its holder, however
/// the steps are interleaved, until the holder has both.
pub proof fn law_waiters_keep_their_fork(t: Table, steps: Seq<Step>, id: int, fork: int)
    requires
        t.sound(),
        t.method == PhilMethod::WaitWhenBlocked,
        t.patient(),
        t.has_seats_for(steps),
        0 <= id < t.count,
        0 <= fork < t.count,
        t.forks[fork].user == Some(id as usize),
        forall|k: int|
            0 <= k <= steps.len() ==> (#[trigger] t.run(steps.take(k))).philosophers[id].state
                != PhilState::HasBoth,
    ensures
        t.run(steps).forks[fork].user == Some(id as usize),
        t.run(steps).philosophers[id].state == t.philosophers[id].state,
    decreases steps.len(),
{
    if steps.len() > 0 {
        let before = steps.drop_last();
        assert forall|k: int| 0 <= k <= before.len() implies (#[trigger] t.run(
            before.take(k),
        )).philosophers[id].state != PhilState::HasBoth by {
            assert(before.take(k) =~= steps.take(k));
            assert(t.run(steps.take(k)).philosophers[id].state != PhilState::HasBoth);
        }
        crate::dining::laws::lemma_seats_before_last(t, steps);
        law_waiters_keep_their_fork(t, before, id, fork);
        law_waiters_stay_patient(t, before);
        assert(before =~= before.take(before.len() as int));
        assert(t.run(before.take(before.len() as int)).philosophers[id].state
            != PhilState::HasBoth);
        assert(steps =~= steps.take(steps.len() as int));
        assert(t.run(steps.take(steps.len() as int)).philosophers[id].state != PhilState::HasBoth);
        lemma_waiters_keep_their_fork(t.run(before), steps.last(), id, fork);
    }
}

/// Anybody who holds a fork shows it: a fork in a hand is drawn at that hand,
/// in the colour of its holder, and a fork in no hand lies black on the table.
pub proof fn law_forks_are_drawn_at_their_holder(t: Table, fork: int, next: int)
    requires
        t.sound(),
        0 <= fork < t.count,
        next == (if fork + 1 == t.count {
            0
        } else {
            fork + 1
        }),
    ensures
        match t.forks[fork].user {
            Some(user) => {
                &&& user == fork ==> t.fork_spot(fork) == ForkSpot::LeftHand
                &&& user != fork ==> user == next && t.fork_spot(fork) == ForkSpot::RightHand
                &&& t.fork_tint(fork) == crate::dining::look::phil_tint(
                    t.philosophers[user as int].state,
                )
            },
            None => {
                &&& t.fork_spot(fork) == ForkSpot::OnTable
                &&& t.fork_tint(fork) == (Rgb { r: 0, g: 0, b: 0 })
            },
        },
{
    assert(t.in_reach(fork));
    if t.forks[fork].user is Some {
        let user = t.forks[fork].user->0 as int;
        assert(t.honest(user));
    }
}

/// Philosophers in different states have different colours, except that being
/// full looks like thinking.
pub proof fn law_states_have_their_colours()
    ensures
        forall|a: PhilState, b: PhilState|
            #![trigger crate::dining::look::phil_tint(a), crate::dining::look::phil_tint(b)]
            crate::dining::look::phil_tint(a) == crate::dining::look::phil_tint(b) ==> a == b || (
            a == PhilState::IsFull && b == PhilState::Thinking) || (a == PhilState::Thinking && b
                == PhilState::IsFull),
{
}

/// As long as the run goes on, a philosopher's thread waits for its turn,
/// checks, lets the others in, acts, and rests, in this order and for ever.
pub proof fn law_threads_go_round(w: PhilosopherWorker)
    ensures
        w.phase == PhilPhase::Turn ==> w.next_phase(true) == PhilPhase::Checked,
        w.phase == PhilPhase::Checked ==> w.next_phase(true) == PhilPhase::Resting,
        w.phase == PhilPhase::Resting ==> w.next_phase(true) == PhilPhase::Turn,
        w.phase == PhilPhase::Over ==> w.next_phase(true) == PhilPhase::Over,
        PhilosopherWorker::task_of(PhilPhase::Turn) == PhilTask::AwaitTurn,
        PhilosopherWorker::task_of(PhilPhase::Checked) == PhilTask::Yield,
        PhilosopherWorker::task_of(PhilPhase::Resting) == PhilTask::Rest,
        PhilosopherWorker::task_of(PhilPhase::Over) == PhilTask::Quit,
{
}

} // verus!
