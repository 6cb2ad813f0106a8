//! The table: philosophers, forks, and the two halves of a philosopher's step.
//!
//! A step is a *check*, in which a philosopher looks at the forks and settles
//! on an action, and an *act*, which carries the action out. Others may step
//! in between, so an act looks again before it takes a fork.
use vstd::prelude::*;

verus! {

/// What a philosopher is holding or doing.
#[derive(Clone, Copy, Debug, PartialEq, Eq, Structural)]
pub enum PhilState {
    HasNone,
    HasRight,
    HasLeft,
    HasBoth,
    IsFull,
    Thinking,
}

/// What a philosopher has settled on doing next.
#[derive(Clone, Copy, Debug, PartialEq, Eq, Structural)]
pub enum PhilAction {
    DoNothing,
    TryLeft,
    TryRight,
    TryBoth,
    ReleaseLeft,
    ReleaseRight,
    ReleaseBoth,
}

/// How philosophers go about getting their forks.
#[derive(Clone, Copy, Debug, PartialEq, Eq, Structural)]
pub enum PhilMethod {
    ForfeitWhenBlocked,
    WaitWhenBlocked,
    NCountRelease,
    ResourceHierarchy,
    OddEven,
}

/// One philosopher.
#[derive(Clone, Copy, Debug)]
pub struct Philosopher {
    pub id: usize,
    pub state: PhilState,
    pub action: PhilAction,
    pub meals: usize,
}

/// One fork, and the philosopher holding it.
#[derive(Clone, Copy, Debug)]
pub struct ForkState {
    pub id: usize,
    pub user: Option<usize>,
}

/// The whole table.
#[derive(Debug)]
pub struct AppState {
    pub method: PhilMethod,
    pub count: usize,
    pub counter: usize,
    pub philosophers: Vec<Philosopher>,
    pub forks: Vec<ForkState>,
}

/// The table as a mathematical value.
#[verifier::ext_equal]
pub struct Table {
    pub method: PhilMethod,
    pub count: int,
    pub counter: usize,
    pub philosophers: Seq<Philosopher>,
    pub forks: Seq<ForkState>,
}

impl View for AppState {
    type V = Table;

    open spec fn view(&self) -> Table {
        Table {
            method: self.method,
            count: self.count as int,
            counter: self.counter,
            philosophers: self.philosophers@,
            forks: self.forks@,
        }
    }
}

impl Table {
    /// One philosopher and one fork per seat, numbered by seat.
    pub open spec fn laid(self) -> bool {
        &&& self.philosophers.len() == self.count
        &&& self.forks.len() == self.count
        &&& forall|i: int| 0 <= i < self.count ==> #[trigger] self.philosophers[i].id == i
        &&& forall|i: int| 0 <= i < self.count ==> #[trigger] self.forks[i].id == i
    }

    /// The fork at a philosopher's left hand has the philosopher's number.
    pub open spec fn left(self, id: int) -> int {
        id
    }

    /// The fork at the right hand is the one before it on the ring.
    pub open spec fn right(self, id: int) -> int {
        if id == 0 {
            self.count - 1
        } else {
            id - 1
        }
    }

    /// Nobody holds the fork.
    pub open spec fn free(self, fork: int) -> bool {
        self.forks[fork].user is None
    }

    /// The philosopher holds the fork.
    pub open spec fn holds(self, id: int, fork: int) -> bool {
        self.forks[fork].user == Some(id as usize)
    }

    pub open spec fn state(self, id: int) -> PhilState {
        self.philosophers[id].state
    }

    pub open spec fn action(self, id: int) -> PhilAction {
        self.philosophers[id].action
    }

    pub open spec fn meals(self, id: int) -> int {
        self.philosophers[id].meals as int
    }

    /// The table with one philosopher's state changed.
    pub open spec fn with_state(self, id: int, state: PhilState) -> Table {
        Table {
            philosophers: self.philosophers.update(
                id,
                Philosopher { state, ..self.philosophers[id] },
            ),
            ..self
        }
    }

    /// The table with one philosopher's action changed.
    pub open spec fn with_action(self, id: int, action: PhilAction) -> Table {
        Table {
            philosophers: self.philosophers.update(
                id,
                Philosopher { action, ..self.philosophers[id] },
            ),
            ..self
        }
    }

    /// The table with one more meal for a philosopher.
    pub open spec fn with_meal(self, id: int) -> Table {
        Table {
            philosophers: self.philosophers.update(
                id,
                Philosopher {
                    meals: (self.philosophers[id].meals + 1) as usize,
                    ..self.philosophers[id]
                },
            ),
            ..self
        }
    }

    /// The table with one fork in other hands, or in none.
    pub open spec fn with_user(self, fork: int, user: Option<usize>) -> Table {
        Table {
            forks: self.forks.update(fork, ForkState { user, ..self.forks[fork] }),
            ..self
        }
    }

    /// The table after one more counted check.
    pub open spec fn ticked(self) -> Table {
        Table {
            counter: if self.counter == usize::MAX {
                0
            } else {
                (self.counter + 1) as usize
            },
            ..self
        }
    }

    /// Whether the running count gives an odd or even philosopher its turn.
    pub open spec fn parity_turn(self, id: int) -> bool {
        id % 2 == self.counter as int % 2
    }

    /// Whether the running count names this philosopher to give way.
    pub open spec fn named_by_count(self, id: int) -> bool {
        id == self.counter as int % self.count + 1
    }

    /// Whether a thinker gets hungry at this count.
    pub open spec fn appetite(self, id: int) -> bool {
        (self.counter + id) % 3 == 0
    }

    /// What a philosopher without forks settles on: the ordered strategy asks
    /// only for the lower-numbered fork, the others for whichever is free,
    /// right hand first.
    pub open spec fn opening(self, method: PhilMethod, id: int) -> PhilAction {
        let left = self.left(id);
        let right = self.right(id);
        if method == PhilMethod::ResourceHierarchy {
            if right < left && self.free(right) {
                PhilAction::TryRight
            } else if right >= left && self.free(left) {
                PhilAction::TryLeft
            } else {
                PhilAction::DoNothing
            }
        } else if self.free(right) {
            PhilAction::TryRight
        } else if self.free(left) {
            PhilAction::TryLeft
        } else {
            PhilAction::DoNothing
        }
    }

    /// What a philosopher does who holds one fork and finds the other taken:
    /// forfeiting gives the fork back at once, counting gives it back when the
    /// count names the philosopher, the rest hold on.
    pub open spec fn when_blocked(
        self,
        method: PhilMethod,
        id: int,
        release: PhilAction,
    ) -> PhilAction {
        if method == PhilMethod::ForfeitWhenBlocked {
            release
        } else if method == PhilMethod::NCountRelease && self.named_by_count(id) {
            release
        } else {
            PhilAction::DoNothing
        }
    }

    /// What a hungry philosopher settles on under the odd-even strategy: on
    /// its turn it reaches for what it lacks, off its turn it lets go.
    pub open spec fn alternating(self, id: int) -> PhilAction {
        let turn = self.parity_turn(id);
        match self.state(id) {
            PhilState::HasRight => if turn {
                PhilAction::TryLeft
            } else {
                PhilAction::ReleaseRight
            },
            PhilState::HasLeft => if turn {
                PhilAction::TryRight
            } else {
                PhilAction::ReleaseLeft
            },
            _ => if turn {
                PhilAction::TryBoth
            } else {
                PhilAction::DoNothing
            },
        }
    }

    /// What a hungry philosopher, one holding at most one fork, settles on.
    pub open spec fn seeking(self, method: PhilMethod, id: int) -> PhilAction {
        if method == PhilMethod::OddEven {
            self.alternating(id)
        } else {
            match self.state(id) {
                PhilState::HasRight => if self.free(self.left(id)) {
                    PhilAction::TryLeft
                } else {
                    self.when_blocked(method, id, PhilAction::ReleaseRight)
                },
                PhilState::HasLeft => if self.free(self.right(id)) {
                    PhilAction::TryRight
                } else {
                    self.when_blocked(method, id, PhilAction::ReleaseLeft)
                },
                _ => self.opening(method, id),
            }
        }
    }

    /// The table after a thinker has looked at the count.
    pub open spec fn thought(self, id: int) -> Table {
        if self.appetite(id) {
            self.with_state(id, PhilState::HasNone).with_action(id, PhilAction::DoNothing)
        } else {
            self
        }
    }

    /// The table after a philosopher has settled on an action by a strategy.
    pub open spec fn settled(self, method: PhilMethod, id: int) -> Table {
        match self.state(id) {
            PhilState::HasBoth => self.with_action(id, PhilAction::ReleaseBoth),
            PhilState::IsFull => self,
            PhilState::Thinking => if method == PhilMethod::ForfeitWhenBlocked {
                self.with_state(id, PhilState::HasNone)
            } else {
                self.thought(id)
            },
            _ => self.with_action(id, self.seeking(method, id)),
        }
    }

    /// The table after a philosopher's check. A full philosopher goes back to
    /// thinking, which is not counted; any other check is.
    pub open spec fn checked(self, id: int) -> Table {
        if self.state(id) == PhilState::IsFull {
            self.with_state(id, PhilState::Thinking).with_action(id, PhilAction::DoNothing)
        } else {
            self.settled(self.method, id).ticked()
        }
    }

    /// Whether a philosopher may take a fork: it is free, it is one of its
    /// two, and the philosopher is hungry and lacks it.
    pub open spec fn can_acquire(self, id: int, fork: int) -> bool {
        &&& self.free(fork)
        &&& if fork == self.left(id) {
            self.state(id) == PhilState::HasNone || self.state(id) == PhilState::HasRight
        } else {
            &&& fork == self.right(id)
            &&& self.state(id) == PhilState::HasNone || self.state(id) == PhilState::HasLeft
        }
    }

    /// The table after a philosopher has tried to take a fork.
    pub open spec fn acquired(self, id: int, fork: int) -> Table {
        if self.can_acquire(id, fork) {
            let state = if self.state(id) != PhilState::HasNone {
                PhilState::HasBoth
            } else if fork == self.left(id) {
                PhilState::HasLeft
            } else {
                PhilState::HasRight
            };
            self.with_state(id, state).with_user(fork, Some(id as usize))
        } else {
            self
        }
    }

    /// The state of a philosopher who holds just the given fork.
    pub open spec fn holding_only(self, id: int, fork: int) -> PhilState {
        if fork == self.left(id) {
            PhilState::HasLeft
        } else {
            PhilState::HasRight
        }
    }

    /// Letting go of the fork ends a meal: the philosopher held more than it.
    pub open spec fn ends_meal(self, id: int, fork: int) -> bool {
        &&& self.holds(id, fork)
        &&& self.state(id) != PhilState::IsFull
        &&& self.state(id) != self.holding_only(id, fork)
    }

    /// The table after a philosopher has let go of a fork, if it held it.
    pub open spec fn released(self, id: int, fork: int) -> Table {
        if !self.holds(id, fork) {
            self
        } else if self.state(id) == PhilState::IsFull {
            self.with_user(fork, None)
        } else if self.ends_meal(id, fork) {
            self.with_meal(id).with_state(id, PhilState::IsFull).with_user(fork, None)
        } else {
            self.with_state(id, PhilState::HasNone).with_user(fork, None)
        }
    }

    /// The table after a philosopher has carried out its action.
    pub open spec fn acted(self, id: int) -> Table {
        let left = self.left(id);
        let right = self.right(id);
        match self.action(id) {
            PhilAction::DoNothing => self,
            PhilAction::TryLeft => self.acquired(id, left),
            PhilAction::TryRight => self.acquired(id, right),
            PhilAction::TryBoth => self.acquired(id, left).acquired(id, right),
            PhilAction::ReleaseLeft => self.released(id, left),
            PhilAction::ReleaseRight => self.released(id, right),
            PhilAction::ReleaseBoth => self.released(id, left).released(id, right),
        }
    }

    /// A check of this philosopher looks at the sum of the count and its number.
    pub open spec fn counts_on(self, method: PhilMethod, id: int) -> bool {
        self.state(id) == PhilState::Thinking && method != PhilMethod::ForfeitWhenBlocked
    }
}

impl AppState {
    /// The fork at a philosopher's left hand.
    pub fn left_fork(&self, id: usize) -> (fork: usize)
        ensures
            fork == self@.left(id as int),
            fork == id,
    {
        id
    }

    /// The fork at a philosopher's right hand.
    pub fn right_fork(&self, id: usize) -> (fork: usize)
        requires
            id < self.count,
        ensures
            fork == self@.right(id as int),
            fork < self.count,
            fork == (id + self.count - 1) % self.count as int,
    {
        proof {
            let n = self.count as int;
            if id == 0 {
                vstd::arithmetic::div_mod::lemma_small_mod((n - 1) as nat, n as nat);
            } else {
                vstd::arithmetic::div_mod::lemma_mod_add_multiples_vanish(id - 1, n);
                vstd::arithmetic::div_mod::lemma_small_mod((id - 1) as nat, n as nat);
            }
        }
        if id == 0 {
            self.count - 1
        } else {
            id - 1
        }
    }

    /// Whether nobody holds a fork.
    pub fn fork_free(&self, fork_id: usize) -> (r: bool)
        requires
            fork_id < self.forks@.len(),
        ensures
            r == self@.free(fork_id as int),
            r <==> self.forks@[fork_id as int].user is None,
    {
        self.forks[fork_id].user.is_none()
    }

    fn set_state(&mut self, id: usize, state: PhilState)
        requires
            id < old(self).philosophers@.len(),
        ensures
            final(self)@ == old(self)@.with_state(id as int, state),
    {
        let mut p: Philosopher = self.philosophers[id];
        p.state = state;
        self.philosophers.set(id, p);
    }

    fn set_action(&mut self, id: usize, action: PhilAction)
        requires
            id < old(self).philosophers@.len(),
        ensures
            final(self)@ == old(self)@.with_action(id as int, action),
    {
        let mut p: Philosopher = self.philosophers[id];
        p.action = action;
        self.philosophers.set(id, p);
    }

    fn set_user(&mut self, fork_id: usize, user: Option<usize>)
        requires
            fork_id < old(self).forks@.len(),
        ensures
            final(self)@ == old(self)@.with_user(fork_id as int, user),
    {
        let mut f: ForkState = self.forks[fork_id];
        f.user = user;
        self.forks.set(fork_id, f);
    }

    /// A philosopher's check.
    pub fn check_step_for(&mut self, id: usize)
        requires
            old(self)@.laid(),
            id < old(self).count,
            old(self)@.counts_on(old(self).method, id as int) ==> old(self).counter + id
                <= usize::MAX,
        ensures
            final(self)@ == old(self)@.checked(id as int),
    {
        if self.philosophers[id].state == PhilState::IsFull {
            self.set_state(id, PhilState::Thinking);
            self.set_action(id, PhilAction::DoNothing);
            return;
        }
        match self.method {
            PhilMethod::ForfeitWhenBlocked => self.forfeit_when_blocked(id),
            PhilMethod::WaitWhenBlocked => self.wait_when_blocked(id),
            PhilMethod::NCountRelease => self.n_count_release(id),
            PhilMethod::ResourceHierarchy => self.resource_hierarchy(id),
            PhilMethod::OddEven => self.odd_even(id),
        }
        self.counter = self.counter.wrapping_add(1);
    }

    /// Take what is free; give back a single fork whose partner is taken.
    pub fn forfeit_when_blocked(&mut self, id: usize)
        requires
            old(self)@.laid(),
            id < old(self).count,
        ensures
            final(self)@ == old(self)@.settled(PhilMethod::ForfeitWhenBlocked, id as int),
    {
        let left: usize = self.left_fork(id);
        let right: usize = self.right_fork(id);
        match self.philosophers[id].state {
            PhilState::HasNone => {
                let action = if self.fork_free(right) {
                    PhilAction::TryRight
                } else if self.fork_free(left) {
                    PhilAction::TryLeft
                } else {
                    PhilAction::DoNothing
                };
                self.set_action(id, action);
            },
            PhilState::HasRight => {
                let action = if self.fork_free(left) {
                    PhilAction::TryLeft
                } else {
                    PhilAction::ReleaseRight
                };
                self.set_action(id, action);
            },
            PhilState::HasLeft => {
                let action = if self.fork_free(right) {
                    PhilAction::TryRight
                } else {
                    PhilAction::ReleaseLeft
                };
                self.set_action(id, action);
            },
            PhilState::HasBoth => self.set_action(id, PhilAction::ReleaseBoth),
            PhilState::Thinking => self.set_state(id, PhilState::HasNone),
            PhilState::IsFull => {},
        }
    }

    /// Take what is free; hold on to a single fork until its partner is free.
    pub fn wait_when_blocked(&mut self, id: usize)
        requires
            old(self)@.laid(),
            id < old(self).count,
            old(self)@.state(id as int) == PhilState::Thinking ==> old(self).counter + id
                <= usize::MAX,
        ensures
            final(self)@ == old(self)@.settled(PhilMethod::WaitWhenBlocked, id as int),
    {
        let left: usize = self.left_fork(id);
        let right: usize = self.right_fork(id);
        match self.philosophers[id].state {
            PhilState::HasNone => {
                let action = if self.fork_free(right) {
                    PhilAction::TryRight
                } else if self.fork_free(left) {
                    PhilAction::TryLeft
                } else {
                    PhilAction::DoNothing
                };
                self.set_action(id, action);
            },
            PhilState::HasRight => {
                let action = if self.fork_free(left) {
                    PhilAction::TryLeft
                } else {
                    PhilAction::DoNothing
                };
                self.set_action(id, action);
            },
            PhilState::HasLeft => {
                let action = if self.fork_free(right) {
                    PhilAction::TryRight
                } else {
                    PhilAction::DoNothing
                };
                self.set_action(id, action);
            },
            PhilState::HasBoth => self.set_action(id, PhilAction::ReleaseBoth),
            PhilState::Thinking => self.think(id),
            PhilState::IsFull => {},
        }
    }

    /// Take what is free; give back a single fork when the count says so.
    pub fn n_count_release(&mut self, id: usize)
        requires
            old(self)@.laid(),
            id < old(self).count,
            old(self)@.state(id as int) == PhilState::Thinking ==> old(self).counter + id
                <= usize::MAX,
        ensures
            final(self)@ == old(self)@.settled(PhilMethod::NCountRelease, id as int),
    {
        let left: usize = self.left_fork(id);
        let right: usize = self.right_fork(id);
        let named: bool = id == self.counter % self.count + 1;
        match self.philosophers[id].state {
            PhilState::HasNone => {
                let action = if self.fork_free(right) {
                    PhilAction::TryRight
                } else if self.fork_free(left) {
                    PhilAction::TryLeft
                } else {
                    PhilAction::DoNothing
                };
                self.set_action(id, action);
            },
            PhilState::HasRight => {
                let action = if self.fork_free(left) {
                    PhilAction::TryLeft
                } else if named {
                    PhilAction::ReleaseRight
                } else {
                    PhilAction::DoNothing
                };
                self.set_action(id, action);
            },
            PhilState::HasLeft => {
                let action = if self.fork_free(right) {
                    PhilAction::TryRight
                } else if named {
                    PhilAction::ReleaseLeft
                } else {
                    PhilAction::DoNothing
                };
                self.set_action(id, action);
            },
            PhilState::HasBoth => self.set_action(id, PhilAction::ReleaseBoth),
            PhilState::Thinking => self.think(id),
            PhilState::IsFull => {},
        }
    }

    /// Take the lower-numbered fork first, and hold on to it.
    pub fn resource_hierarchy(&mut self, id: usize)
        requires
            old(self)@.laid(),
            id < old(self).count,
            old(self)@.state(id as int) == PhilState::Thinking ==> old(self).counter + id
                <= usize::MAX,
        ensures
            final(self)@ == old(self)@.settled(PhilMethod::ResourceHierarchy, id as int),
    {
        let left: usize = self.left_fork(id);
        let right: usize = self.right_fork(id);
        match self.philosophers[id].state {
            PhilState::HasNone => {
                let action = if right < left {
                    if self.fork_free(right) {
                        PhilAction::TryRight
                    } else {
                        PhilAction::DoNothing
                    }
                } else if self.fork_free(left) {
                    PhilAction::TryLeft
                } else {
                    PhilAction::DoNothing
                };
                self.set_action(id, action);
            },
            PhilState::HasRight => {
                let action = if self.fork_free(left) {
                    PhilAction::TryLeft
                } else {
                    PhilAction::DoNothing
                };
                self.set_action(id, action);
            },
            PhilState::HasLeft => {
                let action = if self.fork_free(right) {
                    PhilAction::TryRight
                } else {
                    PhilAction::DoNothing
                };
                self.set_action(id, action);
            },
            PhilState::HasBoth => self.set_action(id, PhilAction::ReleaseBoth),
            PhilState::Thinking => self.think(id),
            PhilState::IsFull => {},
        }
    }

    /// Reach for both forks on even or odd counts only, and let go on others.
    pub fn odd_even(&mut self, id: usize)
        requires
            old(self)@.laid(),
            id < old(self).count,
            old(self)@.state(id as int) == PhilState::Thinking ==> old(self).counter + id
                <= usize::MAX,
        ensures
            final(self)@ == old(self)@.settled(PhilMethod::OddEven, id as int),
    {
        let turn: bool = (id % 2) == (self.counter % 2);
        match self.philosophers[id].state {
            PhilState::HasNone => {
                let action = if turn {
                    PhilAction::TryBoth
                } else {
                    PhilAction::DoNothing
                };
                self.set_action(id, action);
            },
            PhilState::HasRight => {
                let action = if turn {
                    PhilAction::TryLeft
                } else {
                    PhilAction::ReleaseRight
                };
                self.set_action(id, action);
            },
            PhilState::HasLeft => {
                let action = if turn {
                    PhilAction::TryRight
                } else {
                    PhilAction::ReleaseLeft
                };
                self.set_action(id, action);
            },
            PhilState::HasBoth => self.set_action(id, PhilAction::ReleaseBoth),
            PhilState::Thinking => self.think(id),
            PhilState::IsFull => {},
        }
    }

    /// A thinker gets hungry at every third count.
    pub fn think(&mut self, id: usize)
        requires
            id < old(self).philosophers@.len(),
            old(self).counter + id <= usize::MAX,
        ensures
            final(self)@ == old(self)@.thought(id as int),
    {
        if ((self.counter + id) % 3) == 0 {
            self.set_state(id, PhilState::HasNone);
            self.set_action(id, PhilAction::DoNothing);
        }
    }

    /// A philosopher's act.
    pub fn act_step_for(&mut self, id: usize)
        requires
            old(self)@.laid(),
            id < old(self).count,
            old(self)@.acted(id as int).state(id as int) == PhilState::IsFull && old(self)@.state(
                id as int,
            ) != PhilState::IsFull ==> old(self)@.meals(id as int) < usize::MAX,
        ensures
            final(self)@ == old(self)@.acted(id as int),
    {
        let left: usize = self.left_fork(id);
        let right: usize = self.right_fork(id);
        match self.philosophers[id].action {
            PhilAction::TryLeft => {
                let _ = self.acquire(id, left);
            },
            PhilAction::TryRight => {
                let _ = self.acquire(id, right);
            },
            PhilAction::TryBoth => {
                let _ = self.acquire(id, left);
                let _ = self.acquire(id, right);
            },
            PhilAction::ReleaseLeft => {
                let _ = self.release(id, left);
            },
            PhilAction::ReleaseRight => {
                let _ = self.release(id, right);
            },
            PhilAction::ReleaseBoth => {
                let _ = self.release(id, left);
                let _ = self.release(id, right);
            },
            PhilAction::DoNothing => {},
        }
    }

    /// Tries to take a fork, and says whether that worked.
    pub fn acquire(&mut self, phil_id: usize, fork_id: usize) -> (taken: bool)
        requires
            old(self)@.laid(),
            phil_id < old(self).count,
            fork_id < old(self).count,
        ensures
            taken == old(self)@.can_acquire(phil_id as int, fork_id as int),
            taken ==> old(self).forks@[fork_id as int].user is None,
            taken ==> final(self).forks@[fork_id as int].user == Some(phil_id),
            !taken ==> final(self)@ == old(self)@,
            final(self)@ == old(self)@.acquired(phil_id as int, fork_id as int),
    {
        if !self.fork_free(fork_id) {
            return false;
        }
        let right: usize = self.right_fork(phil_id);
        let left: usize = self.left_fork(phil_id);
        let state = if fork_id == left {
            match self.philosophers[phil_id].state {
                PhilState::HasNone => PhilState::HasLeft,
                PhilState::HasRight => PhilState::HasBoth,
                _ => return false,
            }
        } else if fork_id == right {
            match self.philosophers[phil_id].state {
                PhilState::HasNone => PhilState::HasRight,
                PhilState::HasLeft => PhilState::HasBoth,
                _ => return false,
            }
        } else {
            return false;
        };
        self.set_state(phil_id, state);
        self.set_user(fork_id, Some(phil_id));
        true
    }

    /// Lets go of a fork, and says whether the philosopher held it.
    pub fn release(&mut self, phil_id: usize, fork_id: usize) -> (let_go: bool)
        requires
            old(self)@.laid(),
            phil_id < old(self).count,
            fork_id < old(self).count,
            old(self)@.ends_meal(phil_id as int, fork_id as int) ==> old(self)@.meals(
                phil_id as int,
            ) < usize::MAX,
        ensures
            let_go == old(self)@.holds(phil_id as int, fork_id as int),
            let_go <==> old(self).forks@[fork_id as int].user == Some(phil_id),
            let_go ==> final(self).forks@[fork_id as int].user is None,
            !let_go ==> final(self)@ == old(self)@,
            final(self)@ == old(self)@.released(phil_id as int, fork_id as int),
    {
        match self.forks[fork_id].user {
            Some(user) => {
                if user != phil_id {
                    return false;
                }
            },
            None => return false,
        }
        let current = self.philosophers[phil_id].state;
        if current != PhilState::IsFull {
            let matching = if fork_id == self.left_fork(phil_id) {
                PhilState::HasLeft
            } else {
                PhilState::HasRight
            };
            if current == matching {
                self.set_state(phil_id, PhilState::HasNone);
            } else {
                let mut p: Philosopher = self.philosophers[phil_id];
                p.meals = p.meals + 1;
                self.philosophers.set(phil_id, p);
                self.set_state(phil_id, PhilState::IsFull);
            }
        }
        self.set_user(fork_id, None);
        true
    }
}

} // verus!
