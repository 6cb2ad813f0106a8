//! Settings of the dining philosophers, and how the command line gives them.
use vstd::prelude::*;

use crate::dining::table::{AppState, ForkState, PhilAction, PhilMethod, PhilState, Philosopher};
use crate::text::{eq_ignore_ascii_case, parse_natural, push_decimal};
use crate::timing::Seconds;

verus! {

/// Settings of a run.
#[derive(Clone, Copy, Debug)]
pub struct DiningConfig {
    pub count: usize,
    pub speed: u32,
    pub step_mode: bool,
    pub method: PhilMethod,
}

/// The strategy a letter stands for.
pub open spec fn method_of(ch: char) -> PhilMethod {
    if ch == 'w' || ch == 'W' {
        PhilMethod::WaitWhenBlocked
    } else if ch == 'f' || ch == 'F' {
        PhilMethod::ForfeitWhenBlocked
    } else if ch == 'n' || ch == 'N' {
        PhilMethod::NCountRelease
    } else if ch == 'r' || ch == 'R' {
        PhilMethod::ResourceHierarchy
    } else {
        PhilMethod::OddEven
    }
}

/// How many philosophers the arguments ask for: two or more, else five.
pub open spec fn count_asked(args: Seq<String>) -> int {
    if args.len() > 0 {
        match crate::text::natural(args[0]@) {
            Some(n) if 2 <= n <= usize::MAX => n,
            _ => 5,
        }
    } else {
        5
    }
}

/// Whether the arguments ask for stepping by hand.
pub open spec fn steps_asked(args: Seq<String>) -> bool {
    args.len() > 1 && (crate::text::same_ignoring_case(args[1]@, "t"@)
        || crate::text::same_ignoring_case(args[1]@, "y"@))
}

/// The speed the arguments ask for: a positive number, else five.
pub open spec fn speed_asked(args: Seq<String>) -> int {
    if args.len() > 1 && !steps_asked(args) {
        match crate::text::natural(args[1]@) {
            Some(n) if 1 <= n <= u32::MAX => n,
            _ => 5,
        }
    } else {
        5
    }
}

/// The strategy the arguments ask for, by the first letter of the third.
pub open spec fn method_asked(args: Seq<String>) -> PhilMethod {
    if args.len() > 2 && args[2]@.len() > 0 {
        method_of(args[2]@[0])
    } else {
        PhilMethod::OddEven
    }
}

/// The name of a strategy on the screen.
pub open spec fn method_label(method: PhilMethod) -> Seq<char> {
    match method {
        PhilMethod::ForfeitWhenBlocked => "forfeit when blocked"@,
        PhilMethod::WaitWhenBlocked => "wait when blocked"@,
        PhilMethod::NCountRelease => "release on nth count"@,
        PhilMethod::ResourceHierarchy => "hierarchical resources"@,
        PhilMethod::OddEven => "odd-even check"@,
    }
}

/// Any number of philosophers from two on, written in any way, can be asked
/// for and is given, and any positive speed that the machine can count.
pub proof fn law_numbers_asked_for_are_given(args: Seq<String>, n: int)
    ensures
        args.len() > 0 && crate::text::natural(args[0]@) == Some(n) && 2 <= n <= usize::MAX
            ==> count_asked(args) == n,
        args.len() > 0 && args[0]@ == crate::text::decimal(n) && 2 <= n <= usize::MAX
            ==> count_asked(args) == n,
        args.len() > 1 && args[1]@ == crate::text::decimal(n) && 1 <= n <= u32::MAX ==> speed_asked(
            args,
        ) == n && !steps_asked(args),
{
    if n >= 1 {
        crate::text::law_decimal_reads_back(n);
        crate::text::law_numbers_are_written_short(n);
        if args.len() > 1 && args[1]@ == crate::text::decimal(n) {
            reveal_strlit("t");
            reveal_strlit("y");
            crate::text::law_only_the_case_differs(args[1]@, "t"@);
            crate::text::law_only_the_case_differs(args[1]@, "y"@);
            assert('0' <= args[1]@[0] <= '9');
        }
    }
}

impl PhilMethod {
    /// The strategy a letter stands for; odd-even for any other letter.
    pub fn from_char(ch: char) -> (method: Self)
        ensures
            method == method_of(ch),
            method == PhilMethod::WaitWhenBlocked <==> ch == 'w' || ch == 'W',
            method == PhilMethod::ForfeitWhenBlocked <==> ch == 'f' || ch == 'F',
            method == PhilMethod::NCountRelease <==> ch == 'n' || ch == 'N',
            method == PhilMethod::ResourceHierarchy <==> ch == 'r' || ch == 'R',
    {
        match ch {
            'w' | 'W' => PhilMethod::WaitWhenBlocked,
            'f' | 'F' => PhilMethod::ForfeitWhenBlocked,
            'n' | 'N' => PhilMethod::NCountRelease,
            'r' | 'R' => PhilMethod::ResourceHierarchy,
            'o' | 'O' => PhilMethod::OddEven,
            _ => PhilMethod::OddEven,
        }
    }

    /// The name of the strategy on the screen.
    pub fn label(self) -> (text: &'static str)
        ensures
            text@ == method_label(self),
            self == PhilMethod::ForfeitWhenBlocked ==> text@ == "forfeit when blocked"@,
            self == PhilMethod::WaitWhenBlocked ==> text@ == "wait when blocked"@,
            self == PhilMethod::NCountRelease ==> text@ == "release on nth count"@,
            self == PhilMethod::ResourceHierarchy ==> text@ == "hierarchical resources"@,
            self == PhilMethod::OddEven ==> text@ == "odd-even check"@,
    {
        match self {
            PhilMethod::ForfeitWhenBlocked => "forfeit when blocked",
            PhilMethod::WaitWhenBlocked => "wait when blocked",
            PhilMethod::NCountRelease => "release on nth count",
            PhilMethod::ResourceHierarchy => "hierarchical resources",
            PhilMethod::OddEven => "odd-even check",
        }
    }

    /// Whether the philosophers wait for one another before the first step.
    pub fn starts_together(self) -> (r: bool)
        ensures
            r == (self == PhilMethod::ForfeitWhenBlocked),
    {
        self == PhilMethod::ForfeitWhenBlocked
    }
}

impl DiningConfig {
    /// The pace of the run in words.
    pub open spec fn pace(self) -> Seq<char> {
        if self.step_mode {
            "step-through"@
        } else {
            "speed "@ + crate::text::decimal(self.speed as int)
        }
    }

    /// The settings that command-line arguments ask for.
    pub fn from_args(args: &Vec<String>) -> (config: Self)
        ensures
            config.count == count_asked(args@),
            config.speed == speed_asked(args@),
            config.step_mode == steps_asked(args@),
            config.method == method_asked(args@),
            config.count >= 2,
            config.speed > 0,
            forall|n: int|
                args@.len() > 0 && #[trigger] crate::text::natural(args@[0]@) == Some(n) && 2 <= n
                    <= usize::MAX ==> config.count == n,
            args@.len() == 0 || crate::text::natural(args@[0]@) is None || crate::text::natural(
                args@[0]@,
            )->0 < 2 || crate::text::natural(args@[0]@)->0 > usize::MAX ==> config.count == 5,
            config.step_mode <==> args@.len() > 1 && args@[1]@.len() == 1 && (args@[1]@[0] == 't'
                || args@[1]@[0] == 'T' || args@[1]@[0] == 'y' || args@[1]@[0] == 'Y'),
            args@.len() > 1 && crate::text::natural(args@[1]@) is Some && 1 <= crate::text::natural(
                args@[1]@,
            )->0 <= u32::MAX ==> config.speed == crate::text::natural(args@[1]@)->0,
            args@.len() <= 1 || crate::text::natural(args@[1]@) is None || crate::text::natural(
                args@[1]@,
            )->0 < 1 || crate::text::natural(args@[1]@)->0 > u32::MAX ==> config.speed == 5,
            args@.len() <= 2 || args@[2]@.len() == 0 ==> config.method == PhilMethod::OddEven,
            args@.len() > 2 && args@[2]@.len() > 0 ==> {
                let letter = args@[2]@[0];
                &&& config.method == PhilMethod::WaitWhenBlocked <==> letter == 'w' || letter == 'W'
                &&& config.method == PhilMethod::ForfeitWhenBlocked <==> letter == 'f' || letter
                    == 'F'
                &&& config.method == PhilMethod::NCountRelease <==> letter == 'n' || letter == 'N'
                &&& config.method == PhilMethod::ResourceHierarchy <==> letter == 'r' || letter
                    == 'R'
            },
    {
        proof {
            reveal_strlit("t");
            reveal_strlit("y");
            if args@.len() > 1 {
                let word = args@[1]@;
                crate::text::law_only_the_case_differs(word, "t"@);
                crate::text::law_only_the_case_differs(word, "y"@);
                if word.len() == 1 {
                    crate::text::law_numbers_grow_by_digits(Seq::empty(), word[0]);
                    assert(Seq::<char>::empty().push(word[0]) =~= word);
                }
            }
        }
        let count: usize = if args.len() > 0 {
            match parse_natural(args[0].as_str(), usize::MAX as u64) {
                Some(n) => {
                    if n >= 2 {
                        n as usize
                    } else {
                        5
                    }
                },
                None => 5,
            }
        } else {
            5
        };
        let step_mode: bool = args.len() > 1 && (eq_ignore_ascii_case(args[1].as_str(), "t")
            || eq_ignore_ascii_case(args[1].as_str(), "y"));
        let speed: u32 = if args.len() > 1 && !step_mode {
            match parse_natural(args[1].as_str(), u32::MAX as u64) {
                Some(n) => {
                    if n > 0 {
                        n as u32
                    } else {
                        5
                    }
                },
                None => 5,
            }
        } else {
            5
        };
        let method = if args.len() > 2 && args[2].as_str().unicode_len() > 0 {
            PhilMethod::from_char(args[2].as_str().get_char(0))
        } else {
            PhilMethod::OddEven
        };
        DiningConfig { count, speed, step_mode, method }
    }

    /// How long a philosopher rests after a step: one part in `speed` of a
    /// second, but no less than a fiftieth.
    pub fn frame_duration(&self) -> (d: Seconds)
        requires
            self.speed > 0,
        ensures
            d.numer == 1,
            d.denom == crate::text::min_of(self.speed as int, 50),
            self.speed <= 50 ==> d.denom == self.speed,
            self.speed > 50 ==> d.denom == 50,
    {
        if self.speed <= 50 {
            Seconds { numer: 1, denom: self.speed as u64 }
        } else {
            Seconds { numer: 1, denom: 50 }
        }
    }

    /// Appends the pace of the run in words.
    fn push_pace(&self, s: &mut String)
        ensures
            final(s)@ == old(s)@ + self.pace(),
    {
        if self.step_mode {
            s.append("step-through");
        } else {
            s.append("speed ");
            push_decimal(s, self.speed as u64);
            assert(s@ =~= old(s)@ + self.pace());
        }
    }

    /// The settings in words, as the control bar shows them.
    pub open spec fn summary_text(self) -> Seq<char> {
        crate::text::decimal(self.count as int) + " philosophers, "@ + self.pace() + ", "@
            + method_label(self.method)
    }

    /// The settings in words, as the control bar shows them.
    pub fn summary(&self) -> (text: String)
        ensures
            text@ == self.summary_text(),
            text@ == crate::text::decimal(self.count as int) + " philosophers, "@ + (
            if self.step_mode {
                "step-through"@
            } else {
                "speed "@ + crate::text::decimal(self.speed as int)
            }) + ", "@ + method_label(self.method),
    {
        let mut s = String::new();
        push_decimal(&mut s, self.count as u64);
        s.append(" philosophers, ");
        self.push_pace(&mut s);
        s.append(", ");
        s.append(self.method.label());
        assert(s@ =~= self.summary_text());
        s
    }

    /// The title of the window.
    pub fn title(&self) -> (text: String)
        ensures
            text@ == "Dining Philosophers ("@ + self.summary_text() + ")"@,
            text@ == "Dining Philosophers ("@ + (crate::text::decimal(self.count as int)
                + " philosophers, "@ + (if self.step_mode {
                "step-through"@
            } else {
                "speed "@ + crate::text::decimal(self.speed as int)
            }) + ", "@ + method_label(self.method)) + ")"@,
    {
        let mut s = String::new();
        s.append("Dining Philosophers (");
        s.append(self.summary().as_str());
        s.append(")");
        assert(s@ =~= "Dining Philosophers ("@ + self.summary_text() + ")"@);
        s
    }

    /// The line of the legend that names the pace.
    pub fn mode_line(&self) -> (text: String)
        ensures
            text@ == "Mode: "@ + self.pace(),
            self.step_mode ==> text@ == "Mode: "@ + "step-through"@,
            !self.step_mode ==> text@ == "Mode: "@ + ("speed "@ + crate::text::decimal(
                self.speed as int,
            )),
    {
        let mut s = String::new();
        s.append("Mode: ");
        self.push_pace(&mut s);
        assert(s@ =~= "Mode: "@ + self.pace());
        s
    }
}

impl AppState {
    /// A fresh table: everybody thinks, every fork is free, nobody has eaten.
    pub fn new(config: &DiningConfig) -> (app: Self)
        ensures
            app.method == config.method,
            app.count == config.count,
            app.counter == 0,
            app@.laid(),
            forall|i: int|
                0 <= i < app.count ==> (#[trigger] app@.philosophers[i]) == (Philosopher {
                    id: i as usize,
                    state: PhilState::Thinking,
                    action: PhilAction::DoNothing,
                    meals: 0,
                }),
            forall|i: int| 0 <= i < app.count ==> #[trigger] app@.free(i),
            config.count >= 2 ==> app@.sound(),
            config.method == PhilMethod::ResourceHierarchy ==> app@.ordered(),
    {
        let mut philosophers: Vec<Philosopher> = Vec::new();
        let mut forks: Vec<ForkState> = Vec::new();
        let mut id: usize = 0;
        while id < config.count
            invariant
                id <= config.count,
                philosophers@.len() == id,
                forks@.len() == id,
                forall|i: int|
                    0 <= i < id ==> (#[trigger] philosophers@[i]) == (Philosopher {
                        id: i as usize,
                        state: PhilState::Thinking,
                        action: PhilAction::DoNothing,
                        meals: 0,
                    }),
                forall|i: int|
                    0 <= i < id ==> (#[trigger] forks@[i]) == (ForkState {
                        id: i as usize,
                        user: None,
                    }),
            decreases config.count - id,
        {
            philosophers.push(
                Philosopher {
                    id,
                    state: PhilState::Thinking,
                    action: PhilAction::DoNothing,
                    meals: 0,
                },
            );
            forks.push(ForkState { id, user: None });
            id = id + 1;
        }
        AppState { method: config.method, count: config.count, counter: 0, philosophers, forks }
    }
}

} // verus!
