//! Reading and writing the short texts the demos deal with.
use vstd::prelude::*;

verus! {

/// The character is one of `0` to `9`.
pub open spec fn is_digit(c: char) -> bool {
    48 <= c as int <= 57
}

/// The number that a digit stands for.
pub open spec fn digit_value(c: char) -> int {
    c as int - 48
}

/// At least one character, all of them digits.
pub open spec fn all_digits(s: Seq<char>) -> bool {
    s.len() > 0 && forall|i: int| 0 <= i < s.len() ==> is_digit(#[trigger] s[i])
}

/// The value of a sequence of digits, most significant first.
pub open spec fn digits_value(s: Seq<char>) -> int
    decreases s.len(),
{
    if s.len() == 0 {
        0
    } else {
        10 * digits_value(s.drop_last()) + digit_value(s.last())
    }
}

/// The natural number a text spells: an optional `+`, then digits.
pub open spec fn natural(s: Seq<char>) -> Option<int> {
    let body = if s.len() > 0 && s[0] == '+' {
        s.skip(1)
    } else {
        s
    };
    if all_digits(body) {
        Some(digits_value(body))
    } else {
        None
    }
}

/// The whole number a text spells: an optional sign, then digits.
pub open spec fn integer(s: Seq<char>) -> Option<int> {
    if s.len() > 0 && s[0] == '-' {
        if all_digits(s.skip(1)) {
            Some(-digits_value(s.skip(1)))
        } else {
            None
        }
    } else {
        natural(s)
    }
}

/// The smaller of two numbers.
pub open spec fn min_of(a: int, b: int) -> int {
    if a <= b {
        a
    } else {
        b
    }
}

proof fn lemma_digits_value_nonneg(s: Seq<char>)
    requires
        forall|i: int| 0 <= i < s.len() ==> is_digit(#[trigger] s[i]),
    ensures
        digits_value(s) >= 0,
    decreases s.len(),
{
    if s.len() > 0 {
        lemma_digits_value_nonneg(s.drop_last());
        assert(is_digit(s.last()));
    }
}

/// Reads the characters of `s` from `start` on as digits. The value is capped
/// at `cap`; a text that is not made of digits gives nothing.
fn scan_digits(s: &str, start: usize, cap: u128) -> (r: Option<u128>)
    requires
        start <= s@.len(),
        cap <= 0x1_0000_0000_0000_0000,
    ensures
        r is Some <==> all_digits(s@.skip(start as int)),
        r matches Some(v) ==> v == min_of(digits_value(s@.skip(start as int)), cap as int),
{
    let len: usize = s.unicode_len();
    if start >= len {
        return None;
    }
    let ghost body = s@.skip(start as int);
    let mut acc: u128 = 0;
    let mut i: usize = start;
    while i < len
        invariant
            start <= i <= len,
            len == s@.len(),
            body == s@.skip(start as int),
            cap <= 0x1_0000_0000_0000_0000,
            acc <= cap,
            forall|k: int| 0 <= k < i - start ==> is_digit(#[trigger] body[k]),
            acc == min_of(digits_value(body.take(i - start)), cap as int),
        decreases len - i,
    {
        let c: char = s.get_char(i);
        assert(c == body[i - start]);
        let code: u32 = c as u32;
        if code < 48 || code > 57 {
            assert(!is_digit(body[i - start]));
            return None;
        }
        let next: u128 = acc * 10 + (code - 48) as u128;
        proof {
            let before = body.take(i - start);
            let after = body.take(i - start + 1);
            assert(after.drop_last() =~= before);
            assert(after.last() == c);
            assert forall|k: int| 0 <= k < before.len() implies is_digit(#[trigger] before[k]) by {
                assert(before[k] == body[k]);
            }
            lemma_digits_value_nonneg(before);
        }
        acc = if next > cap {
            cap
        } else {
            next
        };
        i = i + 1;
    }
    assert(body.take(len - start) =~= body);
    Some(acc)
}

/// Reads a natural number no larger than `max`.
pub fn parse_natural(s: &str, max: u64) -> (r: Option<u64>)
    ensures
        match r {
            Some(n) => natural(s@) == Some(n as int) && n <= max,
            None => natural(s@) matches Some(v) ==> v > max,
        },
{
    let len: usize = s.unicode_len();
    let start: usize = if len > 0 && s.get_char(0) == '+' {
        1
    } else {
        0
    };
    assert(s@.skip(0) =~= s@);
    let cap: u128 = max as u128 + 1;
    match scan_digits(s, start, cap) {
        Some(v) => {
            if v <= max as u128 {
                Some(v as u64)
            } else {
                None
            }
        },
        None => None,
    }
}

/// What a text says about a count that must lie between one and some limit.
#[derive(Clone, Copy, Debug, PartialEq, Eq, Structural)]
pub enum CountText {
    /// The text is no whole number.
    NotANumber,
    /// A whole number below one or above the limit.
    OutOfRange,
    /// A number within the range.
    Count(usize),
}

/// What `s` says about a count between one and `max`.
pub open spec fn count_text(s: Seq<char>, max: int) -> CountText {
    match integer(s) {
        Some(v) => if 1 <= v <= max {
            CountText::Count(v as usize)
        } else {
            CountText::OutOfRange
        },
        None => CountText::NotANumber,
    }
}

/// Reads a count between one and `max`.
pub fn parse_count(s: &str, max: u32) -> (r: CountText)
    ensures
        r == count_text(s@, max as int),
        r is NotANumber <==> integer(s@) is None,
        forall|v: int|
            #[trigger] integer(s@) == Some(v) && 1 <= v <= max ==> r is Count && r->0 == v,
        forall|v: int| #[trigger] integer(s@) == Some(v) && !(1 <= v <= max) ==> r is OutOfRange,
{
    let len: usize = s.unicode_len();
    assert(s@.skip(0) =~= s@);
    let negative: bool = len > 0 && s.get_char(0) == '-';
    let start: usize = if len > 0 && (negative || s.get_char(0) == '+') {
        1
    } else {
        0
    };
    let cap: u128 = max as u128 + 1;
    match scan_digits(s, start, cap) {
        Some(v) => {
            proof {
                lemma_digits_value_nonneg(s@.skip(start as int));
            }
            if negative || v == 0 || v > max as u128 {
                CountText::OutOfRange
            } else {
                CountText::Count(v as usize)
            }
        },
        None => CountText::NotANumber,
    }
}

/// A character's code with ASCII capitals taken as small letters.
pub open spec fn folded(c: char) -> int {
    if 65 <= c as int <= 90 {
        c as int + 32
    } else {
        c as int
    }
}

/// Two texts are the same but for the case of ASCII letters.
pub open spec fn same_ignoring_case(a: Seq<char>, b: Seq<char>) -> bool {
    a.len() == b.len() && forall|i: int| 0 <= i < a.len() ==> #[trigger] folded(a[i]) == folded(b[i])
}

fn fold(c: char) -> (r: u32)
    ensures
        r == folded(c),
{
    let code: u32 = c as u32;
    if 65 <= code && code <= 90 {
        code + 32
    } else {
        code
    }
}

/// Compares two texts.
pub fn same_text(a: &str, b: &str) -> (r: bool)
    ensures
        r == (a@ == b@),
{
    let len: usize = a.unicode_len();
    if len != b.unicode_len() {
        return false;
    }
    let mut i: usize = 0;
    while i < len
        invariant
            i <= len,
            len == a@.len(),
            len == b@.len(),
            forall|k: int| 0 <= k < i ==> a@[k] == b@[k],
        decreases len - i,
    {
        if a.get_char(i) != b.get_char(i) {
            assert(a@[i as int] != b@[i as int]);
            return false;
        }
        i = i + 1;
    }
    assert(a@ =~= b@);
    true
}

/// Compares two texts, taking no account of the case of ASCII letters.
pub fn eq_ignore_ascii_case(a: &str, b: &str) -> (r: bool)
    ensures
        r == same_ignoring_case(a@, b@),
{
    let len: usize = a.unicode_len();
    if len != b.unicode_len() {
        return false;
    }
    let mut i: usize = 0;
    while i < len
        invariant
            i <= len,
            len == a@.len(),
            len == b@.len(),
            forall|k: int| 0 <= k < i ==> #[trigger] folded(a@[k]) == folded(b@[k]),
        decreases len - i,
    {
        if fold(a.get_char(i)) != fold(b.get_char(i)) {
            assert(folded(a@[i as int]) != folded(b@[i as int]));
            return false;
        }
        i = i + 1;
    }
    true
}

/// The character for a number below ten.
pub open spec fn digit_char(d: int) -> char {
    if d == 0 {
        '0'
    } else if d == 1 {
        '1'
    } else if d == 2 {
        '2'
    } else if d == 3 {
        '3'
    } else if d == 4 {
        '4'
    } else if d == 5 {
        '5'
    } else if d == 6 {
        '6'
    } else if d == 7 {
        '7'
    } else if d == 8 {
        '8'
    } else {
        '9'
    }
}

/// A number in decimal notation, without leading zeros.
pub open spec fn decimal(n: int) -> Seq<char>
    decreases n,
{
    if n < 10 {
        seq![digit_char(n)]
    } else {
        decimal(n / 10).push(digit_char(n % 10))
    }
}

/// A number in decimal notation, with at least two digits.
pub open spec fn decimal_two(n: int) -> Seq<char> {
    if n < 10 {
        seq!['0'] + decimal(n)
    } else {
        decimal(n)
    }
}

fn digit_text(d: u64) -> (r: &'static str)
    requires
        d < 10,
    ensures
        r@ =~= seq![digit_char(d as int)],
{
    proof {
        reveal_strlit("0");
        reveal_strlit("1");
        reveal_strlit("2");
        reveal_strlit("3");
        reveal_strlit("4");
        reveal_strlit("5");
        reveal_strlit("6");
        reveal_strlit("7");
        reveal_strlit("8");
        reveal_strlit("9");
    }
    match d {
        0 => "0",
        1 => "1",
        2 => "2",
        3 => "3",
        4 => "4",
        5 => "5",
        6 => "6",
        7 => "7",
        8 => "8",
        _ => "9",
    }
}

/// Appends a number in decimal notation.
pub fn push_decimal(s: &mut String, n: u64)
    ensures
        final(s)@ == old(s)@ + decimal(n as int),
    decreases n,
{
    if n >= 10 {
        push_decimal(s, n / 10);
    }
    s.append(digit_text(n % 10));
    assert(s@ =~= old(s)@ + decimal(n as int));
}

/// Appends a number with at least two digits.
pub fn push_decimal_two(s: &mut String, n: u64)
    ensures
        final(s)@ == old(s)@ + decimal_two(n as int),
{
    if n < 10 {
        s.append(digit_text(0));
    }
    push_decimal(s, n);
    assert(s@ =~= old(s)@ + decimal_two(n as int));
}

/// A digit behind a number makes it ten times as large and adds to it; a digit
/// alone, or behind a plus sign, stands for itself; no other character can end
/// a number, and a plus sign may stand before it but once.
pub proof fn law_numbers_grow_by_digits(s: Seq<char>, c: char)
    ensures
        natural(Seq::<char>::empty()) is None,
        '0' <= c <= '9' && (s.len() == 0 || s == seq!['+']) ==> natural(s.push(c)) == Some(
            c as int - '0' as int,
        ),
        '0' <= c <= '9' && s.len() > 0 && s != seq!['+'] ==> natural(s.push(c)) == (
        match natural(s) {
            Some(n) => Some(10 * n + (c as int - '0' as int)),
            None => None,
        }),
        !('0' <= c <= '9') ==> natural(s.push(c)) is None,
        s.len() > 0 && s[0] != '+' ==> natural(seq!['+'] + s) == natural(s),
        s.len() > 0 && s[0] == '+' ==> natural(seq!['+'] + s) is None,
{
    let t = s.push(c);
    assert(t.last() == c);
    assert(t.drop_last() =~= s);
    if s.len() > 0 && s[0] == '+' {
        let body = s.skip(1);
        assert(t.skip(1) =~= body.push(c));
        assert(body.push(c).drop_last() =~= body);
        if s.len() == 1 {
            assert(s =~= seq!['+']);
            assert(body =~= Seq::<char>::empty());
            assert(digits_value(body) == 0);
        }
        assert(body.push(c).last() == c);
        assert forall|i: int| 0 <= i < body.len() implies body.push(c)[i] == #[trigger] body[i] by {}
        if all_digits(body.push(c)) && body.len() > 0 {
            assert forall|i: int| 0 <= i < body.len() implies is_digit(#[trigger] body[i]) by {
                assert(is_digit(body.push(c)[i]));
            }
        }
        assert((seq!['+'] + s).skip(1) =~= s);
        assert(!is_digit(s[0]));
    } else {
        if s.len() == 0 {
            assert(s =~= Seq::<char>::empty());
            assert(t.skip(1) =~= Seq::<char>::empty());
            assert(digits_value(s) == 0);
        } else {
            if all_digits(t) {
                assert forall|i: int| 0 <= i < s.len() implies is_digit(#[trigger] s[i]) by {
                    assert(is_digit(t[i]));
                }
            }
            assert((seq!['+'] + s).skip(1) =~= s);
        }
    }
}

/// A minus sign turns the number behind it around, and nothing else may stand
/// between the two; without one, the text is read as a natural number.
pub proof fn law_minus_turns_around(s: Seq<char>)
    ensures
        s.len() > 0 && s[0] != '+' ==> integer(seq!['-'] + s) == (match natural(s) {
            Some(n) => Some(-n),
            None => None,
        }),
        s.len() == 0 || s[0] == '+' ==> integer(seq!['-'] + s) is None,
        s.len() > 0 && s[0] != '-' ==> integer(s) == natural(s),
{
    assert((seq!['-'] + s).skip(1) =~= s);
    if s.len() > 0 && s[0] == '+' {
        assert(!is_digit(s[0]));
    }
}

/// Texts are the same but for their case exactly if they are as long as each
/// other and each character is the other's, or its small letter, or its
/// capital.
pub proof fn law_only_the_case_differs(a: Seq<char>, b: Seq<char>)
    ensures
        same_ignoring_case(a, b) <==> a.len() == b.len() && forall|i: int|
            #![trigger a[i]]
            #![trigger b[i]]
            0 <= i < a.len() ==> a[i] == b[i] || ('A' <= a[i] <= 'Z' && a[i] as int + 32
                == b[i] as int) || ('A' <= b[i] <= 'Z' && b[i] as int + 32 == a[i] as int),
{
    if same_ignoring_case(a, b) {
        assert forall|i: int|
            #![trigger a[i]]
            0 <= i < a.len() implies a[i] == b[i] || ('A' <= a[i] <= 'Z' && a[i] as int + 32
            == b[i] as int) || ('A' <= b[i] <= 'Z' && b[i] as int + 32 == a[i] as int) by {
            assert(folded(a[i]) == folded(b[i]));
        }
    }
}

/// Numbers are written with digits only, with no zero in front of another
/// digit; with two digits at least, exactly the numbers below ten have one.
pub proof fn law_numbers_are_written_short(n: int)
    requires
        n >= 0,
    ensures
        forall|i: int| 0 <= i < decimal(n).len() ==> '0' <= #[trigger] decimal(n)[i] <= '9',
        decimal(n).len() >= 1,
        decimal(n).len() == 1 <==> n < 10,
        n > 0 ==> decimal(n)[0] != '0',
        n >= 10 ==> decimal_two(n) == decimal(n),
        n < 10 ==> decimal_two(n).len() == 2 && decimal_two(n)[0] == '0' && decimal_two(n)[1]
            == decimal(n)[0],
    decreases n,
{
    lemma_decimal_digits(n);
    assert forall|i: int| 0 <= i < decimal(n).len() implies '0' <= #[trigger] decimal(n)[i]
        <= '9' by {
        assert(is_digit(decimal(n)[i]));
    }
    if n >= 10 {
        law_numbers_are_written_short(n / 10);
        assert(decimal(n)[0] == decimal(n / 10)[0]);
    }
}

/// Reading back what was written gives the number again.
pub proof fn law_decimal_reads_back(n: int)
    requires
        n >= 0,
    ensures
        natural(decimal(n)) == Some(n),
        natural(decimal_two(n)) == Some(n),
{
    lemma_decimal_digits(n);
    let d = decimal(n);
    assert(is_digit(d[0]));
    if n < 10 {
        let t = decimal_two(n);
        assert(t =~= seq!['0', digit_char(n)]);
        assert(t.drop_last() =~= seq!['0']);
        assert(seq!['0'].drop_last() =~= Seq::<char>::empty());
        assert(digits_value(Seq::<char>::empty()) == 0);
        assert(digits_value(seq!['0']) == 0);
        assert(digits_value(t) == n);
        assert(all_digits(t));
    }
}

proof fn lemma_decimal_digits(n: int)
    requires
        n >= 0,
    ensures
        all_digits(decimal(n)),
        digits_value(decimal(n)) == n,
    decreases n,
{
    if n < 10 {
        assert(decimal(n).drop_last() =~= Seq::<char>::empty());
        assert(digits_value(decimal(n).drop_last()) == 0);
    } else {
        lemma_decimal_digits(n / 10);
        assert(decimal(n).drop_last() =~= decimal(n / 10));
        assert forall|i: int| 0 <= i < decimal(n).len() implies is_digit(#[trigger] decimal(n)[i]) by {
            if i < decimal(n).len() - 1 {
                assert(decimal(n)[i] == decimal(n / 10)[i]);
            }
        }
    }
}

} // verus!
