//! The check of the system clock against a time service.
use vstd::prelude::*;
use vstd::string::StrSliceExecFns;

verus! {

/// By how many seconds the system clock may be off.
pub const MAX_CLOCK_ERROR_SECS: u64 = 5;

/// Whether `c` is a decimal digit.
pub open spec fn is_digit(c: char) -> bool {
    '0' <= c <= '9'
}

/// The number that a row of decimal digits stands for.
pub open spec fn digits_value(s: Seq<char>) -> int
    decreases s.len(),
{
    if s.len() == 0 {
        0
    } else {
        10 * digits_value(s.drop_last()) + (s.last() as int - '0' as int)
    }
}

/// Whether a text consists of decimal digits.
pub open spec fn all_digits(s: Seq<char>) -> bool {
    forall|i: int| 0 <= i < s.len() ==> is_digit(#[trigger] s[i])
}

/// The number that digits stand for, with or without a minus sign: at least one digit, in 64 bits.
pub open spec fn signed_number(digits: Seq<char>, negative: bool) -> Option<int> {
    let value = if negative {
        -digits_value(digits)
    } else {
        digits_value(digits)
    };
    if digits.len() > 0 && all_digits(digits) && i64::MIN <= value <= i64::MAX {
        Some(value)
    } else {
        None
    }
}

/// The number that a text stands for: an optional sign, and digits.
pub open spec fn number(s: Seq<char>) -> Option<int> {
    if s.len() > 0 && s[0] == '-' {
        signed_number(s.skip(1), true)
    } else if s.len() > 0 && s[0] == '+' {
        signed_number(s.skip(1), false)
    } else {
        signed_number(s, false)
    }
}

/// The text before the number in an answer of the time service.
pub open spec fn answer_prefix() -> Seq<char> {
    "{\"unix_timestamp\":"@
}

/// The text after the number in an answer of the time service.
pub open spec fn answer_suffix() -> Seq<char> {
    "}"@
}

/// The seconds since 1970 in an answer of the time service.
pub open spec fn answered_time(text: Seq<char>) -> Option<int> {
    let p = answer_prefix();
    let q = answer_suffix();
    if text.len() < p.len() || text.take(p.len() as int) != p {
        None
    } else {
        let rest = text.skip(p.len() as int);
        if rest.len() < q.len() || rest.skip(rest.len() - q.len()) != q {
            None
        } else {
            number(rest.take(rest.len() - q.len()))
        }
    }
}

/// By how many seconds a clock that shows `system` is ahead, if the time is `tm` and the clock is
/// off by too much.
pub open spec fn clock_error(system: int, tm: int) -> Option<int> {
    let distance = if tm > system {
        tm - system
    } else {
        system - tm
    };
    if distance > MAX_CLOCK_ERROR_SECS {
        Some(system - tm)
    } else {
        None
    }
}

/// The start of a row of digits stands for no greater number than the whole.
proof fn digits_value_grows(s: Seq<char>, n: int)
    requires
        0 <= n <= s.len(),
        all_digits(s),
    ensures
        0 <= digits_value(s.take(n)) <= digits_value(s),
    decreases s.len(),
{
    if s.len() > 0 {
        let front = s.drop_last();
        assert forall|i: int| 0 <= i < front.len() implies is_digit(#[trigger] front[i]) by {
            assert(front[i] == s[i]);
        }
        assert(is_digit(s[s.len() - 1]));
        if n < s.len() {
            digits_value_grows(front, n);
            assert(front.take(n) =~= s.take(n));
        } else {
            digits_value_grows(front, front.len() as int);
            assert(front.take(front.len() as int) =~= front);
            assert(s.take(n) =~= s);
        }
    } else {
        assert(s.take(n) =~= s);
    }
}

/// The digits in `text` from `from` up to `to` as a number.
fn parse_digits(text: &str, from: usize, to: usize, negative: bool) -> (r: Option<i64>)
    requires
        from <= to <= text@.len(),
    ensures
        match r {
            Some(v) => signed_number(text@.subrange(from as int, to as int), negative) == Some(
                v as int,
            ),
            None => signed_number(text@.subrange(from as int, to as int), negative) is None,
        },
{
    let ghost digits = text@.subrange(from as int, to as int);
    if from == to {
        return None;
    }
    let mut value: i128 = 0;
    let mut i: usize = from;
    assert(digits.take(0).len() == 0);
    while i < to
        invariant
            from <= i <= to <= text@.len(),
            digits == text@.subrange(from as int, to as int),
            0 <= value <= 0x8000_0000_0000_0000,
            value == digits_value(digits.take(i - from)),
            forall|j: int| 0 <= j < i - from ==> is_digit(#[trigger] digits[j]),
        decreases to - i,
    {
        let c = text.get_char(i);
        let ghost n = i - from;
        assert(digits[n] == c);
        if c < '0' || c > '9' {
            assert(!is_digit(digits[n]));
            return None;
        }
        let d: i128 = c as u32 as i128 - 48;
        proof {
            let longer = digits.take(n + 1);
            assert(longer.drop_last() =~= digits.take(n));
            assert(longer.last() == c);
        }
        value = value * 10 + d;
        i = i + 1;
        if value > 0x8000_0000_0000_0000 {
            proof {
                if all_digits(digits) {
                    digits_value_grows(digits, n + 1);
                }
            }
            return None;
        }
    }
    assert(digits.take(to - from) =~= digits);
    if negative {
        Some((-value) as i64)
    } else if value == 0x8000_0000_0000_0000 {
        None
    } else {
        Some(value as i64)
    }
}

/// The part of `text` from `from` up to `to` as a number.
fn parse_number(text: &str, from: usize, to: usize) -> (r: Option<i64>)
    requires
        from <= to <= text@.len(),
    ensures
        match r {
            Some(v) => number(text@.subrange(from as int, to as int)) == Some(v as int),
            None => number(text@.subrange(from as int, to as int)) is None,
        },
{
    if from == to {
        return None;
    }
    let first = text.get_char(from);
    let ghost s = text@.subrange(from as int, to as int);
    assert(s[0] == first);
    if first == '-' || first == '+' {
        assert(text@.subrange(from + 1, to as int) =~= s.skip(1));
        parse_digits(text, from + 1, to, first == '-')
    } else {
        parse_digits(text, from, to, false)
    }
}

/// Whether `part` stands in `text` from `at` on.
fn stands_at(text: &str, at: usize, part: &str) -> (r: bool)
    requires
        at + part@.len() <= text@.len(),
    ensures
        r == (text@.subrange(at as int, at + part@.len()) == part@),
{
    let n: usize = part.unicode_len();
    let ghost there = text@.subrange(at as int, at + n);
    let total: usize = text.unicode_len();
    let mut i: usize = 0;
    while i < n
        invariant
            i <= n,
            n == part@.len(),
            total == text@.len(),
            at + n <= total,
            there == text@.subrange(at as int, at + n),
            forall|j: int| 0 <= j < i ==> there[j] == part@[j],
        decreases n - i,
    {
        if text.get_char(at + i) != part.get_char(i) {
            assert(there[i as int] != part@[i as int]);
            return false;
        }
        i = i + 1;
    }
    assert(there =~= part@);
    true
}

/// The seconds since 1970 in an answer of the time service.
pub fn parse_answer(text: &str) -> (r: Option<i64>)
    ensures
        match r {
            Some(v) => answered_time(text@) == Some(v as int),
            None => answered_time(text@) is None,
        },
{
    let prefix = "{\"unix_timestamp\":";
    let suffix = "}";
    let n: usize = text.unicode_len();
    let p: usize = prefix.unicode_len();
    let q: usize = suffix.unicode_len();
    if n < p {
        return None;
    }
    assert(text@.subrange(0, p as int) =~= text@.take(p as int));
    if !stands_at(text, 0, prefix) {
        return None;
    }
    let ghost rest = text@.skip(p as int);
    if n - p < q {
        return None;
    }
    let end: usize = n - q;
    assert(text@.subrange(end as int, end + q) =~= rest.skip(rest.len() - q));
    if !stands_at(text, end, suffix) {
        return None;
    }
    assert(text@.subrange(p as int, end as int) =~= rest.take(rest.len() - q));
    parse_number(text, p, end)
}

/// By how many seconds the system clock is ahead, if it shows `system` seconds since 1970 and is
/// off by more than 5 seconds according to the answer of the time service. `None` if it is not, or
/// if the answer is not understood.
pub fn system_time_error(text: &str, system: i64) -> (r: Option<i128>)
    ensures
        match answered_time(text@) {
            Some(tm) => match r {
                Some(error) => clock_error(system as int, tm) == Some(error as int),
                None => clock_error(system as int, tm) is None,
            },
            None => r is None,
        },
{
    match parse_answer(text) {
        Some(tm) => {
            let error: i128 = system as i128 - tm as i128;
            if error > MAX_CLOCK_ERROR_SECS as i128 || -error > MAX_CLOCK_ERROR_SECS as i128 {
                Some(error)
            } else {
                None
            }
        },
        None => None,
    }
}

/// A row of digits stands for ten times what it stands for without its last digit, plus that digit.
pub proof fn digits_count_in_tens(s: Seq<char>, c: char)
    ensures
        digits_value(Seq::empty()) == 0,
        digits_value(s.push(c)) == 10 * digits_value(s) + (c as int - 48),
        is_digit(c) <==> 48 <= c as int <= 57,
        all_digits(s.push(c)) <==> all_digits(s) && is_digit(c),
{
    let longer = s.push(c);
    assert(longer.drop_last() =~= s);
    assert(longer.last() == c);
    if all_digits(longer) {
        assert forall|i: int| 0 <= i < s.len() implies is_digit(#[trigger] s[i]) by {
            assert(longer[i] == s[i]);
        }
        assert(is_digit(longer[s.len() as int]));
    }
}

/// The number in a text is what its digits stand for, and its negative after a minus sign. A plus
/// sign changes nothing. Without digits, with anything else among them, or beyond 64 bits there is
/// no number.
pub proof fn signs_go_before_digits(d: Seq<char>)
    ensures
        d.len() > 0 && all_digits(d) && digits_value(d) <= 9_223_372_036_854_775_807 ==> {
            &&& number(d) == Some(digits_value(d))
            &&& number(seq!['+'] + d) == Some(digits_value(d))
        },
        d.len() > 0 && all_digits(d) && digits_value(d) > 9_223_372_036_854_775_807 ==> {
            &&& number(d) is None
            &&& number(seq!['+'] + d) is None
        },
        d.len() > 0 && all_digits(d) && digits_value(d) <= 9_223_372_036_854_775_808 ==> number(
            seq!['-'] + d,
        ) == Some(-digits_value(d)),
        d.len() > 0 && all_digits(d) && digits_value(d) > 9_223_372_036_854_775_808 ==> number(
            seq!['-'] + d,
        ) is None,
        d.len() == 0 || !all_digits(d) ==> number(seq!['-'] + d) is None && number(seq!['+'] + d)
            is None,
        number(d) is Some ==> d.len() > 0 && (all_digits(d) || ((d[0] == '-' || d[0] == '+')
            && all_digits(d.skip(1)))),
{
    assert((seq!['-'] + d).skip(1) =~= d);
    assert((seq!['+'] + d).skip(1) =~= d);
    if d.len() > 0 && all_digits(d) {
        assert(is_digit(d[0]));
        digits_value_grows(d, 0);
    }
}

/// The time service's answer is a number between `{"unix_timestamp":` and `}`, and nothing else is
/// an answer.
pub proof fn answer_is_a_number_in_braces(text: Seq<char>, inner: Seq<char>)
    ensures
        answered_time("{\"unix_timestamp\":"@ + inner + "}"@) == number(inner),
        answered_time(text) is Some ==> exists|part: Seq<char>|
            text == "{\"unix_timestamp\":"@ + part + "}"@ && #[trigger] number(part)
                == answered_time(text),
{
    let p = "{\"unix_timestamp\":"@;
    let q = "}"@;
    let whole = p + inner + q;
    let rest = whole.skip(p.len() as int);
    assert(whole.take(p.len() as int) =~= p);
    assert(rest =~= inner + q);
    assert(rest.skip(rest.len() - q.len()) =~= q);
    assert(rest.take(rest.len() - q.len()) =~= inner);
    if answered_time(text) is Some {
        let tail = text.skip(p.len() as int);
        let part = tail.take(tail.len() - q.len());
        assert(text =~= p + part + q) by {
            assert(text =~= text.take(p.len() as int) + tail);
            assert(tail =~= part + tail.skip(tail.len() - q.len()));
        }
        assert(number(part) == answered_time(text));
    }
}

/// The system clock is reported exactly if it is off by more than 5 seconds from the answer of the
/// time service, with the seconds by which it is ahead. Without an answer nothing is reported.
pub proof fn clock_may_be_off_by_five_seconds(
    text: &str,
    system: i64,
    tm: Option<i64>,
    r: Option<i128>,
)
    requires
        call_ensures(parse_answer, (text,), tm),
        call_ensures(system_time_error, (text, system), r),
    ensures
        tm is None <==> answered_time(text@) is None,
        tm matches Some(t) ==> answered_time(text@) == Some(t as int),
        tm is None ==> r is None,
        tm matches Some(t) ==> (r is Some <==> system - t > 5 || t - system > 5),
        tm matches Some(t) ==> (r matches Some(ahead) ==> t + ahead == system),
{
}

} // verus!
