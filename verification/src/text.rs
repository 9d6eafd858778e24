//! Decimal text.
use vstd::prelude::*;

verus! {

/// `c` is a decimal digit.
pub open spec fn is_digit(c: char) -> bool {
    '0' <= c <= '9'
}

/// The number that a row of decimal digits stands for.
pub open spec fn digits_value(digits: Seq<char>) -> nat
    decreases digits.len(),
{
    if digits.len() == 0 {
        0
    } else {
        10 * digits_value(digits.drop_last()) + (digits.last() as nat - '0' as nat) as nat
    }
}

/// `s` without the plus sign that it may start with.
pub open spec fn without_plus(s: Seq<char>) -> Seq<char> {
    if s.len() > 0 && s[0] == '+' {
        s.drop_first()
    } else {
        s
    }
}

/// The number that `s` stands for: one digit or more, after a plus sign or none.
pub open spec fn unsigned_value(s: Seq<char>) -> Option<nat> {
    let digits = without_plus(s);
    if digits.len() > 0 && (forall|i: int| 0 <= i < digits.len() ==> is_digit(#[trigger] digits[i])) {
        Some(digits_value(digits))
    } else {
        None
    }
}

/// The number that `s` stands for, if it stands for one and that is at most `max`.
pub fn parse_unsigned(s: &str, max: u64) -> (value: Option<u64>)
    ensures
        value matches Some(n) ==> unsigned_value(s@) == Some(n as nat) && n <= max,
        value is None ==> (unsigned_value(s@) matches Some(n) ==> n > max),
{
    let len: usize = s.unicode_len();
    let start: usize = if len > 0 && s.get_char(0) == '+' {
        1
    } else {
        0
    };
    let ghost digits = without_plus(s@);
    if start == len {
        return None;
    }
    let mut value: u64 = 0;
    let mut too_large: bool = false;
    let mut i: usize = start;
    while i < len
        invariant
            start <= i <= len,
            start <= 1,
            len == s@.len(),
            digits == s@.skip(start as int),
            digits == without_plus(s@),
            forall|k: int| 0 <= k < i - start ==> is_digit(#[trigger] digits[k]),
            value <= max,
            !too_large ==> value == digits_value(digits.take(i - start)),
            too_large ==> digits_value(digits.take(i - start)) > max,
        decreases len - i,
    {
        let c = s.get_char(i);
        assert(c == digits[i - start]);
        if c < '0' || '9' < c {
            return None;
        }
        let digit: u64 = (c as u32 - '0' as u32) as u64;
        assert(digits.take(i + 1 - start).drop_last() =~= digits.take(i - start));
        if !too_large && digit <= max && value <= (max - digit) / 10 {
            value = value * 10 + digit;
        } else {
            too_large = true;
        }
        i += 1;
    }
    assert(digits.take(len - start) =~= digits);
    if too_large {
        None
    } else {
        Some(value)
    }
}

/// A text of one character is a number if that is one of the ten digits, and then
/// that digit's value.
pub proof fn law_one_character(c: char)
    ensures
        '0' <= c <= '9' ==> unsigned_value(seq![c]) == Some((c as nat - 48) as nat),
        !('0' <= c <= '9') ==> unsigned_value(seq![c]) is None,
{
    let s = seq![c];
    reveal_with_fuel(digits_value, 2);
    if c != '+' {
        assert(is_digit(c) == is_digit(without_plus(s)[0]));
    }
}

/// The empty text is no number, and a plus sign alone is none.
pub proof fn law_no_digits_no_number()
    ensures
        unsigned_value(Seq::<char>::empty()) is None,
        unsigned_value(seq!['+']) is None,
{
}

/// A digit behind a number multiplies it by ten and adds its own value, however
/// long the number is. Any other character behind it spoils it.
pub proof fn law_character_behind_a_number(s: Seq<char>, c: char, v: nat)
    requires
        unsigned_value(s) == Some(v),
    ensures
        '0' <= c <= '9' ==> unsigned_value(s.push(c)) == Some((10 * v + c as nat - 48) as nat),
        !('0' <= c <= '9') ==> unsigned_value(s.push(c)) is None,
{
    let digits = without_plus(s);
    let longer = without_plus(s.push(c));
    assert(longer =~= digits.push(c));
    assert(longer.drop_last() =~= digits);
    assert(longer.last() == c);
    assert(forall|i: int| 0 <= i < digits.len() ==> is_digit(#[trigger] digits[i]));
    if is_digit(c) {
        assert forall|i: int| 0 <= i < longer.len() implies is_digit(#[trigger] longer[i]) by {
            if i < digits.len() {
                assert(longer[i] == digits[i]);
            }
        }
    } else {
        assert(!is_digit(longer[digits.len() as int]));
    }
}

/// Nothing that is added behind makes a number of a text that is none, unless
/// that text is empty or a plus sign.
pub proof fn law_no_number_stays_none(s: Seq<char>, c: char)
    requires
        unsigned_value(s) is None,
        s.len() > 0,
        s != seq!['+'],
    ensures
        unsigned_value(s.push(c)) is None,
{
    let digits = without_plus(s);
    let longer = without_plus(s.push(c));
    assert(longer =~= digits.push(c));
    if digits.len() == 0 {
        assert(s =~= seq!['+']);
    } else {
        let i = choose|i: int| 0 <= i < digits.len() && !is_digit(#[trigger] digits[i]);
        assert(!is_digit(longer[i]));
    }
}

/// A plus sign before a text that has none makes no difference.
pub proof fn law_plus_sign_makes_no_difference(s: Seq<char>)
    requires
        s.len() > 0,
        s[0] != '+',
    ensures
        unsigned_value(seq!['+'] + s) == unsigned_value(s),
{
    assert(without_plus(seq!['+'] + s) =~= s);
}

} // verus!
