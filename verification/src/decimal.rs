//! Unsigned decimal numbers as text, in both directions.

use vstd::prelude::*;

use crate::text;

verus! {

/// The character for a digit below ten.
pub open spec fn digit_char(d: int) -> char {
    ('0' as int + d) as char
}

/// The number that a digit character stands for.
pub open spec fn digit_value(c: char) -> int {
    c as int - '0' as int
}

/// The decimal digits of a number, without leading zeros.
pub open spec fn digits(n: nat) -> Seq<char>
    decreases n,
{
    if n < 10 {
        seq![digit_char(n as int)]
    } else {
        digits(n / 10).push(digit_char((n % 10) as int))
    }
}

/// The number that a run of digits stands for.
pub open spec fn digits_value(s: Seq<char>) -> int
    decreases s.len(),
{
    if s.len() == 0 {
        0
    } else {
        digits_value(s.drop_last()) * 10 + digit_value(s.last())
    }
}

/// The text without one leading plus sign.
pub open spec fn unsigned_part(s: Seq<char>) -> Seq<char> {
    if s.len() > 0 && s[0] == '+' {
        s.skip(1)
    } else {
        s
    }
}

/// The number that a text spells: an optional plus sign, then one or more digits, no more
/// than `max`.
pub open spec fn parse_unsigned(s: Seq<char>, max: int) -> Option<int> {
    let t = unsigned_part(s);
    if t.len() > 0 && text::all_digits(t) && digits_value(t) <= max {
        Some(digits_value(t))
    } else {
        None
    }
}

/// A run of digits stands for a number that is not negative, and no shorter beginning of it
/// stands for a larger one.
pub proof fn lemma_digits_value_grows(s: Seq<char>, i: int)
    requires
        text::all_digits(s),
        0 <= i <= s.len(),
    ensures
        0 <= digits_value(s.take(i)) <= digits_value(s),
    decreases s.len(),
{
    if s.len() == 0 {
        assert(s.take(i) =~= s);
    } else {
        assert(text::is_digit(s.last()));
        assert(text::all_digits(s.drop_last())) by {
            assert forall|j: int| 0 <= j < s.drop_last().len() implies text::is_digit(
                #[trigger] s.drop_last()[j],
            ) by {
                assert(text::is_digit(s[j]));
            }
        }
        if i == s.len() {
            assert(s.take(i) =~= s);
            lemma_digits_value_grows(s.drop_last(), 0);
            lemma_digits_value_grows(s.drop_last(), s.len() - 1);
            assert(s.drop_last().take(s.len() - 1) =~= s.drop_last());
        } else {
            lemma_digits_value_grows(s.drop_last(), i);
            assert(s.drop_last().take(i) =~= s.take(i));
        }
    }
}

/// The digits of a number are digits, and there is at least one of them.
pub proof fn lemma_digits_are_digits(n: nat)
    ensures
        text::all_digits(digits(n)),
        digits(n).len() > 0,
    decreases n,
{
    if n >= 10 {
        lemma_digits_are_digits(n / 10);
        let s = digits(n / 10);
        let d = (n % 10) as int;
        assert forall|j: int| 0 <= j < s.push(digit_char(d)).len() implies text::is_digit(
            #[trigger] s.push(digit_char(d))[j],
        ) by {
            if j < s.len() {
                assert(text::is_digit(s[j]));
            }
        }
    }
}

/// The digits of a number stand for that number.
pub proof fn lemma_digits_value_of_digits(n: nat)
    ensures
        digits_value(digits(n)) == n,
    decreases n,
{
    if n < 10 {
        let s = digits(n);
        assert(s.drop_last() =~= Seq::<char>::empty());
        assert(digits_value(s.drop_last()) == 0);
    } else {
        lemma_digits_value_of_digits(n / 10);
        let s = digits(n);
        assert(s.drop_last() =~= digits(n / 10));
    }
}

/// Parsing the decimal form of a number gives the number back, where the limit admits it.
pub proof fn lemma_parse_of_digits(n: nat, max: int)
    requires
        n <= max,
    ensures
        parse_unsigned(digits(n), max) == Some(n as int),
{
    lemma_digits_are_digits(n);
    lemma_digits_value_of_digits(n);
    assert(text::is_digit(digits(n)[0]));
}

/// The decimal form of a number.
pub fn decimal(n: u64) -> (s: String)
    ensures
        s@ == digits(n as nat),
    decreases n,
{
    let d: u8 = (n % 10) as u8;
    let c: char = (48u8 + d) as char;
    if n < 10 {
        let mut out = String::new();
        out.push(c);
        assert(out@ =~= digits(n as nat));
        out
    } else {
        let mut out = decimal(n / 10);
        out.push(c);
        out
    }
}

/// The number that the characters spell, no more than `max`.
pub fn parse_chars(s: &[char], max: u64) -> (r: Option<u64>)
    ensures
        match r {
            Some(v) => parse_unsigned(s@, max as int) == Some(v as int),
            None => parse_unsigned(s@, max as int) is None,
        },
{
    let from: usize = if s.len() > 0 && s[0] == '+' {
        1
    } else {
        0
    };
    let t = vstd::slice::slice_subrange(s, from, s.len());
    assert(t@ =~= unsigned_part(s@));
    if t.len() == 0 || !text::only_digits(t) {
        return None;
    }
    let mut acc: u64 = 0;
    let mut i: usize = 0;
    assert(t@.take(0) =~= Seq::<char>::empty());
    while i < t.len()
        invariant
            i <= t.len(),
            text::all_digits(t@),
            t@ == unsigned_part(s@),
            acc == digits_value(t@.take(i as int)),
            acc <= max,
        decreases t.len() - i,
    {
        assert(text::is_digit(t@[i as int]));
        let d: u64 = t[i] as u64 - 48;
        let next: u128 = acc as u128 * 10 + d as u128;
        proof {
            assert(t@.take(i + 1).drop_last() =~= t@.take(i as int));
            lemma_digits_value_grows(t@, i + 1);
        }
        if next > max as u128 {
            return None;
        }
        acc = next as u64;
        i += 1;
    }
    assert(t@.take(i as int) =~= t@);
    Some(acc)
}

/// The number that the string spells, no more than `max`.
pub fn parse_number(s: &str, max: u64) -> (r: Option<u64>)
    ensures
        match r {
            Some(v) => parse_unsigned(s@, max as int) == Some(v as int),
            None => parse_unsigned(s@, max as int) is None,
        },
{
    let chars = text::chars_of(s);
    parse_chars(&chars, max)
}

/// A number is written in its digits, without zeros in front, and read from them, with a plus sign in
/// front or without.
pub proof fn law_numbers_are_read_as_written(n: nat, max: int)
    requires
        n <= max,
    ensures
        parse_unsigned(digits(n), max) == Some(n as int),
        parse_unsigned(seq!['+'] + digits(n), max) == Some(n as int),
        n >= 10 ==> digits(n)[0] != '0',
        digits(n).len() >= 1,
    decreases n,
{
    lemma_parse_of_digits(n, max);
    lemma_digits_are_digits(n);
    lemma_digits_value_of_digits(n);
    assert((seq!['+'] + digits(n)).skip(1) =~= digits(n));
    if n >= 10 {
        lemma_digits_are_digits(n / 10);
        if n / 10 >= 10 {
            law_numbers_are_read_as_written(n / 10, max);
        }
        assert(digits(n)[0] == digits(n / 10)[0]);
    }
}

/// What is no number is not read as one: nothing at all, a plus sign alone, what holds anything but
/// digits behind it, and what is larger than allowed.
pub proof fn law_what_is_no_number(s: Seq<char>, i: int, n: nat, max: int)
    ensures
        parse_unsigned(Seq::<char>::empty(), max) is None,
        parse_unsigned(seq!['+'], max) is None,
        0 < i < s.len() && !text::is_digit(s[i]) ==> parse_unsigned(s, max) is None,
        s.len() > 0 && !text::is_digit(s[0]) && s[0] != '+' ==> parse_unsigned(s, max) is None,
        n > max ==> parse_unsigned(digits(n), max) is None,
{
    assert(seq!['+'].skip(1) =~= Seq::<char>::empty());
    let t = unsigned_part(s);
    if 0 < i < s.len() && !text::is_digit(s[i]) {
        if s[0] == '+' {
            assert(t[i - 1] == s[i]);
        }
    }
    lemma_digits_are_digits(n);
    lemma_digits_value_of_digits(n);
    assert(text::is_digit(digits(n)[0]));
}

} // verus!
