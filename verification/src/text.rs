//! Character classes, decimal numbers and small text utilities shared by the
//! tokenizer, the rung translator and the parser.

use vstd::prelude::*;
use vstd::string::*;

verus! {

/// Whether `c` has the Unicode `Alphabetic` property, as `char::is_alphabetic`
/// reports it. The property is a table of the Unicode Character Database, so it
/// is named here and not written out.
pub uninterp spec fn alphabetic(c: char) -> bool;

/// `char::is_alphabetic`: the result is the Unicode `Alphabetic` property of the
/// character and depends on nothing else.
pub assume_specification[ char::is_alphabetic ](c: char) -> (b: bool)
    ensures
        b == alphabetic(c),
;

/// `String::push`: appends exactly one character to the end of the string.
pub assume_specification[ String::push ](s: &mut String, c: char)
    ensures
        final(s)@ == old(s)@.push(c),
;

/// `str == str`: two string slices are equal exactly when they hold the same
/// characters in the same order.
pub assume_specification[ <str as PartialEq>::eq ](a: &str, b: &str) -> (r: bool)
    ensures
        r == (a@ == b@),
;

/// The ten decimal digits.
pub open spec fn is_digit(c: char) -> bool {
    '0' <= c && c <= '9'
}

/// The value of a decimal digit.
pub open spec fn digit_value(c: char) -> nat
    recommends
        is_digit(c),
{
    (c as int - '0' as int) as nat
}

/// The character that writes the digit `d`.
pub open spec fn digit_char(d: nat) -> char
    recommends
        d < 10,
{
    if d == 0 {
        '0'
    } else if d == 1 {
        '1'
    } else if d == 2 {
        '2'
    } else if d == 3 {
        '3'
    } else if d == 4 {
        '4'
    } else if d == 5 {
        '5'
    } else if d == 6 {
        '6'
    } else if d == 7 {
        '7'
    } else if d == 8 {
        '8'
    } else {
        '9'
    }
}

/// Every character of `s` is a decimal digit.
pub open spec fn all_digits(s: Seq<char>) -> bool {
    forall|i: int| 0 <= i < s.len() ==> is_digit(#[trigger] s[i])
}

/// The number that a run of decimal digits writes, most significant digit first.
pub open spec fn digits_value(s: Seq<char>) -> nat
    decreases s.len(),
{
    if s.len() == 0 {
        0
    } else {
        digits_value(s.drop_last()) * 10 + digit_value(s.last())
    }
}

/// The value of `s` read as an unsigned decimal integer: `None` when `s` is empty
/// or holds anything but digits.
pub open spec fn decimal_value(s: Seq<char>) -> Option<nat> {
    if s.len() > 0 && all_digits(s) {
        Some(digits_value(s))
    } else {
        None
    }
}

/// The first position at or after `pos` that holds no decimal digit.
pub open spec fn digits_end(src: Seq<char>, pos: int) -> int
    decreases src.len() - pos,
{
    if 0 <= pos < src.len() && is_digit(src[pos]) {
        digits_end(src, pos + 1)
    } else {
        pos
    }
}

/// The integer part of a number literal: the digits with which it begins, up to
/// its point if it has one.
pub open spec fn whole_part(s: Seq<char>) -> Seq<char> {
    s.take(digits_end(s, 0))
}

/// The number that the integer part of a number literal writes. The value of
/// the literal is this number, or lies between it and the next.
pub open spec fn whole_value(s: Seq<char>) -> nat {
    digits_value(whole_part(s))
}

/// The decimal representation of `n`, without leading zeros.
pub open spec fn decimal(n: nat) -> Seq<char>
    decreases n,
{
    if n < 10 {
        seq![digit_char(n)]
    } else {
        decimal(n / 10).push(digit_char(n % 10))
    }
}

/// The texts of a list of strings.
pub open spec fn texts(v: Seq<String>) -> Seq<Seq<char>> {
    Seq::new(v.len(), |i: int| v[i]@)
}

/// Appending a string to a list appends its text to the list's texts.
pub proof fn lemma_texts_push(v: Seq<String>, s: String)
    ensures
        texts(v.push(s)) == texts(v).push(s@),
{
    assert(texts(v.push(s)) =~= texts(v).push(s@));
}

/// Whether `c` is one of the ten decimal digits.
pub fn is_decimal_digit(c: char) -> (b: bool)
    ensures
        b == is_digit(c),
{
    c >= '0' && c <= '9'
}

fn digit_of(c: char) -> (d: usize)
    requires
        is_digit(c),
    ensures
        d == digit_value(c),
        d < 10,
{
    if c == '0' {
        0
    } else if c == '1' {
        1
    } else if c == '2' {
        2
    } else if c == '3' {
        3
    } else if c == '4' {
        4
    } else if c == '5' {
        5
    } else if c == '6' {
        6
    } else if c == '7' {
        7
    } else if c == '8' {
        8
    } else {
        9
    }
}

fn char_of_digit(d: usize) -> (c: char)
    requires
        d < 10,
    ensures
        c == digit_char(d as nat),
{
    if d == 0 {
        '0'
    } else if d == 1 {
        '1'
    } else if d == 2 {
        '2'
    } else if d == 3 {
        '3'
    } else if d == 4 {
        '4'
    } else if d == 5 {
        '5'
    } else if d == 6 {
        '6'
    } else if d == 7 {
        '7'
    } else if d == 8 {
        '8'
    } else {
        '9'
    }
}

/// Reads `text` as an unsigned decimal integer no greater than `max`.
///
/// The result is `None` when `text` is empty, holds a character that is no
/// digit, or writes a number above `max`.
pub fn parse_number(text: &str, max: usize) -> (r: Option<usize>)
    ensures
        r == match decimal_value(text@) {
            Some(v) => if v <= max {
                Some(v as usize)
            } else {
                None
            },
            None => None,
        },
{
    broadcast use vstd::string::group_string_axioms;

    let mut value: usize = 0;
    let mut seen = false;
    for c in it: text.chars()
        invariant
            it.seq() == text@,
            all_digits(text@.take(it.index())),
            value == digits_value(text@.take(it.index())),
            value <= max,
            seen <==> it.index() > 0,
    {
        let ghost before = text@.take(it.index());
        let ghost after = text@.take(it.index() + 1);
        proof {
            assert(after.drop_last() =~= before);
            assert(after.last() == c);
        }
        if !is_decimal_digit(c) {
            proof {
                assert(text@[it.index()] == c);
            }
            return None;
        }
        let d = digit_of(c);
        if d > max || value > (max - d) / 10 {
            proof {
                assert(digits_value(after) == value * 10 + d);
                assert(value * 10 + d > max);
                lemma_digits_value_monotone(text@, it.index() + 1);
            }
            return None;
        }
        value = value * 10 + d;
        seen = true;
        proof {
            assert forall|i: int| 0 <= i < after.len() implies is_digit(#[trigger] after[i]) by {
                if i < before.len() {
                    assert(after[i] == before[i]);
                }
            }
        }
    }
    proof {
        assert(text@.take(text@.len() as int) =~= text@);
    }
    if seen {
        Some(value)
    } else {
        None
    }
}

/// Whether `text` is an unsigned decimal integer: one or more digits and nothing
/// else.
pub fn is_decimal_integer(text: &str) -> (integer: bool)
    ensures
        integer == decimal_value(text@) is Some,
{
    broadcast use vstd::string::group_string_axioms;

    let mut seen = false;
    for c in it: text.chars()
        invariant
            it.seq() == text@,
            all_digits(text@.take(it.index())),
            seen <==> it.index() > 0,
    {
        if !is_decimal_digit(c) {
            proof {
                assert(text@[it.index()] == c);
            }
            return false;
        }
        seen = true;
        proof {
            let before = text@.take(it.index());
            let after = text@.take(it.index() + 1);
            assert forall|i: int| 0 <= i < after.len() implies is_digit(#[trigger] after[i]) by {
                if i < before.len() {
                    assert(after[i] == before[i]);
                }
            }
        }
    }
    proof {
        assert(text@.take(text@.len() as int) =~= text@);
    }
    seen
}

/// Whether the integer part of the number literal `text` is below `bound`. A
/// literal with a fraction is below an integer bound exactly when its integer
/// part is.
pub fn whole_value_below(text: &str, bound: usize) -> (below: bool)
    ensures
        below == (whole_value(text@) < bound),
{
    broadcast use vstd::string::group_string_axioms;

    if bound == 0 {
        return false;
    }
    let mut value: usize = 0;
    let mut reached = false;
    for c in it: text.chars()
        invariant
            it.seq() == text@,
            bound > 0,
            digits_end(text@, 0) == digits_end(text@, it.index()),
            !reached ==> value == digits_value(text@.take(it.index())) && value < bound,
            reached ==> digits_value(text@.take(it.index())) >= bound,
    {
        let ghost before = text@.take(it.index());
        let ghost after = text@.take(it.index() + 1);
        proof {
            assert(text@[it.index()] == c);
            assert(after.drop_last() =~= before);
            assert(after.last() == c);
        }
        if !is_decimal_digit(c) {
            return !reached;
        }
        let d = digit_of(c);
        if !reached {
            if d >= bound || value > (bound - 1 - d) / 10 {
                reached = true;
            } else {
                value = value * 10 + d;
            }
        }
    }
    proof {
        assert(text@.take(text@.len() as int) =~= text@);
    }
    !reached
}

/// The end of a run of digits is at or after the cursor and within the text.
pub proof fn lemma_digits_end_in_text(src: Seq<char>, pos: int)
    requires
        0 <= pos <= src.len(),
    ensures
        pos <= digits_end(src, pos) <= src.len(),
    decreases src.len() - pos,
{
    if pos < src.len() && is_digit(src[pos]) {
        lemma_digits_end_in_text(src, pos + 1);
    }
}

/// A run of digits from `from` up to `end`, where the text ends or goes on with
/// something else, ends at `end`.
pub proof fn lemma_digits_end_of_run(src: Seq<char>, from: int, end: int)
    requires
        0 <= from <= end <= src.len(),
        forall|i: int| from <= i < end ==> is_digit(#[trigger] src[i]),
        end < src.len() ==> !is_digit(src[end]),
    ensures
        digits_end(src, from) == end,
    decreases end - from,
{
    if from < end {
        lemma_digits_end_of_run(src, from + 1, end);
    }
}

/// The integer part of a literal without a point is the whole literal.
pub proof fn lemma_whole_part_of_integer(s: Seq<char>)
    requires
        all_digits(s),
    ensures
        whole_part(s) == s,
{
    lemma_digits_end_of_run(s, 0, s.len() as int);
    assert(s.take(s.len() as int) =~= s);
}

/// The integer part of a literal with a point is what stands before the point.
pub proof fn lemma_whole_part_of_fraction(whole: Seq<char>, fraction: Seq<char>)
    requires
        all_digits(whole),
    ensures
        whole_part(whole + seq!['.'] + fraction) == whole,
{
    let s = whole + seq!['.'] + fraction;
    assert forall|i: int| 0 <= i < whole.len() implies is_digit(#[trigger] s[i]) by {
        assert(s[i] == whole[i]);
    }
    assert(s[whole.len() as int] == '.');
    lemma_digits_end_of_run(s, 0, whole.len() as int);
    assert(s.take(whole.len() as int) =~= whole);
}

/// A longer prefix of a run of digits writes a number that is no smaller.
pub proof fn lemma_digits_value_monotone(s: Seq<char>, n: int)
    requires
        0 <= n <= s.len(),
    ensures
        digits_value(s.take(n)) <= digits_value(s),
    decreases s.len() - n,
{
    if n == s.len() {
        assert(s.take(n) =~= s);
    } else {
        lemma_digits_value_monotone(s, n + 1);
        assert(s.take(n + 1).drop_last() =~= s.take(n));
    }
}

/// Appends the decimal representation of `n` to `out`.
pub fn push_decimal(out: &mut String, n: usize)
    ensures
        final(out)@ == old(out)@ + decimal(n as nat),
    decreases n,
{
    if n >= 10 {
        push_decimal(out, n / 10);
    }
    out.push(char_of_digit(n % 10));
    proof {
        if n < 10 {
            assert(old(out)@.push(digit_char(n as nat)) =~= old(out)@ + decimal(n as nat));
        } else {
            assert((old(out)@ + decimal((n / 10) as nat)).push(digit_char((n % 10) as nat))
                =~= old(out)@ + decimal(n as nat));
        }
    }
}

/// Whether two string slices hold the same text.
pub fn same_text(a: &str, b: &str) -> (same: bool)
    ensures
        same == (a@ == b@),
{
    *a == *b
}

/// Whether `list` holds a string with the text of `name`.
pub fn contains_text(list: &Vec<String>, name: &str) -> (found: bool)
    ensures
        found == texts(list@).contains(name@),
{
    let mut i: usize = 0;
    while i < list.len()
        invariant
            i <= list.len(),
            forall|j: int| 0 <= j < i ==> texts(list@)[j] != name@,
        decreases list.len() - i,
    {
        if same_text(list[i].as_str(), name) {
            proof {
                assert(texts(list@)[i as int] == name@);
            }
            return true;
        }
        i += 1;
    }
    false
}

} // verus!
