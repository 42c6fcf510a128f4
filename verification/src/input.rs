//! Reading an index from a line of typed input.
//!
//! A line names an index when, with the white space around it removed, it is
//! an optional `+` followed by one or more ASCII digits whose decimal value
//! fits in a `usize`.

use vstd::prelude::*;
use vstd::string::*;
use crate::text::{decimal_text, digit_char};

verus! {

/// The characters that count as white space: the code points with the
/// Unicode property `White_Space`.
pub open spec fn is_whitespace(c: char) -> bool {
    let u = c as u32;
    ||| 0x09 <= u <= 0x0D
    ||| u == 0x20
    ||| u == 0x85
    ||| u == 0xA0
    ||| u == 0x1680
    ||| 0x2000 <= u <= 0x200A
    ||| u == 0x2028
    ||| u == 0x2029
    ||| u == 0x202F
    ||| u == 0x205F
    ||| u == 0x3000
}

/// `text` without the white space at its start.
pub open spec fn trim_start(text: Seq<char>) -> Seq<char>
    decreases text.len(),
{
    if text.len() > 0 && is_whitespace(text.first()) {
        trim_start(text.drop_first())
    } else {
        text
    }
}

/// `text` without the white space at its end.
pub open spec fn trim_end(text: Seq<char>) -> Seq<char>
    decreases text.len(),
{
    if text.len() > 0 && is_whitespace(text.last()) {
        trim_end(text.drop_last())
    } else {
        text
    }
}

/// `text` without the white space at either end.
pub open spec fn trimmed(text: Seq<char>) -> Seq<char> {
    trim_end(trim_start(text))
}

/// Whether `c` is one of the ASCII digits `0` to `9`.
pub open spec fn is_digit(c: char) -> bool {
    0x30 <= c as u32 <= 0x39
}

/// The value of a digit; 0 for any other character.
pub open spec fn digit_value(c: char) -> nat {
    if is_digit(c) {
        (c as u32 - 0x30) as nat
    } else {
        0
    }
}

/// Whether every character of `text` is an ASCII digit.
pub open spec fn all_digits(text: Seq<char>) -> bool {
    forall|i: int| 0 <= i < text.len() ==> is_digit(#[trigger] text[i])
}

/// The number that a sequence of digits denotes in base ten.
pub open spec fn decimal_value(digits: Seq<char>) -> nat
    decreases digits.len(),
{
    if digits.len() == 0 {
        0
    } else {
        10 * decimal_value(digits.drop_last()) + digit_value(digits.last())
    }
}

/// `text` without a leading `+`, if it has one.
pub open spec fn unsigned(text: Seq<char>) -> Seq<char> {
    if text.len() > 0 && text.first() == '+' {
        text.drop_first()
    } else {
        text
    }
}

/// The index that a line of input names, if it names one.
pub open spec fn parsed_index(line: Seq<char>) -> Option<usize> {
    let digits = unsigned(trimmed(line));
    if digits.len() > 0 && all_digits(digits) && decimal_value(digits) <= usize::MAX {
        Some(decimal_value(digits) as usize)
    } else {
        None
    }
}

/// Appending characters to a sequence of digits never lowers its value.
proof fn lemma_decimal_value_grows(digits: Seq<char>, len: int)
    requires
        0 <= len <= digits.len(),
    ensures
        decimal_value(digits.subrange(0, len)) <= decimal_value(digits),
    decreases digits.len() - len,
{
    if len == digits.len() {
        assert(digits.subrange(0, len) =~= digits);
    } else {
        let longer = digits.subrange(0, len + 1);
        assert(longer.drop_last() =~= digits.subrange(0, len));
        lemma_decimal_value_grows(digits, len + 1);
    }
}

/// Whether every character of `text` is white space.
pub open spec fn all_whitespace(text: Seq<char>) -> bool {
    forall|i: int| 0 <= i < text.len() ==> is_whitespace(#[trigger] text[i])
}

/// White space put before a text is removed with the white space at its
/// start.
pub proof fn lemma_trim_start_drops_blanks(before: Seq<char>, text: Seq<char>)
    requires
        all_whitespace(before),
    ensures
        trim_start(before + text) == trim_start(text),
    decreases before.len(),
{
    if before.len() == 0 {
        assert(before + text =~= text);
    } else {
        assert((before + text).drop_first() =~= before.drop_first() + text);
        assert(all_whitespace(before.drop_first()));
        lemma_trim_start_drops_blanks(before.drop_first(), text);
    }
}

/// White space put behind a text is removed with the white space at its
/// end.
pub proof fn lemma_trim_end_drops_blanks(text: Seq<char>, after: Seq<char>)
    requires
        all_whitespace(after),
    ensures
        trim_end(text + after) == trim_end(text),
    decreases after.len(),
{
    if after.len() == 0 {
        assert(text + after =~= text);
    } else {
        assert((text + after).drop_last() =~= text + after.drop_last());
        assert(all_whitespace(after.drop_last()));
        lemma_trim_end_drops_blanks(text, after.drop_last());
    }
}

/// Removing the white space at the start of a text that is followed by
/// white space: what is left of the text stays in front, unless nothing is
/// left at all.
proof fn lemma_trim_start_before_blanks(text: Seq<char>, after: Seq<char>)
    requires
        all_whitespace(after),
    ensures
        trim_start(text + after) == if trim_start(text).len() > 0 {
            trim_start(text) + after
        } else {
            Seq::<char>::empty()
        },
    decreases text.len(),
{
    if text.len() == 0 {
        assert(text + after =~= after + Seq::<char>::empty());
        lemma_trim_start_drops_blanks(after, Seq::empty());
    } else if is_whitespace(text.first()) {
        assert((text + after).drop_first() =~= text.drop_first() + after);
        lemma_trim_start_before_blanks(text.drop_first(), after);
    } else {
        assert((text + after).first() == text.first());
    }
}

/// White space around a line changes nothing about the index it names.
pub proof fn lemma_blanks_around_are_ignored(before: Seq<char>, line: Seq<char>, after: Seq<char>)
    requires
        all_whitespace(before),
        all_whitespace(after),
    ensures
        trimmed(before + line + after) == trimmed(line),
        parsed_index(before + line + after) == parsed_index(line),
{
    assert(before + line + after =~= before + (line + after));
    lemma_trim_start_drops_blanks(before, line + after);
    lemma_trim_start_before_blanks(line, after);
    if trim_start(line).len() > 0 {
        lemma_trim_end_drops_blanks(trim_start(line), after);
    }
}

/// The base ten form of a number holds digits only, at least one, and
/// denotes that number.
pub proof fn lemma_decimal_text_is_digits(n: nat)
    ensures
        decimal_text(n).len() > 0,
        all_digits(decimal_text(n)),
        decimal_value(decimal_text(n)) == n,
    decreases n,
{
    let text = decimal_text(n);
    if n < 10 {
        assert(decimal_value(text.drop_last()) == 0);
    } else {
        lemma_decimal_text_is_digits(n / 10);
        assert(text.drop_last() =~= decimal_text(n / 10));
        assert(all_digits(text)) by {
            assert forall|i: int| 0 <= i < text.len() implies is_digit(#[trigger] text[i]) by {
                if i < text.len() - 1 {
                    assert(text[i] == decimal_text(n / 10)[i]);
                }
            }
        }
    }
}

/// A number written in base ten is read as that number.
pub proof fn lemma_decimal_is_parsed(n: nat)
    requires
        n <= usize::MAX,
    ensures
        parsed_index(decimal_text(n)) == Some(n as usize),
{
    lemma_decimal_text_is_digits(n);
    let text = decimal_text(n);
    assert(trimmed(text) == text) by {
        assert(is_digit(text.first()) && is_digit(text.last()));
    }
}

fn is_blank(c: char) -> (blank: bool)
    ensures
        blank == is_whitespace(c),
{
    let u: u32 = c as u32;
    (0x09 <= u && u <= 0x0D) || u == 0x20 || u == 0x85 || u == 0xA0 || u == 0x1680 || (0x2000 <= u
        && u <= 0x200A) || u == 0x2028 || u == 0x2029 || u == 0x202F || u == 0x205F || u == 0x3000
}

/// Reads the index that `line` names.
///
/// White space around the number is ignored, so a line may still carry its
/// line ending. A sign other than `+`, a digit outside ASCII, an empty line
/// and a number too large for `usize` all give `None`.
pub fn parse_index(line: &str) -> (index: Option<usize>)
    ensures
        index == parsed_index(line@),
{
    let len: usize = line.unicode_len();
    let mut start: usize = 0;
    assert(line@.subrange(0, len as int) =~= line@);
    while start < len && is_blank(line.get_char(start))
        invariant
            len == line@.len(),
            start <= len,
            trim_start(line@) == trim_start(line@.subrange(start as int, len as int)),
        decreases len - start,
    {
        assert(line@.subrange(start as int, len as int).drop_first() =~= line@.subrange(
            start + 1,
            len as int,
        ));
        start = start + 1;
    }
    assert(trim_start(line@) == line@.subrange(start as int, len as int)) by {
        if start < len {
            assert(line@.subrange(start as int, len as int).first() == line@[start as int]);
        }
    }
    let mut end: usize = len;
    while end > start && is_blank(line.get_char(end - 1))
        invariant
            len == line@.len(),
            start <= end <= len,
            trimmed(line@) == trim_end(line@.subrange(start as int, end as int)),
        decreases end,
    {
        assert(line@.subrange(start as int, end as int).drop_last() =~= line@.subrange(
            start as int,
            end - 1,
        ));
        end = end - 1;
    }
    assert(trimmed(line@) == line@.subrange(start as int, end as int)) by {
        if start < end {
            assert(line@.subrange(start as int, end as int).last() == line@[end - 1]);
        }
    }
    let mut first: usize = start;
    if first < end && line.get_char(first) == '+' {
        first = first + 1;
    }
    let ghost digits = line@.subrange(first as int, end as int);
    assert(digits =~= unsigned(trimmed(line@)));
    if first == end {
        return None;
    }
    let mut value: usize = 0;
    let mut at: usize = first;
    while at < end
        invariant
            len == line@.len(),
            first <= at <= end <= len,
            digits == line@.subrange(first as int, end as int),
            digits == unsigned(trimmed(line@)),
            all_digits(digits.subrange(0, at - first)),
            value == decimal_value(digits.subrange(0, at - first)),
        decreases end - at,
    {
        let c: char = line.get_char(at);
        let u: u32 = c as u32;
        let ghost seen = digits.subrange(0, at - first);
        let ghost next = digits.subrange(0, at - first + 1);
        assert(next.drop_last() =~= seen && next.last() == c);
        if u < 0x30 || u > 0x39 {
            assert(!is_digit(digits[at - first]));
            return None;
        }
        let d: usize = (u - 0x30) as usize;
        if value > (usize::MAX - d) / 10 {
            proof {
                lemma_decimal_value_grows(digits, at - first + 1);
            }
            return None;
        }
        value = value * 10 + d;
        at = at + 1;
        assert(all_digits(next)) by {
            assert forall|i: int| 0 <= i < next.len() implies is_digit(#[trigger] next[i]) by {
                if i < seen.len() {
                    assert(next[i] == seen[i]);
                }
            }
        }
    }
    assert(digits.subrange(0, at - first) =~= digits);
    Some(value)
}

} // verus!
