//! Building the pieces of text that are shown to the user.

use vstd::prelude::*;
use vstd::string::*;

verus! {

/// The character that stands for a digit below ten.
pub open spec fn digit_char(d: nat) -> char {
    if d == 0 {
        '0'
    } else if d == 1 {
        '1'
    } else if d == 2 {
        '2'
    } else if d == 3 {
        '3'
    } else if d == 4 {
        '4'
    } else if d == 5 {
        '5'
    } else if d == 6 {
        '6'
    } else if d == 7 {
        '7'
    } else if d == 8 {
        '8'
    } else {
        '9'
    }
}

/// A number written in base ten, without sign or leading zeros.
pub open spec fn decimal_text(n: nat) -> Seq<char>
    decreases n,
{
    if n < 10 {
        seq![digit_char(n)]
    } else {
        decimal_text(n / 10).push(digit_char(n % 10))
    }
}

/// The items' texts in order, with `sep` between each two neighbours.
pub open spec fn joined(items: Seq<String>, sep: Seq<char>) -> Seq<char>
    decreases items.len(),
{
    if items.len() == 0 {
        Seq::empty()
    } else if items.len() == 1 {
        items[0]@
    } else {
        joined(items.drop_last(), sep) + sep + items.last()@
    }
}

/// Whether `part` stands somewhere in `whole`, in one piece.
pub open spec fn occurs_in(part: Seq<char>, whole: Seq<char>) -> bool {
    exists|at: int|
        0 <= at && at + part.len() <= whole.len() && #[trigger] whole.subrange(
            at,
            at + part.len(),
        ) == part
}

/// What occurs in a text still occurs in it after more text is put before
/// and behind it.
pub proof fn lemma_occurs_in_extended(
    part: Seq<char>,
    whole: Seq<char>,
    before: Seq<char>,
    behind: Seq<char>,
)
    requires
        occurs_in(part, whole),
    ensures
        occurs_in(part, before + whole + behind),
{
    let at = choose|at: int|
        0 <= at && at + part.len() <= whole.len() && #[trigger] whole.subrange(
            at,
            at + part.len(),
        ) == part;
    let wider = before + whole + behind;
    let shifted = before.len() + at;
    assert(wider.subrange(shifted, shifted + part.len()) =~= part);
}

/// A text occurs in itself.
pub proof fn lemma_occurs_in_itself(part: Seq<char>)
    ensures
        occurs_in(part, part),
{
    assert(part.subrange(0, 0 + part.len() as int) =~= part);
}

/// Every item occurs in the joined text.
pub proof fn lemma_joined_holds_each(items: Seq<String>, sep: Seq<char>, i: int)
    requires
        0 <= i < items.len(),
    ensures
        occurs_in(items[i]@, joined(items, sep)),
    decreases items.len(),
{
    let empty = Seq::<char>::empty();
    let front = joined(items.drop_last(), sep);
    if items.len() == 1 {
        lemma_occurs_in_itself(items[0]@);
    } else if i == items.len() - 1 {
        lemma_occurs_in_itself(items[i]@);
        lemma_occurs_in_extended(items[i]@, items[i]@, front + sep, empty);
        assert(front + sep + items[i]@ + empty =~= joined(items, sep));
    } else {
        lemma_joined_holds_each(items.drop_last(), sep, i);
        lemma_occurs_in_extended(items[i]@, front, empty, sep + items.last()@);
        assert(empty + front + (sep + items.last()@) =~= joined(items, sep));
    }
}

fn digit(d: usize) -> (text: &'static str)
    requires
        d < 10,
    ensures
        text@ == seq![digit_char(d as nat)],
{
    proof {
        reveal_strlit("0");
        reveal_strlit("1");
        reveal_strlit("2");
        reveal_strlit("3");
        reveal_strlit("4");
        reveal_strlit("5");
        reveal_strlit("6");
        reveal_strlit("7");
        reveal_strlit("8");
        reveal_strlit("9");
    }
    if d == 0 {
        "0"
    } else if d == 1 {
        "1"
    } else if d == 2 {
        "2"
    } else if d == 3 {
        "3"
    } else if d == 4 {
        "4"
    } else if d == 5 {
        "5"
    } else if d == 6 {
        "6"
    } else if d == 7 {
        "7"
    } else if d == 8 {
        "8"
    } else {
        "9"
    }
}

/// Writes `n` in base ten.
pub fn decimal(n: usize) -> (text: String)
    ensures
        text@ == decimal_text(n as nat),
    decreases n,
{
    if n < 10 {
        String::from_str(digit(n))
    } else {
        let mut text = decimal(n / 10);
        text.append(digit(n % 10));
        text
    }
}

/// Joins the items with `sep` between each two neighbours.
pub fn join(items: &Vec<String>, sep: &str) -> (text: String)
    ensures
        text@ == joined(items@, sep@),
{
    let mut text = String::new();
    let mut i: usize = 0;
    while i < items.len()
        invariant
            i <= items.len(),
            text@ == joined(items@.subrange(0, i as int), sep@),
        decreases items.len() - i,
    {
        let ghost done = items@.subrange(0, i as int);
        let ghost next = items@.subrange(0, i + 1);
        assert(next.drop_last() =~= done && next.last() == items@[i as int]);
        if i > 0 {
            text.append(sep);
        }
        text.append(items[i].as_str());
        assert(text@ =~= joined(next, sep@));
        i = i + 1;
    }
    assert(items@.subrange(0, i as int) =~= items@);
    text
}

} // verus!
