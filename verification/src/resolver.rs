//! From the result of a location search to exactly one location.
//!
//! A search that matches one location settles the matter. One that matches a
//! few asks the user: the candidates are shown under their indices, and a
//! typed line picks one of them; a line that picks none leaves the candidates
//! as they are and asks again.

use vstd::prelude::*;
use vstd::string::*;
use crate::error::WorkflowError;
use crate::input::{
    all_whitespace,
    lemma_blanks_around_are_ignored,
    lemma_decimal_is_parsed,
    parse_index,
    parsed_index,
};
use crate::location::{display_text, Location};
use crate::text::{decimal, decimal_text};

verus! {

/// The largest number of candidates that is offered for choice.
pub const MAX_CANDIDATES: usize = 5;

/// What a location search comes to when it can be used.
#[derive(Clone, Debug, PartialEq, Eq)]
pub enum Resolution {
    /// The search matched this one location.
    Unique(Location),
    /// The search matched these candidates, of which the user picks one.
    Ambiguous(Vec<Location>),
}

/// Why a typed line picks none of the candidates.
#[derive(Clone, Copy, Debug, PartialEq, Eq)]
pub enum InvalidSelectionInput {
    /// No line could be read.
    Unreadable,
    /// The line names no index.
    NotAnIndex,
    /// The line names an index that no candidate has.
    OutOfRange,
}

/// What the matches of a search for `query` come to.
pub open spec fn resolution(query: String, locations: Vec<Location>) -> Result<
    Resolution,
    WorkflowError,
> {
    let found = locations@.len();
    if found == 0 {
        Err(WorkflowError::NoLocationFound { query })
    } else if found == 1 {
        Ok(Resolution::Unique(locations@[0]))
    } else if found <= MAX_CANDIDATES {
        Ok(Resolution::Ambiguous(locations))
    } else {
        Err(WorkflowError::AmbiguityOverflow { found: found as usize })
    }
}

/// Decides what the matches of a search for `location_query` come to: no
/// match and more than [`MAX_CANDIDATES`] matches are errors, one match is
/// the location, and anything between is left to the user, in the order in
/// which the service reported it.
pub fn get_location_for_forecast(location_query: String, locations: Vec<Location>) -> (result:
    Result<Resolution, WorkflowError>)
    ensures
        result == resolution(location_query, locations),
{
    let found: usize = locations.len();
    if found == 0 {
        Err(WorkflowError::NoLocationFound { query: location_query })
    } else if found == 1 {
        let mut locations = locations;
        Ok(Resolution::Unique(locations.remove(0)))
    } else if found <= MAX_CANDIDATES {
        Ok(Resolution::Ambiguous(locations))
    } else {
        Err(WorkflowError::AmbiguityOverflow { found })
    }
}

/// The text of a line that may not have been read.
pub open spec fn line_text(input: Option<&str>) -> Option<Seq<char>> {
    match input {
        Some(line) => Some(line@),
        None => None,
    }
}

/// Which of `count` candidates a line picks, or why it picks none.
pub open spec fn selection(line: Option<Seq<char>>, count: nat) -> Result<
    int,
    InvalidSelectionInput,
> {
    match line {
        None => Err(InvalidSelectionInput::Unreadable),
        Some(text) => match parsed_index(text) {
            None => Err(InvalidSelectionInput::NotAnIndex),
            Some(index) => if index < count {
                Ok(index as int)
            } else {
                Err(InvalidSelectionInput::OutOfRange)
            },
        },
    }
}

/// Reads which of `count` candidates a line picks. `input` is the line as
/// it was read, or `None` where reading failed.
pub fn read_selection(count: usize, input: Option<&str>) -> (picked: Result<
    usize,
    InvalidSelectionInput,
>)
    ensures
        match selection(line_text(input), count as nat) {
            Ok(index) => picked == Ok::<usize, InvalidSelectionInput>(index as usize),
            Err(reason) => picked == Err::<usize, InvalidSelectionInput>(reason),
        },
{
    match input {
        None => Err(InvalidSelectionInput::Unreadable),
        Some(line) => match parse_index(line) {
            None => Err(InvalidSelectionInput::NotAnIndex),
            Some(index) => if index < count {
                Ok(index)
            } else {
                Err(InvalidSelectionInput::OutOfRange)
            },
        },
    }
}

/// Takes the candidate that the line picks out of `locations` and returns
/// it. A line that picks none leaves `locations` untouched and says why.
/// `input` is the line as it was read, or `None` where reading failed.
pub fn select_location(locations: &mut Vec<Location>, input: Option<&str>) -> (chosen: Result<
    Location,
    InvalidSelectionInput,
>)
    ensures
        match selection(line_text(input), old(locations)@.len()) {
            Ok(index) => {
                &&& chosen == Ok::<Location, InvalidSelectionInput>(old(locations)@[index])
                &&& final(locations)@ == old(locations)@.remove(index)
            },
            Err(reason) => {
                &&& chosen == Err::<Location, InvalidSelectionInput>(reason)
                &&& *final(locations) == *old(locations)
            },
        },
{
    match read_selection(locations.len(), input) {
        Ok(index) => Ok(locations.remove(index)),
        Err(reason) => Err(reason),
    }
}

/// The line under which a candidate is shown: its index, a full stop, a
/// space, and its display form.
pub open spec fn option_text(index: nat, location: Location) -> Seq<char> {
    decimal_text(index) + ". "@ + display_text(location)
}

/// The lines under which the candidates are shown: one for each, in their
/// order, each under the index that picks it.
pub fn option_lines(locations: &Vec<Location>) -> (lines: Vec<String>)
    ensures
        lines@.len() == locations@.len(),
        forall|i: int|
            0 <= i < locations@.len() ==> (#[trigger] lines@[i])@ == option_text(
                i as nat,
                locations@[i],
            ),
{
    let mut lines: Vec<String> = Vec::new();
    let mut i: usize = 0;
    while i < locations.len()
        invariant
            i <= locations@.len(),
            lines@.len() == i,
            forall|k: int|
                0 <= k < i ==> (#[trigger] lines@[k])@ == option_text(k as nat, locations@[k]),
        decreases locations@.len() - i,
    {
        let mut line = decimal(i);
        line.append(". ");
        line.append(locations[i].display_form().as_str());
        lines.push(line);
        i = i + 1;
    }
    lines
}

/// Where the candidates stand after the lines have been entered one after
/// the other, up to the first line that picks a candidate: the candidate
/// picked, if any line picked one, and the candidates that are left.
pub open spec fn after_lines(locations: Seq<Location>, lines: Seq<Option<Seq<char>>>) -> (
    Option<Location>,
    Seq<Location>,
)
    decreases lines.len(),
{
    if lines.len() == 0 {
        (None, locations)
    } else {
        match selection(lines.first(), locations.len()) {
            Ok(index) => (Some(locations[index]), locations.remove(index)),
            Err(_) => after_lines(locations, lines.drop_first()),
        }
    }
}

/// Lines that pick no candidate change nothing, however many there are: the
/// first line that picks a candidate gets the candidate at the index it
/// names, out of the candidates as they were at the start.
pub proof fn lemma_invalid_lines_then_valid(
    locations: Seq<Location>,
    invalid: Seq<Option<Seq<char>>>,
    valid: Option<Seq<char>>,
    index: int,
)
    requires
        forall|k: int|
            0 <= k < invalid.len() ==> selection(#[trigger] invalid[k], locations.len()) is Err,
        selection(valid, locations.len()) == Ok::<int, InvalidSelectionInput>(index),
    ensures
        0 <= index < locations.len(),
        after_lines(locations, invalid) == (None::<Location>, locations),
        after_lines(locations, invalid.push(valid)) == (
            Some(locations[index]),
            locations.remove(index),
        ),
    decreases invalid.len(),
{
    if invalid.len() > 0 {
        let rest = invalid.drop_first();
        assert(invalid.push(valid).drop_first() =~= rest.push(valid));
        assert forall|k: int| 0 <= k < rest.len() implies selection(
            #[trigger] rest[k],
            locations.len(),
        ) is Err by {
            assert(rest[k] == invalid[k + 1]);
        }
        lemma_invalid_lines_then_valid(locations, rest, valid, index);
    }
}

/// Entering the index under which a candidate is shown picks that candidate,
/// with or without white space, such as the line ending, around it.
pub proof fn lemma_shown_index_picks_its_candidate(
    locations: Seq<Location>,
    index: nat,
    before: Seq<char>,
    after: Seq<char>,
)
    requires
        index < locations.len() <= usize::MAX,
        all_whitespace(before),
        all_whitespace(after),
    ensures
        selection(Some(before + decimal_text(index) + after), locations.len()) == Ok::<
            int,
            InvalidSelectionInput,
        >(index as int),
{
    lemma_decimal_is_parsed(index);
    lemma_blanks_around_are_ignored(before, decimal_text(index), after);
}

} // verus!
