use weather_cli::error::WorkflowError;
use weather_cli::location::Location;
use weather_cli::resolver::{
    get_location_for_forecast, option_lines, read_selection, select_location,
    InvalidSelectionInput, Resolution,
    MAX_CANDIDATES,
};

fn place(name: &str, state: &str, country: &str) -> Location {
    Location { name: name.to_string(), state: state.to_string(), country: country.to_string() }
}

fn places(count: usize) -> Vec<Location> {
    (0..count).map(|i| place(&format!("Springfield {}", i), "IL", "US")).collect()
}

#[test]
fn display_form_lists_name_state_country() {
    assert_eq!(place("Springfield", "IL", "US").display_form(), "Springfield, IL, US");
    assert_eq!(place("", "", "").display_form(), ", , ");
    assert_eq!(place("Köln", "NRW", "DE").display_form(), "Köln, NRW, DE");
}

#[test]
fn no_match_is_no_location_found() {
    let result = get_location_for_forecast("Nowhere".to_string(), Vec::new());
    assert_eq!(result, Err(WorkflowError::NoLocationFound { query: "Nowhere".to_string() }));
}

#[test]
fn one_match_is_the_location() {
    let only = place("Springfield", "IL", "US");
    let result = get_location_for_forecast("Springfield".to_string(), vec![only.clone()]);
    assert_eq!(result, Ok(Resolution::Unique(only)));
}

#[test]
fn two_to_five_matches_are_left_to_the_user_in_order() {
    for count in 2..=5 {
        let found = places(count);
        let result = get_location_for_forecast("Springfield".to_string(), found.clone());
        assert_eq!(result, Ok(Resolution::Ambiguous(found)));
    }
}

#[test]
fn more_than_five_matches_overflow() {
    assert_eq!(MAX_CANDIDATES, 5);
    for count in [6, 7, 50] {
        let result = get_location_for_forecast("Springfield".to_string(), places(count));
        assert_eq!(result, Err(WorkflowError::AmbiguityOverflow { found: count }));
    }
}

#[test]
fn a_valid_index_takes_that_candidate_out() {
    let mut candidates = places(3);
    let chosen = select_location(&mut candidates, Some("1\n"));
    assert_eq!(chosen, Ok(place("Springfield 1", "IL", "US")));
    assert_eq!(candidates, vec![place("Springfield 0", "IL", "US"), place("Springfield 2", "IL", "US")]);
}

#[test]
fn first_and_last_index_are_valid() {
    let mut candidates = places(5);
    assert_eq!(select_location(&mut candidates, Some("4")), Ok(place("Springfield 4", "IL", "US")));
    assert_eq!(candidates.len(), 4);
    assert_eq!(select_location(&mut candidates, Some("0")), Ok(place("Springfield 0", "IL", "US")));
    assert_eq!(candidates.len(), 3);
}

#[test]
fn each_kind_of_invalid_line_is_told_apart() {
    let mut candidates = places(3);
    assert_eq!(select_location(&mut candidates, None), Err(InvalidSelectionInput::Unreadable));
    assert_eq!(select_location(&mut candidates, Some("abc\n")), Err(InvalidSelectionInput::NotAnIndex));
    assert_eq!(select_location(&mut candidates, Some("")), Err(InvalidSelectionInput::NotAnIndex));
    assert_eq!(select_location(&mut candidates, Some("-1")), Err(InvalidSelectionInput::NotAnIndex));
    assert_eq!(select_location(&mut candidates, Some("3\n")), Err(InvalidSelectionInput::OutOfRange));
    assert_eq!(select_location(&mut candidates, Some("9\n")), Err(InvalidSelectionInput::OutOfRange));
    assert_eq!(candidates, places(3));
}

#[test]
fn nothing_can_be_picked_from_no_candidates() {
    let mut candidates: Vec<Location> = Vec::new();
    assert_eq!(select_location(&mut candidates, Some("0")), Err(InvalidSelectionInput::OutOfRange));
    assert!(candidates.is_empty());
}

#[test]
fn invalid_lines_leave_the_candidates_until_a_valid_one_comes() {
    let mut candidates = places(4);
    let lines = [Some("x"), None, Some("4"), Some("  "), Some("2\n")];
    let mut rejected = 0;
    let mut chosen = None;
    for line in lines {
        match select_location(&mut candidates, line) {
            Ok(location) => {
                chosen = Some(location);
                break;
            }
            Err(_) => {
                rejected += 1;
                assert_eq!(candidates, places(4));
            }
        }
    }
    assert_eq!(rejected, 4);
    assert_eq!(chosen, Some(place("Springfield 2", "IL", "US")));
    assert_eq!(candidates.len(), 3);
}

#[test]
fn options_are_shown_under_the_index_that_picks_them() {
    let candidates = vec![
        place("Springfield", "IL", "US"),
        place("Springfield", "MA", "US"),
        place("Springfield", "MO", "US"),
    ];
    let lines = option_lines(&candidates);
    assert_eq!(
        lines,
        vec!["0. Springfield, IL, US", "1. Springfield, MA, US", "2. Springfield, MO, US"]
    );
    for (index, line) in lines.iter().enumerate() {
        let shown = line.split('.').next().unwrap();
        let mut left = candidates.clone();
        assert_eq!(select_location(&mut left, Some(shown)), Ok(candidates[index].clone()));
    }
}

#[test]
fn options_beyond_nine_keep_their_full_index() {
    let lines = option_lines(&places(12));
    assert_eq!(lines.len(), 12);
    assert_eq!(lines[9], "9. Springfield 9, IL, US");
    assert_eq!(lines[10], "10. Springfield 10, IL, US");
    assert_eq!(lines[11], "11. Springfield 11, IL, US");
    assert!(option_lines(&Vec::new()).is_empty());
}

#[test]
fn read_selection_gives_the_index_or_the_reason() {
    assert_eq!(read_selection(3, Some("2\n")), Ok(2));
    assert_eq!(read_selection(3, Some(" +0 ")), Ok(0));
    assert_eq!(read_selection(3, Some("3")), Err(InvalidSelectionInput::OutOfRange));
    assert_eq!(read_selection(0, Some("0")), Err(InvalidSelectionInput::OutOfRange));
    assert_eq!(read_selection(3, Some("two")), Err(InvalidSelectionInput::NotAnIndex));
    assert_eq!(
        read_selection(3, Some("99999999999999999999999999")),
        Err(InvalidSelectionInput::NotAnIndex)
    );
    assert_eq!(read_selection(3, None), Err(InvalidSelectionInput::Unreadable));
}
