use hopper::selection::{parse_selection, SelectionError};

#[test]
fn single_and_range_choose_first_five() {
    assert_eq!(parse_selection("1 2 3-5", 5), Ok(vec![0, 1, 2, 3, 4]));
    assert_eq!(parse_selection("1 2 3-5", 9), Ok(vec![0, 1, 2, 3, 4]));
}

#[test]
fn non_numeric_token_is_refused() {
    assert_eq!(
        parse_selection("1 abc", 5),
        Err(SelectionError::InvalidSelectionNumber("abc".to_string()))
    );
}

#[test]
fn range_with_bad_bound_is_refused() {
    assert_eq!(
        parse_selection("2-x", 5),
        Err(SelectionError::InvalidSelectionNumber("2-x".to_string()))
    );
    assert_eq!(
        parse_selection("3-", 5),
        Err(SelectionError::InvalidSelectionNumber("3-".to_string()))
    );
}

#[test]
fn token_with_two_dashes_is_refused() {
    assert_eq!(
        parse_selection("1-2-3", 5),
        Err(SelectionError::InvalidSelectionToken("1-2-3".to_string()))
    );
}

#[test]
fn index_beyond_total_is_out_of_bounds() {
    assert_eq!(parse_selection("6", 5), Err(SelectionError::SelectionOutOfBounds(6, 5)));
    assert_eq!(parse_selection("1 4-8", 5), Err(SelectionError::SelectionOutOfBounds(6, 5)));
}

#[test]
fn zero_is_no_positive_integer() {
    assert_eq!(
        parse_selection("0", 5),
        Err(SelectionError::InvalidSelectionNumber("0".to_string()))
    );
    assert_eq!(
        parse_selection("2 1-0", 5),
        Err(SelectionError::InvalidSelectionNumber("1-0".to_string()))
    );
    assert_eq!(
        parse_selection("0-3", 5),
        Err(SelectionError::InvalidSelectionNumber("0-3".to_string()))
    );
}

#[test]
fn unicode_whitespace_separates_tokens() {
    assert_eq!(parse_selection("1\u{a0}3\u{3000}2\u{b}", 3), Ok(vec![0, 1, 2]));
}

#[test]
fn bad_token_wins_over_out_of_bounds() {
    assert_eq!(
        parse_selection("9 abc", 5),
        Err(SelectionError::InvalidSelectionNumber("abc".to_string()))
    );
}

#[test]
fn empty_input_selects_nothing() {
    assert_eq!(parse_selection("", 5), Ok(vec![]));
    assert_eq!(parse_selection("   \t ", 5), Ok(vec![]));
}

#[test]
fn duplicates_collapse_and_come_out_ascending() {
    assert_eq!(parse_selection("3 1 3 2-3", 5), Ok(vec![0, 1, 2]));
}

#[test]
fn blanks_of_any_kind_separate_tokens() {
    assert_eq!(parse_selection("  2\t1\n", 3), Ok(vec![0, 1]));
}

#[test]
fn reversed_range_selects_nothing() {
    assert_eq!(parse_selection("5-3", 5), Ok(vec![]));
}

#[test]
fn number_too_large_is_refused() {
    assert_eq!(
        parse_selection("99999999999999999999999", 5),
        Err(SelectionError::InvalidSelectionNumber("99999999999999999999999".to_string()))
    );
}

#[test]
fn no_hits_refuses_any_index() {
    assert_eq!(parse_selection("1", 0), Err(SelectionError::SelectionOutOfBounds(1, 0)));
}
