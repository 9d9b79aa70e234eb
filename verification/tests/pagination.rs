use audible_provider::pagination::has_next_page;
use audible_provider::pagination::next_page_cursor;

#[test]
fn a_next_page_exists_while_the_total_is_not_exhausted() {
    assert!(has_next_page(45, 2, 20));
    assert!(!has_next_page(40, 2, 20));
    assert!(!has_next_page(0, 1, 20));
    assert!(has_next_page(21, 1, 20));
    assert!(!has_next_page(20, 1, 20));
}

#[test]
fn the_cursor_names_the_successor_page_exactly_when_one_exists() {
    assert_eq!(next_page_cursor(45, 2, 20), Some(3));
    assert_eq!(next_page_cursor(40, 2, 20), None);
    assert_eq!(next_page_cursor(21, 1, 20), Some(2));
    assert_eq!(next_page_cursor(0, 1, 20), None);
}

#[test]
fn wide_totals_do_not_overflow_the_accounting() {
    assert!(has_next_page(i32::MAX, 1, i32::MAX - 1));
    assert!(!has_next_page(i32::MAX, 1, i32::MAX));
    assert!(!has_next_page(i32::MAX, i32::MAX / 20, 21));
}
