use sms_chat::clock::{timestamp, DATE_LAYOUT};
use sms_chat::selection::{hold_to, step_down, step_up};

#[test]
fn step_down_moves_one_row() {
    assert_eq!(step_down(None, 3), Some(0));
    assert_eq!(step_down(Some(0), 3), Some(1));
    assert_eq!(step_down(Some(1), 3), Some(2));
    assert_eq!(step_down(Some(2), 3), Some(2));
    assert_eq!(step_down(Some(usize::MAX), 3), Some(2));
    assert_eq!(step_down(None, 0), None);
    assert_eq!(step_down(Some(0), 0), None);
}

#[test]
fn step_up_moves_one_row() {
    assert_eq!(step_up(None, 3), Some(2));
    assert_eq!(step_up(Some(2), 3), Some(1));
    assert_eq!(step_up(Some(1), 3), Some(0));
    assert_eq!(step_up(Some(0), 3), Some(0));
    assert_eq!(step_up(None, 0), None);
    assert_eq!(step_up(Some(5), 0), None);
    assert_eq!(step_up(Some(usize::MAX), usize::MAX), Some(usize::MAX - 1));
}

#[test]
fn hold_to_keeps_rows_of_the_list() {
    assert_eq!(hold_to(None, 4), None);
    assert_eq!(hold_to(Some(3), 4), Some(3));
    assert_eq!(hold_to(Some(4), 4), Some(3));
    assert_eq!(hold_to(Some(0), 0), None);
}

#[test]
fn timestamp_has_the_layout() {
    assert_eq!(DATE_LAYOUT, "%b %d %I:%M %p");
    let text = timestamp();
    let bytes = text.as_bytes();
    assert_eq!(bytes.len(), 15);
    assert!(bytes[0].is_ascii_uppercase());
    assert_eq!(bytes[3], b' ');
    assert!(bytes[4].is_ascii_digit() && bytes[5].is_ascii_digit());
    assert_eq!(bytes[6], b' ');
    assert_eq!(bytes[9], b':');
    assert!(text.ends_with(" AM") || text.ends_with(" PM"));
}
