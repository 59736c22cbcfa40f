use banana::buffer::Buffer;

#[test]
fn new_buffer_starts_at_the_origin() {
    let b = Buffer::new(None, "hello\nworld");
    assert_eq!(b.cursor, (0, 0));
    assert_eq!(b.view, 0);
    assert_eq!(b.path, None);
    assert!(!b.path_is_set());
}

#[test]
fn valid_cursor_move_lands_exactly_there() {
    let mut b = Buffer::new(None, "hello\nworld");
    assert!(b.move_cursor_to(1, 3));
    assert_eq!(b.cursor, (1, 3));
    assert!(b.move_cursor_to(0, 5));
    assert_eq!(b.cursor, (0, 5));
}

#[test]
fn cursor_may_sit_at_line_end_but_not_past_it() {
    let mut b = Buffer::new(None, "hello\nworld");
    assert!(b.move_cursor_to(0, 5));
    assert_eq!(b.cursor, (0, 5));
    assert!(!b.move_cursor_to(0, 6));
    assert_eq!(b.cursor, (0, 5));
}

#[test]
fn invalid_cursor_moves_are_silent_no_ops() {
    let mut b = Buffer::new(None, "hello\nworld");
    assert!(b.move_cursor_to(1, 2));
    assert!(!b.move_cursor_to(2, 0));
    assert_eq!(b.cursor, (1, 2));
    assert!(!b.move_cursor_to(7, 7));
    assert_eq!(b.cursor, (1, 2));
}

#[test]
fn relative_cursor_moves_step_from_the_current_position() {
    let mut b = Buffer::new(None, "abc\ndef\nghi");
    assert!(b.move_cursor_down(None));
    assert_eq!(b.cursor, (1, 0));
    assert!(b.move_cursor_right(Some(2)));
    assert_eq!(b.cursor, (1, 2));
    assert!(b.move_cursor_up(None));
    assert_eq!(b.cursor, (0, 2));
    assert!(b.move_cursor_left(None));
    assert_eq!(b.cursor, (0, 1));
}

#[test]
fn cursor_moves_toward_the_origin_saturate_at_zero() {
    let mut b = Buffer::new(None, "abc\ndef");
    assert!(b.move_cursor_to(1, 2));
    assert!(b.move_cursor_up(Some(10)));
    assert_eq!(b.cursor, (0, 2));
    assert!(b.move_cursor_left(Some(10)));
    assert_eq!(b.cursor, (0, 0));
}

#[test]
fn relative_cursor_move_past_the_end_is_rejected() {
    let mut b = Buffer::new(None, "abc\ndef");
    assert!(!b.move_cursor_down(Some(2)));
    assert_eq!(b.cursor, (0, 0));
    assert!(!b.move_cursor_right(Some(4)));
    assert_eq!(b.cursor, (0, 0));
}

#[test]
fn view_move_succeeds_iff_the_window_still_fits() {
    let mut b = Buffer::new(None, "a\nb\nc\nd\ne\nf\ng\nh\ni\nj");
    assert!(b.move_view_to(5, 5));
    assert_eq!(b.view, 5);
    assert!(!b.move_view_to(6, 5));
    assert_eq!(b.view, 5);
}

#[test]
fn view_taller_than_the_document_fits_nowhere() {
    let mut b = Buffer::new(None, "a\nb");
    assert!(!b.move_view_to(0, 3));
    assert_eq!(b.view, 0);
    assert!(b.move_view_to(0, 2));
}

#[test]
fn relative_view_moves_step_and_saturate() {
    let mut b = Buffer::new(None, "a\nb\nc\nd\ne\nf\ng\nh\ni\nj");
    assert!(b.move_view_down(Some(3), 5));
    assert_eq!(b.view, 3);
    assert!(b.move_view_down(None, 5));
    assert_eq!(b.view, 4);
    assert!(!b.move_view_down(Some(2), 5));
    assert_eq!(b.view, 4);
    assert!(b.move_view_up(Some(100), 5));
    assert_eq!(b.view, 0);
}

#[test]
fn save_hands_back_the_document_text() {
    let b = Buffer::new(Some(String::from("notes.txt")), "line one\nline two");
    assert!(b.path_is_set());
    assert_eq!(b.save(), "line one\nline two");
}

#[test]
fn save_to_adopts_the_path_and_serializes() {
    let mut b = Buffer::new(None, "draft");
    assert!(!b.path_is_set());
    let s = b.save_to(String::from("draft.txt"));
    assert_eq!(s, "draft");
    assert!(b.path_is_set());
    assert_eq!(b.path, Some(String::from("draft.txt")));
}

#[test]
fn edits_through_data_keep_the_buffer_usable() {
    let mut b = Buffer::new(None, "ab");
    assert!(b.data.insert(2, "\ncd").is_ok());
    assert!(b.move_cursor_to(1, 2));
    assert_eq!(b.cursor, (1, 2));
    assert_eq!(b.save(), "ab\ncd");
}
