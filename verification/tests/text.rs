use banana::error::CoreError;
use banana::text::TextContainer;

fn chars(s: &str) -> Vec<char> {
    s.chars().collect()
}

#[test]
fn empty_container_has_one_empty_line() {
    let t = TextContainer::new_empty();
    assert_eq!(t.len_chars(), 0);
    assert_eq!(t.line_count(), 1);
    assert_eq!(t.line(0).unwrap(), Vec::<char>::new());
}

#[test]
fn load_splits_lines_on_newlines() {
    let t = TextContainer::load("ab\ncd\nef");
    assert_eq!(t.line_count(), 3);
    assert_eq!(t.len_chars(), 8);
    assert_eq!(t.line(0).unwrap(), chars("ab"));
    assert_eq!(t.line(1).unwrap(), chars("cd"));
    assert_eq!(t.line(2).unwrap(), chars("ef"));
}

#[test]
fn trailing_newline_makes_an_empty_last_line() {
    let t = TextContainer::load("ab\n");
    assert_eq!(t.line_count(), 2);
    assert_eq!(t.line(0).unwrap(), chars("ab"));
    assert_eq!(t.line(1).unwrap(), Vec::<char>::new());
}

#[test]
fn line_out_of_range_is_an_index_error() {
    let t = TextContainer::load("ab\ncd");
    assert_eq!(t.line(2), Err(CoreError::Index));
    assert_eq!(t.line(100), Err(CoreError::Index));
}

#[test]
fn save_hands_back_the_exact_text() {
    let t = TextContainer::load("one\ntwo\n\nfour");
    assert_eq!(t.save(), "one\ntwo\n\nfour");
}

#[test]
fn serialize_then_load_round_trips_every_line() {
    let original = TextContainer::load("alpha\nbeta\n\ngamma\n");
    let reloaded = TextContainer::load(original.save().as_str());
    assert_eq!(reloaded.line_count(), original.line_count());
    for i in 0..original.line_count() {
        assert_eq!(reloaded.line(i).unwrap(), original.line(i).unwrap());
    }
}

#[test]
fn insert_splices_text_and_keeps_line_indexing() {
    let mut t = TextContainer::load("ab");
    assert!(t.insert(1, "X\nY").is_ok());
    assert_eq!(t.save(), "aX\nYb");
    assert_eq!(t.line_count(), 2);
    assert_eq!(t.line(0).unwrap(), chars("aX"));
    assert_eq!(t.line(1).unwrap(), chars("Yb"));
}

#[test]
fn insert_past_end_is_rejected_unchanged() {
    let mut t = TextContainer::load("ab");
    assert_eq!(t.insert(3, "X"), Err(CoreError::Index));
    assert_eq!(t.save(), "ab");
}

#[test]
fn insert_at_end_is_allowed() {
    let mut t = TextContainer::load("ab");
    assert!(t.insert(2, "c").is_ok());
    assert_eq!(t.save(), "abc");
}

#[test]
fn delete_removes_the_range() {
    let mut t = TextContainer::load("abcd\nef");
    assert!(t.delete(1, 3).is_ok());
    assert_eq!(t.save(), "ad\nef");
}

#[test]
fn delete_can_join_lines() {
    let mut t = TextContainer::load("ab\ncd");
    assert!(t.delete(2, 3).is_ok());
    assert_eq!(t.save(), "abcd");
    assert_eq!(t.line_count(), 1);
}

#[test]
fn delete_rejects_a_reversed_or_overlong_range() {
    let mut t = TextContainer::load("abcd");
    assert_eq!(t.delete(3, 1), Err(CoreError::Index));
    assert_eq!(t.delete(0, 5), Err(CoreError::Index));
    assert_eq!(t.save(), "abcd");
}

#[test]
fn clone_holds_the_same_text() {
    let t = TextContainer::load("ab\ncd");
    let c = t.clone();
    assert_eq!(c.save(), t.save());
    assert_eq!(c.line_count(), 2);
}

#[test]
fn io_errors_carry_their_message() {
    let e = CoreError::Io(String::from("Unable to open file: notes.txt"));
    assert!(matches!(e, CoreError::Io(m) if m.contains("notes.txt")));
}
