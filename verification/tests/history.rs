use banana::history::{Action, ActionKind, History};

fn act(kind: ActionKind, start: usize, end: usize, content: &str) -> Action {
    Action { kind, start, end, content: String::from(content) }
}

#[test]
fn new_history_is_empty() {
    let mut h = History::new();
    assert!(h.current_action.is_none());
    assert!(h.last().is_none());
    assert!(h.pop_last().is_none());
    assert_eq!(h.actions().len(), 0);
}

#[test]
fn pop_returns_most_recent_then_older_then_none() {
    let mut h = History::new();
    h.add(act(ActionKind::Insertion, 0, 1, "a"));
    h.add(act(ActionKind::Deletion, 3, 4, "b"));
    let second = h.pop_last().unwrap();
    assert!(matches!(second.kind, ActionKind::Deletion));
    assert_eq!(second.start, 3);
    assert_eq!(second.end, 4);
    assert_eq!(second.content, "b");
    let first = h.pop_last().unwrap();
    assert!(matches!(first.kind, ActionKind::Insertion));
    assert_eq!(first.content, "a");
    assert!(h.pop_last().is_none());
}

#[test]
fn last_peeks_without_removing() {
    let mut h = History::new();
    h.add(act(ActionKind::Insertion, 0, 2, "hi"));
    assert_eq!(h.last().unwrap().content, "hi");
    assert_eq!(h.last().unwrap().content, "hi");
    assert_eq!(h.actions().len(), 1);
}

#[test]
fn remove_at_len_is_a_no_op() {
    let mut h = History::new();
    h.add(act(ActionKind::Insertion, 0, 1, "a"));
    h.add(act(ActionKind::Insertion, 1, 2, "b"));
    h.remove(2);
    let log = h.actions();
    assert_eq!(log.len(), 2);
    assert_eq!(log[0].content, "a");
    assert_eq!(log[1].content, "b");
}

#[test]
fn remove_past_len_is_a_no_op() {
    let mut h = History::new();
    h.add(act(ActionKind::Composite, 0, 1, "a"));
    h.remove(17);
    assert_eq!(h.actions().len(), 1);
}

#[test]
fn remove_in_range_drops_exactly_that_action() {
    let mut h = History::new();
    h.add(act(ActionKind::Insertion, 0, 1, "a"));
    h.add(act(ActionKind::Deletion, 1, 2, "b"));
    h.add(act(ActionKind::Insertion, 2, 3, "c"));
    h.remove(1);
    let log = h.actions();
    assert_eq!(log.len(), 2);
    assert_eq!(log[0].content, "a");
    assert_eq!(log[1].content, "c");
}

#[test]
fn current_action_is_separate_from_the_log() {
    let mut h = History::new();
    h.current_action = Some(act(ActionKind::Insertion, 5, 6, "x"));
    assert_eq!(h.last().map(|a| a.content.clone()), None);
    let pending = h.current_action.take().unwrap();
    h.add(pending);
    assert_eq!(h.last().unwrap().content, "x");
    assert!(h.current_action.is_none());
}
