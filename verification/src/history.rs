//! The undo/redo action log: an ordered list of committed edit actions,
//! oldest first, plus one optional action still under construction.

use vstd::prelude::*;

verus! {

/// What one recorded edit did to the text.
#[derive(Clone, Copy, Debug, PartialEq, Eq, Structural)]
pub enum ActionKind {
    /// Characters were added at the start of the range.
    Insertion,
    /// The characters of the range were removed.
    Deletion,
    /// Several edits coalesced into one undo step.
    Composite,
}

/// One undoable unit of editing: its kind, the affected character range
/// `start..end`, and the text fragment added or removed, enough to replay
/// or invert the edit.
#[derive(Clone, Debug)]
pub struct Action {
    pub kind: ActionKind,
    pub start: usize,
    pub end: usize,
    pub content: String,
}

/// The ordered log of committed actions plus one optional action that the
/// caller is still building (for coalescing keystrokes into one undo step).
/// The in-progress action is not part of the committed log until the caller
/// commits it through `add`.
#[derive(Clone)]
pub struct History {
    actions: Vec<Action>,
    pub current_action: Option<Action>,
}

impl History {
    /// The committed actions, oldest first.
    pub closed spec fn log(&self) -> Seq<Action> {
        self.actions@
    }

    /// The action under construction, if any.
    pub closed spec fn current(&self) -> Option<Action> {
        self.current_action
    }

    /// Creates an empty log with no action under construction.
    pub fn new() -> (h: History)
        ensures
            h.log() == Seq::<Action>::empty(),
            h.current() is None,
    {
        History { actions: Vec::new(), current_action: None }
    }

    /// Appends a committed action to the end of the log.
    pub fn add(&mut self, action: Action)
        ensures
            final(self).log() == old(self).log().push(action),
            final(self).current() == old(self).current(),
    {
        self.actions.push(action);
    }

    /// Removes the action at `index`; an index at or past the end of the
    /// log is tolerated as a no-op rather than an error.
    pub fn remove(&mut self, index: usize)
        ensures
            index < old(self).log().len() ==> final(self).log() == old(self).log().remove(
                index as int,
            ),
            index >= old(self).log().len() ==> final(self).log() == old(self).log(),
            final(self).current() == old(self).current(),
    {
        if index < self.actions.len() {
            self.actions.remove(index);
        }
    }

    /// Returns the most recent committed action without removing it, or
    /// `None` on an empty log.
    pub fn last(&self) -> (r: Option<&Action>)
        ensures
            self.log().len() == 0 ==> r is None,
            self.log().len() > 0 ==> r is Some && r.unwrap() == self.log().last(),
    {
        self.actions.as_slice().last()
    }

    /// Removes and returns the most recent committed action, or `None` on
    /// an empty log; the undo primitive.
    pub fn pop_last(&mut self) -> (r: Option<Action>)
        ensures
            old(self).log().len() == 0 ==> r is None && final(self).log() == old(self).log(),
            old(self).log().len() > 0 ==> r == Some(old(self).log().last()) && final(self).log()
                == old(self).log().drop_last(),
            final(self).current() == old(self).current(),
    {
        self.actions.pop()
    }

    /// Consumes the log and hands back every committed action, oldest first.
    pub fn actions(self) -> (r: Vec<Action>)
        ensures
            r@ == self.log(),
    {
        self.actions
    }
}

} // verus!
