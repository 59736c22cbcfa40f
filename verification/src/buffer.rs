//! One open document: its text, an optional backing path, the cursor, the
//! topmost visible line, and the undo history. Cursor and viewport movement
//! is validated against the text at call time; an invalid move is rejected
//! and leaves the buffer untouched, and the boolean result says which of
//! the two happened.

use vstd::prelude::*;

use crate::history::History;
use crate::lines::{line_at, line_count, lemma_line_len_le};
use crate::text::TextContainer;

verus! {

/// A cursor position is inside the text: its line exists and its character
/// index is at most the line's length (the cursor may sit just past the
/// last character, at line end).
pub open spec fn pos_valid(text: Seq<char>, line: int, index: int) -> bool {
    &&& 0 <= line < line_count(text)
    &&& 0 <= index <= line_at(text, line).len()
}

/// A viewport starting at `line` with `viewport_height` visible rows fits
/// the document: equivalent to `line <= line_count - viewport_height` over
/// the integers.
pub open spec fn view_valid(text: Seq<char>, line: int, viewport_height: int) -> bool {
    line + viewport_height <= line_count(text)
}

/// The number of steps a relative move takes: the given amount, or one
/// when the caller passed none.
pub open spec fn step_amount(amount: Option<usize>) -> int {
    match amount {
        Some(a) => a as int,
        None => 1,
    }
}

/// The edit unit: one open document.
pub struct Buffer {
    /// Where the document lives in storage; `None` for a scratch buffer.
    pub path: Option<String>,
    /// The document's text.
    pub data: TextContainer,
    /// (line, intra-line character index) where edits apply; a caller
    /// detects a rejected move by comparing this before and after a call.
    pub cursor: (usize, usize),
    /// The topmost document line shown by the display projector.
    pub view: usize,
    /// The undo log of this document.
    pub history: History,
}

impl Buffer {
    /// The buffer invariant: the cursor sits inside the text bounds.
    /// Constructors establish it and every successful move re-establishes
    /// it against the text as it stands.
    pub open spec fn wf(&self) -> bool {
        pos_valid(self.data@, self.cursor.0 as int, self.cursor.1 as int)
    }

    /// Everything except the cursor is as it was.
    pub open spec fn unchanged_except_cursor(pre: &Buffer, post: &Buffer) -> bool {
        &&& post.view == pre.view
        &&& post.data == pre.data
        &&& post.path == pre.path
        &&& post.history == pre.history
    }

    /// Everything except the viewport is as it was.
    pub open spec fn unchanged_except_view(pre: &Buffer, post: &Buffer) -> bool {
        &&& post.cursor == pre.cursor
        &&& post.data == pre.data
        &&& post.path == pre.path
        &&& post.history == pre.history
    }

    /// Opens a buffer over already-decoded text: cursor at the origin,
    /// viewport at the top, empty history. Reading the file behind `path`,
    /// and failing with a message that names the path when it cannot be
    /// read, belong to the I/O shell around this core.
    pub fn new(path: Option<String>, text: &str) -> (b: Buffer)
        ensures
            b.path == path,
            b.data@ == text@,
            b.cursor == (0usize, 0usize),
            b.view == 0,
            b.history.log() == Seq::<crate::history::Action>::empty(),
            b.history.current() is None,
            b.wf(),
    {
        Buffer {
            path,
            data: TextContainer::load(text),
            cursor: (0, 0),
            view: 0,
            history: History::new(),
        }
    }

    /// Whether a destination for saving is known; when it is not, the
    /// caller must supply one (through `save_to`) rather than this core
    /// inventing a fallback location.
    pub fn path_is_set(&self) -> (b: bool)
        ensures
            b <==> self.path is Some,
    {
        self.path.is_some()
    }

    /// Serializes the document for writing to its backing path. Creating
    /// or truncating the file and writing these characters out, and any
    /// failure there, belong to the I/O shell.
    pub fn save(&self) -> (s: String)
        ensures
            s@ == self.data@,
    {
        self.data.save()
    }

    /// Adopts `path` as the backing path and serializes the document for
    /// writing there; for saving a buffer that had no path yet.
    pub fn save_to(&mut self, path: String) -> (s: String)
        ensures
            s@ == old(self).data@,
            final(self).path == Some(path),
            final(self).data == old(self).data,
            final(self).cursor == old(self).cursor,
            final(self).view == old(self).view,
            final(self).history == old(self).history,
    {
        self.path = Some(path);
        self.data.save()
    }

    /// Whether the viewport may start at `line` when `viewport_height`
    /// rows are visible.
    fn validate_view_move(&self, line: usize, viewport_height: usize) -> (ok: bool)
        ensures
            ok <==> view_valid(self.data@, line as int, viewport_height as int),
    {
        let lc = self.data.line_count();
        viewport_height <= lc && line <= lc - viewport_height
    }

    /// Moves the viewport to start at `line` if the window still fits the
    /// document, and otherwise changes nothing; the result says which.
    /// `viewport_height` is read off the rendering target at call time,
    /// so the valid range can change between calls.
    pub fn move_view_to(&mut self, line: usize, viewport_height: usize) -> (moved: bool)
        ensures
            moved <==> view_valid(old(self).data@, line as int, viewport_height as int),
            moved ==> final(self).view == line,
            !moved ==> final(self).view == old(self).view,
            Buffer::unchanged_except_view(old(self), final(self)),
    {
        if self.validate_view_move(line, viewport_height) {
            self.view = line;
            true
        } else {
            false
        }
    }

    /// Moves the viewport toward the top of the document, saturating at
    /// line zero, then validates as `move_view_to` does.
    pub fn move_view_up(&mut self, amount: Option<usize>, viewport_height: usize) -> (moved: bool)
        ensures
            ({
                let target = if step_amount(amount) > old(self).view {
                    0int
                } else {
                    old(self).view - step_amount(amount)
                };
                &&& moved <==> view_valid(old(self).data@, target, viewport_height as int)
                &&& moved ==> final(self).view == target
                &&& !moved ==> final(self).view == old(self).view
                &&& Buffer::unchanged_except_view(old(self), final(self))
            }),
    {
        let step: usize = match amount {
            Some(a) => a,
            None => 1,
        };
        let target: usize = if step > self.view {
            0
        } else {
            self.view - step
        };
        self.move_view_to(target, viewport_height)
    }

    /// Moves the viewport toward the end of the document, then validates
    /// as `move_view_to` does; a target past every line any document can
    /// have is rejected outright.
    pub fn move_view_down(&mut self, amount: Option<usize>, viewport_height: usize) -> (moved:
        bool)
        ensures
            ({
                let target = old(self).view + step_amount(amount);
                &&& moved <==> view_valid(old(self).data@, target, viewport_height as int)
                &&& moved ==> final(self).view == target
                &&& !moved ==> final(self).view == old(self).view
                &&& Buffer::unchanged_except_view(old(self), final(self))
            }),
    {
        let step: usize = match amount {
            Some(a) => a,
            None => 1,
        };
        match self.view.checked_add(step) {
            Some(target) => self.move_view_to(target, viewport_height),
            None => {
                // The target exceeds usize::MAX, and a loaded document has
                // at most usize::MAX lines, so no viewport fits there.
                let _lc = self.data.line_count();
                false
            },
        }
    }

    /// Whether the cursor may stand at `new_pos` in the text as it is now.
    fn validate_cursor_move(&self, new_pos: (usize, usize)) -> (ok: bool)
        ensures
            ok <==> pos_valid(self.data@, new_pos.0 as int, new_pos.1 as int),
    {
        let lc = self.data.line_count();
        if new_pos.0 >= lc {
            return false;
        }
        let line_chars = match self.data.line(new_pos.0) {
            Ok(v) => v,
            Err(_) => {
                return false;
            },
        };
        new_pos.1 <= line_chars.len()
    }

    /// Moves the cursor to (`line`, `index`) if that position is inside
    /// the text, and otherwise changes nothing; the result says which.
    /// Reading the cursor after a successful call yields exactly the pair
    /// given.
    pub fn move_cursor_to(&mut self, line: usize, index: usize) -> (moved: bool)
        ensures
            moved <==> pos_valid(old(self).data@, line as int, index as int),
            moved ==> final(self).cursor == (line, index),
            !moved ==> final(self).cursor == old(self).cursor,
            Buffer::unchanged_except_cursor(old(self), final(self)),
            moved ==> final(self).wf(),
    {
        if self.validate_cursor_move((line, index)) {
            self.cursor = (line, index);
            true
        } else {
            false
        }
    }

    /// Moves the cursor toward the first line, saturating at line zero,
    /// then validates as `move_cursor_to` does.
    pub fn move_cursor_up(&mut self, amount: Option<usize>) -> (moved: bool)
        ensures
            ({
                let target = if step_amount(amount) > old(self).cursor.0 {
                    0int
                } else {
                    old(self).cursor.0 - step_amount(amount)
                };
                &&& moved <==> pos_valid(old(self).data@, target, old(self).cursor.1 as int)
                &&& moved ==> final(self).cursor.0 == target && final(self).cursor.1
                    == old(self).cursor.1
                &&& !moved ==> final(self).cursor == old(self).cursor
                &&& Buffer::unchanged_except_cursor(old(self), final(self))
                &&& moved ==> final(self).wf()
            }),
    {
        let step: usize = match amount {
            Some(a) => a,
            None => 1,
        };
        let line = self.cursor.0;
        let index = self.cursor.1;
        let target: usize = if step > line {
            0
        } else {
            line - step
        };
        self.move_cursor_to(target, index)
    }

    /// Moves the cursor toward the last line, then validates as
    /// `move_cursor_to` does; a target past every line any document can
    /// have is rejected outright.
    pub fn move_cursor_down(&mut self, amount: Option<usize>) -> (moved: bool)
        ensures
            ({
                let target = old(self).cursor.0 + step_amount(amount);
                &&& moved <==> pos_valid(old(self).data@, target, old(self).cursor.1 as int)
                &&& moved ==> final(self).cursor.0 == target && final(self).cursor.1
                    == old(self).cursor.1
                &&& !moved ==> final(self).cursor == old(self).cursor
                &&& Buffer::unchanged_except_cursor(old(self), final(self))
                &&& moved ==> final(self).wf()
            }),
    {
        let step: usize = match amount {
            Some(a) => a,
            None => 1,
        };
        let line = self.cursor.0;
        let index = self.cursor.1;
        match line.checked_add(step) {
            Some(target) => self.move_cursor_to(target, index),
            None => {
                // The target line exceeds usize::MAX, and a loaded document
                // has at most usize::MAX lines.
                let _lc = self.data.line_count();
                false
            },
        }
    }

    /// Moves the cursor toward the start of its line, saturating at index
    /// zero, then validates as `move_cursor_to` does.
    pub fn move_cursor_left(&mut self, amount: Option<usize>) -> (moved: bool)
        ensures
            ({
                let target = if step_amount(amount) > old(self).cursor.1 {
                    0int
                } else {
                    old(self).cursor.1 - step_amount(amount)
                };
                &&& moved <==> pos_valid(old(self).data@, old(self).cursor.0 as int, target)
                &&& moved ==> final(self).cursor.0 == old(self).cursor.0
                    && final(self).cursor.1 == target
                &&& !moved ==> final(self).cursor == old(self).cursor
                &&& Buffer::unchanged_except_cursor(old(self), final(self))
                &&& moved ==> final(self).wf()
            }),
    {
        let step: usize = match amount {
            Some(a) => a,
            None => 1,
        };
        let line = self.cursor.0;
        let index = self.cursor.1;
        let target: usize = if step > index {
            0
        } else {
            index - step
        };
        self.move_cursor_to(line, target)
    }

    /// Moves the cursor toward the end of its line, then validates as
    /// `move_cursor_to` does; a target past every length a line can have
    /// is rejected outright.
    pub fn move_cursor_right(&mut self, amount: Option<usize>) -> (moved: bool)
        ensures
            ({
                let target = old(self).cursor.1 + step_amount(amount);
                &&& moved <==> pos_valid(old(self).data@, old(self).cursor.0 as int, target)
                &&& moved ==> final(self).cursor.0 == old(self).cursor.0
                    && final(self).cursor.1 == target
                &&& !moved ==> final(self).cursor == old(self).cursor
                &&& Buffer::unchanged_except_cursor(old(self), final(self))
                &&& moved ==> final(self).wf()
            }),
    {
        let step: usize = match amount {
            Some(a) => a,
            None => 1,
        };
        let line = self.cursor.0;
        let index = self.cursor.1;
        match index.checked_add(step) {
            Some(target) => self.move_cursor_to(line, target),
            None => {
                // The target index exceeds usize::MAX, and a line of a
                // loaded document has at most usize::MAX characters.
                let lc = self.data.line_count();
                if line < lc {
                    let _n = self.data.len_chars();
                    proof {
                        lemma_line_len_le(self.data@, line as int);
                    }
                }
                false
            },
        }
    }
}

} // verus!
