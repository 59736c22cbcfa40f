//! The text container: an editable character sequence with line-indexed
//! access in logarithmic time, backed by a rope. The rope is trusted only
//! for what its documentation states; every line computation above it is
//! proved against the model in `lines`.

use vstd::prelude::*;

use crate::error::CoreError;
use crate::lines::{line_at, line_count, lemma_raw_line_at, raw_line_at};

verus! {

#[verifier::external_type_specification]
#[verifier::external_body]
pub struct ExRope(ropey::Rope);

/// The sequence of characters a rope holds.
pub uninterp spec fn rope_text(r: ropey::Rope) -> Seq<char>;

/// Relies on ropey::Rope::new: creates an empty rope.
#[verifier::external_body]
fn rope_new() -> (r: ropey::Rope)
    ensures
        rope_text(r) == Seq::<char>::empty(),
{
    ropey::Rope::new()
}

/// Relies on ropey::Rope::from_str: builds a rope holding exactly the given
/// text.
#[verifier::external_body]
fn rope_from_str(s: &str) -> (r: ropey::Rope)
    ensures
        rope_text(r) == s@,
{
    ropey::Rope::from_str(s)
}

/// Relies on ropey::Rope::len_chars: the total number of characters.
#[verifier::external_body]
fn rope_len_chars(r: &ropey::Rope) -> (n: usize)
    ensures
        n == rope_text(*r).len(),
{
    r.len_chars()
}

/// Relies on ropey::Rope::len_lines: one more than the number of line
/// breaks; this crate builds ropey with its line breaks recognized at '\n'
/// alone.
#[verifier::external_body]
fn rope_len_lines(r: &ropey::Rope) -> (n: usize)
    ensures
        n == line_count(rope_text(*r)),
{
    r.len_lines()
}

/// Relies on ropey::Rope::line: the characters of the given line, running
/// through its terminating newline when one exists; panics on a line index
/// past the end, so one is required out here.
#[verifier::external_body]
fn rope_line(r: &ropey::Rope, i: usize) -> (v: Vec<char>)
    requires
        i < line_count(rope_text(*r)),
    ensures
        v@ == raw_line_at(rope_text(*r), i as int),
{
    r.line(i).chars().collect()
}

/// Relies on ropey::Rope::insert: splices text in at a character index;
/// panics past the end, so the bound is required out here.
#[verifier::external_body]
fn rope_insert(r: &mut ropey::Rope, char_idx: usize, s: &str)
    requires
        char_idx <= rope_text(*old(r)).len(),
    ensures
        rope_text(*final(r)) == rope_text(*old(r)).take(char_idx as int) + s@ + rope_text(
            *old(r),
        ).skip(char_idx as int),
{
    r.insert(char_idx, s);
}

/// Relies on ropey::Rope::remove: removes the characters of the range;
/// panics on a reversed or out-of-bounds range, so both are required out
/// here.
#[verifier::external_body]
fn rope_remove(r: &mut ropey::Rope, start: usize, end: usize)
    requires
        start <= end <= rope_text(*old(r)).len(),
    ensures
        rope_text(*final(r)) == rope_text(*old(r)).take(start as int) + rope_text(*old(r)).skip(
            end as int,
        ),
{
    r.remove(start..end);
}

/// Relies on String::from(&ropey::Rope): the rope's full text as one string.
#[verifier::external_body]
fn rope_to_string(r: &ropey::Rope) -> (s: String)
    ensures
        s@ == rope_text(*r),
{
    String::from(r)
}

/// Relies on ropey::Rope::clone: ropes share their storage, so a clone
/// holds the same text.
#[verifier::external_body]
fn rope_clone(r: &ropey::Rope) -> (c: ropey::Rope)
    ensures
        rope_text(c) == rope_text(*r),
{
    r.clone()
}

/// An ordered, editable sequence of characters with line-indexed access.
/// Its view is the character sequence; the line structure over it is given
/// by the spec functions of `lines`.
pub struct TextContainer {
    rope: ropey::Rope,
}

impl View for TextContainer {
    type V = Seq<char>;

    closed spec fn view(&self) -> Seq<char> {
        rope_text(self.rope)
    }
}

impl Clone for TextContainer {
    /// The clone holds the same text.
    fn clone(&self) -> (c: Self)
        ensures
            c@ == self@,
    {
        TextContainer { rope: rope_clone(&self.rope) }
    }
}

impl TextContainer {
    /// Creates a container holding no characters (and hence one empty line).
    pub fn new_empty() -> (t: TextContainer)
        ensures
            t@ == Seq::<char>::empty(),
    {
        TextContainer { rope: rope_new() }
    }

    /// Parses decoded text into a container. Reading and decoding the byte
    /// stream, and any failure of either, belong to the I/O shell around
    /// this core; the container holds exactly the characters given.
    pub fn load(text: &str) -> (t: TextContainer)
        ensures
            t@ == text@,
    {
        TextContainer { rope: rope_from_str(text) }
    }

    /// Serializes the container: the full text to hand to a byte sink.
    /// Writing it out, and any failure there, belong to the I/O shell.
    pub fn save(&self) -> (s: String)
        ensures
            s@ == self@,
    {
        rope_to_string(&self.rope)
    }

    /// The total number of characters.
    pub fn len_chars(&self) -> (n: usize)
        ensures
            n == self@.len(),
    {
        rope_len_chars(&self.rope)
    }

    /// The number of lines; at least one, and one more than the number of
    /// newline characters.
    pub fn line_count(&self) -> (n: usize)
        ensures
            n == line_count(self@),
    {
        rope_len_lines(&self.rope)
    }

    /// The content of line `i`, without its terminating newline, or an
    /// index error exactly when `i` is not a line of this container.
    pub fn line(&self, i: usize) -> (r: Result<Vec<char>, CoreError>)
        ensures
            i < line_count(self@) ==> (r matches Ok(v) && v@ == line_at(self@, i as int)),
            i >= line_count(self@) ==> (r matches Err(e) && e == CoreError::Index),
    {
        let lc = self.line_count();
        if i >= lc {
            return Err(CoreError::Index);
        }
        let mut v = rope_line(&self.rope, i);
        proof {
            lemma_raw_line_at(self@, i as int);
        }
        if i + 1 < lc {
            let _terminator = v.pop();
            assert(v@ =~= line_at(self@, i as int));
        }
        Ok(v)
    }

    /// Inserts `text` at character index `char_index`, shifting what
    /// follows; rejected with an index error exactly when the index lies
    /// past the end, and the text is then unchanged. Line indexing stays
    /// correct afterward because every line function is a function of the
    /// character sequence.
    pub fn insert(&mut self, char_index: usize, text: &str) -> (r: Result<(), CoreError>)
        ensures
            char_index <= old(self)@.len() ==> r is Ok && final(self)@ == old(self)@.take(
                char_index as int,
            ) + text@ + old(self)@.skip(char_index as int),
            char_index > old(self)@.len() ==> (r matches Err(e) && e == CoreError::Index
                && final(self)@ == old(self)@),
    {
        if char_index > rope_len_chars(&self.rope) {
            return Err(CoreError::Index);
        }
        rope_insert(&mut self.rope, char_index, text);
        Ok(())
    }

    /// Deletes the characters of `start..end`; rejected with an index error
    /// exactly when the range is reversed or runs past the end, and the
    /// text is then unchanged.
    pub fn delete(&mut self, start: usize, end: usize) -> (r: Result<(), CoreError>)
        ensures
            start <= end <= old(self)@.len() ==> r is Ok && final(self)@ == old(self)@.take(
                start as int,
            ) + old(self)@.skip(end as int),
            !(start <= end <= old(self)@.len()) ==> (r matches Err(e) && e == CoreError::Index
                && final(self)@ == old(self)@),
    {
        if start > end || end > rope_len_chars(&self.rope) {
            return Err(CoreError::Index);
        }
        rope_remove(&mut self.rope, start, end);
        Ok(())
    }
}

/// The round trip law: serializing a container and loading the result back
/// yields a container with the same character sequence, and therefore the
/// same line count and the same content on every line. `save` hands back
/// exactly the stored text and `load` stores exactly the text it is given,
/// so the two views here are equal.
pub proof fn lemma_save_load_round_trip(saved: Seq<char>, reloaded: Seq<char>)
    requires
        reloaded == saved,
    ensures
        line_count(reloaded) == line_count(saved),
        forall|i: int| 0 <= i < line_count(saved) ==> line_at(reloaded, i) == line_at(saved, i),
{
}

} // verus!
