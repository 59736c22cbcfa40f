//! The mathematical model of line-oriented text: a document is a sequence of
//! characters, `'\n'` delimits lines, and the trailing implicit line counts,
//! so a document always has one more line than it has newline characters.

use vstd::prelude::*;

verus! {

/// How many newline characters the text holds.
pub open spec fn newline_count(text: Seq<char>) -> nat
    decreases text.len(),
{
    if text.len() == 0 {
        0
    } else {
        (if text[0] == '\n' {
            1nat
        } else {
            0nat
        }) + newline_count(text.skip(1))
    }
}

/// How many lines the text has: one more than its newline count, so the
/// empty text has one (empty) line and a text ending in `'\n'` ends with an
/// empty trailing line.
pub open spec fn line_count(text: Seq<char>) -> nat {
    newline_count(text) + 1
}

/// The length of the first line: the number of characters before the first
/// newline, or the whole length when there is none.
pub open spec fn head_len(text: Seq<char>) -> nat
    decreases text.len(),
{
    if text.len() == 0 || text[0] == '\n' {
        0
    } else {
        1 + head_len(text.skip(1))
    }
}

/// The content of line `i`, without its terminating newline.
pub open spec fn line_at(text: Seq<char>, i: int) -> Seq<char>
    recommends
        0 <= i < line_count(text),
    decreases i,
{
    if i <= 0 {
        text.take(head_len(text) as int)
    } else {
        line_at(text.skip(head_len(text) as int + 1), i - 1)
    }
}

/// The characters of line `i` as a slice of the document: its content
/// followed by its terminating newline, except on the last line, which has
/// no terminator.
pub open spec fn raw_line_at(text: Seq<char>, i: int) -> Seq<char>
    recommends
        0 <= i < line_count(text),
    decreases i,
{
    if i <= 0 {
        if head_len(text) == text.len() {
            text
        } else {
            text.take(head_len(text) as int + 1)
        }
    } else {
        raw_line_at(text.skip(head_len(text) as int + 1), i - 1)
    }
}

/// The first line is never longer than the text.
pub proof fn lemma_head_len_le(text: Seq<char>)
    ensures
        head_len(text) <= text.len(),
    decreases text.len(),
{
    if text.len() == 0 || text[0] == '\n' {
    } else {
        lemma_head_len_le(text.skip(1));
    }
}

/// The character just past the first line, when one exists, is a newline.
pub proof fn lemma_head_newline(text: Seq<char>)
    requires
        head_len(text) < text.len(),
    ensures
        text[head_len(text) as int] == '\n',
    decreases text.len(),
{
    if text.len() == 0 || text[0] == '\n' {
    } else {
        lemma_head_newline(text.skip(1));
    }
}

/// A text is all one line exactly when it has no newline.
pub proof fn lemma_newline_count_zero(text: Seq<char>)
    ensures
        (newline_count(text) == 0) <==> (head_len(text) == text.len()),
    decreases text.len(),
{
    if text.len() == 0 || text[0] == '\n' {
    } else {
        lemma_newline_count_zero(text.skip(1));
    }
}

/// Dropping the first line and its newline drops exactly one line.
pub proof fn lemma_newline_count_skip_head(text: Seq<char>)
    requires
        head_len(text) < text.len(),
    ensures
        newline_count(text) == 1 + newline_count(text.skip(head_len(text) as int + 1)),
    decreases text.len(),
{
    if text[0] == '\n' {
    } else {
        lemma_newline_count_skip_head(text.skip(1));
        assert(text.skip(1).skip(head_len(text.skip(1)) as int + 1) =~= text.skip(
            head_len(text) as int + 1,
        ));
    }
}

/// Nothing on the first line is a newline.
proof fn lemma_no_newline_in_head(text: Seq<char>)
    ensures
        forall|j: int| 0 <= j < head_len(text) ==> text[j] != '\n',
    decreases text.len(),
{
    if text.len() == 0 || text[0] == '\n' {
    } else {
        lemma_head_len_le(text);
        lemma_no_newline_in_head(text.skip(1));
        assert forall|j: int| 0 <= j < head_len(text) implies text[j] != '\n' by {
            if j > 0 {
                assert(text.skip(1)[j - 1] != '\n');
                assert(text[j] == text.skip(1)[j - 1]);
            }
        }
    }
}

/// The delimiter always falls between lines, never inside one: no line's
/// content holds a newline, so a projector copying a line into a display
/// row never meets an embedded newline partway.
pub proof fn lemma_line_at_no_newline(text: Seq<char>, i: int)
    requires
        0 <= i < line_count(text),
    ensures
        forall|j: int| 0 <= j < line_at(text, i).len() ==> line_at(text, i)[j] != '\n',
    decreases i,
{
    lemma_head_len_le(text);
    if i == 0 {
        lemma_no_newline_in_head(text);
        assert forall|j: int| 0 <= j < line_at(text, 0).len() implies line_at(text, 0)[j] != '\n' by {
            assert(line_at(text, 0)[j] == text[j]);
        }
    } else {
        lemma_newline_count_zero(text);
        lemma_newline_count_skip_head(text);
        lemma_line_at_no_newline(text.skip(head_len(text) as int + 1), i - 1);
        assert(line_at(text, i) == line_at(text.skip(head_len(text) as int + 1), i - 1));
    }
}

/// A line of the document is never longer than the document itself.
pub proof fn lemma_line_len_le(text: Seq<char>, i: int)
    requires
        0 <= i < line_count(text),
    ensures
        line_at(text, i).len() <= text.len(),
    decreases i,
{
    lemma_head_len_le(text);
    if i == 0 {
    } else {
        lemma_newline_count_zero(text);
        lemma_newline_count_skip_head(text);
        lemma_line_len_le(text.skip(head_len(text) as int + 1), i - 1);
    }
}

/// How a raw line relates to its content: every line but the last carries a
/// trailing newline, the last line is its content alone.
pub proof fn lemma_raw_line_at(text: Seq<char>, i: int)
    requires
        0 <= i < line_count(text),
    ensures
        i < line_count(text) - 1 ==> raw_line_at(text, i) == line_at(text, i).push('\n'),
        i == line_count(text) - 1 ==> raw_line_at(text, i) == line_at(text, i),
    decreases i,
{
    lemma_head_len_le(text);
    lemma_newline_count_zero(text);
    if i == 0 {
        if line_count(text) == 1 {
            assert(line_at(text, 0) =~= text);
        } else {
            lemma_head_newline(text);
            assert(raw_line_at(text, 0) =~= line_at(text, 0).push('\n'));
        }
    } else {
        lemma_newline_count_skip_head(text);
        lemma_raw_line_at(text.skip(head_len(text) as int + 1), i - 1);
    }
}

} // verus!
