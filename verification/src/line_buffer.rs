//! The in-progress input line: a sequence of codepoints and a cursor
//! offset into it. The buffer knows nothing of terminal geometry; row
//! wrapping lives in [`crate::layout`] and [`crate::editor`].

use vstd::prelude::*;

verus! {

/// Abstract state of a line buffer: its codepoints and the cursor offset.
pub ghost struct BufView {
    pub content: Seq<char>,
    pub cursor: int,
}

impl BufView {
    /// The cursor always stays inside `0 ..= content.len()`.
    pub open spec fn wf(self) -> bool {
        0 <= self.cursor <= self.content.len()
    }
}

/// A codepoint the buffer accepts: one that a byte-oriented backing store
/// encodes in a single unit. Wider codepoints are rejected at insertion so
/// cursor arithmetic stays one-column-per-codepoint.
pub open spec fn single_unit_char(c: char) -> bool {
    (c as u32) < 128
}

/// Insertion at the cursor; a multi-unit codepoint leaves the buffer as it is.
pub open spec fn insert_spec(v: BufView, c: char) -> BufView {
    if single_unit_char(c) {
        BufView { content: v.content.insert(v.cursor, c), cursor: v.cursor + 1 }
    } else {
        v
    }
}

/// Backspace: removes the codepoint before the cursor, if any.
pub open spec fn delete_before_spec(v: BufView) -> BufView {
    if v.cursor == 0 {
        v
    } else {
        BufView { content: v.content.remove(v.cursor - 1), cursor: v.cursor - 1 }
    }
}

/// Delete-forward: removes the codepoint at the cursor, if any.
pub open spec fn delete_at_spec(v: BufView) -> BufView {
    if v.cursor >= v.content.len() {
        v
    } else {
        BufView { content: v.content.remove(v.cursor), cursor: v.cursor }
    }
}

/// One step left, clamped at the start of the buffer.
pub open spec fn move_left_spec(v: BufView) -> BufView {
    if v.cursor > 0 {
        BufView { content: v.content, cursor: v.cursor - 1 }
    } else {
        v
    }
}

/// One step right, clamped at the end of the buffer.
pub open spec fn move_right_spec(v: BufView) -> BufView {
    if v.cursor < v.content.len() {
        BufView { content: v.content, cursor: v.cursor + 1 }
    } else {
        v
    }
}

/// Wholesale replacement, cursor at the end of the new content.
pub open spec fn replace_spec(v: BufView, s: Seq<char>) -> BufView {
    BufView { content: s, cursor: s.len() as int }
}

/// Empty buffer, cursor at the start.
pub open spec fn clear_spec(v: BufView) -> BufView {
    BufView { content: Seq::empty(), cursor: 0 }
}

/// Law: a pure cursor move one way and then back from any interior
/// position restores the prior cursor and never touches the content.
pub proof fn lemma_move_round_trip(v: BufView)
    requires
        v.wf(),
    ensures
        v.cursor > 0 ==> move_right_spec(move_left_spec(v)) == v,
        v.cursor < v.content.len() ==> move_left_spec(move_right_spec(v)) == v,
{
}

/// Law: every buffer operation keeps the cursor inside the content bounds.
pub proof fn lemma_ops_preserve_wf(v: BufView, c: char, s: Seq<char>)
    requires
        v.wf(),
    ensures
        insert_spec(v, c).wf(),
        delete_before_spec(v).wf(),
        delete_at_spec(v).wf(),
        move_left_spec(v).wf(),
        move_right_spec(v).wf(),
        replace_spec(v, s).wf(),
        clear_spec(v).wf(),
{
}

/// The in-progress input line and its cursor.
pub struct LineBuffer {
    content: Vec<char>,
    cursor: usize,
}

impl View for LineBuffer {
    type V = BufView;

    closed spec fn view(&self) -> BufView {
        BufView { content: self.content@, cursor: self.cursor as int }
    }
}

impl LineBuffer {
    /// A fresh, empty line.
    pub fn new() -> (r: LineBuffer)
        ensures
            r@.content == Seq::<char>::empty(),
            r@.cursor == 0,
            r@.wf(),
    {
        LineBuffer { content: Vec::new(), cursor: 0 }
    }

    /// Number of codepoints in the line.
    pub fn len(&self) -> (r: usize)
        ensures
            r == self@.content.len(),
    {
        self.content.len()
    }

    /// The cursor offset, in codepoints.
    pub fn cursor(&self) -> (r: usize)
        ensures
            r == self@.cursor,
    {
        self.cursor
    }

    /// The codepoint at offset `i`.
    pub fn char_at(&self, i: usize) -> (r: char)
        requires
            i < self@.content.len(),
        ensures
            r == self@.content[i as int],
    {
        self.content[i]
    }

    /// Insert `c` at the cursor and step past it. A codepoint wider than
    /// one storage unit is ignored.
    pub fn insert(&mut self, c: char)
        requires
            old(self)@.wf(),
            old(self)@.content.len() < usize::MAX,
        ensures
            final(self)@ == insert_spec(old(self)@, c),
            final(self)@.wf(),
    {
        if (c as u32) < 128 {
            self.content.insert(self.cursor, c);
            self.cursor = self.cursor + 1;
        }
    }

    /// Remove the codepoint before the cursor; at the start this is a no-op.
    pub fn delete_before(&mut self)
        requires
            old(self)@.wf(),
        ensures
            final(self)@ == delete_before_spec(old(self)@),
            final(self)@.wf(),
    {
        if self.cursor > 0 {
            self.content.remove(self.cursor - 1);
            self.cursor = self.cursor - 1;
        }
    }

    /// Remove the codepoint at the cursor; at the end this is a no-op.
    pub fn delete_at(&mut self)
        requires
            old(self)@.wf(),
        ensures
            final(self)@ == delete_at_spec(old(self)@),
            final(self)@.wf(),
    {
        if self.cursor < self.content.len() {
            self.content.remove(self.cursor);
        }
    }

    /// Step the cursor one codepoint left, clamped at the start.
    pub fn move_left(&mut self)
        requires
            old(self)@.wf(),
        ensures
            final(self)@ == move_left_spec(old(self)@),
            final(self)@.wf(),
    {
        if self.cursor > 0 {
            self.cursor = self.cursor - 1;
        }
    }

    /// Step the cursor one codepoint right, clamped at the end.
    pub fn move_right(&mut self)
        requires
            old(self)@.wf(),
        ensures
            final(self)@ == move_right_spec(old(self)@),
            final(self)@.wf(),
    {
        if self.cursor < self.content.len() {
            self.cursor = self.cursor + 1;
        }
    }

    /// Jump the cursor to the start of the line.
    pub fn move_to_start(&mut self)
        requires
            old(self)@.wf(),
        ensures
            final(self)@ == (BufView { content: old(self)@.content, cursor: 0 }),
            final(self)@.wf(),
    {
        self.cursor = 0;
    }

    /// Jump the cursor to the end of the line.
    pub fn move_to_end(&mut self)
        requires
            old(self)@.wf(),
        ensures
            final(self)@ == (BufView {
                content: old(self)@.content,
                cursor: old(self)@.content.len() as int,
            }),
            final(self)@.wf(),
    {
        self.cursor = self.content.len();
    }

    /// Replace the whole line (used by history recall); the cursor lands at
    /// the end of the new content.
    pub fn replace(&mut self, content: Vec<char>)
        ensures
            final(self)@ == replace_spec(old(self)@, content@),
            final(self)@.wf(),
    {
        self.cursor = content.len();
        self.content = content;
    }

    /// Empty the line and return the cursor to the start.
    pub fn clear(&mut self)
        ensures
            final(self)@ == clear_spec(old(self)@),
            final(self)@.wf(),
    {
        self.content = Vec::new();
        self.cursor = 0;
    }
}

} // verus!
