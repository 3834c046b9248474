//! The line editor: a [`LineBuffer`] together with the terminal geometry
//! (prompt prefix width and column count). Every editing operation updates
//! the buffer and returns the semantic paint instructions that bring the
//! display in sync, using an erase-and-redraw policy: repaint all wrapped
//! rows of the input from the saved anchor downward, then reposition the
//! cursor. This favors simplicity over repaint throughput, which is ample
//! at interactive typing speeds.

use vstd::prelude::*;

use crate::layout::{
    full_rows, full_rows_spec, line_content_spec, pos_col_spec, pos_coord, pos_row_spec,
};
use crate::line_buffer::{single_unit_char, LineBuffer};
use crate::paint::PaintOp;
use crate::text::{chars_to_string, string_to_chars};

verus! {

/// Upper bound on `prefix + content length`, so the layout arithmetic can
/// never overflow. Input beyond this capacity is ignored.
pub const MAX_LINE_TOTAL: usize = 65535;

/// Abstract state of the editor: the line, the cursor, and the geometry.
#[verifier::ext_equal]
pub ghost struct EdV {
    pub content: Seq<char>,
    pub cursor: int,
    pub prefix: int,
    pub cols: int,
}

impl EdV {
    pub open spec fn wf(self) -> bool {
        &&& 1 <= self.cols
        &&& 0 <= self.prefix <= self.cols
        &&& self.prefix + self.content.len() <= MAX_LINE_TOTAL
        &&& 0 <= self.cursor <= self.content.len()
    }

    /// Rows the content spills over beyond the first (floor division).
    pub open spec fn last_row(self) -> int {
        full_rows_spec(self.prefix, self.content.len() as int, self.cols)
    }

    /// (column, row) coordinate of the cursor.
    pub open spec fn coord(self) -> (usize, usize) {
        (
            pos_col_spec(self.prefix, self.cursor, self.cols) as usize,
            pos_row_spec(self.prefix, self.cursor, self.cols) as usize,
        )
    }
}

/// Whether inserting `c` is refused: a multi-unit codepoint, or a line
/// already at capacity.
pub open spec fn insert_blocked(v: EdV, c: char) -> bool {
    !single_unit_char(c) || v.prefix + v.content.len() >= MAX_LINE_TOTAL
}

/// Insertion at the cursor; refused input leaves the editor as it is.
pub open spec fn ed_insert(v: EdV, c: char) -> EdV {
    if insert_blocked(v, c) {
        v
    } else {
        EdV {
            content: v.content.insert(v.cursor, c),
            cursor: v.cursor + 1,
            prefix: v.prefix,
            cols: v.cols,
        }
    }
}

/// Backspace: removes the codepoint before the cursor, if any.
pub open spec fn ed_backspace(v: EdV) -> EdV {
    if v.cursor == 0 {
        v
    } else {
        EdV {
            content: v.content.remove(v.cursor - 1),
            cursor: v.cursor - 1,
            prefix: v.prefix,
            cols: v.cols,
        }
    }
}

/// Delete-forward: removes the codepoint at the cursor, if any.
pub open spec fn ed_del(v: EdV) -> EdV {
    if v.cursor >= v.content.len() {
        v
    } else {
        EdV { content: v.content.remove(v.cursor), cursor: v.cursor, prefix: v.prefix, cols: v.cols }
    }
}

/// One step left, clamped at the start.
pub open spec fn ed_left(v: EdV) -> EdV {
    if v.cursor > 0 {
        EdV { content: v.content, cursor: v.cursor - 1, prefix: v.prefix, cols: v.cols }
    } else {
        v
    }
}

/// One step right, clamped at the end.
pub open spec fn ed_right(v: EdV) -> EdV {
    if v.cursor < v.content.len() {
        EdV { content: v.content, cursor: v.cursor + 1, prefix: v.prefix, cols: v.cols }
    } else {
        v
    }
}

/// Cursor to the start of the input.
pub open spec fn ed_start(v: EdV) -> EdV {
    EdV { content: v.content, cursor: 0, prefix: v.prefix, cols: v.cols }
}

/// Cursor to the end of the input.
pub open spec fn ed_end(v: EdV) -> EdV {
    EdV { content: v.content, cursor: v.content.len() as int, prefix: v.prefix, cols: v.cols }
}

/// Line submitted: the buffer empties and the cursor returns to the start.
pub open spec fn ed_end_line(v: EdV) -> EdV {
    EdV { content: Seq::empty(), cursor: 0, prefix: v.prefix, cols: v.cols }
}

/// A fresh input row: content kept, cursor at the start.
pub open spec fn ed_start_line(v: EdV) -> EdV {
    EdV { content: v.content, cursor: 0, prefix: v.prefix, cols: v.cols }
}

/// Whether replacing the line with `s` is refused for capacity.
pub open spec fn set_blocked(v: EdV, s: Seq<char>) -> bool {
    v.prefix + s.len() > MAX_LINE_TOTAL
}

/// Wholesale replacement (history recall); cursor at the end.
pub open spec fn ed_set(v: EdV, s: Seq<char>) -> EdV {
    if set_blocked(v, s) {
        v
    } else {
        EdV { content: s, cursor: s.len() as int, prefix: v.prefix, cols: v.cols }
    }
}

/// Law: a cursor move one way and then back from any interior position
/// restores the editor exactly; pure movement never touches the content.
pub proof fn lemma_ed_move_round_trip(v: EdV)
    requires
        v.wf(),
    ensures
        v.cursor > 0 ==> ed_right(ed_left(v)) == v,
        v.cursor < v.content.len() ==> ed_left(ed_right(v)) == v,
{
}

/// One painted row of the input area: the prompt on row 0, then the row's
/// characters, then a line break on every row but the last.
pub open spec fn row_op(v: EdV, lc: int, i: int, op: PaintOp) -> bool {
    match op {
        PaintOp::WriteLine { first, text, newline } => {
            &&& first == (i == 0)
            &&& text@ == line_content_spec(v.content, v.prefix, v.cols, i)
            &&& newline == (i < lc)
        },
        _ => false,
    }
}

/// The full erase-and-redraw instruction list for state `v`: hide the
/// cursor, return to the anchor, erase downward, repaint every wrapped row,
/// optionally reposition the cursor to `pos`, and show the cursor again.
pub open spec fn write_line_ops(v: EdV, pos: Option<(usize, usize)>, ops: Seq<PaintOp>) -> bool {
    let lc = v.last_row();
    let rows = lc + 1;
    let tail: int = if pos is Some {
        3
    } else {
        0
    };
    &&& ops.len() == 3 + rows + tail + 1
    &&& ops[0] == PaintOp::CursorHide
    &&& ops[1] == PaintOp::RestorePosition
    &&& ops[2] == PaintOp::EraseDown
    &&& (forall|i: int| 0 <= i < rows ==> row_op(v, lc, i, #[trigger] ops[3 + i]))
    &&& (match pos {
        Option::Some(p) => {
            &&& ops[3 + rows] == PaintOp::RestorePosition
            &&& ops[3 + rows + 1] == PaintOp::MoveRowsDown(p.1)
            &&& ops[3 + rows + 2] == PaintOp::ToColumn(p.0)
        },
        Option::None => true,
    })
    &&& ops[ops.len() - 1] == PaintOp::CursorShow
}

/// Instructions returned by `input_char`.
pub open spec fn input_char_ops(v: EdV, c: char, ops: Seq<PaintOp>) -> bool {
    if insert_blocked(v, c) {
        ops.len() == 0
    } else {
        write_line_ops(ed_insert(v, c), Option::Some(ed_insert(v, c).coord()), ops)
    }
}

/// Instructions returned by `backspace`.
pub open spec fn backspace_ops(v: EdV, ops: Seq<PaintOp>) -> bool {
    if v.cursor == 0 {
        ops.len() == 0
    } else {
        write_line_ops(ed_backspace(v), Option::Some(ed_backspace(v).coord()), ops)
    }
}

/// Instructions returned by `del`.
pub open spec fn del_ops(v: EdV, ops: Seq<PaintOp>) -> bool {
    if v.cursor >= v.content.len() {
        ops.len() == 0
    } else {
        write_line_ops(ed_del(v), Option::Some(ed_del(v).coord()), ops)
    }
}

/// Instructions returned by `move_cursor_left`: nothing at the line start;
/// one row up and to the last column when stepping back over a row
/// boundary; one column left otherwise.
pub open spec fn move_left_ops(v: EdV, ops: Seq<PaintOp>) -> bool {
    if v.cursor == 0 {
        ops.len() == 0
    } else if pos_col_spec(v.prefix, v.cursor, v.cols) == 0 && pos_row_spec(
        v.prefix,
        v.cursor,
        v.cols,
    ) != 0 {
        ops =~= seq![PaintOp::MoveRowsUp(1), PaintOp::ToColumn((v.cols - 1) as usize)]
    } else {
        ops =~= seq![PaintOp::MoveColsLeft(1)]
    }
}

/// Instructions returned by `move_cursor_right`: nothing at the line end;
/// one row down and to column 0 when stepping over a row boundary; one
/// column right otherwise.
pub open spec fn move_right_ops(v: EdV, ops: Seq<PaintOp>) -> bool {
    if v.cursor >= v.content.len() {
        ops.len() == 0
    } else if pos_row_spec(v.prefix, v.cursor + 1, v.cols) != pos_row_spec(
        v.prefix,
        v.cursor,
        v.cols,
    ) {
        ops =~= seq![PaintOp::MoveRowsDown(1), PaintOp::ToColumn(0)]
    } else {
        ops =~= seq![PaintOp::MoveColsRight(1)]
    }
}

/// Instructions returned by `end_line`: step below the last painted row and
/// open a fresh terminal line at column 0.
pub open spec fn end_line_ops(v: EdV, ops: Seq<PaintOp>) -> bool {
    &&& ops.len() == 4
    &&& ops[0] == PaintOp::CursorHide
    &&& ops[1] == PaintOp::MoveRowsDown(
        (v.last_row() - pos_row_spec(v.prefix, v.cursor, v.cols)) as usize,
    )
    &&& ops[2] == PaintOp::Newline
    &&& ops[3] == PaintOp::ToColumn(0)
}

/// Instructions returned by `start_line`: remember the anchor, then redraw.
pub open spec fn start_line_ops(v: EdV, ops: Seq<PaintOp>) -> bool {
    &&& ops.len() >= 1
    &&& ops[0] == PaintOp::SavePosition
    &&& write_line_ops(ed_start_line(v), Option::None, ops.skip(1))
}

/// Instructions returned by `set_buffer`.
pub open spec fn set_buffer_ops(v: EdV, s: Seq<char>, ops: Seq<PaintOp>) -> bool {
    if set_blocked(v, s) {
        ops.len() == 0
    } else {
        write_line_ops(ed_set(v, s), Option::None, ops)
    }
}

/// The line editor: text input, cursor movement and repaint instructions.
pub struct TextInput {
    buffer: LineBuffer,
    prefix_len: usize,
    cols: usize,
}

impl View for TextInput {
    type V = EdV;

    closed spec fn view(&self) -> EdV {
        EdV {
            content: self.buffer@.content,
            cursor: self.buffer@.cursor,
            prefix: self.prefix_len as int,
            cols: self.cols as int,
        }
    }
}

impl TextInput {
    /// A fresh, empty editor for a prompt of display width `prefix_len` on
    /// a terminal `cols` columns wide. A terminal narrower than the prompt
    /// is rejected by the session constructor.
    pub fn new(prefix_len: usize, cols: usize) -> (r: TextInput)
        requires
            1 <= cols,
            prefix_len <= cols,
            prefix_len <= MAX_LINE_TOTAL,
        ensures
            r@ == (EdV {
                content: Seq::<char>::empty(),
                cursor: 0,
                prefix: prefix_len as int,
                cols: cols as int,
            }),
            r@.wf(),
    {
        TextInput { buffer: LineBuffer::new(), prefix_len, cols }
    }

    /// The current line as a string.
    pub fn get_buffer(&self) -> (r: String)
        requires
            self@.wf(),
        ensures
            r@ == self@.content,
    {
        let n = self.buffer.len();
        let mut v: Vec<char> = Vec::new();
        let mut i: usize = 0;
        while i < n
            invariant
                i <= n,
                n == self@.content.len(),
                self@.wf(),
                v@ == self@.content.take(i as int),
            decreases n - i,
        {
            v.push(self.buffer.char_at(i));
            proof {
                assert(v@ =~= self@.content.take(i + 1));
            }
            i += 1;
        }
        proof {
            assert(v@ =~= self@.content);
        }
        chars_to_string(&v)
    }

    /// The buffer offset the cursor points at.
    pub fn get_cursor_buffer_pos(&self) -> (r: usize)
        ensures
            r == self@.cursor,
    {
        self.buffer.cursor()
    }

    /// The (column, row) coordinate of the cursor inside the wrapped input.
    pub fn get_cursor_pos(&self) -> (r: (usize, usize))
        requires
            self@.wf(),
        ensures
            r == self@.coord(),
    {
        pos_coord(self.prefix_len, self.buffer.cursor(), self.cols)
    }

    /// How many rows beyond the first the current input spills over.
    pub fn get_line_count(&self) -> (r: usize)
        requires
            self@.wf(),
        ensures
            r == self@.last_row(),
    {
        full_rows(self.prefix_len, self.buffer.len(), self.cols)
    }

    /// The characters of wrapped row `line` of the current input.
    pub fn get_line_content(&self, line: usize) -> (r: String)
        requires
            self@.wf(),
            line <= self@.last_row(),
        ensures
            r@ == line_content_spec(self@.content, self@.prefix, self@.cols, line as int),
    {
        let len = self.buffer.len();
        let ghost p = self@.prefix;
        let ghost w = self@.cols;
        let ghost l = self@.content.len() as int;
        let (start, end): (usize, usize) = if line == 0 {
            let cap = self.cols - self.prefix_len;
            (0, if cap <= len { cap } else { len })
        } else {
            proof {
                vstd::arithmetic::div_mod::lemma_fundamental_div_mod(p + l, w);
                vstd::arithmetic::div_mod::lemma_mod_bound(p + l, w);
                vstd::arithmetic::mul::lemma_mul_inequality(line as int, (p + l) / w, w);
                assert(line * w <= ((p + l) / w) * w);
                assert(((p + l) / w) * w == w * ((p + l) / w));
                assert(line * w <= p + l);
                vstd::arithmetic::mul::lemma_mul_inequality(1, line as int, w);
                assert(w <= line * w);
            }
            let s = line * self.cols - self.prefix_len;
            (s, if s + self.cols <= len { s + self.cols } else { len })
        };
        let mut v: Vec<char> = Vec::new();
        let mut i: usize = start;
        while i < end
            invariant
                start <= i <= end,
                end <= self@.content.len(),
                self@.wf(),
                v@ == self@.content.subrange(start as int, i as int),
            decreases end - i,
        {
            v.push(self.buffer.char_at(i));
            proof {
                assert(v@ =~= self@.content.subrange(start as int, i + 1));
            }
            i += 1;
        }
        proof {
            assert(v@ =~= line_content_spec(self@.content, p, w, line as int));
        }
        chars_to_string(&v)
    }

    /// Erase-and-redraw: repaint all wrapped rows of the input from the
    /// anchor downward, then reposition the cursor to `pos` if given.
    pub fn write_line(&self, pos: Option<(usize, usize)>) -> (ops: Vec<PaintOp>)
        requires
            self@.wf(),
        ensures
            write_line_ops(self@, pos, ops@),
    {
        let mut ops: Vec<PaintOp> = Vec::new();
        ops.push(PaintOp::CursorHide);
        ops.push(PaintOp::RestorePosition);
        ops.push(PaintOp::EraseDown);
        let lc = self.get_line_count();
        let mut line: usize = 0;
        while line <= lc
            invariant
                line <= lc + 1,
                lc == self@.last_row(),
                lc <= MAX_LINE_TOTAL,
                self@.wf(),
                ops@.len() == 3 + line,
                ops@[0] == PaintOp::CursorHide,
                ops@[1] == PaintOp::RestorePosition,
                ops@[2] == PaintOp::EraseDown,
                forall|i: int| 0 <= i < line ==> row_op(self@, lc as int, i, #[trigger] ops@[3 + i]),
            decreases lc + 1 - line,
        {
            let text = self.get_line_content(line);
            ops.push(PaintOp::WriteLine { first: line == 0, text, newline: line < lc });
            line += 1;
        }
        if let Option::Some(p) = pos {
            ops.push(PaintOp::RestorePosition);
            ops.push(PaintOp::MoveRowsDown(p.1));
            ops.push(PaintOp::ToColumn(p.0));
        }
        ops.push(PaintOp::CursorShow);
        ops
    }

    /// Handle a printable keystroke: insert at the cursor and repaint.
    /// Codepoints wider than one storage unit, and input beyond the line
    /// capacity, are ignored.
    pub fn input_char(&mut self, c: char) -> (ops: Vec<PaintOp>)
        requires
            old(self)@.wf(),
        ensures
            final(self)@ == ed_insert(old(self)@, c),
            final(self)@.wf(),
            input_char_ops(old(self)@, c, ops@),
    {
        if (c as u32) >= 128 {
            return Vec::new();
        }
        if self.prefix_len + self.buffer.len() >= MAX_LINE_TOTAL {
            return Vec::new();
        }
        self.buffer.insert(c);
        let coord = self.get_cursor_pos();
        self.write_line(Option::Some(coord))
    }

    /// Handle backspace: remove the codepoint before the cursor and repaint.
    pub fn backspace(&mut self) -> (ops: Vec<PaintOp>)
        requires
            old(self)@.wf(),
        ensures
            final(self)@ == ed_backspace(old(self)@),
            final(self)@.wf(),
            backspace_ops(old(self)@, ops@),
    {
        if self.buffer.cursor() == 0 {
            return Vec::new();
        }
        self.buffer.delete_before();
        let coord = self.get_cursor_pos();
        self.write_line(Option::Some(coord))
    }

    /// Handle delete-forward: remove the codepoint at the cursor and repaint.
    pub fn del(&mut self) -> (ops: Vec<PaintOp>)
        requires
            old(self)@.wf(),
        ensures
            final(self)@ == ed_del(old(self)@),
            final(self)@.wf(),
            del_ops(old(self)@, ops@),
    {
        if self.buffer.cursor() >= self.buffer.len() {
            return Vec::new();
        }
        self.buffer.delete_at();
        let coord = self.get_cursor_pos();
        self.write_line(Option::Some(coord))
    }

    /// Step the cursor one codepoint left; crossing a wrapped-row boundary
    /// repositions to the end of the previous row.
    pub fn move_cursor_left(&mut self) -> (ops: Vec<PaintOp>)
        requires
            old(self)@.wf(),
        ensures
            final(self)@ == ed_left(old(self)@),
            final(self)@.wf(),
            move_left_ops(old(self)@, ops@),
    {
        if self.buffer.cursor() == 0 {
            return Vec::new();
        }
        let coord = self.get_cursor_pos();
        self.buffer.move_left();
        let mut ops: Vec<PaintOp> = Vec::new();
        if coord.0 == 0 && coord.1 != 0 {
            ops.push(PaintOp::MoveRowsUp(1));
            ops.push(PaintOp::ToColumn(self.cols - 1));
        } else {
            ops.push(PaintOp::MoveColsLeft(1));
        }
        ops
    }

    /// Step the cursor one codepoint right; crossing a wrapped-row boundary
    /// repositions to the start of the next row.
    pub fn move_cursor_right(&mut self) -> (ops: Vec<PaintOp>)
        requires
            old(self)@.wf(),
        ensures
            final(self)@ == ed_right(old(self)@),
            final(self)@.wf(),
            move_right_ops(old(self)@, ops@),
    {
        if self.buffer.cursor() >= self.buffer.len() {
            return Vec::new();
        }
        let coord_old = self.get_cursor_pos();
        self.buffer.move_right();
        let coord_new = self.get_cursor_pos();
        let mut ops: Vec<PaintOp> = Vec::new();
        if coord_new.1 != coord_old.1 {
            ops.push(PaintOp::MoveRowsDown(1));
            ops.push(PaintOp::ToColumn(0));
        } else {
            ops.push(PaintOp::MoveColsRight(1));
        }
        ops
    }

    /// Jump the cursor to the start of the input and repaint.
    pub fn move_cursor_start(&mut self) -> (ops: Vec<PaintOp>)
        requires
            old(self)@.wf(),
        ensures
            final(self)@ == ed_start(old(self)@),
            final(self)@.wf(),
            write_line_ops(ed_start(old(self)@), Option::Some(ed_start(old(self)@).coord()), ops@),
    {
        self.buffer.move_to_start();
        let coord = self.get_cursor_pos();
        self.write_line(Option::Some(coord))
    }

    /// Jump the cursor to the end of the input and repaint.
    pub fn move_cursor_end(&mut self) -> (ops: Vec<PaintOp>)
        requires
            old(self)@.wf(),
        ensures
            final(self)@ == ed_end(old(self)@),
            final(self)@.wf(),
            write_line_ops(ed_end(old(self)@), Option::Some(ed_end(old(self)@).coord()), ops@),
    {
        self.buffer.move_to_end();
        let coord = self.get_cursor_pos();
        self.write_line(Option::Some(coord))
    }

    /// End the current line: empty the buffer and step the terminal cursor
    /// below the last painted row onto a fresh line.
    pub fn end_line(&mut self) -> (ops: Vec<PaintOp>)
        requires
            old(self)@.wf(),
        ensures
            final(self)@ == ed_end_line(old(self)@),
            final(self)@.wf(),
            end_line_ops(old(self)@, ops@),
    {
        let coord = self.get_cursor_pos();
        let lc = self.get_line_count();
        proof {
            vstd::arithmetic::div_mod::lemma_div_is_ordered(
                self@.prefix + self@.cursor,
                self@.prefix + self@.content.len(),
                self@.cols,
            );
        }
        let move_y = lc - coord.1;
        self.buffer.clear();
        let mut ops: Vec<PaintOp> = Vec::new();
        ops.push(PaintOp::CursorHide);
        ops.push(PaintOp::MoveRowsDown(move_y));
        ops.push(PaintOp::Newline);
        ops.push(PaintOp::ToColumn(0));
        ops
    }

    /// Start a new input row: remember the anchor position, put the cursor
    /// at the start and repaint prompt and content.
    pub fn start_line(&mut self) -> (ops: Vec<PaintOp>)
        requires
            old(self)@.wf(),
        ensures
            final(self)@ == ed_start_line(old(self)@),
            final(self)@.wf(),
            start_line_ops(old(self)@, ops@),
    {
        self.buffer.move_to_start();
        let mut ops: Vec<PaintOp> = Vec::new();
        ops.push(PaintOp::SavePosition);
        let mut rest = self.write_line(Option::None);
        let ghost rest_view = rest@;
        ops.append(&mut rest);
        proof {
            assert(ops@.skip(1) =~= rest_view);
        }
        ops
    }

    /// Replace the line with `content` (history recall), cursor at the end,
    /// and repaint. Content beyond the line capacity is refused and leaves
    /// the editor as it is.
    pub fn set_buffer(&mut self, content: &str) -> (ops: Vec<PaintOp>)
        requires
            old(self)@.wf(),
        ensures
            final(self)@ == ed_set(old(self)@, content@),
            final(self)@.wf(),
            set_buffer_ops(old(self)@, content@, ops@),
    {
        let chars = string_to_chars(content);
        if chars.len() > MAX_LINE_TOTAL || self.prefix_len > MAX_LINE_TOTAL - chars.len() {
            return Vec::new();
        }
        self.buffer.replace(chars);
        self.write_line(Option::None)
    }
}

} // verus!
