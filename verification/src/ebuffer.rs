//! An editor buffer whose sticky column is owned by the control loop and
//! passed into the vertical moves by reference, so the reset rule stays
//! visible at the call site. Every operation's effect is stated against the
//! step functions of [`crate::model`].

use vstd::prelude::*;

use crate::model::TextModel;
use crate::model::backspace_step;
use crate::model::delete_step;
use crate::model::down_step;
use crate::model::insert_char_step;
use crate::model::landing_col;
use crate::model::left_step;
use crate::model::lines_view;
use crate::model::newline_step;
use crate::model::opt_col;
use crate::model::right_step;
use crate::model::stick;
use crate::model::up_step;
use crate::viewport::tail_of;

verus! {

/// Where the bottom-anchored view of a buffer of `count` lines starts when
/// at most `n` of them fit: the last `n` lines are shown.
pub open spec fn display_start(count: nat, n: nat) -> nat {
    if count > n {
        (count - n) as nat
    } else {
        0
    }
}

/// An editor buffer: lines of characters and a cursor `(cx, cy)`. The
/// sticky column for vertical movement lives with the caller.
pub struct EBuffer {
    lines: Vec<Vec<char>>,
    cx: usize,
    cy: usize,
}

impl EBuffer {
    /// The buffer's contents and cursor as a mathematical value.
    pub closed spec fn text(self) -> TextModel {
        TextModel { lines: lines_view(self.lines@), cx: self.cx as nat, cy: self.cy as nat }
    }

    /// The buffer invariant: at least one line, a cursor that addresses a
    /// valid insertion point, and no newline character inside any line.
    pub open spec fn wf(self) -> bool {
        self.text().wf()
    }

    /// Creates a clean text buffer: a single empty line and the cursor at
    /// the origin.
    pub fn new() -> (r: Self)
        ensures
            r.wf(),
            r.text().lines == seq![Seq::<char>::empty()],
            r.text().cx == 0,
            r.text().cy == 0,
    {
        let mut lines: Vec<Vec<char>> = Vec::new();
        lines.push(Vec::new());
        let r = EBuffer { lines, cx: 0, cy: 0 };
        proof {
            assert(r.text().lines =~= seq![Seq::<char>::empty()]);
        }
        r
    }

    /// The cursor's column.
    pub fn cursor_x(&self) -> (r: usize)
        ensures
            r == self.text().cx,
    {
        self.cx
    }

    /// The cursor's row.
    pub fn cursor_y(&self) -> (r: usize)
        ensures
            r == self.text().cy,
    {
        self.cy
    }

    /// Inserts a newline at the cursor: splits the current line there, or
    /// appends an empty line when the cursor is on the last line. The
    /// cursor moves to the start of the next row.
    pub fn insert_empty_line(&mut self)
        requires
            old(self).wf(),
        ensures
            final(self).wf(),
            final(self).text() == newline_step(old(self).text()),
    {
        let count: usize = self.lines.len();
        assert(1 <= count);
        if self.cy < count - 1 {
            let mut current = self.lines.remove(self.cy);
            let after = current.split_off(self.cx);
            self.lines.insert(self.cy, current);
            self.lines.insert(self.cy + 1, after);
        } else {
            self.lines.push(Vec::new());
        }
        self.cx = 0;
        self.cy = self.cy + 1;
        proof {
            assert(lines_view(self.lines@) =~= newline_step(old(self).text()).lines);
        }
    }

    /// Inserts the pressed character at the cursor and advances the cursor
    /// one column.
    pub fn insert_char(&mut self, ch: char)
        requires
            old(self).wf(),
            ch != '\n',
        ensures
            final(self).wf(),
            final(self).text() == insert_char_step(old(self).text(), ch),
    {
        if self.cy < self.lines.len() {
            let mut line = self.lines.remove(self.cy);
            line.insert(self.cx, ch);
            let n: usize = line.len();
            self.lines.insert(self.cy, line);
            assert(self.cx < n);
            self.cx = self.cx + 1;
            proof {
                assert(self.lines@ =~= old(self).lines@.update(
                    old(self).cy as int,
                    self.lines@[old(self).cy as int],
                ));
                assert(lines_view(self.lines@) =~= insert_char_step(
                    old(self).text(),
                    ch,
                ).lines);
            }
        }
    }

    /// Backspace: deletes the character to the left of the cursor, merging
    /// the current line onto the previous one when the cursor is at column
    /// zero. Does nothing at the very start of the buffer.
    pub fn rm_char_backspace(&mut self)
        requires
            old(self).wf(),
        ensures
            final(self).wf(),
            final(self).text() == backspace_step(old(self).text()),
    {
        if self.cx == 0 {
            if self.cy == 0 {
                return ;
            }
            let mut cur = self.lines.remove(self.cy);
            let mut prev = self.lines.remove(self.cy - 1);
            self.cy = self.cy - 1;
            self.cx = prev.len();
            prev.append(&mut cur);
            self.lines.insert(self.cy, prev);
            proof {
                assert(lines_view(self.lines@) =~= backspace_step(old(self).text()).lines);
            }
        } else {
            let mut line = self.lines.remove(self.cy);
            line.remove(self.cx - 1);
            self.lines.insert(self.cy, line);
            self.cx = self.cx - 1;
            proof {
                assert(self.lines@ =~= old(self).lines@.update(
                    self.cy as int,
                    self.lines@[self.cy as int],
                ));
                assert(lines_view(self.lines@) =~= backspace_step(old(self).text()).lines);
            }
        }
    }

    /// Forward delete: deletes the character under the cursor, merging the
    /// next line onto the current one when the cursor is at the end of its
    /// line. Does nothing at the very end of the buffer. The cursor stays
    /// put.
    pub fn rm_char_delete(&mut self)
        requires
            old(self).wf(),
        ensures
            final(self).wf(),
            final(self).text() == delete_step(old(self).text()),
    {
        let count: usize = self.lines.len();
        assert(1 <= count);
        let line_len: usize = self.lines[self.cy].len();
        if self.cx == line_len {
            if self.cy >= count - 1 {
                return ;
            }
            let mut next = self.lines.remove(self.cy + 1);
            let mut cur = self.lines.remove(self.cy);
            cur.append(&mut next);
            self.lines.insert(self.cy, cur);
            proof {
                assert(lines_view(self.lines@) =~= delete_step(old(self).text()).lines);
            }
        } else {
            let mut line = self.lines.remove(self.cy);
            line.remove(self.cx);
            self.lines.insert(self.cy, line);
            proof {
                assert(self.lines@ =~= old(self).lines@.update(
                    self.cy as int,
                    self.lines@[self.cy as int],
                ));
                assert(lines_view(self.lines@) =~= delete_step(old(self).text()).lines);
            }
        }
    }

    /// The column a vertical move lands on: captures the caller's sticky
    /// column at the start of a run, then clamps it to the length of the
    /// line the cursor has just moved onto.
    fn get_and_update_cached_x(
        &self,
        column_cache: &mut Option<usize>,
        next_row: &Vec<char>,
    ) -> (r: usize)
        ensures
            opt_col(*final(column_cache)) == stick(opt_col(*old(column_cache)), self.text().cx),
            r == landing_col(opt_col(*final(column_cache)), next_row@),
    {
        if column_cache.is_none() {
            *column_cache = Some(self.cx);
        }
        let target: usize = match *column_cache {
            Some(v) => v,
            None => 0,
        };
        let next_row_len: usize = next_row.len();
        if target <= next_row_len {
            target
        } else {
            next_row_len
        }
    }

    /// Moves the cursor up one row, keeping as close as possible to the
    /// column the caller's vertical run started on. Does nothing on the
    /// first line.
    pub fn move_cursor_up(&mut self, column_cache: &mut Option<usize>)
        requires
            old(self).wf(),
        ensures
            final(self).wf(),
            (final(self).text(), opt_col(*final(column_cache))) == up_step(
                old(self).text(),
                opt_col(*old(column_cache)),
            ),
    {
        if self.cy > 0 {
            self.cy = self.cy - 1;
            let x: usize = self.get_and_update_cached_x(column_cache, &self.lines[self.cy]);
            self.cx = x;
        }
    }

    /// Moves the cursor down one row, keeping as close as possible to the
    /// column the caller's vertical run started on. Does nothing on the
    /// last line.
    pub fn move_cursor_down(&mut self, column_cache: &mut Option<usize>)
        requires
            old(self).wf(),
        ensures
            final(self).wf(),
            (final(self).text(), opt_col(*final(column_cache))) == down_step(
                old(self).text(),
                opt_col(*old(column_cache)),
            ),
    {
        let count: usize = self.lines.len();
        if self.cy + 1 < count {
            self.cy = self.cy + 1;
            let x: usize = self.get_and_update_cached_x(column_cache, &self.lines[self.cy]);
            self.cx = x;
        }
    }

    /// Moves the cursor one column left, wrapping to the end of the
    /// previous line at column zero. Does nothing at the start of the
    /// buffer.
    pub fn move_cursor_left(&mut self)
        requires
            old(self).wf(),
        ensures
            final(self).wf(),
            final(self).text() == left_step(old(self).text()),
    {
        if self.cx > 0 {
            self.cx = self.cx - 1;
        } else if self.cx == 0 && self.cy > 0 {
            // wrap the cursor to the end of the previous line
            self.cy = self.cy - 1;
            self.cx = self.lines[self.cy].len();
        }
    }

    /// Moves the cursor one column right, wrapping to the start of the next
    /// line at the end of a line. Does nothing at the end of the buffer.
    pub fn move_cursor_right(&mut self)
        requires
            old(self).wf(),
        ensures
            final(self).wf(),
            final(self).text() == right_step(old(self).text()),
    {
        let count: usize = self.lines.len();
        let line_len: usize = self.lines[self.cy].len();
        if self.cx < line_len {
            self.cx = self.cx + 1;
        } else if self.cx == line_len && self.cy + 1 < count {
            // wrap the cursor to the start of the next line
            self.cy = self.cy + 1;
            self.cx = 0;
        }
    }

    /// The lines a bottom-anchored display of `num_lines_to_display` rows
    /// shows, together with the index of the first of them: the whole
    /// buffer when it fits, otherwise its last `num_lines_to_display`
    /// lines.
    pub fn display_lines(&self, num_lines_to_display: usize) -> (r: (Vec<Vec<char>>, usize))
        ensures
            r.1 == display_start(self.text().lines.len(), num_lines_to_display as nat),
            lines_view(r.0@) == self.text().lines.skip(r.1 as int),
    {
        let count: usize = self.lines.len();
        let start: usize = if count > num_lines_to_display {
            count - num_lines_to_display
        } else {
            0
        };
        let mut out: Vec<Vec<char>> = Vec::new();
        let mut i: usize = start;
        while i < count
            invariant
                start <= i <= count,
                count == self.lines@.len(),
                out@.len() == i - start,
                forall|j: int| 0 <= j < out@.len() ==> out@[j]@ == self.lines@[start + j]@,
            decreases count - i,
        {
            let line = tail_of(&self.lines[i], 0);
            out.push(line);
            i = i + 1;
        }
        proof {
            assert(lines_view(out@) =~= self.text().lines.skip(start as int));
        }
        (out, start)
    }
}

} // verus!
