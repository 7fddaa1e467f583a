//! The editor's text buffer: an ordered sequence of lines, a cursor, and an
//! owned sticky column for vertical movement. Every operation's effect is
//! stated against the step functions of [`crate::model`].

use vstd::prelude::*;

use crate::model::TextModel;
use crate::model::backspace_step;
use crate::model::delete_step;
use crate::model::down_step;
use crate::model::insert_char_step;
use crate::model::landing_col;
use crate::model::left_step;
use crate::model::lines_view;
use crate::model::newline_step;
use crate::model::opt_col;
use crate::model::right_step;
use crate::model::stick;
use crate::model::up_step;

verus! {

/// One dispatched editing command: what a single key press asks of the
/// buffer.
#[derive(Clone, Copy, Debug)]
pub enum EditCommand {
    Insert(char),
    Newline,
    Backspace,
    DeleteForward,
    Up,
    Down,
    Left,
    Right,
}

/// What one dispatched command does to the buffer and to the sticky
/// column: the matching step, and the reset discipline — any command that
/// is not itself a vertical move clears the sticky column.
pub open spec fn command_step(m: TextModel, c: Option<nat>, cmd: EditCommand) -> (
    TextModel,
    Option<nat>,
) {
    match cmd {
        EditCommand::Insert(ch) => (insert_char_step(m, ch), None),
        EditCommand::Newline => (newline_step(m), None),
        EditCommand::Backspace => (backspace_step(m), None),
        EditCommand::DeleteForward => (delete_step(m), None),
        EditCommand::Up => up_step(m, c),
        EditCommand::Down => down_step(m, c),
        EditCommand::Left => (left_step(m), None),
        EditCommand::Right => (right_step(m), None),
    }
}

/// Every reachable state of the buffer is well-formed: from a well-formed
/// state, each dispatched command — with newline characters arriving only
/// as the newline command, never as inserted text — leads again to a
/// well-formed state, so the buffer never empties, the cursor always
/// addresses a valid insertion point, and no line ever contains a newline.
pub proof fn lemma_command_preserves_wf(m: TextModel, c: Option<nat>, cmd: EditCommand)
    requires
        m.wf(),
        cmd matches EditCommand::Insert(ch) ==> ch != '\n',
    ensures
        command_step(m, c, cmd).0.wf(),
{
}

/// A text buffer: lines of characters, a cursor `(cx, cy)`, and the sticky
/// column captured during a run of vertical cursor moves.
pub struct TedBuffer {
    lines: Vec<Vec<char>>,
    cx: usize,
    cy: usize,
    // when moving up/down repeatedly, snap back to the column the run started on
    column_cache: Option<usize>,
}

impl TedBuffer {
    /// The buffer's contents and cursor as a mathematical value.
    pub closed spec fn text(self) -> TextModel {
        TextModel { lines: lines_view(self.lines@), cx: self.cx as nat, cy: self.cy as nat }
    }

    /// The sticky column as a mathematical value.
    pub closed spec fn sticky(self) -> Option<nat> {
        opt_col(self.column_cache)
    }

    /// The buffer invariant: at least one line, a cursor that addresses a
    /// valid insertion point, and no newline character inside any line.
    pub open spec fn wf(self) -> bool {
        self.text().wf()
    }

    /// Creates a clean text buffer: a single empty line, the cursor at the
    /// origin, and no sticky column.
    pub fn new() -> (r: Self)
        ensures
            r.wf(),
            r.text().lines == seq![Seq::<char>::empty()],
            r.text().cx == 0,
            r.text().cy == 0,
            r.sticky() is None,
    {
        let mut lines: Vec<Vec<char>> = Vec::new();
        lines.push(Vec::new());
        let r = TedBuffer { lines, cx: 0, cy: 0, column_cache: None };
        proof {
            assert(r.text().lines =~= seq![Seq::<char>::empty()]);
        }
        r
    }

    /// The cursor's column.
    pub fn cursor_x(&self) -> (r: usize)
        ensures
            r == self.text().cx,
    {
        self.cx
    }

    /// The cursor's row.
    pub fn cursor_y(&self) -> (r: usize)
        ensures
            r == self.text().cy,
    {
        self.cy
    }

    /// The sticky column, if a vertical run is underway.
    pub fn column_cache(&self) -> (r: &Option<usize>)
        ensures
            opt_col(*r) == self.sticky(),
    {
        &self.column_cache
    }

    /// The cursor's column indexed from 1, for display.
    pub fn view_cursor_x(&self) -> (r: usize)
        requires
            self.text().cx < usize::MAX,
        ensures
            r == self.text().cx + 1,
    {
        self.cx + 1
    }

    /// The cursor's row indexed from 1, for display.
    pub fn view_cursor_y(&self) -> (r: usize)
        requires
            self.wf(),
        ensures
            r == self.text().cy + 1,
    {
        let count: usize = self.lines.len();
        assert(self.cy < count);
        self.cy + 1
    }

    /// The buffer's lines.
    pub fn lines(&self) -> (r: &Vec<Vec<char>>)
        ensures
            lines_view(r@) == self.text().lines,
    {
        &self.lines
    }

    /// How many lines the buffer holds.
    pub fn lines_count(&self) -> (r: usize)
        ensures
            r == self.text().lines.len(),
    {
        self.lines.len()
    }

    /// Ends a vertical run: the next vertical move will capture a fresh
    /// sticky column. The contents and the cursor are untouched.
    pub fn reset_column_cache(&mut self)
        ensures
            final(self).text() == old(self).text(),
            final(self).sticky() is None,
    {
        self.column_cache = None;
    }

    /// Inserts the pressed character at the cursor and advances the cursor
    /// one column.
    pub fn insert_char(&mut self, ch: char)
        requires
            old(self).wf(),
            ch != '\n',
        ensures
            final(self).wf(),
            final(self).text() == insert_char_step(old(self).text(), ch),
            final(self).sticky() == old(self).sticky(),
    {
        if self.cy < self.lines.len() {
            let mut line = self.lines.remove(self.cy);
            line.insert(self.cx, ch);
            let n: usize = line.len();
            self.lines.insert(self.cy, line);
            assert(self.cx < n);
            self.cx = self.cx + 1;
            proof {
                let target = insert_char_step(old(self).text(), ch);
                assert(self.lines@ =~= old(self).lines@.update(
                    old(self).cy as int,
                    self.lines@[old(self).cy as int],
                ));
                assert(lines_view(self.lines@) =~= target.lines);
            }
        }
    }

    /// Inserts a newline at the cursor: splits the current line there, or
    /// appends an empty line when the cursor is on the last line. The
    /// cursor moves to the start of the next row.
    pub fn insert_empty_line(&mut self)
        requires
            old(self).wf(),
        ensures
            final(self).wf(),
            final(self).text() == newline_step(old(self).text()),
            final(self).sticky() == old(self).sticky(),
    {
        let count: usize = self.lines.len();
        assert(1 <= count);
        if self.cy < count - 1 {
            let mut current = self.lines.remove(self.cy);
            let after = current.split_off(self.cx);
            self.lines.insert(self.cy, current);
            self.lines.insert(self.cy + 1, after);
        } else {
            self.lines.push(Vec::new());
        }
        self.cx = 0;
        self.cy = self.cy + 1;
        proof {
            let target = newline_step(old(self).text());
            assert(lines_view(self.lines@) =~= target.lines);
        }
    }

    /// Backspace: deletes the character to the left of the cursor, merging
    /// the current line onto the previous one when the cursor is at column
    /// zero. Does nothing at the very start of the buffer.
    pub fn rm_char_backspace(&mut self)
        requires
            old(self).wf(),
        ensures
            final(self).wf(),
            final(self).text() == backspace_step(old(self).text()),
            final(self).sticky() == old(self).sticky(),
    {
        if self.cx == 0 {
            if self.cy == 0 {
                return ;
            }
            let mut cur = self.lines.remove(self.cy);
            let mut prev = self.lines.remove(self.cy - 1);
            self.cy = self.cy - 1;
            self.cx = prev.len();
            prev.append(&mut cur);
            self.lines.insert(self.cy, prev);
            proof {
                assert(lines_view(self.lines@) =~= backspace_step(old(self).text()).lines);
            }
        } else {
            let mut line = self.lines.remove(self.cy);
            line.remove(self.cx - 1);
            self.lines.insert(self.cy, line);
            self.cx = self.cx - 1;
            proof {
                assert(self.lines@ =~= old(self).lines@.update(
                    self.cy as int,
                    self.lines@[self.cy as int],
                ));
                assert(lines_view(self.lines@) =~= backspace_step(old(self).text()).lines);
            }
        }
    }

    /// Forward delete: deletes the character under the cursor, merging the
    /// next line onto the current one when the cursor is at the end of its
    /// line. Does nothing at the very end of the buffer. The cursor stays
    /// put.
    pub fn rm_char_delete(&mut self)
        requires
            old(self).wf(),
        ensures
            final(self).wf(),
            final(self).text() == delete_step(old(self).text()),
            final(self).sticky() == old(self).sticky(),
    {
        let count: usize = self.lines.len();
        assert(1 <= count);
        let line_len: usize = self.lines[self.cy].len();
        if self.cx == line_len {
            if self.cy >= count - 1 {
                return ;
            }
            let mut next = self.lines.remove(self.cy + 1);
            let mut cur = self.lines.remove(self.cy);
            cur.append(&mut next);
            self.lines.insert(self.cy, cur);
            proof {
                assert(lines_view(self.lines@) =~= delete_step(old(self).text()).lines);
            }
        } else {
            let mut line = self.lines.remove(self.cy);
            line.remove(self.cx);
            self.lines.insert(self.cy, line);
            proof {
                assert(self.lines@ =~= old(self).lines@.update(
                    self.cy as int,
                    self.lines@[self.cy as int],
                ));
                assert(lines_view(self.lines@) =~= delete_step(old(self).text()).lines);
            }
        }
    }

    /// The column a vertical move lands on: captures the sticky column at
    /// the start of a run, then clamps it to the length of the line the
    /// cursor has just moved onto. The caller has already changed the row;
    /// only the sticky column is written here.
    fn get_and_update_cached_x(&mut self) -> (r: usize)
        requires
            old(self).text().cy < old(self).text().lines.len(),
        ensures
            final(self).text() == old(self).text(),
            final(self).sticky() == stick(old(self).sticky(), old(self).text().cx),
            r == landing_col(final(self).sticky(), old(self).text().cur_line()),
    {
        if self.column_cache.is_none() {
            self.column_cache = Some(self.cx);
        }
        let target: usize = match self.column_cache {
            Some(v) => v,
            None => 0,
        };
        let next_row_len: usize = self.lines[self.cy].len();
        if target <= next_row_len {
            target
        } else {
            next_row_len
        }
    }

    /// Moves the cursor up one row, keeping as close as possible to the
    /// column the vertical run started on. Does nothing on the first line.
    pub fn move_cursor_up(&mut self)
        requires
            old(self).wf(),
        ensures
            final(self).wf(),
            (final(self).text(), final(self).sticky()) == up_step(
                old(self).text(),
                old(self).sticky(),
            ),
    {
        if self.cy > 0 {
            self.cy = self.cy - 1;
            let x: usize = self.get_and_update_cached_x();
            self.cx = x;
        }
    }

    /// Moves the cursor down one row, keeping as close as possible to the
    /// column the vertical run started on. Does nothing on the last line.
    pub fn move_cursor_down(&mut self)
        requires
            old(self).wf(),
        ensures
            final(self).wf(),
            (final(self).text(), final(self).sticky()) == down_step(
                old(self).text(),
                old(self).sticky(),
            ),
    {
        let count: usize = self.lines.len();
        if self.cy + 1 < count {
            self.cy = self.cy + 1;
            let x: usize = self.get_and_update_cached_x();
            self.cx = x;
        }
    }

    /// Moves the cursor one column left, wrapping to the end of the
    /// previous line at column zero. Does nothing at the start of the
    /// buffer.
    pub fn move_cursor_left(&mut self)
        requires
            old(self).wf(),
        ensures
            final(self).wf(),
            final(self).text() == left_step(old(self).text()),
            final(self).sticky() == old(self).sticky(),
    {
        if self.cx > 0 {
            self.cx = self.cx - 1;
        } else if self.cx == 0 && self.cy > 0 {
            // wrap the cursor to the end of the previous line
            self.cy = self.cy - 1;
            self.cx = self.lines[self.cy].len();
        }
    }

    /// Moves the cursor one column right, wrapping to the start of the next
    /// line at the end of a line. Does nothing at the end of the buffer.
    pub fn move_cursor_right(&mut self)
        requires
            old(self).wf(),
        ensures
            final(self).wf(),
            final(self).text() == right_step(old(self).text()),
            final(self).sticky() == old(self).sticky(),
    {
        let count: usize = self.lines.len();
        let line_len: usize = self.lines[self.cy].len();
        if self.cx < line_len {
            self.cx = self.cx + 1;
        } else if self.cx == line_len && self.cy + 1 < count {
            // wrap the cursor to the start of the next line
            self.cy = self.cy + 1;
            self.cx = 0;
        }
    }

    /// Performs one dispatched command, applying the sticky-column reset
    /// discipline: a command that is not a vertical move ends the run.
    pub fn apply(&mut self, cmd: EditCommand)
        requires
            old(self).wf(),
            cmd matches EditCommand::Insert(ch) ==> ch != '\n',
        ensures
            final(self).wf(),
            (final(self).text(), final(self).sticky()) == command_step(
                old(self).text(),
                old(self).sticky(),
                cmd,
            ),
    {
        match cmd {
            EditCommand::Insert(ch) => {
                self.insert_char(ch);
                self.reset_column_cache();
            },
            EditCommand::Newline => {
                self.insert_empty_line();
                self.reset_column_cache();
            },
            EditCommand::Backspace => {
                self.rm_char_backspace();
                self.reset_column_cache();
            },
            EditCommand::DeleteForward => {
                self.rm_char_delete();
                self.reset_column_cache();
            },
            EditCommand::Up => {
                self.move_cursor_up();
            },
            EditCommand::Down => {
                self.move_cursor_down();
            },
            EditCommand::Left => {
                self.move_cursor_left();
                self.reset_column_cache();
            },
            EditCommand::Right => {
                self.move_cursor_right();
                self.reset_column_cache();
            },
        }
    }
}

} // verus!
