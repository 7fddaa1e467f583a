//! Mathematical model of the editing core.
//!
//! A buffer is modelled as a sequence of lines (each a sequence of
//! characters) together with a cursor `(cx, cy)`: `cy` indexes a line and
//! `cx` is an insertion offset into that line. Every edit and movement
//! operation of the executable buffers is specified by a pure step function
//! on this model, and the laws about the editor are proved about these
//! steps.

use vstd::prelude::*;

verus! {

/// The buffer's contents and cursor, as pure mathematics.
#[verifier::ext_equal]
pub struct TextModel {
    pub lines: Seq<Seq<char>>,
    pub cx: nat,
    pub cy: nat,
}

/// The line invariant: a line never contains a newline character.
pub open spec fn line_ok(line: Seq<char>) -> bool {
    forall|j: int| 0 <= j < line.len() ==> line[j] != '\n'
}

impl TextModel {
    /// The line the cursor is on.
    pub open spec fn cur_line(self) -> Seq<char> {
        self.lines[self.cy as int]
    }

    /// Well-formedness: at least one line, the cursor's row is a valid line
    /// index, its column is a valid insertion offset into that line, and no
    /// line contains a newline character.
    pub open spec fn wf(self) -> bool {
        &&& 1 <= self.lines.len()
        &&& self.cy < self.lines.len()
        &&& self.cx <= self.cur_line().len()
        &&& forall|i: int| 0 <= i < self.lines.len() ==> line_ok(#[trigger] self.lines[i])
    }
}

/// The smaller of two naturals.
pub open spec fn min_nat(a: nat, b: nat) -> nat {
    if a <= b {
        a
    } else {
        b
    }
}

/// A sticky column as a mathematical value: the sequence-of-characters view
/// of an optional machine column.
pub open spec fn opt_col(c: Option<usize>) -> Option<nat> {
    match c {
        None => None,
        Some(v) => Some(v as nat),
    }
}

/// The mathematical view of machine line storage.
pub open spec fn lines_view(v: Seq<Vec<char>>) -> Seq<Seq<char>> {
    Seq::new(v.len(), |i: int| v[i]@)
}

/// Inserting `ch` at the cursor: the character goes in at offset `cx` of the
/// current line and the cursor advances one column.
pub open spec fn insert_char_step(m: TextModel, ch: char) -> TextModel {
    TextModel {
        lines: m.lines.update(m.cy as int, m.cur_line().insert(m.cx as int, ch)),
        cx: m.cx + 1,
        cy: m.cy,
    }
}

/// Inserting a newline at the cursor. When the cursor is not on the last
/// line, the current line is split at the cursor; when it is on the last
/// line, an empty line is appended instead. Either way the cursor moves to
/// the start of the next row.
pub open spec fn newline_step(m: TextModel) -> TextModel {
    if m.cy + 1 < m.lines.len() {
        TextModel {
            lines: m.lines.subrange(0, m.cy as int) + seq![
                m.cur_line().subrange(0, m.cx as int),
                m.cur_line().subrange(m.cx as int, m.cur_line().len() as int),
            ] + m.lines.subrange(m.cy as int + 1, m.lines.len() as int),
            cx: 0,
            cy: m.cy + 1,
        }
    } else {
        TextModel { lines: m.lines.push(Seq::empty()), cx: 0, cy: m.cy + 1 }
    }
}

/// Backspace. At the start of the first line it does nothing; at the start
/// of a later line it merges that line onto the end of the previous one and
/// puts the cursor at the join; elsewhere it deletes the character to the
/// left of the cursor.
pub open spec fn backspace_step(m: TextModel) -> TextModel {
    if m.cx == 0 {
        if m.cy == 0 {
            m
        } else {
            TextModel {
                lines: m.lines.subrange(0, m.cy - 1) + seq![
                    m.lines[m.cy - 1] + m.cur_line(),
                ] + m.lines.subrange(m.cy as int + 1, m.lines.len() as int),
                cx: m.lines[m.cy - 1].len(),
                cy: (m.cy - 1) as nat,
            }
        }
    } else {
        TextModel {
            lines: m.lines.update(m.cy as int, m.cur_line().remove(m.cx - 1)),
            cx: (m.cx - 1) as nat,
            cy: m.cy,
        }
    }
}

/// Forward delete. At the end of the last line it does nothing; at the end
/// of an earlier line it merges the next line onto the end of the current
/// one; elsewhere it deletes the character under the cursor. The cursor
/// never moves.
pub open spec fn delete_step(m: TextModel) -> TextModel {
    if m.cx == m.cur_line().len() {
        if m.cy + 1 >= m.lines.len() {
            m
        } else {
            TextModel {
                lines: m.lines.subrange(0, m.cy as int) + seq![
                    m.cur_line() + m.lines[m.cy as int + 1],
                ] + m.lines.subrange(m.cy as int + 2, m.lines.len() as int),
                cx: m.cx,
                cy: m.cy,
            }
        }
    } else {
        TextModel {
            lines: m.lines.update(m.cy as int, m.cur_line().remove(m.cx as int)),
            cx: m.cx,
            cy: m.cy,
        }
    }
}

/// Moving left: back one column, or to the end of the previous line when
/// already at column zero. A no-op at the very start of the buffer.
pub open spec fn left_step(m: TextModel) -> TextModel {
    if m.cx > 0 {
        TextModel { cx: (m.cx - 1) as nat, ..m }
    } else if m.cy > 0 {
        TextModel { cx: m.lines[m.cy - 1].len(), cy: (m.cy - 1) as nat, ..m }
    } else {
        m
    }
}

/// Moving right: forward one column, or to the start of the next line when
/// already at the end of a line. A no-op at the very end of the buffer.
pub open spec fn right_step(m: TextModel) -> TextModel {
    if m.cx < m.cur_line().len() {
        TextModel { cx: m.cx + 1, ..m }
    } else if m.cy + 1 < m.lines.len() {
        TextModel { cx: 0, cy: m.cy + 1, ..m }
    } else {
        m
    }
}

/// The sticky column at the start of a vertical move: the first move of a
/// run captures the cursor's column, later moves keep the captured value.
pub open spec fn stick(c: Option<nat>, cx: nat) -> Option<nat> {
    if c is None {
        Some(cx)
    } else {
        c
    }
}

/// The column a vertical move lands on: the sticky column, clamped to the
/// length of the line being moved onto.
pub open spec fn landing_col(c: Option<nat>, line: Seq<char>) -> nat {
    match c {
        None => 0,
        Some(v) => min_nat(v, line.len()),
    }
}

/// Moving up with a sticky column: a no-op on the first line; otherwise the
/// cursor goes up one row, the sticky column is captured if this is the
/// first move of a run, and the column becomes the sticky column clamped to
/// the new line.
pub open spec fn up_step(m: TextModel, c: Option<nat>) -> (TextModel, Option<nat>) {
    if m.cy > 0 {
        let c2 = stick(c, m.cx);
        (
            TextModel {
                cx: landing_col(c2, m.lines[m.cy - 1]),
                cy: (m.cy - 1) as nat,
                ..m
            },
            c2,
        )
    } else {
        (m, c)
    }
}

/// Moving down with a sticky column: the mirror image of `up_step`, a no-op
/// on the last line.
pub open spec fn down_step(m: TextModel, c: Option<nat>) -> (TextModel, Option<nat>) {
    if m.cy + 1 < m.lines.len() {
        let c2 = stick(c, m.cx);
        (
            TextModel {
                cx: landing_col(c2, m.lines[m.cy as int + 1]),
                cy: m.cy + 1,
                ..m
            },
            c2,
        )
    } else {
        (m, c)
    }
}

/// Inserting a newline and then backspacing at the cursor it leaves
/// restores the buffer exactly: the split halves merge back into the
/// original line and the cursor returns to its original column. (When the
/// cursor sits mid-line on the last line, the newline appends an empty
/// line instead of splitting, and the backspace then lands at the end of
/// the line rather than at the original column — that case is left out.)
pub proof fn lemma_newline_backspace_round_trip(m: TextModel)
    requires
        m.wf(),
        m.cy + 1 < m.lines.len() || m.cx == m.cur_line().len(),
    ensures
        backspace_step(newline_step(m)) == m,
{
    let m1 = newline_step(m);
    let m2 = backspace_step(m1);
    // the two halves the newline leaves at rows cy and cy + 1 merge back
    // into the original line
    assert(m1.lines[m.cy as int] + m1.lines[m.cy as int + 1] =~= m.cur_line());
    assert(m2.lines =~~= m.lines);
    assert(m2 =~~= m);
}

/// At the buffer's boundaries the boundary moves and deletions are
/// no-ops: moving left or backspacing at the very start of the buffer, and
/// moving right or deleting forward at the very end of its last line,
/// leave the state exactly as it was.
pub proof fn lemma_boundary_no_ops(m: TextModel)
    requires
        m.wf(),
    ensures
        m.cx == 0 && m.cy == 0 ==> left_step(m) == m,
        m.cx == 0 && m.cy == 0 ==> backspace_step(m) == m,
        m.cy + 1 == m.lines.len() && m.cx == m.cur_line().len() ==> right_step(m) == m,
        m.cy + 1 == m.lines.len() && m.cx == m.cur_line().len() ==> delete_step(m) == m,
{
}

/// A vertical move keeps the sticky column of the run it belongs to: the
/// first move of a run captures the cursor's column, every later move
/// reuses the captured value, and each landing column is that value
/// clamped to the new line's length.
pub proof fn lemma_sticky_column_persists(m: TextModel, c: Option<nat>)
    requires
        m.wf(),
    ensures
        m.cy + 1 < m.lines.len() ==> down_step(m, c).1 == stick(c, m.cx) && down_step(
            m,
            c,
        ).0.cx == landing_col(stick(c, m.cx), m.lines[m.cy as int + 1]),
        m.cy > 0 ==> up_step(m, c).1 == stick(c, m.cx) && up_step(m, c).0.cx == landing_col(
            stick(c, m.cx),
            m.lines[m.cy - 1],
        ),
{
}

/// Two downward moves in one run: the column captured when the run starts
/// governs both landings, so that crossing a short line and reaching a
/// longer one restores the starting column rather than the short line's
/// length.
pub proof fn lemma_sticky_column_run(m: TextModel)
    requires
        m.wf(),
        m.cy + 2 < m.lines.len(),
    ensures
        ({
            let r1 = down_step(m, None);
            let r2 = down_step(r1.0, r1.1);
            r1.1 == Some(m.cx) && r2.1 == Some(m.cx) && r1.0.cx == min_nat(
                m.cx,
                m.lines[m.cy as int + 1].len(),
            ) && r2.0.cx == min_nat(m.cx, m.lines[m.cy as int + 2].len())
        }),
{
}

} // verus!
