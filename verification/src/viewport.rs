//! The viewport controller: owns the visible window's top-left origin into
//! the buffer's row/column space, shifts it so the cursor stays visible,
//! and produces the visible slice of lines together with the cursor's
//! window-relative position.

use vstd::prelude::*;

use crate::model::lines_view;
use crate::model::min_nat;
use crate::text_buffer::TedBuffer;

verus! {

/// Where the window origin moves so that a cursor coordinate `pos` stays
/// inside `[start, start + extent)`: past the far edge the window shifts
/// just enough to include `pos` at its last position, before the near edge
/// it snaps back to `pos`, otherwise it stays. A window of extent zero
/// shows nothing; the far-edge rule then puts its origin just past the
/// cursor, at `pos + 1`.
pub open spec fn adjust(start: nat, pos: nat, extent: nat) -> nat {
    if pos >= start + extent {
        (pos + 1 - extent) as nat
    } else if pos < start {
        pos
    } else {
        start
    }
}

/// A line as the window shows it: its characters from the window's first
/// visible column on; empty when the line ends before that column.
pub open spec fn visible_tail(line: Seq<char>, col: nat) -> Seq<char> {
    if col < line.len() {
        line.skip(col as int)
    } else {
        Seq::empty()
    }
}

/// The window's view of the buffer: at most `h` lines starting at row
/// `row`, each cut down to its visible tail from column `col`.
pub open spec fn window_slice(lines: Seq<Seq<char>>, row: nat, col: nat, h: nat) -> Seq<
    Seq<char>,
> {
    if row >= lines.len() {
        Seq::empty()
    } else {
        let end = min_nat(lines.len(), row + h);
        Seq::new((end - row) as nat, |i: int| visible_tail(lines[row + i], col))
    }
}

/// Copies a line's characters from offset `from` to its end.
pub(crate) fn tail_of(src: &Vec<char>, from: usize) -> (r: Vec<char>)
    requires
        from <= src@.len(),
    ensures
        r@ == src@.skip(from as int),
{
    let mut r: Vec<char> = Vec::new();
    let mut i: usize = from;
    while i < src.len()
        invariant
            from <= i <= src@.len(),
            r@.len() == i - from,
            forall|j: int| 0 <= j < r@.len() ==> r@[j] == src@[from + j],
        decreases src@.len() - i,
    {
        r.push(src[i]);
        i = i + 1;
    }
    proof {
        assert(r@ =~= src@.skip(from as int));
    }
    r
}

/// The viewport controller: the window's top-left origin into the buffer.
pub struct BufferRenderer {
    start_x: usize,
    start_y: usize,
}

impl BufferRenderer {
    /// The window's first visible column.
    pub closed spec fn spec_start_col(self) -> nat {
        self.start_x as nat
    }

    /// The window's first visible row.
    pub closed spec fn spec_start_row(self) -> nat {
        self.start_y as nat
    }

    /// A window anchored at the buffer's origin.
    pub fn new() -> (r: Self)
        ensures
            r.spec_start_col() == 0,
            r.spec_start_row() == 0,
    {
        Self { start_x: 0, start_y: 0 }
    }

    /// The window's first visible column.
    pub fn start_col(&self) -> (r: usize)
        ensures
            r == self.spec_start_col(),
    {
        self.start_x
    }

    /// The window's first visible row.
    pub fn start_row(&self) -> (r: usize)
        ensures
            r == self.spec_start_row(),
    {
        self.start_y
    }

    /// Shifts the window, on each axis independently, so the buffer's
    /// cursor lies inside the visible rectangle; a window that already
    /// shows the cursor does not move.
    pub fn update_view_window(
        &mut self,
        ed_width: usize,  // current width of the editor
        ed_height: usize,  // current height of the editor
        buffer: &TedBuffer,
    )
        requires
            buffer.wf(),
            ed_width == 0 ==> buffer.text().cx < usize::MAX,
        ensures
            final(self).spec_start_row() == adjust(
                old(self).spec_start_row(),
                buffer.text().cy,
                ed_height as nat,
            ),
            final(self).spec_start_col() == adjust(
                old(self).spec_start_col(),
                buffer.text().cx,
                ed_width as nat,
            ),
            ed_height >= 1 ==> final(self).spec_start_row() <= buffer.text().cy
                < final(self).spec_start_row() + ed_height,
            ed_width >= 1 ==> final(self).spec_start_col() <= buffer.text().cx
                < final(self).spec_start_col() + ed_width,
    {
        let cy: usize = buffer.cursor_y();
        let cx: usize = buffer.cursor_x();
        let count: usize = buffer.lines_count();
        assert(cy < count);

        if ed_height <= cy && self.start_y <= cy - ed_height {
            self.start_y = cy - ed_height + 1;
        } else if cy < self.start_y {
            self.start_y = cy;
        }
        if ed_width <= cx && self.start_x <= cx - ed_width {
            self.start_x = cx - ed_width + 1;
        } else if cx < self.start_x {
            self.start_x = cx;
        }
    }

    /// The lines the window shows: at most `ed_height` of them from the
    /// window's first visible row, each sliced from the window's first
    /// visible column. Recomputed fresh on every call.
    pub fn visible_lines(&self, buffer: &TedBuffer, ed_height: usize) -> (r: Vec<Vec<char>>)
        ensures
            lines_view(r@) == window_slice(
                buffer.text().lines,
                self.spec_start_row(),
                self.spec_start_col(),
                ed_height as nat,
            ),
    {
        let all = buffer.lines();
        let count: usize = all.len();
        let mut out: Vec<Vec<char>> = Vec::new();
        if self.start_y >= count {
            proof {
                assert(lines_view(out@) =~= Seq::<Seq<char>>::empty());
            }
            return out;
        }
        let end: usize = if count - self.start_y <= ed_height {
            count
        } else {
            self.start_y + ed_height
        };
        let mut i: usize = self.start_y;
        while i < end
            invariant
                self.spec_start_row() <= i <= end,
                end <= count,
                count == all@.len(),
                lines_view(all@) == buffer.text().lines,
                out@.len() == i - self.spec_start_row(),
                forall|j: int|
                    0 <= j < out@.len() ==> out@[j]@ == visible_tail(
                        all@[self.spec_start_row() + j]@,
                        self.spec_start_col(),
                    ),
            decreases end - i,
        {
            let line = &all[i];
            let sliced: Vec<char> = if self.start_x < line.len() {
                tail_of(line, self.start_x)
            } else {
                Vec::new()
            };
            out.push(sliced);
            i = i + 1;
        }
        proof {
            assert(lines_view(out@) =~= window_slice(
                buffer.text().lines,
                self.spec_start_row(),
                self.spec_start_col(),
                ed_height as nat,
            ));
        }
        out
    }

    /// The cursor's position relative to the window's origin, in buffer
    /// coordinates: any fixed chrome offsets are the renderer's business.
    pub fn view_cursor_position_on_buffer(&self, buffer: &TedBuffer) -> (r: (usize, usize))
        requires
            self.spec_start_col() <= buffer.text().cx,
            self.spec_start_row() <= buffer.text().cy,
        ensures
            r.0 == buffer.text().cx - self.spec_start_col(),
            r.1 == buffer.text().cy - self.spec_start_row(),
    {
        let cx: usize = buffer.cursor_x() - self.start_x;
        let cy: usize = buffer.cursor_y() - self.start_y;
        (cx, cy)
    }
}

} // verus!
