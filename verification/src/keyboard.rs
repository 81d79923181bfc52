//! An on-screen keyboard: a grid of key glyphs, a cursor, and a text
//! buffer position.

use vstd::prelude::*;

use crate::math::min;
use crate::render::{Color, RenderContext};

verus! {

/// Coordinate bound under which the keyboard's layout arithmetic stays
/// in range.
pub const KB_MAX_COORD: isize = 100_000;

/// Bound on grid rows and row lengths that keeps layout arithmetic in
/// range.
pub const KB_MAX_DIM: usize = 100;

/// The hexadecimal key grid.
pub fn hex_grid() -> (r: Vec<Vec<u8>>)
    ensures
        r@.len() == 3,
        r@[0]@ =~= seq![48u8, 49u8, 50u8, 51u8, 52u8],
        r@[1]@ =~= seq![53u8, 54u8, 55u8, 56u8, 57u8],
        r@[2]@ =~= seq![65u8, 67u8, 68u8, 69u8, 70u8],
{
    let mut row1: Vec<u8> = Vec::new();
    row1.push(48);
    row1.push(49);
    row1.push(50);
    row1.push(51);
    row1.push(52);
    let mut row2: Vec<u8> = Vec::new();
    row2.push(53);
    row2.push(54);
    row2.push(55);
    row2.push(56);
    row2.push(57);
    let mut row3: Vec<u8> = Vec::new();
    row3.push(65);
    row3.push(67);
    row3.push(68);
    row3.push(69);
    row3.push(70);
    let mut grid: Vec<Vec<u8>> = Vec::new();
    grid.push(row1);
    grid.push(row2);
    grid.push(row3);
    grid
}

/// A keyboard that can be rendered on any context: key grid, cursor, and
/// the write position within the text buffer being edited.
pub struct Keyboard<T> {
    /// Left edge in pixels.
    pub pos_x: isize,
    /// Top edge in pixels.
    pub pos_y: isize,
    /// Column of the selected key.
    pub cursor_x: usize,
    /// Row of the selected key.
    pub cursor_y: usize,
    /// Write position within the buffer being edited.
    pub position: usize,
    /// Whether the keyboard has focus.
    pub active: bool,
    /// Whether input was committed with enter.
    pub enter: bool,
    /// Tag identifying which input this keyboard is editing.
    pub tag: u8,
    /// The key glyphs, row by row.
    pub grid: Vec<Vec<u8>>,
    /// Carrier for the host data type.
    pub marker: core::marker::PhantomData<T>,
}

impl<T> Keyboard<T> {
    /// The grid is non-degenerate, small enough for layout arithmetic,
    /// and the cursor sits on a key.
    pub open spec fn wf(self) -> bool {
        &&& 0 < self.grid@.len() <= KB_MAX_DIM
        &&& forall|r: int| 0 <= r < self.grid@.len() ==> 0 < (#[trigger] self.grid@[r])@.len() <= KB_MAX_DIM
        &&& self.cursor_y < self.grid@.len()
        &&& self.cursor_x < self.grid@[self.cursor_y as int]@.len()
    }

    /// A closed keyboard over the given key grid, cursor on the first
    /// key.
    pub fn new(pos_x: isize, pos_y: isize, grid: Vec<Vec<u8>>) -> (r: Self)
        requires
            0 < grid@.len() <= KB_MAX_DIM,
            forall|i: int| 0 <= i < grid@.len() ==> 0 < (#[trigger] grid@[i])@.len() <= KB_MAX_DIM,
        ensures
            r.wf(),
            r.pos_x == pos_x,
            r.pos_y == pos_y,
            r.cursor_x == 0,
            r.cursor_y == 0,
            r.position == 0,
            !r.active,
            !r.enter,
            r.tag == 0,
            r.grid@ == grid@,
    {
        Self {
            pos_x,
            pos_y,
            cursor_x: 0,
            cursor_y: 0,
            active: false,
            enter: false,
            grid,
            tag: 0,
            position: 0,
            marker: core::marker::PhantomData,
        }
    }

    /// Moves the cursor one row down, wrapping to the top row, and clamps
    /// the column to the new row.
    pub fn down(&mut self)
        requires
            old(self).wf(),
        ensures
            final(self).wf(),
            final(self).cursor_y == if old(self).cursor_y + 1 < old(self).grid@.len() {
                old(self).cursor_y + 1
            } else {
                0
            },
            final(self).cursor_x == if old(self).cursor_x < final(self).grid@[final(self).cursor_y as int]@.len() {
                old(self).cursor_x as int
            } else {
                final(self).grid@[final(self).cursor_y as int]@.len() - 1
            },
            final(self).grid@ == old(self).grid@,
            final(self).position == old(self).position,
    {
        if self.cursor_y + 1 < self.grid.len() {
            self.cursor_y = self.cursor_y + 1;
        } else {
            self.cursor_y = 0;
        }
        let row_len = self.grid[self.cursor_y].len();
        self.cursor_x = min(self.cursor_x, row_len - 1);
    }

    /// Moves the cursor one row up, wrapping to the bottom row, and
    /// clamps the column to the new row.
    pub fn up(&mut self)
        requires
            old(self).wf(),
        ensures
            final(self).wf(),
            final(self).cursor_y == if old(self).cursor_y > 0 {
                old(self).cursor_y - 1
            } else {
                old(self).grid@.len() - 1
            },
            final(self).cursor_x == if old(self).cursor_x < final(self).grid@[final(self).cursor_y as int]@.len() {
                old(self).cursor_x as int
            } else {
                final(self).grid@[final(self).cursor_y as int]@.len() - 1
            },
            final(self).grid@ == old(self).grid@,
            final(self).position == old(self).position,
    {
        if self.cursor_y > 0 {
            self.cursor_y = self.cursor_y - 1;
        } else {
            self.cursor_y = self.grid.len() - 1;
        }
        let row_len = self.grid[self.cursor_y].len();
        self.cursor_x = min(self.cursor_x, row_len - 1);
    }

    /// Moves the cursor one key left, wrapping to the end of the row.
    pub fn left(&mut self)
        requires
            old(self).wf(),
        ensures
            final(self).wf(),
            final(self).cursor_x == if old(self).cursor_x > 0 {
                old(self).cursor_x - 1
            } else {
                old(self).grid@[old(self).cursor_y as int]@.len() - 1
            },
            final(self).cursor_y == old(self).cursor_y,
            final(self).grid@ == old(self).grid@,
            final(self).position == old(self).position,
    {
        if self.cursor_x > 0 {
            self.cursor_x = self.cursor_x - 1;
        } else {
            let row_len = self.grid[self.cursor_y].len();
            self.cursor_x = row_len - 1;
        }
    }

    /// Moves the cursor one key right, wrapping to the start of the row.
    pub fn right(&mut self)
        requires
            old(self).wf(),
        ensures
            final(self).wf(),
            final(self).cursor_x == if old(self).cursor_x + 1 < old(self).grid@[old(self).cursor_y as int]@.len() {
                old(self).cursor_x + 1
            } else {
                0
            },
            final(self).cursor_y == old(self).cursor_y,
            final(self).grid@ == old(self).grid@,
            final(self).position == old(self).position,
    {
        let row_len = self.grid[self.cursor_y].len();
        if self.cursor_x + 1 < row_len {
            self.cursor_x = self.cursor_x + 1;
        } else {
            self.cursor_x = 0;
        }
    }

    /// Types the selected key into the buffer at the write position, if
    /// the position is inside the buffer.
    pub fn select(&mut self, buffer: &mut Vec<u8>)
        requires
            old(self).wf(),
        ensures
            final(self).wf(),
            old(self).position < old(buffer)@.len() ==> {
                &&& final(buffer)@ == old(buffer)@.update(
                    old(self).position as int,
                    old(self).grid@[old(self).cursor_y as int]@[old(self).cursor_x as int],
                )
                &&& final(self).position == old(self).position + 1
            },
            old(self).position >= old(buffer)@.len() ==> (final(buffer)@ == old(buffer)@ && final(self).position == old(self).position),
            final(self).cursor_x == old(self).cursor_x,
            final(self).cursor_y == old(self).cursor_y,
            final(self).grid@ == old(self).grid@,
    {
        if self.position < buffer.len() {
            let key = self.grid[self.cursor_y][self.cursor_x];
            buffer.set(self.position, key);
            self.position = self.position + 1;
        }
    }

    /// Commits the input: closes the keyboard and raises the enter flag.
    pub fn enter(&mut self)
        ensures
            !final(self).active,
            final(self).enter,
            final(self).position == old(self).position,
            final(self).grid@ == old(self).grid@,
    {
        self.active = false;
        self.enter = true;
    }

    /// Deletes the last typed key, or closes the keyboard without
    /// committing when nothing is typed.
    pub fn back(&mut self, buffer: &mut Vec<u8>)
        requires
            old(self).wf(),
            old(self).position <= old(buffer)@.len(),
        ensures
            final(self).wf(),
            old(self).position > 0 ==> {
                &&& final(self).position == old(self).position - 1
                &&& final(buffer)@ == old(buffer)@.update(old(self).position - 1, 0u8)
                &&& final(self).active == old(self).active
                &&& final(self).enter == old(self).enter
            },
            old(self).position == 0 ==> {
                &&& final(buffer)@ == old(buffer)@
                &&& final(self).position == 0
                &&& !final(self).active
                &&& !final(self).enter
            },
            final(self).grid@ == old(self).grid@,
    {
        if self.position > 0 {
            self.position = self.position - 1;
            buffer.set(self.position, 0);
        } else {
            self.active = false;
            self.enter = false;
        }
    }

    /// Starts a new input: rewinds the write position, records the input
    /// tag, and clears the buffer.
    pub fn reset(&mut self, buffer: &mut Vec<u8>, tag: u8)
        requires
            old(self).wf(),
        ensures
            final(self).wf(),
            final(self).position == 0,
            final(self).tag == tag,
            final(buffer)@ =~= Seq::new(old(buffer)@.len(), |i: int| 0u8),
            final(self).grid@ == old(self).grid@,
    {
        self.position = 0;
        self.tag = tag;
        let n = buffer.len();
        let mut i: usize = 0;
        while i < n
            invariant
                i <= n,
                buffer@.len() == n,
                forall|k: int| 0 <= k < i ==> buffer@[k] == 0u8,
            decreases n - i,
        {
            buffer.set(i, 0);
            i = i + 1;
        }
    }

    /// Draws the buffer being edited at the keyboard's position.
    pub fn draw_buffer<C: RenderContext>(&mut self, ctxt: &mut C, buffer: &Vec<u8>)
        ensures
            *final(self) == *old(self),
    {
        ctxt.putsu8(buffer, self.pos_x, self.pos_y);
    }

    /// Draws the key grid with the selected key highlighted.
    pub fn draw<C: RenderContext>(&mut self, ctxt: &mut C)
        requires
            old(self).wf(),
            -KB_MAX_COORD <= old(self).pos_x <= KB_MAX_COORD,
            -KB_MAX_COORD <= old(self).pos_y <= KB_MAX_COORD,
        ensures
            *final(self) == *old(self),
    {
        let mut y: usize = 0;
        while y < self.grid.len()
            invariant
                self.wf(),
                *self == *old(self),
                y <= self.grid@.len(),
            decreases self.grid@.len() - y,
        {
            let mut x: usize = 0;
            while x < self.grid[y].len()
                invariant
                    self.wf(),
                    *self == *old(self),
                    y < self.grid@.len(),
                    x <= self.grid@[y as int]@.len(),
                decreases self.grid@[y as int]@.len() - x,
            {
                if y == self.cursor_y && x == self.cursor_x {
                    let _ = ctxt.set_color(Color::new(0xFF, 0x00, 0x00, 0xFF));
                }
                let mut cstr: Vec<u8> = Vec::new();
                cstr.push(self.grid[y][x]);
                cstr.push(0);
                let w = ctxt.char_width();
                let h = ctxt.char_height();
                let xi = x as isize;
                let yi = y as isize;
                proof {
                    assert(0 <= xi * w <= 102_400) by (nonlinear_arith)
                        requires
                            0 <= xi <= 100,
                            1 <= w <= 1024,
                    ;
                    assert(0 <= yi * h <= 102_400) by (nonlinear_arith)
                        requires
                            0 <= yi <= 100,
                            1 <= h <= 1024,
                    ;
                }
                ctxt.putsu8(&cstr, self.pos_x + xi * w, self.pos_y + yi * h + 2 * h);
                x = x + 1;
            }
            y = y + 1;
        }
    }

    /// Whether the keyboard has focus.
    pub fn active(&self) -> (r: bool)
        ensures
            r == self.active,
    {
        self.active
    }

    /// Opens or closes the keyboard.
    pub fn toggle(&mut self)
        ensures
            final(self).active == !old(self).active,
            final(self).position == old(self).position,
            final(self).grid@ == old(self).grid@,
    {
        self.active = !self.active;
    }

    /// Checks the well-formedness invariant at run time.
    pub fn check_wf(&self) -> (r: bool)
        ensures
            r == self.wf(),
    {
        if self.grid.len() == 0 || self.grid.len() > KB_MAX_DIM {
            return false;
        }
        let mut i: usize = 0;
        while i < self.grid.len()
            invariant
                i <= self.grid@.len(),
                forall|r: int| 0 <= r < i ==> 0 < (#[trigger] self.grid@[r])@.len() <= KB_MAX_DIM,
            decreases self.grid@.len() - i,
        {
            let row_len = self.grid[i].len();
            if row_len == 0 || row_len > KB_MAX_DIM {
                return false;
            }
            i = i + 1;
        }
        self.cursor_y < self.grid.len() && self.cursor_x < self.grid[self.cursor_y].len()
    }
}

impl<T> crate::render::Widget<T> for Keyboard<T> {
    fn toggle(&mut self, data: T) {
        let _ = data;
        self.toggle();
    }

    fn active(&self) -> bool {
        self.active
    }
}

impl<T> crate::render::Drawable<T> for Keyboard<T> {
    fn draw<C: RenderContext>(&mut self, ctxt: &mut C) {
        // layout arithmetic is verified under these bounds; a keyboard
        // outside them draws nothing
        if self.check_wf() && -KB_MAX_COORD <= self.pos_x && self.pos_x <= KB_MAX_COORD
            && -KB_MAX_COORD <= self.pos_y && self.pos_y <= KB_MAX_COORD {
            self.draw(ctxt);
        }
    }

    fn update(&mut self, data: T) {
        let _ = data;
    }
}

} // verus!
