//! A frame-counting timer rendered as minutes, seconds and frames.

use vstd::prelude::*;

use crate::render::{to_decimal, to_decimal_spec, RenderContext};

verus! {

/// Length of the scratch area one rendered number uses.
pub const TIME_FIELD: usize = 13;

/// A timer that counts time in frames.
pub struct Timer<T> {
    /// Left edge in pixels.
    pub x: isize,
    /// Top edge in pixels.
    pub y: isize,
    /// Frames counted so far.
    pub frames: u32,
    /// Whether the timer is shown.
    pub active: bool,
    /// Frames per second the count is converted with.
    pub framerate: u32,
    /// Carrier for the host data type.
    pub marker: core::marker::PhantomData<T>,
    /// Scratch text buffer the time is rendered into.
    pub buffer: Vec<u8>,
}

impl<T> Timer<T> {
    /// The text buffer is 32 bytes and the framerate positive.
    pub open spec fn wf(self) -> bool {
        &&& self.buffer@.len() == 32
        &&& self.framerate > 0
    }

    /// A hidden timer at the given position, counting at 20 frames per
    /// second.
    pub fn new(x: isize, y: isize) -> (r: Self)
        ensures
            r.wf(),
            r.x == x,
            r.y == y,
            r.frames == 0,
            !r.active,
            r.framerate == 20,
    {
        let mut buffer: Vec<u8> = Vec::new();
        let mut i: usize = 0;
        while i < 32
            invariant
                i <= 32,
                buffer@.len() == i,
            decreases 32 - i,
        {
            buffer.push(0);
            i = i + 1;
        }
        Self { x, y, frames: 0, active: false, framerate: 20, buffer, marker: core::marker::PhantomData }
    }

    /// Counts one frame.
    pub fn inc(&mut self)
        requires
            old(self).frames < u32::MAX,
        ensures
            final(self).frames == old(self).frames + 1,
            final(self).active == old(self).active,
            final(self).framerate == old(self).framerate,
            final(self).buffer@ == old(self).buffer@,
    {
        self.frames = self.frames + 1;
    }

    /// Sets the frame count.
    pub fn set(&mut self, frames: u32)
        ensures
            final(self).frames == frames,
            final(self).active == old(self).active,
            final(self).framerate == old(self).framerate,
            final(self).buffer@ == old(self).buffer@,
    {
        self.frames = frames;
    }

    /// Renders `time` in decimal at `start` within the buffer, with a
    /// leading zero for single-digit values.
    fn puts_time(time: u32, buffer: &mut Vec<u8>, start: usize) -> (pad: usize)
        requires
            time < 0x8000_0000,
            start + TIME_FIELD + 1 <= old(buffer)@.len(),
        ensures
            pad == if time < 10 {
                1int
            } else {
                0int
            },
            final(buffer)@.len() == old(buffer)@.len(),
            final(buffer)@ == old(buffer)@.take(start as int) + (if time < 10 {
                seq![48u8]
            } else {
                Seq::<u8>::empty()
            }) + to_decimal_spec(time as int, Seq::new(TIME_FIELD as nat, |i: int| 0u8)) + old(
                buffer,
            )@.skip(start + pad + TIME_FIELD),
    {
        let buffer_len = buffer.len();
        let mut digits: Vec<u8> = Vec::new();
        let mut i: usize = 0;
        while i < TIME_FIELD
            invariant
                i <= TIME_FIELD,
                digits@ =~= Seq::new(i as nat, |q: int| 0u8),
            decreases TIME_FIELD - i,
        {
            digits.push(0);
            i = i + 1;
        }
        to_decimal(time as isize, &mut digits);
        let mut pad: usize = 0;
        if time < 10 {
            buffer.set(start, 48);
            pad = 1;
        }
        let mut j: usize = 0;
        while j < TIME_FIELD
            invariant
                j <= TIME_FIELD,
                pad == if time < 10 { 1int } else { 0int },
                start + TIME_FIELD + 1 <= buffer_len,
                buffer@.len() == buffer_len,
                buffer@.len() == old(buffer)@.len(),
                digits@ == to_decimal_spec(time as int, Seq::new(TIME_FIELD as nat, |q: int| 0u8)),
                digits@.len() == TIME_FIELD,
                forall|k: int| 0 <= k < start ==> buffer@[k] == old(buffer)@[k],
                time < 10 ==> buffer@[start as int] == 48u8,
                forall|k: int|
                    start + pad <= k < start + pad + j ==> #[trigger] buffer@[k] == digits@[k
                        - start - pad],
                forall|k: int|
                    start + pad + j <= k < buffer@.len() ==> buffer@[k] == old(buffer)@[k],
            decreases TIME_FIELD - j,
        {
            let b = digits[j];
            buffer.set(start + pad + j, b);
            j = j + 1;
        }
        proof {
            assert(buffer@ =~= old(buffer)@.take(start as int) + (if time < 10 {
                seq![48u8]
            } else {
                Seq::<u8>::empty()
            }) + to_decimal_spec(time as int, Seq::new(TIME_FIELD as nat, |q: int| 0u8)) + old(
                buffer,
            )@.skip(start + pad + TIME_FIELD));
        }
        pad
    }

    /// Renders the count as minutes, seconds and frames and draws it.
    pub fn draw<C: RenderContext>(&mut self, ctxt: &mut C)
        requires
            old(self).wf(),
        ensures
            final(self).wf(),
            final(self).frames == old(self).frames,
            final(self).active == old(self).active,
            final(self).framerate == old(self).framerate,
            final(self).x == old(self).x,
            final(self).y == old(self).y,
    {
        if self.active {
            // minutes
            let _ = Self::puts_time(self.frames / self.framerate / 60, &mut self.buffer, 0);
            self.buffer.set(2, 58);
            // seconds
            let _ = Self::puts_time(self.frames / self.framerate % 60, &mut self.buffer, 3);
            self.buffer.set(5, 58);
            // frames
            let _ = Self::puts_time(self.frames % 20, &mut self.buffer, 6);
            ctxt.putsu8(&self.buffer, self.x, self.y);
        }
    }

    /// Advances the timer by one frame of wall time; the count itself is
    /// driven by `inc`.
    pub fn update(&mut self)
        ensures
            *final(self) == *old(self),
    {
    }

    /// Shows or hides the timer.
    pub fn toggle(&mut self)
        ensures
            final(self).active == !old(self).active,
            final(self).frames == old(self).frames,
            final(self).framerate == old(self).framerate,
            final(self).buffer@ == old(self).buffer@,
    {
        self.active = !self.active;
    }

    /// Whether the timer is shown.
    pub fn active(&self) -> (r: bool)
        ensures
            r == self.active,
    {
        self.active
    }

    /// Checks the well-formedness invariant at run time.
    pub fn check_wf(&self) -> (r: bool)
        ensures
            r == self.wf(),
    {
        self.buffer.len() == 32 && self.framerate > 0
    }
}

impl<T> crate::render::Widget<T> for Timer<T> {
    fn toggle(&mut self, data: T) {
        let _ = data;
        self.toggle();
    }

    fn active(&self) -> bool {
        self.active
    }
}

impl<T> crate::render::Drawable<T> for Timer<T> {
    fn draw<C: RenderContext>(&mut self, ctxt: &mut C) {
        if self.check_wf() {
            self.draw(ctxt);
        }
    }

    fn update(&mut self, data: T) {
        let _ = data;
        self.update();
    }
}

} // verus!
