//! A frame-advance widget: a pause overlay that runs an action when it
//! closes.

use vstd::prelude::*;

use crate::menu::{EntryAction, EntryTypes};
use crate::render::RenderContext;

verus! {

/// The frame-advance overlay: open by default, with a debounce timer on
/// toggling and an action run on close.
pub struct FrameAdvance<T, A> where A: EntryAction<T> {
    /// Left edge in pixels.
    pub x: isize,
    /// Top edge in pixels.
    pub y: isize,
    /// Debounce reload value for toggling.
    pub toggle_timer_max: u16,
    /// Frames left until toggling is accepted again.
    pub toggle_timer: u16,
    /// Whether the overlay is shown.
    pub active: bool,
    /// Runs when the overlay closes.
    pub close_action: EntryTypes<T, A>,
}

impl<T, A> FrameAdvance<T, A> where T: Copy, A: EntryAction<T> {
    /// An open frame-advance overlay at the given position.
    pub fn new(x: isize, y: isize, close_action: EntryTypes<T, A>) -> (r: Self)
        ensures
            r.active,
            r.toggle_timer == 0,
            r.toggle_timer_max == 10,
            r.x == x,
            r.y == y,
    {
        Self { active: true, toggle_timer_max: 10, toggle_timer: 0, close_action, x, y }
    }

    /// Shows the overlay.
    pub fn open(&mut self, data: T)
        ensures
            final(self).active,
            final(self).toggle_timer == old(self).toggle_timer,
            final(self).x == old(self).x,
            final(self).y == old(self).y,
    {
        let _ = data;
        self.active = true;
    }

    /// Runs the close action and hides the overlay.
    pub fn close(&mut self, data: T)
        ensures
            !final(self).active,
            final(self).toggle_timer == old(self).toggle_timer,
            final(self).x == old(self).x,
            final(self).y == old(self).y,
    {
        let _ = self.close_action.activate(data);
        self.active = false;
    }

    /// Shows or hides the overlay unless the debounce timer is still
    /// running; an accepted toggle reloads the debounce timer.
    pub fn toggle(&mut self, data: T)
        ensures
            old(self).toggle_timer > 0 ==> *final(self) == *old(self),
            old(self).toggle_timer == 0 ==> {
                &&& final(self).active == !old(self).active
                &&& final(self).toggle_timer == old(self).toggle_timer_max
            },
    {
        if self.toggle_timer > 0 {
            return ;
        }
        self.toggle_timer = self.toggle_timer_max;
        if self.active {
            self.close(data);
        } else {
            self.open(data);
        }
    }

    /// Whether the overlay is shown.
    pub fn active(&self) -> (r: bool)
        ensures
            r == self.active,
    {
        self.active
    }

    /// Draws the overlay's label while it is shown.
    pub fn draw<C: RenderContext>(&mut self, ctxt: &mut C)
        ensures
            *final(self) == *old(self),
    {
        if !self.active {
            return ;
        }
        ctxt.puts("Frame Advance", self.x, self.y);
    }

    /// Advances the debounce timer while the overlay is shown.
    pub fn update(&mut self, data: T)
        ensures
            final(self).toggle_timer == if old(self).toggle_timer > 0 {
                (old(self).toggle_timer - 1) as u16
            } else {
                0
            },
            final(self).active == old(self).active,
            final(self).x == old(self).x,
            final(self).y == old(self).y,
    {
        let _ = data;
        if self.toggle_timer > 0 {
            self.toggle_timer = self.toggle_timer - 1;
        }
    }
}

impl<T, A> crate::render::Widget<T> for FrameAdvance<T, A> where T: Copy, A: EntryAction<T> {
    fn toggle(&mut self, data: T) {
        self.toggle(data);
    }

    fn active(&self) -> bool {
        self.active
    }
}

impl<T, A> crate::render::Drawable<T> for FrameAdvance<T, A> where T: Copy, A: EntryAction<T> {
    fn draw<C: RenderContext>(&mut self, ctxt: &mut C) {
        self.draw(ctxt);
    }

    fn update(&mut self, data: T) {
        self.update(data);
    }
}

} // verus!
