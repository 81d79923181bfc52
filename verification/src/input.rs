//! Controller input decoding.
//!
//! The controller hardware reports one 32-bit word per poll; each button
//! is one bit of that word, and the two stick axes are the low two bytes.
//! `InputHandler` keeps the last two readouts so edges can be detected;
//! the polling itself is hardware I/O and hands the readout in.

use vstd::prelude::*;

verus! {

/// The buttons of the controller.
#[derive(Clone, Copy, PartialEq, Eq, Structural, Debug)]
pub enum Button {
    RInput,
    LInput,
    ZInput,
    CLInput,
    CRInput,
    CDInput,
    CUInput,
    AInput,
    BInput,
    StartInput,
    DpadUp,
    DpadDown,
    DpadRight,
    DpadLeft,
}

/// Bit position of a button within a controller readout. The A button
/// sits in the readout's top bit.
pub open spec fn button_bit(b: Button) -> u32 {
    match b {
        Button::RInput => 0x14,
        Button::LInput => 0x15,
        Button::ZInput => 0x1D,
        Button::CLInput => 0x11,
        Button::CRInput => 0x10,
        Button::CDInput => 0x12,
        Button::CUInput => 0x13,
        Button::AInput => 0x1F,
        Button::BInput => 0x1E,
        Button::StartInput => 0x1C,
        Button::DpadUp => 0x1B,
        Button::DpadDown => 0x1A,
        Button::DpadRight => 0x18,
        Button::DpadLeft => 0x19,
    }
}

impl Button {
    /// Bit position of this button within a controller readout.
    pub fn bit(self) -> (r: u32)
        ensures
            r == button_bit(self),
            r < 32,
    {
        match self {
            Button::RInput => 0x14,
            Button::LInput => 0x15,
            Button::ZInput => 0x1D,
            Button::CLInput => 0x11,
            Button::CRInput => 0x10,
            Button::CDInput => 0x12,
            Button::CUInput => 0x13,
            Button::AInput => 0x1F,
            Button::BInput => 0x1E,
            Button::StartInput => 0x1C,
            Button::DpadUp => 0x1B,
            Button::DpadDown => 0x1A,
            Button::DpadRight => 0x18,
            Button::DpadLeft => 0x19,
        }
    }
}

/// The two stick axes.
#[derive(Clone, Copy, PartialEq, Eq, Structural, Debug)]
pub enum Axis {
    XAxis,
    YAxis,
}

/// Bit shift of an axis within a controller readout: one byte each.
pub open spec fn axis_shift(a: Axis) -> u32 {
    match a {
        Axis::XAxis => 8,
        Axis::YAxis => 0,
    }
}

impl Axis {
    /// Bit shift of this axis within a controller readout.
    pub fn shift(self) -> (r: u32)
        ensures
            r == axis_shift(self),
            r < 32,
    {
        match self {
            Axis::XAxis => 8,
            Axis::YAxis => 0,
        }
    }
}

/// Whether a readout has a button's bit set.
pub open spec fn spec_pressed(readout: u32, b: Button) -> bool {
    (readout >> button_bit(b)) & 1 == 1
}

/// The readout value a detached controller reports.
pub const NO_CONTROLLER: u32 = 0xFFFF_FFFF;

/// Edge-detecting view of one controller: the current and previous
/// readout.
pub struct InputHandler {
    /// The most recent readout.
    pub current: u32,
    /// The readout before it.
    pub last: u32,
}

impl InputHandler {
    /// A handler that has seen no readouts yet.
    pub fn new() -> (r: Self)
        ensures
            r.current == 0,
            r.last == 0,
    {
        Self { last: 0, current: 0 }
    }

    /// Feeds one hardware readout; call once a frame.
    pub fn feed(&mut self, readout: u32)
        ensures
            final(self).last == old(self).current,
            final(self).current == readout,
    {
        self.last = self.current;
        self.current = readout;
    }

    /// Whether a button is down in the current readout; with `just`, only
    /// when it was up in the previous one. A detached controller reads as
    /// nothing pressed.
    pub fn read_button(&self, button: Button, just: bool) -> (r: bool)
        ensures
            r == (self.current != NO_CONTROLLER && spec_pressed(self.current, button) && (!just
                || !spec_pressed(self.last, button))),
    {
        if self.current == NO_CONTROLLER {
            return false;
        }
        let down = self.is_pressed(button, self.current);
        let was_down = self.is_pressed(button, self.last);
        down && (!just || !was_down)
    }

    /// Whether a readout has a button's bit set.
    pub fn is_pressed(&self, button: Button, readout: u32) -> (r: bool)
        ensures
            r == spec_pressed(readout, button),
    {
        ((readout >> button.bit()) & 0x01) == 1
    }

    /// The current position of one stick axis.
    pub fn read_stick(&self, axis: Axis) -> (r: u8)
        ensures
            r == (self.current >> axis_shift(axis)) as u8,
    {
        (self.current >> axis.shift()) as u8
    }
}

} // verus!
