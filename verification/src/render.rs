//! Rendering interfaces and text helpers for the debug overlay.
//!
//! Widgets draw through the `RenderContext` trait, so any font renderer
//! can sit behind them; `RecordingContext` is a renderer that just records
//! each call, which the overlay's logic can be exercised against.

use vstd::prelude::*;

verus! {

/// An RGBA color.
#[derive(Copy, Clone, PartialEq, Eq, Structural, Debug)]
pub struct Color {
    pub r: u8,
    pub g: u8,
    pub b: u8,
    pub a: u8,
}

impl Color {
    pub fn new(r: u8, g: u8, b: u8, a: u8) -> (c: Self)
        ensures
            c == (Color { r, g, b, a }),
    {
        Color { r, g, b, a }
    }
}

/// Width in pixels of one glyph of the overlay font.
pub const CHAR_W: u32 = 10;

/// Height in pixels of one glyph of the overlay font.
pub const CHAR_H: u32 = 10;

/// A rendering back end. The put functions write into an internal buffer
/// that `draw` flushes to the screen.
pub trait RenderContext {
    /// Flushes the last draw operations to the screen and clears the
    /// buffer.
    fn draw(&mut self) {
    }

    /// Puts a string slice at a pixel position.
    fn puts(&mut self, s: &str, x: isize, y: isize);

    /// Puts an array of characters at a pixel position.
    fn cputs(&mut self, s: &Vec<char>, x: isize, y: isize);

    /// Puts raw bytes at a pixel position.
    fn putsu8(&mut self, s: &Vec<u8>, x: isize, y: isize);

    /// Renderers that do not support the full byte range can override
    /// this to map values to printable glyphs.
    fn convert(&self, c: u8) -> u8 {
        c
    }

    /// Returns false when the renderer does not support color.
    fn set_color(&mut self, color: Color) -> bool {
        let _ = color;
        false
    }

    /// Width of one glyph; bounded so that layout arithmetic stays in
    /// range.
    fn char_width(&self) -> (r: isize)
        ensures
            1 <= r <= 1024,
    {
        10
    }

    /// Height of one glyph; bounded so that layout arithmetic stays in
    /// range.
    fn char_height(&self) -> (r: isize)
        ensures
            1 <= r <= 1024,
    {
        10
    }
}

/// Something the overlay can draw and advance every frame.
pub trait Drawable<T> {
    /// Draws this widget on the given context.
    fn draw<C: RenderContext>(&mut self, ctxt: &mut C);

    /// Advances this widget by one frame.
    fn update(&mut self, data: T);
}

/// Something the overlay can toggle in and out of focus.
pub trait Widget<T> {
    /// Toggles the widget open or closed.
    fn toggle(&mut self, data: T);

    /// Whether the widget currently has focus.
    fn active(&self) -> bool;
}

/// One recorded draw call: where it was put and which bytes.
pub struct DrawCall {
    pub x: isize,
    pub y: isize,
    pub bytes: Vec<u8>,
}

/// A renderer that records every call instead of rasterizing, so widget
/// behaviour can be observed without hardware.
pub struct RecordingContext {
    /// Every put call, in order.
    pub calls: Vec<DrawCall>,
    /// How many times the buffer was flushed.
    pub flushes: u64,
    /// The last color set, if any.
    pub color: Option<Color>,
}

impl RecordingContext {
    pub fn new() -> (r: Self)
        ensures
            r.calls@.len() == 0,
            r.flushes == 0,
            r.color is None,
    {
        RecordingContext { calls: Vec::new(), flushes: 0, color: None }
    }
}

impl RenderContext for RecordingContext {
    fn draw(&mut self) {
        if self.flushes < u64::MAX {
            self.flushes = self.flushes + 1;
        }
    }

    fn puts(&mut self, s: &str, x: isize, y: isize) {
        let bytes = s.as_bytes_vec();
        self.calls.push(DrawCall { x, y, bytes });
    }

    fn cputs(&mut self, s: &Vec<char>, x: isize, y: isize) {
        let mut bytes: Vec<u8> = Vec::new();
        let mut i: usize = 0;
        while i < s.len()
            invariant
                i <= s@.len(),
                bytes@.len() == i,
            decreases s@.len() - i,
        {
            let c = s[i];
            let code = c as u32;
            if code < 256 {
                bytes.push(code as u8);
            } else {
                bytes.push(63u8);
            }
            i = i + 1;
        }
        self.calls.push(DrawCall { x, y, bytes });
    }

    fn putsu8(&mut self, s: &Vec<u8>, x: isize, y: isize) {
        let mut bytes: Vec<u8> = Vec::new();
        let mut i: usize = 0;
        while i < s.len()
            invariant
                i <= s@.len(),
                bytes@ == s@.take(i as int),
            decreases s@.len() - i,
        {
            let c = s[i];
            bytes.push(c);
            i = i + 1;
        }
        proof {
            assert(bytes@ =~= s@);
        }
        self.calls.push(DrawCall { x, y, bytes });
    }

    fn set_color(&mut self, color: Color) -> bool {
        self.color = Some(color);
        true
    }
}

/// The decimal digits of `v`, least significant first.
pub open spec fn lsb_digits(v: nat) -> Seq<u8>
    decreases v,
{
    if v == 0 {
        Seq::empty()
    } else {
        seq![(48 + (v % 10)) as u8] + lsb_digits(v / 10)
    }
}

/// What `to_decimal` leaves in a buffer: zero renders as "0" with a
/// terminator and the rest untouched; a positive value renders as its
/// decimal digits, most significant first, over a zero-filled buffer,
/// truncated to the buffer from the least significant end; a negative
/// value renders as a bare minus sign over a zero-filled buffer.
pub open spec fn to_decimal_spec(org: int, buf: Seq<u8>) -> Seq<u8> {
    let n = buf.len() as int;
    if org == 0 {
        buf.update(0, 48u8).update(1, 0u8)
    } else if org < 0 {
        seq![45u8] + Seq::new((n - 1) as nat, |i: int| 0u8)
    } else {
        let digs = lsb_digits(org as nat);
        let k = if digs.len() <= n {
            digs.len() as int
        } else {
            n
        };
        digs.take(k).reverse() + Seq::new((n - k) as nat, |i: int| 0u8)
    }
}

/// Reverses the first `len` bytes of a buffer in place.
fn reverse_buffer(buffer: &mut Vec<u8>, len: usize)
    requires
        1 <= len <= old(buffer)@.len(),
    ensures
        final(buffer)@.len() == old(buffer)@.len(),
        forall|k: int| 0 <= k < len ==> final(buffer)@[k] == old(buffer)@[len - 1 - k],
        forall|k: int| len <= k < old(buffer)@.len() ==> final(buffer)@[k] == old(buffer)@[k],
{
    let mut i: usize = 0;
    let mut j: usize = len - 1;
    while i < j
        invariant
            i + j == len - 1,
            i < len,
            j < len,
            buffer@.len() == old(buffer)@.len(),
            forall|k: int| 0 <= k < i ==> buffer@[k] == old(buffer)@[len - 1 - k],
            forall|k: int| j < k < len ==> buffer@[k] == old(buffer)@[len - 1 - k],
            forall|k: int| i <= k <= j ==> buffer@[k] == old(buffer)@[k],
            forall|k: int| len <= k < buffer@.len() ==> buffer@[k] == old(buffer)@[k],
        decreases j - i + 1,
    {
        let a = buffer[i];
        let b = buffer[j];
        buffer.set(i, b);
        buffer.set(j, a);
        i = i + 1;
        j = j - 1;
    }
}

/// Renders a signed value as decimal text into the buffer, most
/// significant digit first, with a zero terminator where room remains.
pub fn to_decimal(org_value: isize, buffer: &mut Vec<u8>)
    requires
        old(buffer)@.len() >= 2,
    ensures
        final(buffer)@ == to_decimal_spec(org_value as int, old(buffer)@),
{
    let n = buffer.len();
    if org_value == 0 {
        buffer.set(0, 48u8);
        buffer.set(1, 0);
    } else {
        let mut i: usize = 0;
        let mut value = org_value;

        let mut z: usize = 0;
        while z < n
            invariant
                z <= n,
                buffer@.len() == n,
                forall|k: int| 0 <= k < z ==> buffer@[k] == 0u8,
            decreases n - z,
        {
            buffer.set(z, 0);
            z = z + 1;
        }
        while value > 0 && i < n
            invariant
                0 <= i <= n,
                buffer@.len() == n,
                org_value > 0 ==> {
                    &&& value >= 0
                    &&& lsb_digits(org_value as nat) == buffer@.take(i as int) + lsb_digits(
                        value as nat,
                    )
                    &&& (value == 0 ==> i == lsb_digits(org_value as nat).len())
                },
                org_value < 0 ==> value == org_value && i == 0,
                forall|k: int| i <= k < n ==> buffer@[k] == 0u8,
            decreases value,
        {
            let d = value % 10;
            buffer.set(i, (d + 48) as u8);
            i = i + 1;
            value = value / 10;
            proof {
                if org_value > 0 {
                    assert(buffer@.take(i as int) =~= buffer@.take(i - 1) + seq![buffer@[i - 1]]);
                    assert(buffer@.take(i - 1) + (seq![buffer@[i - 1]] + lsb_digits(value as nat))
                        =~= buffer@.take(i as int) + lsb_digits(value as nat));
                }
            }
        }
        if i < n {
            if org_value < 0 {
                buffer.set(i, 45u8);
                i = i + 1;
            }
        }
        let ghost digits_done = i as int;
        reverse_buffer(buffer, i);
        if i < n {
            buffer.set(i, 0);
        }
        proof {
            if org_value > 0 {
                let digs = lsb_digits(org_value as nat);
                let k = if digs.len() <= n { digs.len() as int } else { n as int };
                assert(digits_done == k);
                assert(buffer@ =~= digs.take(k).reverse() + Seq::new((n - k) as nat, |q: int| 0u8));
            } else {
                assert(buffer@ =~= seq![45u8] + Seq::new((n - 1) as nat, |q: int| 0u8));
            }
        }
    }
}

} // verus!
