use ed64::clone::CloneContext;
use ed64::input::{Axis, Button, InputHandler};
use ed64::keyboard::{hex_grid, Keyboard};
use ed64::math::{min, Point3, Vector3};
use ed64::memory::{umemcpy, umemset, SharedPtrCell};
use ed64::menu::{no_op, Entry, EntryAction, EntryTypes, Menu, NoAction};
use ed64::render::{to_decimal, RecordingContext, RenderContext};
use ed64::timer::Timer;

/// An action that counts its calls and reports the data it was given.
struct CountAction {
    count: usize,
}

impl EntryAction<u32> for CountAction {
    fn run(&mut self, data: u32) -> Option<usize> {
        self.count += 1;
        Some(data as usize)
    }
}

fn button(title: &str) -> EntryTypes<u32, CountAction> {
    Entry::new(title, CountAction { count: 0 }, CountAction { count: 0 })
}

fn menu_of(n: usize) -> Menu<u32, CountAction> {
    let mut entries = Vec::new();
    for _ in 0..n {
        entries.push(button("item"));
    }
    Menu::new(4, 4, button("open"), button("close"), button("back"), button("tick"), entries)
}

#[test]
fn min_picks_the_smaller() {
    assert_eq!(min(3, 9), 3);
    assert_eq!(min(9, 3), 3);
    assert_eq!(min(7, 7), 7);
}

#[test]
fn vectors_keep_their_components() {
    let v = Vector3::new(1, 2, 3);
    assert_eq!((v.x, v.y, v.z), (1, 2, 3));
    let p = Point3::new(-1i32, 0, 5);
    assert_eq!((p.x, p.y, p.z), (-1, 0, 5));
}

#[test]
fn to_decimal_renders_zero() {
    let mut buf = vec![7u8; 6];
    to_decimal(0, &mut buf);
    assert_eq!(buf, vec![b'0', 0, 7, 7, 7, 7]);
}

#[test]
fn to_decimal_renders_digits_most_significant_first() {
    let mut buf = vec![9u8; 8];
    to_decimal(12345, &mut buf);
    assert_eq!(&buf[..6], b"12345\0");
    assert_eq!(&buf[6..], &[0, 0]);
}

#[test]
fn to_decimal_truncates_from_the_low_digits() {
    let mut buf = vec![0u8; 4];
    to_decimal(123456789, &mut buf);
    assert_eq!(&buf[..], b"6789");
}

#[test]
fn to_decimal_negative_renders_bare_sign() {
    let mut buf = vec![1u8; 4];
    to_decimal(-57, &mut buf);
    assert_eq!(buf, vec![b'-', 0, 0, 0]);
}

#[test]
fn entry_title_is_padded_to_width() {
    let e = button("Hi");
    let EntryTypes::Button(b) = e;
    assert_eq!(b.title.len(), 15);
    assert_eq!(b.title[0], 'H');
    assert_eq!(b.title[1], 'i');
    assert_eq!(b.title[2], '\0');
    assert!(b.active);
}

#[test]
fn entry_checkbox_marks_value() {
    let e: EntryTypes<u32, NoAction> = Entry::checkbox("snd", NoAction, NoAction, true);
    let EntryTypes::Button(mut b) = e;
    assert_eq!(&b.title[..5], &['[', 'x', ']', 's', 'n']);
    b.set_checkbox(false);
    assert_eq!(b.title[1], ' ');
    b.set_title("vol");
    assert_eq!(&b.title[..4], &['v', 'o', 'l', ' ']);
}

#[test]
fn empty_entry_is_inactive() {
    let e: EntryTypes<u32, NoAction> = Entry::empty();
    assert!(!e.active());
}

#[test]
fn no_op_returns_nothing() {
    assert_eq!(no_op(5u32), None);
}

#[test]
fn entry_actions_report_their_result() {
    let mut e = button("go");
    assert_eq!(e.activate(7), Some(7));
    assert_eq!(e.call_update(3), Some(3));
}

#[test]
fn menu_cursor_wraps_both_ways() {
    let mut m = menu_of(3);
    assert_eq!(m.cursor, 0);
    m.inc_cursor();
    m.inc_cursor();
    assert_eq!(m.cursor, 2);
    m.inc_cursor();
    assert_eq!(m.cursor, 0);
    m.dec_cursor();
    assert_eq!(m.cursor, 2);
    m.dec_cursor();
    assert_eq!(m.cursor, 1);
}

#[test]
fn menu_truncates_to_capacity() {
    let m = menu_of(20);
    assert_eq!(m.active_entries, 15);
    assert_eq!(m.entries.len(), 15);
}

#[test]
fn menu_activate_only_while_open() {
    let mut m = menu_of(2);
    assert_eq!(m.activate(9), None);
    let r = m.open(1);
    assert_eq!(r, Some(1));
    assert!(m.active);
    assert_eq!(m.activate(9), Some(9));
    let r = m.close(2);
    assert_eq!(r, Some(2));
    assert!(!m.active);
}

#[test]
fn menu_toggle_debounces() {
    let mut m = menu_of(1);
    m.toggle(0);
    assert!(m.active);
    assert_eq!(m.toggle_timer, 10);
    m.toggle(0);
    assert!(m.active);
    for _ in 0..10 {
        m.update(0);
    }
    assert_eq!(m.toggle_timer, 0);
    m.toggle(0);
    assert!(!m.active);
}

#[test]
fn menu_back_resets_debounce() {
    let mut m = menu_of(1);
    m.toggle(0);
    assert_eq!(m.toggle_timer, 10);
    let r = m.back(4);
    assert_eq!(r, Some(4));
    assert_eq!(m.toggle_timer, 0);
}

#[test]
fn menu_draw_puts_active_entries() {
    let mut m = menu_of(3);
    let _ = m.open(0);
    let mut ctxt = RecordingContext::new();
    m.draw(&mut ctxt);
    // color support: the marker is a color change, one title per entry
    assert_eq!(ctxt.calls.len(), 3);
    assert!(ctxt.color.is_some());
    assert_eq!(ctxt.calls[0].x, 4 + 10 + 2);
    assert_eq!(ctxt.calls[0].y, 4);
    assert_eq!(ctxt.calls[1].y, 4 + 12);
}

#[test]
fn keyboard_navigates_and_wraps() {
    let mut kb: Keyboard<u32> = Keyboard::new(0, 0, hex_grid());
    assert_eq!((kb.cursor_x, kb.cursor_y), (0, 0));
    kb.up();
    assert_eq!(kb.cursor_y, 2);
    kb.down();
    assert_eq!(kb.cursor_y, 0);
    kb.left();
    assert_eq!(kb.cursor_x, 4);
    kb.right();
    assert_eq!(kb.cursor_x, 0);
    kb.down();
    assert_eq!(kb.cursor_y, 1);
}

#[test]
fn keyboard_types_into_buffer() {
    let mut kb: Keyboard<u32> = Keyboard::new(0, 0, hex_grid());
    let mut buf = vec![0u8; 4];
    kb.reset(&mut buf, 2);
    assert_eq!(kb.tag, 2);
    kb.select(&mut buf);
    kb.right();
    kb.select(&mut buf);
    assert_eq!(&buf[..2], b"01");
    assert_eq!(kb.position, 2);
    kb.back(&mut buf);
    assert_eq!(kb.position, 1);
    assert_eq!(buf[1], 0);
    kb.back(&mut buf);
    kb.back(&mut buf);
    // backing out of an empty buffer closes the keyboard
    assert!(!kb.active);
    assert!(!kb.enter);
}

#[test]
fn keyboard_select_stops_at_buffer_end() {
    let mut kb: Keyboard<u32> = Keyboard::new(0, 0, hex_grid());
    let mut buf = vec![0u8; 1];
    kb.select(&mut buf);
    kb.select(&mut buf);
    assert_eq!(kb.position, 1);
    assert_eq!(buf, vec![b'0']);
}

#[test]
fn keyboard_enter_commits() {
    let mut kb: Keyboard<u32> = Keyboard::new(0, 0, hex_grid());
    kb.toggle();
    assert!(kb.active);
    kb.enter();
    assert!(!kb.active);
    assert!(kb.enter);
}

#[test]
fn keyboard_draws_grid() {
    let mut kb: Keyboard<u32> = Keyboard::new(0, 0, hex_grid());
    let mut ctxt = RecordingContext::new();
    kb.draw(&mut ctxt);
    assert_eq!(ctxt.calls.len(), 15);
    assert_eq!(ctxt.calls[0].bytes, vec![b'0', 0]);
}

#[test]
fn timer_counts_and_renders() {
    let mut t: Timer<u32> = Timer::new(1, 2);
    t.set(1233);
    t.inc();
    assert_eq!(t.frames, 1234);
    t.toggle();
    assert!(t.active);
    let mut ctxt = RecordingContext::new();
    t.draw(&mut ctxt);
    assert_eq!(ctxt.calls.len(), 1);
    // 1234 frames at 20 fps: 1 minute, 1 second, 14 frames
    assert_eq!(&ctxt.calls[0].bytes[..8], b"01:01:14");
    assert_eq!(ctxt.calls[0].x, 1);
    assert_eq!(ctxt.calls[0].y, 2);
}

#[test]
fn input_reads_buttons_and_edges() {
    let mut input = InputHandler::new();
    input.feed(1 << 0x1C);
    assert!(input.read_button(Button::StartInput, false));
    assert!(input.read_button(Button::StartInput, true));
    input.feed(1 << 0x1C);
    assert!(input.read_button(Button::StartInput, false));
    assert!(!input.read_button(Button::StartInput, true));
    assert!(!input.read_button(Button::ZInput, false));
}

#[test]
fn input_detached_controller_reads_nothing() {
    let mut input = InputHandler::new();
    input.feed(0xFFFF_FFFF);
    assert!(!input.read_button(Button::AInput, false));
}

#[test]
fn input_reads_stick_axes() {
    let mut input = InputHandler::new();
    input.feed(0x0000_2A17);
    assert_eq!(input.read_stick(Axis::YAxis), 0x17);
    assert_eq!(input.read_stick(Axis::XAxis), 0x2A);
}

#[test]
fn input_is_pressed_checks_one_bit() {
    let input = InputHandler::new();
    assert!(input.is_pressed(Button::CRInput, 1 << 0x10));
    assert!(!input.is_pressed(Button::CLInput, 1 << 0x10));
}

#[test]
fn memory_helpers_set_and_copy() {
    let mut dst = vec![1u8, 2, 3, 4, 5];
    umemset(&mut dst, 1, 9, 3);
    assert_eq!(dst, vec![1, 9, 9, 9, 5]);
    let src = vec![7u8, 8];
    umemcpy(&mut dst, 2, &src, 0, 2);
    assert_eq!(dst, vec![1, 9, 7, 8, 5]);
}

#[test]
fn shared_cell_hands_out_its_value() {
    let cell = SharedPtrCell::new(42u32);
    assert_eq!(*cell.as_ref(), 42);
}

#[test]
fn clone_context_restores_regions_in_order() {
    let mut ram: Vec<u8> = (0..32).collect();
    let mut ctx = CloneContext::new();
    ctx.clone(&ram, 4, 4);
    ctx.clone(&ram, 20, 8);
    for b in ram.iter_mut() {
        *b = 0xEE;
    }
    ctx.restore_all(&mut ram);
    assert_eq!(&ram[4..8], &[4, 5, 6, 7]);
    assert_eq!(&ram[20..28], &[20, 21, 22, 23, 24, 25, 26, 27]);
    assert_eq!(ram[0], 0xEE);
    assert_eq!(ram[31], 0xEE);
    ctx.reset();
    assert_eq!(ctx.headers.len(), 0);
}

#[test]
fn recording_context_records_calls() {
    let mut ctxt = RecordingContext::new();
    ctxt.puts("hi", 3, 4);
    let chars = vec!['o', 'k'];
    ctxt.cputs(&chars, 5, 6);
    let raw = vec![1u8, 2];
    ctxt.putsu8(&raw, 7, 8);
    ctxt.draw();
    assert_eq!(ctxt.calls.len(), 3);
    assert_eq!(ctxt.calls[0].bytes, b"hi".to_vec());
    assert_eq!(ctxt.calls[1].bytes, b"ok".to_vec());
    assert_eq!(ctxt.calls[2].bytes, vec![1, 2]);
    assert_eq!(ctxt.flushes, 1);
    assert_eq!(ctxt.convert(65), 65);
}

#[test]
fn frame_advance_toggles_with_debounce() {
    let mut fa = ed64::frameadvance::FrameAdvance::new(0, 0, button("resume"));
    assert!(fa.active());
    fa.toggle(1u32);
    assert!(!fa.active());
    assert_eq!(fa.toggle_timer, 10);
    fa.toggle(1);
    assert!(!fa.active());
    for _ in 0..10 {
        fa.update(0);
    }
    fa.toggle(1);
    assert!(fa.active());
    let mut ctxt = RecordingContext::new();
    fa.draw(&mut ctxt);
    assert_eq!(ctxt.calls.len(), 1);
    assert_eq!(ctxt.calls[0].bytes, b"Frame Advance".to_vec());
}
