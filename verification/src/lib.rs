//! Driver and debug-overlay support library for an EverDrive-style USB
//! bridge reachable over a console's parallel cartridge bus.
//!
//! The heart of the crate is the packetized USB transport: register-level
//! handshake, DMA hand-off with cache maintenance, 512-byte packet chunking
//! and bounded busy-wait timeouts, all verified against a simulated
//! peripheral bus (`bus::Bus`) that models the register file, the data
//! window and the loopback FIFO. The remaining modules are the small
//! widgets (menu, keyboard, timer, frame advance), input decoding and
//! rendering helpers that the debug overlay is built from.
#![verifier::loop_isolation(false)]

pub mod bus;
pub mod clone;
pub mod frameadvance;
pub mod input;
pub mod keyboard;
pub mod math;
pub mod memory;
pub mod menu;
pub mod render;
pub mod timer;
pub mod usb;
