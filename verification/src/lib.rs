//! Multi-touch digitizer emulation core: capability-bitmap queries, evdev
//! ioctl request numbers, byte-exact event encoding, device classification,
//! and the touch-contact state machine with its protocol dispatchers.
//!
//! Everything here is pure logic over plain values; the thin layer that
//! talks to device nodes (ioctl, reads, writes, threads) lives outside the
//! library and hands it bitmaps, axis records and events as data.

pub mod bitmap;
pub mod device_scanner;
pub mod touch_input;
pub mod uinput;
pub mod uinput_defs;
pub mod utils;
