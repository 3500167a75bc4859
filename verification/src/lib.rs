//! Remote desktop widget logic: input handling, grabs, framebuffer updates and the
//! protocol-specific conversions of the VNC, RDP, Spice and QEMU displays.

pub mod display;
pub mod enums;
pub mod ffi;
pub mod gstaudio;
pub mod keymap;
pub mod launcher;
pub mod logger;
pub mod paintable;
pub mod rdp;
pub mod seqs;
pub mod spice;
pub mod text;
pub mod usbredir;
pub mod vnc;

pub use enums::{Grab, KeyEvent, Scroll};
pub use gstaudio::GstAudio;
pub use keymap::{keymap_qnum, keymap_xtkbd};
pub use logger::setup_logger;
pub use paintable::Paintable;
