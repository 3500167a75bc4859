//! The RDP display: input conversions, clipboard formats and text, the session's
//! settings and state, and sound formats.

pub mod cliprdr;
pub mod ffi;
pub mod input;
pub mod session;
pub mod snd;
pub mod util;
