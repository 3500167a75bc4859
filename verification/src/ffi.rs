//! Raw values of the library's enumerations and flags, as they cross the C API.

use vstd::prelude::*;

verus! {

/// Raw scroll direction.
pub type RdwScroll = i32;

pub const RDW_SCROLL_UP: RdwScroll = 0;
pub const RDW_SCROLL_DOWN: RdwScroll = 1;
pub const RDW_SCROLL_LEFT: RdwScroll = 2;
pub const RDW_SCROLL_RIGHT: RdwScroll = 3;

/// Raw key event flags.
pub type RdwKeyEvent = u32;

pub const RDW_KEY_EVENT_PRESS: RdwKeyEvent = 0b0000_0001;
pub const RDW_KEY_EVENT_RELEASE: RdwKeyEvent = 0b0000_0010;

/// Raw grab flags.
pub type RdwGrab = u32;

pub const RDW_GRAB_MOUSE: RdwGrab = 0b0000_0001;
pub const RDW_GRAB_KEYBOARD: RdwGrab = 0b0000_0010;

/// The key event flags as registered with the type system: one variant per flag.
#[derive(Debug, PartialEq, Eq, Clone, Copy, Structural)]
#[allow(non_camel_case_types)]
pub enum KeyEvent {
    PRESS,
    RELEASE,
}

impl KeyEvent {
    /// The bit of the flag.
    pub fn bits(&self) -> (r: RdwKeyEvent)
        ensures
            r == (match self {
                KeyEvent::PRESS => RDW_KEY_EVENT_PRESS,
                KeyEvent::RELEASE => RDW_KEY_EVENT_RELEASE,
            }),
    {
        match self {
            KeyEvent::PRESS => 0b0000_0001,
            KeyEvent::RELEASE => 0b0000_0010,
        }
    }
}

/// The grab flags as registered with the type system: one variant per flag.
#[derive(Debug, PartialEq, Eq, Clone, Copy, Structural)]
#[allow(non_camel_case_types)]
pub enum Grab {
    MOUSE,
    KEYBOARD,
}

impl Grab {
    /// The bit of the flag.
    pub fn bits(&self) -> (r: RdwGrab)
        ensures
            r == (match self {
                Grab::MOUSE => RDW_GRAB_MOUSE,
                Grab::KEYBOARD => RDW_GRAB_KEYBOARD,
            }),
    {
        match self {
            Grab::MOUSE => 0b0000_0001,
            Grab::KEYBOARD => 0b0000_0010,
        }
    }
}

/// The scroll directions as registered with the type system.
#[derive(Debug, PartialEq, Eq, Clone, Copy, Structural)]
pub enum Scroll {
    Up,
    Down,
    Left,
    Right,
}

impl Scroll {
    /// The raw value of the direction.
    pub fn value(&self) -> (r: RdwScroll)
        ensures
            r == (match self {
                Scroll::Up => RDW_SCROLL_UP,
                Scroll::Down => RDW_SCROLL_DOWN,
                Scroll::Left => RDW_SCROLL_LEFT,
                Scroll::Right => RDW_SCROLL_RIGHT,
            }),
    {
        match self {
            Scroll::Up => 0,
            Scroll::Down => 1,
            Scroll::Left => 2,
            Scroll::Right => 3,
        }
    }
}

/// Each flag has its own bit, and the flags of a kind have distinct bits.
pub proof fn law_flag_bits_distinct()
    ensures
        RDW_KEY_EVENT_PRESS & RDW_KEY_EVENT_RELEASE == 0,
        RDW_GRAB_MOUSE & RDW_GRAB_KEYBOARD == 0,
{
    assert(1u32 & 2u32 == 0) by (bit_vector);
}

} // verus!
