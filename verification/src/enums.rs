//! Scroll directions, key event flags and grab flags.

use vstd::prelude::*;

use crate::ffi::{
    RdwGrab, RdwKeyEvent, RdwScroll, RDW_GRAB_KEYBOARD, RDW_GRAB_MOUSE, RDW_KEY_EVENT_PRESS,
    RDW_KEY_EVENT_RELEASE, RDW_SCROLL_DOWN, RDW_SCROLL_LEFT, RDW_SCROLL_RIGHT, RDW_SCROLL_UP,
};

verus! {

/// A discrete scroll direction. Raw values that name no direction are kept in `__Unknown`.
#[derive(Debug, PartialEq, Eq, Clone, Copy, Structural)]
#[allow(non_camel_case_types)]
pub enum Scroll {
    Up,
    Down,
    Left,
    Right,
    __Unknown(i32),
}

/// The raw value of a scroll direction.
pub open spec fn scroll_to_raw(s: Scroll) -> i32 {
    match s {
        Scroll::Up => RDW_SCROLL_UP,
        Scroll::Down => RDW_SCROLL_DOWN,
        Scroll::Left => RDW_SCROLL_LEFT,
        Scroll::Right => RDW_SCROLL_RIGHT,
        Scroll::__Unknown(v) => v,
    }
}

/// The scroll direction of a raw value.
pub open spec fn scroll_from_raw(v: i32) -> Scroll {
    if v == RDW_SCROLL_UP {
        Scroll::Up
    } else if v == RDW_SCROLL_DOWN {
        Scroll::Down
    } else if v == RDW_SCROLL_LEFT {
        Scroll::Left
    } else if v == RDW_SCROLL_RIGHT {
        Scroll::Right
    } else {
        Scroll::__Unknown(v)
    }
}

/// Whether a scroll value is in its canonical form: a named direction, or an unknown
/// value that names no direction.
pub open spec fn scroll_is_canonical(s: Scroll) -> bool {
    match s {
        Scroll::__Unknown(v) => v < RDW_SCROLL_UP || v > RDW_SCROLL_RIGHT,
        _ => true,
    }
}

impl Scroll {
    /// Converts to the raw C value.
    pub fn into_glib(self) -> (r: RdwScroll)
        ensures
            r == scroll_to_raw(self),
    {
        match self {
            Scroll::Up => RDW_SCROLL_UP,
            Scroll::Down => RDW_SCROLL_DOWN,
            Scroll::Left => RDW_SCROLL_LEFT,
            Scroll::Right => RDW_SCROLL_RIGHT,
            Scroll::__Unknown(v) => v,
        }
    }

    /// Converts from the raw C value.
    pub fn from_glib(value: RdwScroll) -> (r: Scroll)
        ensures
            r == scroll_from_raw(value),
    {
        if value == RDW_SCROLL_UP {
            Scroll::Up
        } else if value == RDW_SCROLL_DOWN {
            Scroll::Down
        } else if value == RDW_SCROLL_LEFT {
            Scroll::Left
        } else if value == RDW_SCROLL_RIGHT {
            Scroll::Right
        } else {
            Scroll::__Unknown(value)
        }
    }
}

/// Any raw scroll value survives a trip through `Scroll` unchanged.
pub proof fn law_scroll_raw_round_trip(v: i32)
    ensures
        scroll_to_raw(scroll_from_raw(v)) == v,
        scroll_is_canonical(scroll_from_raw(v)),
{
}

/// A canonical scroll value survives a trip through its raw value unchanged.
pub proof fn law_scroll_round_trip(s: Scroll)
    requires
        scroll_is_canonical(s),
    ensures
        scroll_from_raw(scroll_to_raw(s)) == s,
{
}

/// Mouse and keyboard grab flags.
#[derive(Debug, PartialEq, Eq, Clone, Copy, Structural)]
pub struct Grab {
    pub bits: u32,
}

/// The bits that name a grab flag.
pub open spec fn grab_all_bits() -> u32 {
    RDW_GRAB_MOUSE | RDW_GRAB_KEYBOARD
}

/// The grab flags together are the two low bits.
pub proof fn lemma_grab_all_bits()
    ensures
        grab_all_bits() == 3,
{
    assert(1u32 | 2u32 == 3u32) by (bit_vector);
}

impl Grab {
    /// The mouse grab flag.
    pub fn mouse() -> (r: Grab)
        ensures
            r.bits == RDW_GRAB_MOUSE,
    {
        Grab { bits: RDW_GRAB_MOUSE }
    }

    /// The keyboard grab flag.
    pub fn keyboard() -> (r: Grab)
        ensures
            r.bits == RDW_GRAB_KEYBOARD,
    {
        Grab { bits: RDW_GRAB_KEYBOARD }
    }

    /// No grab.
    pub fn empty() -> (r: Grab)
        ensures
            r.bits == 0,
    {
        Grab { bits: 0 }
    }

    /// Both grabs.
    pub fn all() -> (r: Grab)
        ensures
            r.bits == grab_all_bits(),
    {
        Grab { bits: RDW_GRAB_MOUSE | RDW_GRAB_KEYBOARD }
    }

    /// The raw bits.
    pub fn bits(&self) -> (r: u32)
        ensures
            r == self.bits,
    {
        self.bits
    }

    /// Keeps the bits that name a grab flag, drops the others.
    pub fn from_bits_truncate(bits: u32) -> (r: Grab)
        ensures
            r.bits == bits & grab_all_bits(),
    {
        Grab { bits: bits & (RDW_GRAB_MOUSE | RDW_GRAB_KEYBOARD) }
    }

    /// The flags of `bits`, or `None` if it has a bit that names no grab flag.
    pub fn from_bits(bits: u32) -> (r: Option<Grab>)
        ensures
            r == (if bits & !grab_all_bits() == 0 {
                Some(Grab { bits })
            } else {
                None::<Grab>
            }),
    {
        if bits & !(RDW_GRAB_MOUSE | RDW_GRAB_KEYBOARD) == 0 {
            Some(Grab { bits })
        } else {
            None
        }
    }

    /// Whether no flag is set.
    pub fn is_empty(&self) -> (r: bool)
        ensures
            r == (self.bits == 0),
    {
        self.bits == 0
    }

    /// Whether every flag of `other` is set.
    pub fn contains(&self, other: Grab) -> (r: bool)
        ensures
            r == (self.bits & other.bits == other.bits),
    {
        self.bits & other.bits == other.bits
    }

    /// Whether some flag of `other` is set.
    pub fn intersects(&self, other: Grab) -> (r: bool)
        ensures
            r == (self.bits & other.bits != 0),
    {
        self.bits & other.bits != 0
    }

    /// The flags of either.
    pub fn union(self, other: Grab) -> (r: Grab)
        ensures
            r.bits == self.bits | other.bits,
    {
        Grab { bits: self.bits | other.bits }
    }

    /// The flags of both.
    pub fn intersection(self, other: Grab) -> (r: Grab)
        ensures
            r.bits == self.bits & other.bits,
    {
        Grab { bits: self.bits & other.bits }
    }

    /// The flags of `self` that `other` does not have.
    pub fn difference(self, other: Grab) -> (r: Grab)
        ensures
            r.bits == self.bits & !other.bits,
    {
        Grab { bits: self.bits & !other.bits }
    }

    /// Sets the flags of `other`.
    pub fn insert(&mut self, other: Grab)
        ensures
            final(self).bits == old(self).bits | other.bits,
    {
        self.bits = self.bits | other.bits;
    }

    /// Clears the flags of `other`.
    pub fn remove(&mut self, other: Grab)
        ensures
            final(self).bits == old(self).bits & !other.bits,
    {
        self.bits = self.bits & !other.bits;
    }

    /// Converts to the raw C value.
    pub fn into_glib(self) -> (r: RdwGrab)
        ensures
            r == self.bits,
    {
        self.bits
    }

    /// Converts from the raw C value, dropping unknown bits.
    pub fn from_glib(value: RdwGrab) -> (r: Grab)
        ensures
            r.bits == value & grab_all_bits(),
    {
        Grab::from_bits_truncate(value)
    }
}

impl Default for Grab {
    fn default() -> (r: Grab)
        ensures
            r.bits == 0,
    {
        Grab::empty()
    }
}

/// Key event flags: a press, a release, or both at once.
#[derive(Debug, PartialEq, Eq, Clone, Copy, Structural)]
pub struct KeyEvent {
    pub bits: u32,
}

/// The bits that name a key event flag.
pub open spec fn key_event_all_bits() -> u32 {
    RDW_KEY_EVENT_PRESS | RDW_KEY_EVENT_RELEASE
}

impl KeyEvent {
    /// The press flag.
    pub fn press() -> (r: KeyEvent)
        ensures
            r.bits == RDW_KEY_EVENT_PRESS,
    {
        KeyEvent { bits: RDW_KEY_EVENT_PRESS }
    }

    /// The release flag.
    pub fn release() -> (r: KeyEvent)
        ensures
            r.bits == RDW_KEY_EVENT_RELEASE,
    {
        KeyEvent { bits: RDW_KEY_EVENT_RELEASE }
    }

    /// No flag.
    pub fn empty() -> (r: KeyEvent)
        ensures
            r.bits == 0,
    {
        KeyEvent { bits: 0 }
    }

    /// A press and a release.
    pub fn all() -> (r: KeyEvent)
        ensures
            r.bits == key_event_all_bits(),
    {
        KeyEvent { bits: RDW_KEY_EVENT_PRESS | RDW_KEY_EVENT_RELEASE }
    }

    /// The raw bits.
    pub fn bits(&self) -> (r: u32)
        ensures
            r == self.bits,
    {
        self.bits
    }

    /// Keeps the bits that name a key event flag, drops the others.
    pub fn from_bits_truncate(bits: u32) -> (r: KeyEvent)
        ensures
            r.bits == bits & key_event_all_bits(),
    {
        KeyEvent { bits: bits & (RDW_KEY_EVENT_PRESS | RDW_KEY_EVENT_RELEASE) }
    }

    /// The flags of `bits`, or `None` if it has a bit that names no key event flag.
    pub fn from_bits(bits: u32) -> (r: Option<KeyEvent>)
        ensures
            r == (if bits & !key_event_all_bits() == 0 {
                Some(KeyEvent { bits })
            } else {
                None::<KeyEvent>
            }),
    {
        if bits & !(RDW_KEY_EVENT_PRESS | RDW_KEY_EVENT_RELEASE) == 0 {
            Some(KeyEvent { bits })
        } else {
            None
        }
    }

    /// Whether no flag is set.
    pub fn is_empty(&self) -> (r: bool)
        ensures
            r == (self.bits == 0),
    {
        self.bits == 0
    }

    /// Whether every flag of `other` is set.
    pub fn contains(&self, other: KeyEvent) -> (r: bool)
        ensures
            r == (self.bits & other.bits == other.bits),
    {
        self.bits & other.bits == other.bits
    }

    /// The flags of either.
    pub fn union(self, other: KeyEvent) -> (r: KeyEvent)
        ensures
            r.bits == self.bits | other.bits,
    {
        KeyEvent { bits: self.bits | other.bits }
    }

    /// The flags of `self` that `other` does not have.
    pub fn difference(self, other: KeyEvent) -> (r: KeyEvent)
        ensures
            r.bits == self.bits & !other.bits,
    {
        KeyEvent { bits: self.bits & !other.bits }
    }

    /// Converts to the raw C value.
    pub fn into_glib(self) -> (r: RdwKeyEvent)
        ensures
            r == self.bits,
    {
        self.bits
    }

    /// Converts from the raw C value, dropping unknown bits.
    pub fn from_glib(value: RdwKeyEvent) -> (r: KeyEvent)
        ensures
            r.bits == value & key_event_all_bits(),
    {
        KeyEvent::from_bits_truncate(value)
    }
}

/// Truncating raw bits keeps only the named flags, and truncating again changes nothing.
pub proof fn law_grab_truncate_keeps_named_flags(bits: u32)
    ensures
        (bits & grab_all_bits()) & !grab_all_bits() == 0,
        (bits & grab_all_bits()) & grab_all_bits() == bits & grab_all_bits(),
        (bits & grab_all_bits()) <= 3,
{
    lemma_grab_all_bits();
    assert((bits & 3u32) & !3u32 == 0) by (bit_vector);
    assert((bits & 3u32) & 3u32 == bits & 3u32) by (bit_vector);
    assert((bits & 3u32) <= 3) by (bit_vector);
}

/// Inserting flags makes them contained; removing them makes them absent; other
/// flags are untouched.
pub proof fn law_grab_insert_remove(a: u32, b: u32)
    ensures
        (a | b) & b == b,
        (a & !b) & b == 0,
        (a | b) & !b == a & !b,
        (a & !b) | b == a | b,
{
    assert((a | b) & b == b) by (bit_vector);
    assert((a & !b) & b == 0) by (bit_vector);
    assert((a | b) & !b == a & !b) by (bit_vector);
    assert((a & !b) | b == a | b) by (bit_vector);
}

} // verus!
