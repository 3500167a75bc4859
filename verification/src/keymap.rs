//! Which keycode table turns the display's hardware keycodes into the scancodes a
//! remote protocol wants, and the lookup in it.

use vstd::prelude::*;

verus! {

/// The windowing system the display runs on.
#[derive(Debug, PartialEq, Eq, Clone, Copy, Structural)]
pub enum DisplayBackend {
    X11,
    Wayland,
    Win32,
    MacOS,
    Broadway,
}

/// A keycode table, from the keycodes of a windowing system to scancodes.
#[derive(Debug, PartialEq, Eq, Clone, Copy, Structural)]
pub enum KeycodeTable {
    /// Xorg evdev keycodes to XT keyboard scancodes.
    XorgEvdevToXtkbd,
    /// Xorg evdev keycodes to QEMU key numbers.
    XorgEvdevToQnum,
    /// Win32 virtual keys to XT keyboard scancodes.
    Win32ToXtkbd,
    /// Win32 virtual keys to QEMU key numbers.
    Win32ToQnum,
}

/// The table to XT keyboard scancodes for a display: evdev keycodes under X11 and
/// Wayland, Win32 keys under Win32 when built for Windows; none without a display or
/// for other windowing systems.
pub fn keymap_xtkbd(backend: Option<DisplayBackend>, windows: bool) -> (r: Option<KeycodeTable>)
    ensures
        r == match backend {
            Some(DisplayBackend::X11) | Some(DisplayBackend::Wayland) => Some(KeycodeTable::XorgEvdevToXtkbd),
            Some(DisplayBackend::Win32) => if windows {
                Some(KeycodeTable::Win32ToXtkbd)
            } else {
                None
            },
            _ => None,
        },
{
    match backend {
        Some(DisplayBackend::X11) | Some(DisplayBackend::Wayland) => Some(KeycodeTable::XorgEvdevToXtkbd),
        Some(DisplayBackend::Win32) => if windows {
            Some(KeycodeTable::Win32ToXtkbd)
        } else {
            None
        },
        _ => None,
    }
}

/// The table to QEMU key numbers for a display, as `keymap_xtkbd` chooses.
pub fn keymap_qnum(backend: Option<DisplayBackend>, windows: bool) -> (r: Option<KeycodeTable>)
    ensures
        r == match backend {
            Some(DisplayBackend::X11) | Some(DisplayBackend::Wayland) => Some(KeycodeTable::XorgEvdevToQnum),
            Some(DisplayBackend::Win32) => if windows {
                Some(KeycodeTable::Win32ToQnum)
            } else {
                None
            },
            _ => None,
        },
{
    match backend {
        Some(DisplayBackend::X11) | Some(DisplayBackend::Wayland) => Some(KeycodeTable::XorgEvdevToQnum),
        Some(DisplayBackend::Win32) => if windows {
            Some(KeycodeTable::Win32ToQnum)
        } else {
            None
        },
        _ => None,
    }
}

/// The scancode of a keycode in a table, if the table reaches it.
pub fn keymap_lookup(map: &[u16], keycode: u32) -> (r: Option<u16>)
    ensures
        r == (if (keycode as int) < map@.len() {
            Some(map@[keycode as int])
        } else {
            None
        }),
{
    let k = keycode as usize;
    if k < map.len() {
        Some(map[k])
    } else {
        None
    }
}

} // verus!
