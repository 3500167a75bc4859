//! Conversion of the display's input events into RDP fast-path input events.

use vstd::prelude::*;

use crate::enums::KeyEvent;
use crate::ffi::{RDW_KEY_EVENT_PRESS, RDW_KEY_EVENT_RELEASE};

verus! {

/// Pointer flags of an RDP mouse event (MS-RDPBCGR 2.2.8.1.1.3.1.1.3).
pub const PTR_FLAGS_WHEEL_NEGATIVE: u16 = 0x0100;
pub const PTR_FLAGS_VERTICAL_WHEEL: u16 = 0x0200;
pub const PTR_FLAGS_HORIZONTAL_WHEEL: u16 = 0x0400;
pub const PTR_FLAGS_MOVE: u16 = 0x0800;
pub const PTR_FLAGS_LEFT_BUTTON: u16 = 0x1000;
pub const PTR_FLAGS_RIGHT_BUTTON: u16 = 0x2000;
pub const PTR_FLAGS_MIDDLE_BUTTON_OR_WHEEL: u16 = 0x4000;
pub const PTR_FLAGS_DOWN: u16 = 0x8000;

/// Keyboard flags of an RDP fast-path keyboard event (MS-RDPBCGR 2.2.8.1.2.2.1).
pub const KBD_FLAGS_RELEASE: u8 = 0x01;
pub const KBD_FLAGS_EXTENDED: u8 = 0x02;

/// The primary, middle and secondary pointer buttons, as GDK numbers them.
pub const BUTTON_PRIMARY: u32 = 1;
pub const BUTTON_MIDDLE: u32 = 2;
pub const BUTTON_SECONDARY: u32 = 3;

/// A mouse event.
#[derive(Debug, PartialEq, Eq, Clone, Copy, Structural)]
pub struct MousePdu {
    pub flags: u16,
    pub number_of_wheel_rotation_units: i16,
    pub x_position: u16,
    pub y_position: u16,
}

/// A fast-path input event.
#[derive(Debug, PartialEq, Eq, Clone, Copy, Structural)]
pub enum FastPathInputEvent {
    /// Keyboard flags and scancode.
    KeyboardEvent(u8, u8),
    MouseEvent(MousePdu),
}

/// The pointer button flag of a GDK button, if RDP has one.
pub open spec fn button_flags(button: u32) -> Option<u16> {
    if button == BUTTON_PRIMARY {
        Some(PTR_FLAGS_LEFT_BUTTON)
    } else if button == BUTTON_MIDDLE {
        Some(PTR_FLAGS_MIDDLE_BUTTON_OR_WHEEL)
    } else if button == BUTTON_SECONDARY {
        Some(PTR_FLAGS_RIGHT_BUTTON)
    } else {
        None
    }
}

/// A pointer motion to the given position.
pub fn rdp_motion(x_position: u16, y_position: u16) -> (r: Vec<FastPathInputEvent>)
    ensures
        r@ == seq![
            FastPathInputEvent::MouseEvent(
                MousePdu {
                    flags: PTR_FLAGS_MOVE,
                    number_of_wheel_rotation_units: 0,
                    x_position,
                    y_position,
                },
            ),
        ],
{
    let mut r = Vec::new();
    r.push(
        FastPathInputEvent::MouseEvent(
            MousePdu { flags: PTR_FLAGS_MOVE, number_of_wheel_rotation_units: 0, x_position, y_position },
        ),
    );
    proof {
        assert(r@ =~= seq![
            FastPathInputEvent::MouseEvent(
                MousePdu {
                    flags: PTR_FLAGS_MOVE,
                    number_of_wheel_rotation_units: 0,
                    x_position,
                    y_position,
                },
            ),
        ]);
    }
    r
}

/// The pointer button flag of a GDK button: left, middle or right, else none.
pub fn gdk_button_to_pointer_flags(button: u32) -> (r: Option<u16>)
    ensures
        r == button_flags(button),
{
    if button == BUTTON_PRIMARY {
        Some(PTR_FLAGS_LEFT_BUTTON)
    } else if button == BUTTON_MIDDLE {
        Some(PTR_FLAGS_MIDDLE_BUTTON_OR_WHEEL)
    } else if button == BUTTON_SECONDARY {
        Some(PTR_FLAGS_RIGHT_BUTTON)
    } else {
        None
    }
}

/// A button press at the given position; nothing for a button RDP does not have.
pub fn rdp_mouse_press(x_position: u16, y_position: u16, button: u32) -> (r: Vec<FastPathInputEvent>)
    ensures
        r@ == (match button_flags(button) {
            Some(f) => seq![
                FastPathInputEvent::MouseEvent(
                    MousePdu {
                        flags: PTR_FLAGS_DOWN | f,
                        number_of_wheel_rotation_units: 0,
                        x_position,
                        y_position,
                    },
                ),
            ],
            None => seq![],
        }),
{
    let mut r = Vec::new();
    match gdk_button_to_pointer_flags(button) {
        Some(flags) => {
            r.push(
                FastPathInputEvent::MouseEvent(
                    MousePdu {
                        flags: PTR_FLAGS_DOWN | flags,
                        number_of_wheel_rotation_units: 0,
                        x_position,
                        y_position,
                    },
                ),
            );
            proof {
                assert(r@ =~= seq![
                    FastPathInputEvent::MouseEvent(
                        MousePdu {
                            flags: PTR_FLAGS_DOWN | flags,
                            number_of_wheel_rotation_units: 0,
                            x_position,
                            y_position,
                        },
                    ),
                ]);
            }
        },
        None => {
            proof {
                assert(r@ =~= seq![]);
            }
        },
    }
    r
}

/// A button release at the given position; nothing for a button RDP does not have.
pub fn rdp_mouse_release(x_position: u16, y_position: u16, button: u32) -> (r: Vec<FastPathInputEvent>)
    ensures
        r@ == (match button_flags(button) {
            Some(f) => seq![
                FastPathInputEvent::MouseEvent(
                    MousePdu { flags: f, number_of_wheel_rotation_units: 0, x_position, y_position },
                ),
            ],
            None => seq![],
        }),
{
    let mut r = Vec::new();
    match gdk_button_to_pointer_flags(button) {
        Some(flags) => {
            r.push(
                FastPathInputEvent::MouseEvent(
                    MousePdu { flags, number_of_wheel_rotation_units: 0, x_position, y_position },
                ),
            );
            proof {
                assert(r@ =~= seq![
                    FastPathInputEvent::MouseEvent(
                        MousePdu { flags, number_of_wheel_rotation_units: 0, x_position, y_position },
                    ),
                ]);
            }
        },
        None => {
            proof {
                assert(r@ =~= seq![]);
            }
        },
    }
    r
}

/// The keyboard flags of an XT scancode: extended when bit 8 is set.
pub open spec fn scancode_flags(xt: u16) -> u8 {
    if xt & 0x100 > 0 {
        KBD_FLAGS_EXTENDED
    } else {
        0
    }
}

/// The keyboard events of a key event on an XT scancode: a press, then a release, as the
/// event asks; the scancode is sent in 8 bits.
pub fn rdp_key_event(xt: u16, event: KeyEvent) -> (r: Vec<FastPathInputEvent>)
    ensures
        r@ == (if event.bits & RDW_KEY_EVENT_PRESS == RDW_KEY_EVENT_PRESS {
            seq![FastPathInputEvent::KeyboardEvent(scancode_flags(xt), xt as u8)]
        } else {
            seq![]
        }) + (if event.bits & RDW_KEY_EVENT_RELEASE == RDW_KEY_EVENT_RELEASE {
            seq![FastPathInputEvent::KeyboardEvent(scancode_flags(xt) | KBD_FLAGS_RELEASE, xt as u8)]
        } else {
            seq![]
        }),
{
    let mut fp: Vec<FastPathInputEvent> = Vec::new();
    let flags: u8 = if xt & 0x100 > 0 {
        KBD_FLAGS_EXTENDED
    } else {
        0
    };
    let code = xt as u8;
    if event.contains(KeyEvent::press()) {
        fp.push(FastPathInputEvent::KeyboardEvent(flags, code));
    }
    let ghost mid = fp@;
    if event.contains(KeyEvent::release()) {
        fp.push(FastPathInputEvent::KeyboardEvent(flags | KBD_FLAGS_RELEASE, code));
    }
    proof {
        let p: Seq<FastPathInputEvent> = if event.bits & RDW_KEY_EVENT_PRESS == RDW_KEY_EVENT_PRESS {
            seq![FastPathInputEvent::KeyboardEvent(scancode_flags(xt), xt as u8)]
        } else {
            seq![]
        };
        assert(mid =~= p);
        assert(fp@ =~= p + (if event.bits & RDW_KEY_EVENT_RELEASE == RDW_KEY_EVENT_RELEASE {
            seq![FastPathInputEvent::KeyboardEvent(scancode_flags(xt) | KBD_FLAGS_RELEASE, xt as u8)]
        } else {
            seq![]
        }));
    }
    fp
}

/// The wheel events of a scroll: horizontal first, with the opposite sign, then
/// vertical; none for a zero amount.
pub fn rdp_scroll(dx: i16, dy: i16, x_position: u16, y_position: u16) -> (r: Vec<FastPathInputEvent>)
    requires
        dx != i16::MIN,
    ensures
        r@ == (if dx != 0 {
            seq![
                FastPathInputEvent::MouseEvent(
                    MousePdu {
                        flags: PTR_FLAGS_HORIZONTAL_WHEEL,
                        number_of_wheel_rotation_units: (-dx) as i16,
                        x_position,
                        y_position,
                    },
                ),
            ]
        } else {
            seq![]
        }) + (if dy != 0 {
            seq![
                FastPathInputEvent::MouseEvent(
                    MousePdu {
                        flags: PTR_FLAGS_VERTICAL_WHEEL,
                        number_of_wheel_rotation_units: dy,
                        x_position,
                        y_position,
                    },
                ),
            ]
        } else {
            seq![]
        }),
{
    let mut fp: Vec<FastPathInputEvent> = Vec::new();
    if dx != 0 {
        fp.push(
            FastPathInputEvent::MouseEvent(
                MousePdu {
                    flags: PTR_FLAGS_HORIZONTAL_WHEEL,
                    number_of_wheel_rotation_units: -dx,
                    x_position,
                    y_position,
                },
            ),
        );
    }
    let ghost mid = fp@;
    if dy != 0 {
        fp.push(
            FastPathInputEvent::MouseEvent(
                MousePdu {
                    flags: PTR_FLAGS_VERTICAL_WHEEL,
                    number_of_wheel_rotation_units: dy,
                    x_position,
                    y_position,
                },
            ),
        );
    }
    proof {
        let h: Seq<FastPathInputEvent> = if dx != 0 {
            seq![
                FastPathInputEvent::MouseEvent(
                    MousePdu {
                        flags: PTR_FLAGS_HORIZONTAL_WHEEL,
                        number_of_wheel_rotation_units: (-dx) as i16,
                        x_position,
                        y_position,
                    },
                ),
            ]
        } else {
            seq![]
        };
        assert(mid =~= h);
        assert(fp@ =~= h + (if dy != 0 {
            seq![
                FastPathInputEvent::MouseEvent(
                    MousePdu {
                        flags: PTR_FLAGS_VERTICAL_WHEEL,
                        number_of_wheel_rotation_units: dy,
                        x_position,
                        y_position,
                    },
                ),
            ]
        } else {
            seq![]
        }));
    }
    fp
}

/// A press-and-release key event on a scancode is sent as a press followed by a release
/// of the same scancode, with the same extended flag.
pub proof fn law_key_press_and_release_pairs(xt: u16)
    ensures
        ({
            let both = KeyEvent { bits: RDW_KEY_EVENT_PRESS | RDW_KEY_EVENT_RELEASE };
            let p = (both.bits & RDW_KEY_EVENT_PRESS == RDW_KEY_EVENT_PRESS);
            let r = (both.bits & RDW_KEY_EVENT_RELEASE == RDW_KEY_EVENT_RELEASE);
            p && r
        }),
        scancode_flags(xt) & KBD_FLAGS_RELEASE == 0,
        (scancode_flags(xt) | KBD_FLAGS_RELEASE) & KBD_FLAGS_RELEASE == KBD_FLAGS_RELEASE,
        (scancode_flags(xt) | KBD_FLAGS_RELEASE) & KBD_FLAGS_EXTENDED == scancode_flags(xt),
{
    assert((1u32 | 2u32) & 1u32 == 1u32 && (1u32 | 2u32) & 2u32 == 2u32) by (bit_vector);
    assert(2u8 & 1u8 == 0 && 0u8 & 1u8 == 0) by (bit_vector);
    assert((2u8 | 1u8) & 1u8 == 1u8 && (0u8 | 1u8) & 1u8 == 1u8) by (bit_vector);
    assert((2u8 | 1u8) & 2u8 == 2u8 && (0u8 | 1u8) & 2u8 == 0u8) by (bit_vector);
}

/// A press and a release of the same button carry the same button flag, the press with
/// the down flag added.
pub proof fn law_button_press_release_pair(button: u32)
    ensures
        button_flags(button) matches Some(f) ==> (PTR_FLAGS_DOWN | f) & !PTR_FLAGS_DOWN == f,
        button_flags(button) matches Some(f) ==> f & PTR_FLAGS_DOWN == 0,
{
    assert((0x8000u16 | 0x1000u16) & !0x8000u16 == 0x1000u16) by (bit_vector);
    assert((0x8000u16 | 0x4000u16) & !0x8000u16 == 0x4000u16) by (bit_vector);
    assert((0x8000u16 | 0x2000u16) & !0x8000u16 == 0x2000u16) by (bit_vector);
    assert(0x1000u16 & 0x8000u16 == 0 && 0x4000u16 & 0x8000u16 == 0 && 0x2000u16 & 0x8000u16 == 0) by (bit_vector);
}

} // verus!
