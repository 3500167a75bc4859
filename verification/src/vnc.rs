//! The VNC display: pointer and key events for the VNC connection, the choice of
//! authentication and encodings, and the local framebuffer.

use vstd::prelude::*;

use crate::enums::{KeyEvent, Scroll};

verus! {

/// An authentication type of a VNC server.
#[derive(Debug, PartialEq, Eq, Clone, Copy, Structural)]
pub enum VncAuth {
    /// No authentication.
    Open,
    Vnc,
    Ra2,
    Ra2ne,
    Tight,
    Ultra,
    Tls,
    Vencrypt,
    Sasl,
    Ard,
    Mslogonii,
    Mslogon,
    /// A type this client does not know.
    Unknown,
}

/// The authentication types the display accepts, best first: the two that provide TLS
/// and can carry the others, then the stackable ones, then none at all.
pub open spec fn auth_preference() -> Seq<VncAuth> {
    seq![
        VncAuth::Vencrypt,
        VncAuth::Tls,
        VncAuth::Sasl,
        VncAuth::Mslogonii,
        VncAuth::Mslogon,
        VncAuth::Ard,
        VncAuth::Vnc,
        VncAuth::Open,
    ]
}

/// The first of `prefs` that the server offers.
pub open spec fn first_offered(prefs: Seq<VncAuth>, offered: Seq<VncAuth>) -> Option<VncAuth>
    decreases prefs.len(),
{
    if prefs.len() == 0 {
        None
    } else if offered.contains(prefs[0]) {
        Some(prefs[0])
    } else {
        first_offered(prefs.drop_first(), offered)
    }
}

/// The authentication type to use among those the server offers: the best the display
/// accepts, or none, and the connection is then shut down.
pub fn choose_auth(offered: &[VncAuth]) -> (r: Option<VncAuth>)
    ensures
        r == first_offered(auth_preference(), offered@),
{
    let prefs: [VncAuth; 8] = [
        VncAuth::Vencrypt,
        VncAuth::Tls,
        VncAuth::Sasl,
        VncAuth::Mslogonii,
        VncAuth::Mslogon,
        VncAuth::Ard,
        VncAuth::Vnc,
        VncAuth::Open,
    ];
    proof {
        assert(prefs@ =~= auth_preference());
        assert(auth_preference().subrange(0, 8) =~= auth_preference());
    }
    let mut k: usize = 0;
    while k < 8
        invariant
            k <= 8,
            prefs@ == auth_preference(),
            first_offered(auth_preference(), offered@) == first_offered(auth_preference().subrange(k as int, 8), offered@),
        decreases 8 - k,
    {
        let want = prefs[k];
        let mut j: usize = 0;
        let mut found = false;
        while j < offered.len()
            invariant
                j <= offered@.len(),
                found == (exists|i: int| 0 <= i < j && offered@[i] == want),
            decreases offered@.len() - j,
        {
            if offered[j] == want {
                found = true;
            }
            j = j + 1;
        }
        let ghost rest = auth_preference().subrange(k as int, 8);
        proof {
            assert(rest[0] == want);
            assert(rest.drop_first() =~= auth_preference().subrange(k + 1, 8));
            if found {
                let i = choose|i: int| 0 <= i < j && offered@[i] == want;
                assert(offered@.contains(want));
            } else {
                assert(!offered@.contains(want));
            }
        }
        if found {
            return Some(want);
        }
        k = k + 1;
    }
    None
}

/// An encoding of the VNC framebuffer updates, or a pseudo-encoding of a feature.
#[derive(Debug, PartialEq, Eq, Clone, Copy, Structural)]
pub enum VncEncoding {
    TightJpeg5,
    Tight,
    Xvp,
    ExtKeyEvent,
    LedState,
    ExtendedDesktopResize,
    DesktopResize,
    DesktopName,
    LastRect,
    Wmvi,
    Audio,
    AlphaCursor,
    RichCursor,
    Xcursor,
    PointerChange,
    Zrle,
    Hextile,
    Rre,
    CopyRect,
    Raw,
}

/// The encodings the display supports, in the order the server should prefer them.
pub open spec fn all_encodings() -> Seq<VncEncoding> {
    seq![
        VncEncoding::TightJpeg5,
        VncEncoding::Tight,
        VncEncoding::Xvp,
        VncEncoding::ExtKeyEvent,
        VncEncoding::LedState,
        VncEncoding::ExtendedDesktopResize,
        VncEncoding::DesktopResize,
        VncEncoding::DesktopName,
        VncEncoding::LastRect,
        VncEncoding::Wmvi,
        VncEncoding::Audio,
        VncEncoding::AlphaCursor,
        VncEncoding::RichCursor,
        VncEncoding::Xcursor,
        VncEncoding::PointerChange,
        VncEncoding::Zrle,
        VncEncoding::Hextile,
        VncEncoding::Rre,
        VncEncoding::CopyRect,
        VncEncoding::Raw,
    ]
}

/// Whether the display asks for an encoding: JPEG only when it can decode JPEG and
/// lossy updates are allowed, Tight only when it can decode JPEG, and the extended key
/// events only when keys are not sent as keycodes of the keymap.
pub open spec fn encoding_wanted(e: VncEncoding, jpeg: bool, allow_lossy: bool, keycode_map: bool) -> bool {
    &&& !(e == VncEncoding::TightJpeg5 && !(jpeg && allow_lossy))
    &&& !(e == VncEncoding::Tight && !jpeg)
    &&& !(e == VncEncoding::ExtKeyEvent && keycode_map)
}

/// The encodings the display asks for, in order of preference.
pub open spec fn wanted_encodings(jpeg: bool, allow_lossy: bool, keycode_map: bool) -> Seq<VncEncoding> {
    all_encodings().filter(|e: VncEncoding| encoding_wanted(e, jpeg, allow_lossy, keycode_map))
}

/// The encodings the display asks for, in order of preference.
pub fn preferred_encodings(jpeg: bool, allow_lossy: bool, keycode_map: bool) -> (r: Vec<VncEncoding>)
    ensures
        r@ == wanted_encodings(jpeg, allow_lossy, keycode_map),
{
    let all: [VncEncoding; 20] = [
        VncEncoding::TightJpeg5,
        VncEncoding::Tight,
        VncEncoding::Xvp,
        VncEncoding::ExtKeyEvent,
        VncEncoding::LedState,
        VncEncoding::ExtendedDesktopResize,
        VncEncoding::DesktopResize,
        VncEncoding::DesktopName,
        VncEncoding::LastRect,
        VncEncoding::Wmvi,
        VncEncoding::Audio,
        VncEncoding::AlphaCursor,
        VncEncoding::RichCursor,
        VncEncoding::Xcursor,
        VncEncoding::PointerChange,
        VncEncoding::Zrle,
        VncEncoding::Hextile,
        VncEncoding::Rre,
        VncEncoding::CopyRect,
        VncEncoding::Raw,
    ];
    proof {
        assert(all@ =~= all_encodings());
    }
    let ghost pred = |e: VncEncoding| encoding_wanted(e, jpeg, allow_lossy, keycode_map);
    let mut out: Vec<VncEncoding> = Vec::new();
    let mut i: usize = 0;
    while i < 20
        invariant
            i <= 20,
            all@ == all_encodings(),
            pred == (|e: VncEncoding| encoding_wanted(e, jpeg, allow_lossy, keycode_map)),
            out@ == all_encodings().subrange(0, i as int).filter(pred),
        decreases 20 - i,
    {
        let e = all[i];
        let keep = !(e == VncEncoding::TightJpeg5 && !(jpeg && allow_lossy)) && !(e == VncEncoding::Tight
            && !jpeg) && !(e == VncEncoding::ExtKeyEvent && keycode_map);
        proof {
            let s = all_encodings().subrange(0, i + 1);
            assert(s.drop_last() =~= all_encodings().subrange(0, i as int));
            assert(s.last() == e);
            reveal(Seq::filter);
            assert(keep == pred(e));
        }
        if keep {
            out.push(e);
        }
        i = i + 1;
    }
    proof {
        assert(all_encodings().subrange(0, 20) =~= all_encodings());
    }
    out
}

/// A pointer event of the VNC connection: the buttons held, and the position.
#[derive(Debug, PartialEq, Eq, Clone, Copy, Structural)]
pub struct PointerEvent {
    pub button_mask: u8,
    pub x: u16,
    pub y: u16,
}

/// A key event of the VNC connection: press or release, the key's symbol and its QEMU
/// key number.
#[derive(Debug, PartialEq, Eq, Clone, Copy, Structural)]
pub struct VncKeyEvent {
    pub press: bool,
    pub keyval: u32,
    pub qnum: u16,
}

/// The centre of the relative pointer coordinates.
pub const RELATIVE_CENTER: i32 = 0x7fff;

/// The mask bit of a pointer button.
pub open spec fn button_bit(button: u8) -> u8
    recommends
        1 <= button <= 8,
{
    (1u8 << ((button - 1) as u8)) as u8
}

/// The pointer state of the VNC display.
#[derive(Debug, Clone, Copy)]
pub struct VncPointer {
    pub mouse_absolute: bool,
    pub last_motion: Option<(u16, u16)>,
    pub last_button_mask: Option<u8>,
}

impl VncPointer {
    /// An absolute pointer that has not moved and holds no button.
    pub fn new() -> (r: VncPointer)
        ensures
            r.mouse_absolute,
            r.last_motion is None,
            r.last_button_mask is None,
    {
        VncPointer { mouse_absolute: true, last_motion: None, last_button_mask: None }
    }

    /// The buttons held.
    pub open spec fn mask(&self) -> u8 {
        match self.last_button_mask {
            Some(m) => m,
            None => 0,
        }
    }

    /// Where a button event is sent: at the last position in absolute mode (the origin
    /// before any motion), at the centre in relative mode.
    pub open spec fn click_position(&self) -> (u16, u16) {
        if self.mouse_absolute {
            match self.last_motion {
                Some(p) => p,
                None => (0u16, 0u16),
            }
        } else {
            (0x7fffu16, 0x7fffu16)
        }
    }

    /// The buttons held.
    pub fn last_button_mask(&self) -> (r: u8)
        ensures
            r == self.mask(),
    {
        match self.last_button_mask {
            Some(m) => m,
            None => 0,
        }
    }

    /// The server switched between absolute and relative pointer.
    pub fn set_mouse_absolute(&mut self, abs: bool)
        ensures
            final(self).mouse_absolute == abs,
            final(self).last_motion == old(self).last_motion,
            final(self).last_button_mask == old(self).last_button_mask,
    {
        self.mouse_absolute = abs;
    }

    /// The pointer moved to a position of the display: remembered, and sent in absolute
    /// mode with the buttons held.
    pub fn motion(&mut self, x: u16, y: u16) -> (r: Option<PointerEvent>)
        ensures
            final(self).last_motion == Some((x, y)),
            final(self).mouse_absolute == old(self).mouse_absolute,
            final(self).last_button_mask == old(self).last_button_mask,
            r == (if old(self).mouse_absolute {
                Some(PointerEvent { button_mask: old(self).mask(), x, y })
            } else {
                None
            }),
    {
        self.last_motion = Some((x, y));
        if !self.mouse_absolute {
            return None;
        }
        Some(PointerEvent { button_mask: self.last_button_mask(), x, y })
    }

    /// The pointer moved by an amount: sent in relative mode, around the centre, with
    /// the buttons held.
    pub fn motion_relative(&self, dx: i32, dy: i32) -> (r: Option<PointerEvent>)
        requires
            dx + RELATIVE_CENTER <= i32::MAX,
            dy + RELATIVE_CENTER <= i32::MAX,
        ensures
            r == (if self.mouse_absolute {
                None
            } else {
                Some(
                    PointerEvent {
                        button_mask: self.mask(),
                        x: (dx + RELATIVE_CENTER) as u16,
                        y: (dy + RELATIVE_CENTER) as u16,
                    },
                )
            }),
    {
        if self.mouse_absolute {
            return None;
        }
        let x = dx + RELATIVE_CENTER;
        let y = dy + RELATIVE_CENTER;
        Some(PointerEvent { button_mask: self.last_button_mask(), x: x as u16, y: y as u16 })
    }

    /// A button is pressed or released: the mask of the buttons held changes, and is
    /// sent at the last position in absolute mode (the origin before any motion), at
    /// the centre in relative mode.
    pub fn button_event(&mut self, press: bool, button: u8) -> (r: PointerEvent)
        requires
            1 <= button <= 8,
        ensures
            final(self).last_button_mask == Some(r.button_mask),
            final(self).mouse_absolute == old(self).mouse_absolute,
            final(self).last_motion == old(self).last_motion,
            r.button_mask == (if press {
                old(self).mask() | button_bit(button)
            } else {
                old(self).mask() & !button_bit(button)
            }),
            (r.x, r.y) == old(self).click_position(),
    {
        let (x, y) = if self.mouse_absolute {
            match self.last_motion {
                Some(p) => p,
                None => (0u16, 0u16),
            }
        } else {
            (0x7fffu16, 0x7fffu16)
        };
        let bit: u8 = 1u8 << (button - 1);
        let mut mask = self.last_button_mask();
        if press {
            mask = mask | bit;
        } else {
            mask = mask & !bit;
        }
        self.last_button_mask = Some(mask);
        PointerEvent { button_mask: mask, x, y }
    }

    /// A mouse button is pressed or released: the first three buttons are sent, the
    /// others are not.
    pub fn mouse_click(&mut self, press: bool, button: u32) -> (r: Option<PointerEvent>)
        requires
            button != 0,
        ensures
            button > 3 ==> r is None && *final(self) == *old(self),
            button <= 3 ==> r is Some && final(self).last_button_mask == Some(r->0.button_mask) && r->0.button_mask
                == (if press {
                old(self).mask() | button_bit(button as u8)
            } else {
                old(self).mask() & !button_bit(button as u8)
            }) && (r->0.x, r->0.y) == old(self).click_position(),
            final(self).mouse_absolute == old(self).mouse_absolute,
            final(self).last_motion == old(self).last_motion,
    {
        if button > 3 {
            return None;
        }
        Some(self.button_event(press, button as u8))
    }

    /// A wheel step: a press and a release of the wheel's button, 4 up, 5 down, 6 left
    /// and 7 right.
    pub fn scroll(&mut self, scroll: Scroll) -> (r: Vec<PointerEvent>)
        ensures
            match crate::vnc::scroll_button(scroll) {
                None => r@.len() == 0 && *final(self) == *old(self),
                Some(b) => r@.len() == 2 && r@[0].button_mask == old(self).mask() | button_bit(b)
                    && r@[1].button_mask == (old(self).mask() | button_bit(b)) & !button_bit(b)
                    && final(self).last_button_mask == Some(r@[1].button_mask) && (r@[0].x, r@[0].y)
                    == old(self).click_position() && (r@[1].x, r@[1].y) == old(self).click_position(),
            },
            final(self).mouse_absolute == old(self).mouse_absolute,
            final(self).last_motion == old(self).last_motion,
    {
        let n: u8 = match scroll {
            Scroll::Up => 4,
            Scroll::Down => 5,
            Scroll::Left => 6,
            Scroll::Right => 7,
            _ => {
                return Vec::new();
            },
        };
        let mut v: Vec<PointerEvent> = Vec::new();
        let p = self.button_event(true, n);
        v.push(p);
        let q = self.button_event(false, n);
        v.push(q);
        v
    }
}

/// The pointer button of a wheel step.
pub open spec fn scroll_button(scroll: Scroll) -> Option<u8> {
    match scroll {
        Scroll::Up => Some(4u8),
        Scroll::Down => Some(5u8),
        Scroll::Left => Some(6u8),
        Scroll::Right => Some(7u8),
        _ => None,
    }
}

/// The key events sent for a key event: a press and a release, as it asks, of the
/// key's QEMU number; none when the keymap has no number for the key.
pub fn key_event(keymap: &[u16], keyval: u32, keycode: u32, event: KeyEvent) -> (r: Vec<VncKeyEvent>)
    ensures
        !((keycode as int) < keymap@.len()) ==> r@.len() == 0,
        (keycode as int) < keymap@.len() ==> r@ == (if event.bits & crate::ffi::RDW_KEY_EVENT_PRESS
            == crate::ffi::RDW_KEY_EVENT_PRESS {
            seq![VncKeyEvent { press: true, keyval, qnum: keymap@[keycode as int] }]
        } else {
            seq![]
        }) + (if event.bits & crate::ffi::RDW_KEY_EVENT_RELEASE == crate::ffi::RDW_KEY_EVENT_RELEASE {
            seq![VncKeyEvent { press: false, keyval, qnum: keymap@[keycode as int] }]
        } else {
            seq![]
        }),
{
    let mut v: Vec<VncKeyEvent> = Vec::new();
    let k = keycode as usize;
    if k >= keymap.len() {
        return v;
    }
    let qnum = keymap[k];
    if event.contains(KeyEvent::press()) {
        v.push(VncKeyEvent { press: true, keyval, qnum });
    }
    let ghost mid = v@;
    if event.contains(KeyEvent::release()) {
        v.push(VncKeyEvent { press: false, keyval, qnum });
    }
    proof {
        let p: Seq<VncKeyEvent> = if event.bits & crate::ffi::RDW_KEY_EVENT_PRESS == crate::ffi::RDW_KEY_EVENT_PRESS {
            seq![VncKeyEvent { press: true, keyval, qnum }]
        } else {
            seq![]
        };
        assert(mid =~= p);
        assert(v@ =~= p + (if event.bits & crate::ffi::RDW_KEY_EVENT_RELEASE == crate::ffi::RDW_KEY_EVENT_RELEASE {
            seq![VncKeyEvent { press: false, keyval, qnum }]
        } else {
            seq![]
        }));
    }
    v
}

/// The desktop size asked of the server for a resize request of the display: the
/// request in the widget's scaled units.
pub fn resize_request(width: u32, height: u32, scale_factor: i32) -> (r: (u32, u32))
    requires
        scale_factor as u32 != 0,
    ensures
        r == (width / (scale_factor as u32), height / (scale_factor as u32)),
{
    let sf = scale_factor as u32;
    (width / sf, height / sf)
}

/// The local copy of the VNC framebuffer: 32-bit pixels, rows of `width` pixels.
#[derive(Debug, Clone)]
pub struct Framebuffer {
    pub buffer: Vec<u8>,
    pub width: u16,
    pub height: u16,
}

impl Framebuffer {
    /// A black framebuffer of the given size.
    pub fn new(width: u16, height: u16) -> (r: Framebuffer)
        requires
            width * height * 4 <= i32::MAX,
        ensures
            r.width == width,
            r.height == height,
            r.buffer@ == Seq::new((width * height * 4) as nat, |i: int| 0u8),
    {
        let area: u32 = (width as u32) * (height as u32);
        let len: usize = (area as usize) * 4;
        let buffer = vec![0u8; len];
        proof {
            assert(buffer@ =~= Seq::new((width * height * 4) as nat, |i: int| 0u8));
        }
        Framebuffer { buffer, width, height }
    }

    /// The bytes of a row in the buffer.
    pub fn rowstride(&self) -> (r: u32)
        ensures
            r == self.width * 4,
    {
        (self.width as u32) * 4
    }

    /// The bytes that hold an updated area, from its first pixel to its last: the area's
    /// rows, with the rest of each row but the last between them.
    pub fn get_sub(&self, x: usize, y: usize, w: usize, h: usize) -> (r: &[u8])
        requires
            1 <= h,
            y + h <= usize::MAX,
            x + w + (y + h - 1) * self.width <= self.buffer@.len() / 4,
        ensures
            r@ == self.buffer@.subrange(
                (x + y * self.width) * 4,
                (x + w + (y + h - 1) * self.width) * 4,
            ),
    {
        let bw = self.width as usize;
        let blen = self.buffer.len();
        proof {
            assert(y * bw <= (y + h - 1) * bw) by (nonlinear_arith)
                requires
                    h >= 1,
                    y >= 0,
                    bw >= 0,
            ;
            assert(0 <= y * bw) by (nonlinear_arith)
                requires
                    y >= 0,
                    bw >= 0,
            ;
            assert(bw == self.width);
            assert((y + h - 1) * bw <= x + w + (y + h - 1) * self.width);
            assert(x + y * bw <= self.buffer@.len() / 4);
            assert(self.buffer@.len() <= usize::MAX);
        }
        let start = (x + y * bw) * 4;
        let end = (x + w + (y + h - 1) * bw) * 4;
        vstd::slice::slice_subrange(self.buffer.as_slice(), start, end)
    }
}

/// Each wheel direction has a button of its own, as RFB has it: up is button 4 (mask
/// bit 8), down button 5 (bit 16), left button 6 (bit 32) and right button 7 (bit 64).
/// Two directions never share a button.
pub proof fn law_wheel_buttons(s: Scroll, t: Scroll)
    ensures
        scroll_button(Scroll::Up) == Some(4u8) && button_bit(4u8) == 8u8,
        scroll_button(Scroll::Down) == Some(5u8) && button_bit(5u8) == 16u8,
        scroll_button(Scroll::Left) == Some(6u8) && button_bit(6u8) == 32u8,
        scroll_button(Scroll::Right) == Some(7u8) && button_bit(7u8) == 64u8,
        s != t && scroll_button(s) is Some && scroll_button(t) is Some ==> scroll_button(s)
            != scroll_button(t),
{
    assert((1u8 << 3u8) == 8u8 && (1u8 << 4u8) == 16u8 && (1u8 << 5u8) == 32u8 && (1u8 << 6u8)
        == 64u8) by (bit_vector);
}

/// A click of a button that is not held, a press then a release, leaves the buttons
/// held as they were; so does a wheel step.
pub proof fn law_click_restores_button_mask(mask: u8, button: u8)
    requires
        1 <= button <= 8,
        mask & button_bit(button) == 0,
    ensures
        (mask | button_bit(button)) & !button_bit(button) == mask,
{
    let b = button_bit(button);
    assert(mask & b == 0 ==> (mask | b) & !b == mask) by (bit_vector);
}

/// The authentication chosen is one the server offers, and the server offers none
/// that the display prefers to it; none is chosen only when the server offers none of
/// those the display accepts.
pub proof fn law_chosen_auth_is_best_offered(prefs: Seq<VncAuth>, offered: Seq<VncAuth>)
    ensures
        first_offered(prefs, offered) matches Some(a) ==> offered.contains(a) && exists|i: int|
            0 <= i < prefs.len() && prefs[i] == a && forall|j: int| 0 <= j < i ==> !offered.contains(#[trigger] prefs[j]),
        first_offered(prefs, offered) is None ==> forall|j: int| 0 <= j < prefs.len() ==> !offered.contains(#[trigger] prefs[j]),
    decreases prefs.len(),
{
    if prefs.len() > 0 {
        let rest = prefs.drop_first();
        law_chosen_auth_is_best_offered(rest, offered);
        if offered.contains(prefs[0]) {
            assert(prefs[0] == first_offered(prefs, offered)->0);
        } else {
            if let Some(a) = first_offered(rest, offered) {
                let i = choose|i: int|
                    0 <= i < rest.len() && rest[i] == a && forall|j: int| 0 <= j < i ==> !offered.contains(#[trigger] rest[j]);
                assert(prefs[i + 1] == a);
                assert forall|j: int| 0 <= j < i + 1 implies !offered.contains(#[trigger] prefs[j]) by {
                    if j > 0 {
                        assert(prefs[j] == rest[j - 1]);
                    }
                }
            } else {
                assert forall|j: int| 0 <= j < prefs.len() implies !offered.contains(#[trigger] prefs[j]) by {
                    if j > 0 {
                        assert(prefs[j] == rest[j - 1]);
                    }
                }
            }
        }
    }
}

} // verus!
