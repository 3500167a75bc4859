//! The Spice display: pointer and key events for the inputs channel, the clipboard
//! formats of the Spice agent, and the areas of the primary surface to show.

use vstd::prelude::*;

use crate::enums::{KeyEvent, Scroll};
use crate::text::text_eq;

verus! {

/// A mouse button of the Spice protocol.
#[derive(Debug, PartialEq, Eq, Clone, Copy, Structural)]
pub enum SpiceMouseButton {
    Left,
    Middle,
    Right,
    Up,
    Down,
}

/// The number of a Spice mouse button.
pub open spec fn spec_button_number(b: SpiceMouseButton) -> i32 {
    match b {
        SpiceMouseButton::Left => 1,
        SpiceMouseButton::Middle => 2,
        SpiceMouseButton::Right => 3,
        SpiceMouseButton::Up => 4,
        SpiceMouseButton::Down => 5,
    }
}

/// The number of a Spice mouse button.
pub fn button_number(b: SpiceMouseButton) -> (r: i32)
    ensures
        r == spec_button_number(b),
{
    match b {
        SpiceMouseButton::Left => 1,
        SpiceMouseButton::Middle => 2,
        SpiceMouseButton::Right => 3,
        SpiceMouseButton::Up => 4,
        SpiceMouseButton::Down => 5,
    }
}

/// The bit of a button in the button state.
pub open spec fn state_bit(b: SpiceMouseButton) -> i32 {
    (1i32 << ((spec_button_number(b) - 1) as i32)) as i32
}

/// A button event of the inputs channel: the button, and the buttons held after it.
#[derive(Debug, PartialEq, Eq, Clone, Copy, Structural)]
pub struct SpiceButtonEvent {
    pub press: bool,
    pub button: i32,
    pub button_state: i32,
}

/// The Spice button of a GDK button: the first three buttons.
pub open spec fn spec_click_button(button: u32) -> Option<SpiceMouseButton> {
    if button == 1 {
        Some(SpiceMouseButton::Left)
    } else if button == 2 {
        Some(SpiceMouseButton::Middle)
    } else if button == 3 {
        Some(SpiceMouseButton::Right)
    } else {
        None
    }
}

/// The Spice button of a wheel step: Spice has wheel buttons up and down only.
pub open spec fn spec_scroll_button(scroll: Scroll) -> Option<SpiceMouseButton> {
    match scroll {
        Scroll::Up => Some(SpiceMouseButton::Up),
        Scroll::Down => Some(SpiceMouseButton::Down),
        _ => None,
    }
}

/// The pointer state of the Spice display.
#[derive(Debug, Clone, Copy)]
pub struct SpicePointer {
    pub last_button_state: Option<i32>,
}

impl SpicePointer {
    /// No button held.
    pub fn new() -> (r: SpicePointer)
        ensures
            r.last_button_state is None,
    {
        SpicePointer { last_button_state: None }
    }

    /// The buttons held.
    pub open spec fn state(&self) -> i32 {
        match self.last_button_state {
            Some(s) => s,
            None => 0,
        }
    }

    /// The buttons held, sent with each motion.
    pub fn last_button_state(&self) -> (r: i32)
        ensures
            r == self.state(),
    {
        match self.last_button_state {
            Some(s) => s,
            None => 0,
        }
    }

    /// A button is pressed or released: its bit in the state of the buttons held is set
    /// or cleared, and the event carries the new state.
    pub fn button_event(&mut self, press: bool, button: SpiceMouseButton) -> (r: SpiceButtonEvent)
        ensures
            r.press == press,
            r.button == spec_button_number(button),
            r.button_state == (if press {
                old(self).state() | state_bit(button)
            } else {
                old(self).state() & !state_bit(button)
            }),
            final(self).last_button_state == Some(r.button_state),
    {
        let n = button_number(button);
        let bit: i32 = 1i32 << ((n - 1) as i32);
        let mut state = self.last_button_state();
        if press {
            state = state | bit;
        } else {
            state = state & !bit;
        }
        self.last_button_state = Some(state);
        SpiceButtonEvent { press, button: n, button_state: state }
    }

    /// A mouse button is pressed or released: the first three buttons are sent, the
    /// others are not.
    pub fn mouse_click(&mut self, press: bool, button: u32) -> (r: Option<SpiceButtonEvent>)
        ensures
            match spec_click_button(button) {
                None => r is None && *final(self) == *old(self),
                Some(b) => r matches Some(e) && e.button == spec_button_number(b) && e.press == press
                    && e.button_state == (if press {
                    old(self).state() | state_bit(b)
                } else {
                    old(self).state() & !state_bit(b)
                }) && final(self).last_button_state == Some(e.button_state),
            },
    {
        let b = if button == 1 {
            SpiceMouseButton::Left
        } else if button == 2 {
            SpiceMouseButton::Middle
        } else if button == 3 {
            SpiceMouseButton::Right
        } else {
            return None;
        };
        Some(self.button_event(press, b))
    }

    /// A wheel step: a press and a release of the wheel button, for the steps Spice
    /// has.
    pub fn scroll(&mut self, scroll: Scroll) -> (r: Vec<SpiceButtonEvent>)
        ensures
            match spec_scroll_button(scroll) {
                None => r@.len() == 0 && *final(self) == *old(self),
                Some(b) => r@.len() == 2 && r@[0].press && !r@[1].press && r@[0].button == spec_button_number(b)
                    && r@[1].button == spec_button_number(b) && r@[0].button_state == old(self).state() | state_bit(b)
                    && r@[1].button_state == (old(self).state() | state_bit(b)) & !state_bit(b)
                    && final(self).last_button_state == Some(r@[1].button_state),
            },
    {
        let b = match scroll {
            Scroll::Up => SpiceMouseButton::Up,
            Scroll::Down => SpiceMouseButton::Down,
            _ => {
                return Vec::new();
            },
        };
        let mut v: Vec<SpiceButtonEvent> = Vec::new();
        let p = self.button_event(true, b);
        v.push(p);
        let q = self.button_event(false, b);
        v.push(q);
        v
    }
}

/// What the inputs channel is told of a key event.
#[derive(Debug, PartialEq, Eq, Clone, Copy, Structural)]
pub enum SpiceKeyAction {
    PressAndRelease(u32),
    Press(u32),
    Release(u32),
}

/// What the inputs channel is told of a key event on the key's XT scancode: a press
/// and release at once, a press or a release; nothing when the keymap has no scancode
/// for the key or the event is neither.
pub fn key_event(keymap: &[u16], keycode: u32, event: KeyEvent) -> (r: Option<SpiceKeyAction>)
    ensures
        !((keycode as int) < keymap@.len()) ==> r is None,
        (keycode as int) < keymap@.len() ==> {
            let xt = keymap@[keycode as int] as u32;
            let p = event.bits & crate::ffi::RDW_KEY_EVENT_PRESS == crate::ffi::RDW_KEY_EVENT_PRESS;
            let q = event.bits & crate::ffi::RDW_KEY_EVENT_RELEASE == crate::ffi::RDW_KEY_EVENT_RELEASE;
            r == (if p && q {
                Some(SpiceKeyAction::PressAndRelease(xt))
            } else if p {
                Some(SpiceKeyAction::Press(xt))
            } else if q {
                Some(SpiceKeyAction::Release(xt))
            } else {
                None
            })
        },
{
    let k = keycode as usize;
    if k >= keymap.len() {
        return None;
    }
    let xt = keymap[k] as u32;
    let both = KeyEvent::press().union(KeyEvent::release());
    proof {
        assert(both.bits == 3) by {
            assert(1u32 | 2u32 == 3u32) by (bit_vector);
        }
        let b = event.bits;
        assert((b & 3 == 3) == (b & 1 == 1 && b & 2 == 2)) by (bit_vector);
    }
    if event.contains(both) {
        Some(SpiceKeyAction::PressAndRelease(xt))
    } else if event.contains(KeyEvent::press()) {
        Some(SpiceKeyAction::Press(xt))
    } else if event.contains(KeyEvent::release()) {
        Some(SpiceKeyAction::Release(xt))
    } else {
        None
    }
}

/// The mouse mode in which the client positions the pointer.
pub const SPICE_MOUSE_MODE_CLIENT: u32 = 2;

/// Whether the pointer is absolute in a mouse mode: when the client positions it.
pub fn mouse_absolute(mode: u32) -> (r: bool)
    ensures
        r == (mode & SPICE_MOUSE_MODE_CLIENT == SPICE_MOUSE_MODE_CLIENT),
{
    mode & SPICE_MOUSE_MODE_CLIENT == SPICE_MOUSE_MODE_CLIENT
}

/// A clipboard format of the Spice agent.
#[derive(Debug, PartialEq, Eq, Clone, Copy, Structural)]
pub enum SpiceClipboardFormat {
    Utf8,
    Png,
    Bmp,
    Tiff,
    Jpg,
    FileList,
}

/// The number of a clipboard format of the Spice agent.
pub open spec fn spec_format_number(f: SpiceClipboardFormat) -> u32 {
    match f {
        SpiceClipboardFormat::Utf8 => 1,
        SpiceClipboardFormat::Png => 2,
        SpiceClipboardFormat::Bmp => 3,
        SpiceClipboardFormat::Tiff => 4,
        SpiceClipboardFormat::Jpg => 5,
        SpiceClipboardFormat::FileList => 6,
    }
}

/// The number of a clipboard format of the Spice agent.
pub fn format_number(f: SpiceClipboardFormat) -> (r: u32)
    ensures
        r == spec_format_number(f),
{
    match f {
        SpiceClipboardFormat::Utf8 => 1,
        SpiceClipboardFormat::Png => 2,
        SpiceClipboardFormat::Bmp => 3,
        SpiceClipboardFormat::Tiff => 4,
        SpiceClipboardFormat::Jpg => 5,
        SpiceClipboardFormat::FileList => 6,
    }
}

/// The clipboard format of a number, if it names one.
pub open spec fn spec_format_from_number(n: u32) -> Option<SpiceClipboardFormat> {
    if n == 1 {
        Some(SpiceClipboardFormat::Utf8)
    } else if n == 2 {
        Some(SpiceClipboardFormat::Png)
    } else if n == 3 {
        Some(SpiceClipboardFormat::Bmp)
    } else if n == 4 {
        Some(SpiceClipboardFormat::Tiff)
    } else if n == 5 {
        Some(SpiceClipboardFormat::Jpg)
    } else if n == 6 {
        Some(SpiceClipboardFormat::FileList)
    } else {
        None
    }
}

/// The clipboard format of a number, if it names one.
pub fn format_from_number(n: u32) -> (r: Option<SpiceClipboardFormat>)
    ensures
        r == spec_format_from_number(n),
{
    if n == 1 {
        Some(SpiceClipboardFormat::Utf8)
    } else if n == 2 {
        Some(SpiceClipboardFormat::Png)
    } else if n == 3 {
        Some(SpiceClipboardFormat::Bmp)
    } else if n == 4 {
        Some(SpiceClipboardFormat::Tiff)
    } else if n == 5 {
        Some(SpiceClipboardFormat::Jpg)
    } else if n == 6 {
        Some(SpiceClipboardFormat::FileList)
    } else {
        None
    }
}

/// The MIME type of a clipboard format of the agent.
pub open spec fn spec_mime_from_format(f: SpiceClipboardFormat) -> Seq<char> {
    match f {
        SpiceClipboardFormat::Utf8 => "text/plain;charset=utf-8"@,
        SpiceClipboardFormat::Png => "image/png"@,
        SpiceClipboardFormat::Bmp => "image/bmp"@,
        SpiceClipboardFormat::Tiff => "image/tiff"@,
        SpiceClipboardFormat::Jpg => "image/jpeg"@,
        SpiceClipboardFormat::FileList => "text/uri-list"@,
    }
}

/// The MIME type of a clipboard format of the agent.
pub fn mime_from_format(format: SpiceClipboardFormat) -> (r: &'static str)
    ensures
        r@ == spec_mime_from_format(format),
{
    match format {
        SpiceClipboardFormat::Utf8 => "text/plain;charset=utf-8",
        SpiceClipboardFormat::Png => "image/png",
        SpiceClipboardFormat::Bmp => "image/bmp",
        SpiceClipboardFormat::Tiff => "image/tiff",
        SpiceClipboardFormat::Jpg => "image/jpeg",
        SpiceClipboardFormat::FileList => "text/uri-list",
    }
}

/// The clipboard format of the agent for a local MIME type: UTF-8 text for plain text,
/// none for the others.
pub open spec fn spec_format_from_mime(mime: Seq<char>) -> Option<SpiceClipboardFormat> {
    if mime == "text/plain"@ || mime == "text/plain;charset=utf-8"@ {
        Some(SpiceClipboardFormat::Utf8)
    } else {
        None
    }
}

/// The clipboard format of the agent for a local MIME type.
pub fn format_from_mime(mime: &str) -> (r: Option<SpiceClipboardFormat>)
    ensures
        r == spec_format_from_mime(mime@),
{
    if text_eq(mime, "text/plain") || text_eq(mime, "text/plain;charset=utf-8") {
        Some(SpiceClipboardFormat::Utf8)
    } else {
        None
    }
}

/// A clipboard of the local display.
#[derive(Debug, PartialEq, Eq, Clone, Copy, Structural)]
pub enum Selection {
    Clipboard,
    Primary,
}

/// The local clipboard of a selection of the agent: 0 is the clipboard, 1 the primary
/// selection; the others have none.
pub fn clipboard_from_selection(selection: u32) -> (r: Option<Selection>)
    ensures
        r == (if selection == 0 {
            Some(Selection::Clipboard)
        } else if selection == 1 {
            Some(Selection::Primary)
        } else {
            None
        }),
{
    if selection == 0 {
        Some(Selection::Clipboard)
    } else if selection == 1 {
        Some(Selection::Primary)
    } else {
        None
    }
}

/// The MIME types of the formats that the agent grabs the clipboard with, in their
/// order, numbers without a format left out.
pub open spec fn grabbed_mimes(types: Seq<u32>) -> Seq<Seq<char>>
    decreases types.len(),
{
    if types.len() == 0 {
        seq![]
    } else {
        let rest = grabbed_mimes(types.drop_last());
        match spec_format_from_number(types.last()) {
            Some(f) => rest.push(spec_mime_from_format(f)),
            None => rest,
        }
    }
}

/// The MIME types the local clipboard offers when the agent grabs it.
pub fn clipboard_grab_mimes(types: &[u32]) -> (r: Vec<&'static str>)
    ensures
        r@.map_values(|s: &'static str| s@) == grabbed_mimes(types@),
{
    let mut out: Vec<&'static str> = Vec::new();
    let mut i: usize = 0;
    while i < types.len()
        invariant
            i <= types@.len(),
            out@.map_values(|s: &'static str| s@) == grabbed_mimes(types@.subrange(0, i as int)),
        decreases types@.len() - i,
    {
        let ghost before = out@;
        proof {
            assert(types@.subrange(0, i + 1).drop_last() =~= types@.subrange(0, i as int));
        }
        match format_from_number(types[i]) {
            Some(f) => {
                out.push(mime_from_format(f));
                proof {
                    assert(out@.map_values(|s: &'static str| s@) =~= before.map_values(|s: &'static str| s@).push(
                        spec_mime_from_format(f),
                    ));
                }
            },
            None => {},
        }
        i = i + 1;
    }
    proof {
        assert(types@.subrange(0, types@.len() as int) =~= types@);
    }
    out
}

/// Whether a sequence of numbers rises strictly.
pub open spec fn strictly_increasing(s: Seq<u32>) -> bool {
    forall|i: int, j: int| 0 <= i < j < s.len() ==> s[i] < s[j]
}

/// Whether a MIME type has an agent format of number `n`.
pub open spec fn mime_has_format(mime: Seq<char>, n: u32) -> bool {
    spec_format_from_mime(mime) matches Some(f) && spec_format_number(f) == n
}

/// The agent formats of the local clipboard's MIME types, each once, in increasing
/// order: what the agent is told when the local clipboard changes.
pub fn local_grab_types(mimes: &[String]) -> (r: Vec<u32>)
    ensures
        strictly_increasing(r@),
        forall|n: u32| r@.contains(n) <==> exists|i: int| 0 <= i < mimes@.len() && mime_has_format(#[trigger] mimes@[i]@, n),
{
    let mut out: Vec<u32> = Vec::new();
    let mut i: usize = 0;
    while i < mimes.len()
        invariant
            i <= mimes@.len(),
            strictly_increasing(out@),
            forall|n: u32| out@.contains(n) <==> exists|k: int| 0 <= k < i && mime_has_format(#[trigger] mimes@[k]@, n),
        decreases mimes@.len() - i,
    {
        match format_from_mime(mimes[i].as_str()) {
            Some(f) => {
                let n = format_number(f);
                insert_sorted(&mut out, n);
                proof {
                    assert forall|m: u32| out@.contains(m) <==> exists|k: int| 0 <= k < i + 1 && mime_has_format(
                        #[trigger] mimes@[k]@,
                        m,
                    ) by {
                        if m == n {
                            assert(mime_has_format(mimes@[i as int]@, m));
                        }
                        if exists|k: int| 0 <= k < i + 1 && mime_has_format(#[trigger] mimes@[k]@, m) {
                            let k = choose|k: int| 0 <= k < i + 1 && mime_has_format(#[trigger] mimes@[k]@, m);
                            if k == i {
                                assert(m == n);
                            }
                        }
                    }
                }
            },
            None => {
                proof {
                    assert forall|m: u32| out@.contains(m) <==> exists|k: int| 0 <= k < i + 1 && mime_has_format(
                        #[trigger] mimes@[k]@,
                        m,
                    ) by {
                        if exists|k: int| 0 <= k < i + 1 && mime_has_format(#[trigger] mimes@[k]@, m) {
                            let k = choose|k: int| 0 <= k < i + 1 && mime_has_format(#[trigger] mimes@[k]@, m);
                            assert(k != i);
                        }
                    }
                }
            },
        }
        i = i + 1;
    }
    out
}

/// Adds a number to a strictly increasing sequence, unless it holds it.
fn insert_sorted(v: &mut Vec<u32>, n: u32)
    requires
        strictly_increasing(old(v)@),
    ensures
        strictly_increasing(final(v)@),
        forall|m: u32| final(v)@.contains(m) <==> (old(v)@.contains(m) || m == n),
{
    let len = v.len();
    let mut i: usize = 0;
    while i < len && v[i] < n
        invariant
            i <= len,
            len == v@.len(),
            v@ == old(v)@,
            forall|k: int| 0 <= k < i ==> v@[k] < n,
        decreases len - i,
    {
        i = i + 1;
    }
    if i < len && v[i] == n {
        return;
    }
    let ghost before = v@;
    v.insert(i, n);
    proof {
        assert(v@ =~= before.subrange(0, i as int).push(n) + before.subrange(i as int, before.len() as int));
        assert forall|a: int, b: int| 0 <= a < b < v@.len() implies v@[a] < v@[b] by {
            if b < i {
            } else if a < i && b == i {
            } else if a < i {
                assert(v@[b] == before[b - 1]);
            } else if a == i {
                assert(v@[b] == before[b - 1]);
                assert(before[b - 1] > n || before[b - 1] == n);
            } else {
                assert(v@[a] == before[a - 1] && v@[b] == before[b - 1]);
            }
        }
        assert forall|m: u32| v@.contains(m) <==> (before.contains(m) || m == n) by {
            if v@.contains(m) {
                let k = choose|k: int| 0 <= k < v@.len() && v@[k] == m;
                if k < i {
                    assert(before[k] == m);
                } else if k > i {
                    assert(before[k - 1] == m);
                }
            }
            if before.contains(m) {
                let k = choose|k: int| 0 <= k < before.len() && before[k] == m;
                if k < i {
                    assert(v@[k] == m);
                } else {
                    assert(v@[k + 1] == m);
                }
            }
            if m == n {
                assert(v@[i as int] == n);
            }
        }
    }
}

/// The agent's clipboard data arrived for a selection: it is delivered when a request
/// waits and the data is of the format asked for. The request ends either way.
pub fn clipboard_selection_data(pending: &mut Option<SpiceClipboardFormat>, type_: u32) -> (deliver: bool)
    ensures
        *final(pending) is None,
        deliver == (*old(pending) matches Some(f) && spec_format_number(f) == type_),
{
    match pending.take() {
        Some(f) => format_number(f) == type_,
        None => false,
    }
}

/// The answer to the agent's request for the local clipboard: the format and data read
/// under the MIME type of the clipboard's data, or format 0 and no data when nothing
/// could be read or the MIME type has no format.
pub fn clipboard_request_reply(read: Option<(&str, Vec<u8>)>) -> (r: (u32, Vec<u8>))
    ensures
        match read {
            Some((mime, data)) => match spec_format_from_mime(mime@) {
                Some(f) => r.0 == spec_format_number(f) && r.1@ == data@,
                None => r.0 == 0 && r.1@.len() == 0,
            },
            None => r.0 == 0 && r.1@.len() == 0,
        },
{
    match read {
        Some((mime, data)) => match format_from_mime(mime) {
            Some(f) => (format_number(f), data),
            None => (0, Vec::new()),
        },
        None => (0, Vec::new()),
    }
}

/// The size the display shows for a monitor of the primary surface: the monitor's size
/// when it starts at the origin, none otherwise.
pub fn monitor_display_size(geometry: (usize, usize, usize, usize)) -> (r: Option<(usize, usize)>)
    ensures
        r == (if geometry.0 == 0 && geometry.1 == 0 {
            Some((geometry.2, geometry.3))
        } else {
            None
        }),
{
    let (x, y, w, h) = geometry;
    if x == 0 && y == 0 {
        Some((w, h))
    } else {
        None
    }
}

/// The byte range of the primary surface that holds an invalidated area: from its
/// first pixel to the end of its last, in rows of `stride` bytes of 32-bit pixels. None
/// without a monitor, for a monitor away from the origin, and for a surface that is
/// not 32-bit xRGB.
pub fn invalidate_range(
    monitor: Option<(usize, usize, usize, usize)>,
    xrgb: bool,
    stride: usize,
    x: usize,
    y: usize,
    w: usize,
    h: usize,
) -> (r: Option<(usize, usize)>)
    requires
        h >= 1,
        y + h <= usize::MAX,
        (x + w) * 4 + (y + h - 1) * stride <= usize::MAX,
    ensures
        match monitor {
            None => r is None,
            Some(g) => if g.0 != 0 || g.1 != 0 || !xrgb {
                r is None
            } else {
                r == Some(((x * 4 + y * stride) as usize, ((x + w) * 4 + (y + h - 1) * stride) as usize))
            },
        },
{
    let (mx, my, _mw, _mh) = match monitor {
        Some(g) => g,
        None => {
            return None;
        },
    };
    if mx != 0 || my != 0 {
        return None;
    }
    if !xrgb {
        return None;
    }
    proof {
        assert(y * stride <= (y + h - 1) * stride) by (nonlinear_arith)
            requires
                h >= 1,
                y >= 0,
                stride >= 0,
        ;
        assert(0 <= y * stride) by (nonlinear_arith)
            requires
                y >= 0,
                stride >= 0,
        ;
        assert(x * 4 <= (x + w) * 4);
    }
    let start = x * 4 + y * stride;
    let end = (x + w) * 4 + (y + h - 1) * stride;
    Some((start, end))
}

/// A wheel step up is sent as the Spice up button (number 4, state bit 8) and a step
/// down as the down button (number 5, state bit 16); the two directions never share a
/// button, and Spice has no button for sideways steps.
pub proof fn law_wheel_buttons()
    ensures
        spec_scroll_button(Scroll::Up) == Some(SpiceMouseButton::Up),
        spec_button_number(SpiceMouseButton::Up) == 4 && state_bit(SpiceMouseButton::Up) == 8,
        spec_scroll_button(Scroll::Down) == Some(SpiceMouseButton::Down),
        spec_button_number(SpiceMouseButton::Down) == 5 && state_bit(SpiceMouseButton::Down) == 16,
        spec_scroll_button(Scroll::Up) != spec_scroll_button(Scroll::Down),
        spec_scroll_button(Scroll::Left) is None && spec_scroll_button(Scroll::Right) is None,
{
    assert((1i32 << 3i32) == 8i32 && (1i32 << 4i32) == 16i32) by (bit_vector);
}

/// A click of a button that is not held, a press then a release, leaves the buttons
/// held as they were; so does a wheel step.
pub proof fn law_click_restores_button_state(state: i32, button: SpiceMouseButton)
    requires
        state & state_bit(button) == 0,
    ensures
        (state | state_bit(button)) & !state_bit(button) == state,
{
    let b = state_bit(button);
    assert(state & b == 0 ==> (state | b) & !b == state) by (bit_vector);
}

} // verus!
