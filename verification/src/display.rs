//! The input and grab logic of the display widget.
//!
//! The widget keeps a `DisplayState`. Each input event is handed to one of its methods,
//! which updates the state and returns the actions the widget then performs: emitting a
//! "key-event" signal, arming or disarming the press-and-release timer, taking or
//! releasing the grabs, choosing the pointer cursor.

use vstd::prelude::*;

use crate::enums::{Grab, KeyEvent, Scroll};
use crate::ffi::{RDW_GRAB_KEYBOARD, RDW_GRAB_MOUSE, RDW_KEY_EVENT_PRESS, RDW_KEY_EVENT_RELEASE};

verus! {

/// A key as the widget sees it: its keyval and its hardware keycode.
pub type KeyId = (u32, u32);

/// What the widget does after an input event.
#[derive(Debug, PartialEq, Eq, Clone, Copy, Structural)]
pub enum InputAction {
    /// Emit the "key-event" signal.
    EmitKey { keyval: u32, keycode: u32, event: KeyEvent },
    /// Arm the press-and-release timer, for `delay_ms` milliseconds.
    StartKeyTimeout { delay_ms: u32 },
    /// Disarm the press-and-release timer.
    CancelKeyTimeout,
    /// Take the keyboard and mouse grabs.
    TryGrab,
    /// Release the keyboard and mouse grabs.
    Ungrab,
}

/// How a grab attempt proceeds.
#[derive(Debug, PartialEq, Eq, Clone, Copy, Structural)]
pub enum GrabStep {
    /// The grab is already held: nothing to do, it succeeds.
    Already,
    /// The grab must be taken from the windowing system.
    Acquire,
    /// The grab cannot be taken: it fails.
    Unavailable,
}

/// The pointer cursor shown over the display.
#[derive(Debug, PartialEq, Eq, Clone, Copy, Structural)]
pub enum CursorChoice {
    /// The default cursor of the windowing system.
    Unset,
    /// The cursor defined by the remote side.
    Defined,
    /// No visible cursor (the cursor named "none").
    Hidden,
}

/// What a change of the "mouse-absolute" property asks of the widget.
#[derive(Debug, PartialEq, Eq, Clone, Copy, Structural)]
pub struct MouseAbsoluteChange {
    /// `Some(reset)` when the mouse grab was released; `reset` tells whether the
    /// pointer cursor must be unset.
    pub ungrab_mouse: Option<bool>,
    /// The cursor to apply, when the cursor must be updated.
    pub cursor: Option<CursorChoice>,
}

/// A pointer input of the widget, before it is emitted.
#[derive(Debug, PartialEq, Eq, Clone, Copy, Structural)]
pub enum PointerInput {
    /// A motion to a position of the remote display.
    Motion(i32, i32),
    /// A relative motion.
    MotionRelative(i32, i32),
    /// A button press.
    Press(u32),
    /// A button release.
    Release(u32),
    /// A wheel step.
    ScrollDiscrete(Scroll),
}

/// What a change of the "read-only" property did.
#[derive(Debug, PartialEq, Eq, Clone, Copy, Structural)]
pub struct ReadOnlyChange {
    /// The property changed: it is notified and the cursor updated.
    pub changed: bool,
    /// The keyboard grab was released.
    pub keyboard_released: bool,
    /// `Some(reset)` when the mouse grab was released; `reset` tells whether the
    /// pointer cursor must be unset.
    pub mouse_released: Option<bool>,
}

/// What a change of the "scaling" property asks of the widget.
#[derive(Debug, PartialEq, Eq, Clone, Copy, Structural)]
pub enum ScalingChange {
    /// The value did not change: nothing to do.
    Unchanged,
    /// Scaling is on: the size request is reset to (-1, -1).
    Unconstrained,
    /// Scaling is off: the widget requests this size.
    Fixed(i32, i32),
    /// Scaling is off, with no known display size: the size request is kept.
    Kept,
}

/// The state of the display widget that its input logic reads and writes.
pub struct DisplayState {
    pub scaling: bool,
    pub show_local_cursor: bool,
    pub read_only: bool,
    pub mouse_absolute: bool,
    pub grabbed: Grab,
    /// Press-and-release detection time in ms.
    pub synthesize_delay: u32,
    pub last_resize_request: Option<(u32, u32, u32, u32)>,
    /// Position of the cursor when it is drawn by the client.
    pub cursor_position: Option<(i32, i32)>,
    /// A key press not yet emitted: it becomes a press-and-release if its release comes
    /// before the timer fires.
    pub last_key_press: Option<KeyId>,
    /// Whether the press-and-release timer is armed.
    pub key_timeout_armed: bool,
    /// The keys whose press was emitted and whose release was not.
    pub keys_pressed: Vec<KeyId>,
    /// The grab shortcut was pressed: its release toggles the grab.
    pub delayed_grab_shortcut: bool,
}

/// The emission of a key event, unless the display is read-only.
pub open spec fn key_action(read_only: bool, k: KeyId, event: KeyEvent) -> Seq<InputAction> {
    if read_only {
        seq![]
    } else {
        seq![InputAction::EmitKey { keyval: k.0, keycode: k.1, event }]
    }
}

pub open spec fn press_event() -> KeyEvent {
    KeyEvent { bits: RDW_KEY_EVENT_PRESS }
}

pub open spec fn release_event() -> KeyEvent {
    KeyEvent { bits: RDW_KEY_EVENT_RELEASE }
}

pub open spec fn press_and_release_event() -> KeyEvent {
    KeyEvent { bits: RDW_KEY_EVENT_PRESS | RDW_KEY_EVENT_RELEASE }
}

/// The set of keys a sequence holds.
pub open spec fn key_set(keys: Seq<KeyId>) -> Set<KeyId> {
    Set::new(|k: KeyId| keys.contains(k))
}

/// The key input part of the display state, as a mathematical value.
pub struct KeyInputModel {
    pub last: Option<KeyId>,
    pub pressed: Set<KeyId>,
    pub delayed: bool,
}

/// The releases of `keys`, in order, unless the display is read-only.
pub open spec fn release_all_actions(read_only: bool, keys: Seq<KeyId>) -> Seq<InputAction> {
    if read_only {
        seq![]
    } else {
        Seq::new(
            keys.len(),
            |i: int|
                InputAction::EmitKey { keyval: keys[i].0, keycode: keys[i].1, event: release_event() },
        )
    }
}

/// Emitting the pending press: it joins the pressed keys and the timer is disarmed.
pub open spec fn flush_step(m: KeyInputModel, read_only: bool) -> (KeyInputModel, Seq<InputAction>) {
    match m.last {
        Some(k) => (
            KeyInputModel { last: None, pressed: m.pressed.insert(k), delayed: m.delayed },
            key_action(read_only, k, press_event()) + seq![InputAction::CancelKeyTimeout],
        ),
        None => (m, seq![]),
    }
}

/// A key press: the pending press is emitted, and the new one waits for the timer.
pub open spec fn key_pressed_step(
    m: KeyInputModel,
    read_only: bool,
    delay_ms: u32,
    k: KeyId,
    shortcut: bool,
) -> (KeyInputModel, Seq<InputAction>) {
    let (f, acts) = flush_step(m, read_only);
    (
        KeyInputModel { last: Some(k), pressed: f.pressed, delayed: shortcut },
        acts + seq![InputAction::StartKeyTimeout { delay_ms }],
    )
}

/// A key release. A release of the grab shortcut toggles the grab. A release of the
/// pending press becomes a single press-and-release event; any other release flushes
/// the pending press and is emitted as a release.
pub open spec fn key_released_step(
    m: KeyInputModel,
    read_only: bool,
    grabbed_empty: bool,
    k: KeyId,
) -> (KeyInputModel, Seq<InputAction>) {
    let grab_part: Seq<InputAction> = if m.delayed {
        if grabbed_empty {
            seq![InputAction::TryGrab]
        } else {
            seq![InputAction::Ungrab]
        }
    } else {
        seq![]
    };
    if m.last == Some(k) {
        (
            KeyInputModel { last: None, pressed: m.pressed.remove(k), delayed: false },
            grab_part + seq![InputAction::CancelKeyTimeout] + key_action(
                read_only,
                k,
                press_and_release_event(),
            ),
        )
    } else {
        let (f, acts) = flush_step(m, read_only);
        (
            KeyInputModel { last: None, pressed: f.pressed.remove(k), delayed: false },
            grab_part + acts + key_action(read_only, k, release_event()),
        )
    }
}

impl DisplayState {
    /// The invariant of the state.
    pub open spec fn wf(&self) -> bool {
        &&& self.keys_pressed@.no_duplicates()
        &&& self.key_timeout_armed == self.last_key_press.is_some()
        &&& self.grabbed.bits & !crate::enums::grab_all_bits() == 0
        &&& self.mouse_absolute ==> self.grabbed.bits & RDW_GRAB_MOUSE == 0
    }

    pub open spec fn key_model(&self) -> KeyInputModel {
        KeyInputModel {
            last: self.last_key_press,
            pressed: key_set(self.keys_pressed@),
            delayed: self.delayed_grab_shortcut,
        }
    }

    /// Everything but the key input state.
    pub open spec fn same_settings(&self, other: &DisplayState) -> bool {
        &&& self.scaling == other.scaling
        &&& self.show_local_cursor == other.show_local_cursor
        &&& self.read_only == other.read_only
        &&& self.mouse_absolute == other.mouse_absolute
        &&& self.grabbed == other.grabbed
        &&& self.synthesize_delay == other.synthesize_delay
        &&& self.last_resize_request == other.last_resize_request
        &&& self.cursor_position == other.cursor_position
    }

    /// Everything but the key input state and `field`-like grab state.
    pub open spec fn same_keys(&self, other: &DisplayState) -> bool {
        &&& self.last_key_press == other.last_key_press
        &&& self.key_timeout_armed == other.key_timeout_armed
        &&& self.keys_pressed@ == other.keys_pressed@
        &&& self.delayed_grab_shortcut == other.delayed_grab_shortcut
    }

    /// The state of a newly constructed widget: scaling on, 100 ms press-and-release
    /// delay, nothing grabbed or pressed.
    pub fn new() -> (r: DisplayState)
        ensures
            r.wf(),
            r.scaling,
            !r.show_local_cursor,
            !r.read_only,
            !r.mouse_absolute,
            r.grabbed.bits == 0,
            r.synthesize_delay == 100,
            r.last_resize_request.is_none(),
            r.cursor_position.is_none(),
            r.last_key_press.is_none(),
            r.keys_pressed@.len() == 0,
            !r.delayed_grab_shortcut,
    {
        let r = DisplayState {
            scaling: true,
            show_local_cursor: false,
            read_only: false,
            mouse_absolute: false,
            grabbed: Grab::empty(),
            synthesize_delay: 100,
            last_resize_request: None,
            cursor_position: None,
            last_key_press: None,
            key_timeout_armed: false,
            keys_pressed: Vec::new(),
            delayed_grab_shortcut: false,
        };
        assert(0u32 & !crate::enums::grab_all_bits() == 0) by {
            assert(forall|x: u32| 0u32 & x == 0) by (bit_vector);
        }
        r
    }

    fn keys_contains(&self, k: KeyId) -> (r: Option<usize>)
        ensures
            match r {
                Some(i) => i < self.keys_pressed@.len() && self.keys_pressed@[i as int] == k,
                None => !self.keys_pressed@.contains(k),
            },
    {
        let mut i: usize = 0;
        while i < self.keys_pressed.len()
            invariant
                i <= self.keys_pressed@.len(),
                forall|j: int| 0 <= j < i ==> self.keys_pressed@[j] != k,
            decreases self.keys_pressed@.len() - i,
        {
            let (a, b) = self.keys_pressed[i];
            if a == k.0 && b == k.1 {
                return Some(i);
            }
            i = i + 1;
        }
        None
    }

    fn keys_insert(&mut self, k: KeyId)
        requires
            old(self).keys_pressed@.no_duplicates(),
        ensures
            final(self).keys_pressed@.no_duplicates(),
            key_set(final(self).keys_pressed@) == key_set(old(self).keys_pressed@).insert(k),
            final(self).same_settings(old(self)),
            final(self).last_key_press == old(self).last_key_press,
            final(self).key_timeout_armed == old(self).key_timeout_armed,
            final(self).delayed_grab_shortcut == old(self).delayed_grab_shortcut,
    {
        match self.keys_contains(k) {
            Some(_) => {
                assert(key_set(self.keys_pressed@) =~= key_set(self.keys_pressed@).insert(k));
            },
            None => {
                let ghost s = self.keys_pressed@;
                self.keys_pressed.push(k);
                assert(self.keys_pressed@ == s.push(k));
                assert forall|x: KeyId| s.push(k).contains(x) <==> (s.contains(x) || x == k) by {
                    if s.contains(x) {
                        let j = choose|j: int| 0 <= j < s.len() && s[j] == x;
                        assert(s.push(k)[j] == x);
                    }
                    if x == k {
                        assert(s.push(k)[s.len() as int] == x);
                    }
                    if s.push(k).contains(x) {
                        let j = choose|j: int| 0 <= j < s.push(k).len() && s.push(k)[j] == x;
                        if j < s.len() {
                            assert(s[j] == x);
                        }
                    }
                }
                assert(key_set(self.keys_pressed@) =~= key_set(s).insert(k));
                assert forall|a: int, b: int|
                    0 <= a < b < s.push(k).len() implies s.push(k)[a] != s.push(k)[b] by {
                    if b == s.len() {
                        assert(s[a] == s.push(k)[a]);
                    }
                }
            },
        }
    }

    fn keys_remove(&mut self, k: KeyId)
        requires
            old(self).keys_pressed@.no_duplicates(),
        ensures
            final(self).keys_pressed@.no_duplicates(),
            key_set(final(self).keys_pressed@) == key_set(old(self).keys_pressed@).remove(k),
            final(self).same_settings(old(self)),
            final(self).last_key_press == old(self).last_key_press,
            final(self).key_timeout_armed == old(self).key_timeout_armed,
            final(self).delayed_grab_shortcut == old(self).delayed_grab_shortcut,
    {
        match self.keys_contains(k) {
            None => {
                assert(key_set(self.keys_pressed@) =~= key_set(self.keys_pressed@).remove(k));
            },
            Some(i) => {
                let ghost s = self.keys_pressed@;
                self.keys_pressed.remove(i);
                let ghost t = s.remove(i as int);
                assert(self.keys_pressed@ == t);
                assert forall|x: KeyId| t.contains(x) <==> (s.contains(x) && x != k) by {
                    if t.contains(x) {
                        let j = choose|j: int| 0 <= j < t.len() && t[j] == x;
                        if j < i {
                            assert(s[j] == x);
                            assert(j != i);
                        } else {
                            assert(s[j + 1] == x);
                        }
                    }
                    if s.contains(x) && x != k {
                        let j = choose|j: int| 0 <= j < s.len() && s[j] == x;
                        assert(j != i);
                        if j < i {
                            assert(t[j] == x);
                        } else {
                            assert(t[j - 1] == x);
                        }
                    }
                }
                assert(key_set(self.keys_pressed@) =~= key_set(s).remove(k));
                assert forall|a: int, b: int| 0 <= a < b < t.len() implies t[a] != t[b] by {
                    let a2 = if a < i { a } else { a + 1 };
                    let b2 = if b < i { b } else { b + 1 };
                    assert(t[a] == s[a2]);
                    assert(t[b] == s[b2]);
                }
            },
        }
    }

    /// Disarms the press-and-release timer and forgets the pending press.
    fn clear_last_key_press(&mut self, actions: &mut Vec<InputAction>)
        ensures
            final(self).last_key_press.is_none(),
            !final(self).key_timeout_armed,
            final(actions)@ == old(actions)@ + (if old(self).key_timeout_armed {
                seq![InputAction::CancelKeyTimeout]
            } else {
                seq![]
            }),
            final(self).same_settings(old(self)),
            final(self).keys_pressed@ == old(self).keys_pressed@,
            final(self).delayed_grab_shortcut == old(self).delayed_grab_shortcut,
    {
        self.last_key_press = None;
        if self.key_timeout_armed {
            actions.push(InputAction::CancelKeyTimeout);
            self.key_timeout_armed = false;
        }
    }

    fn emit_key(&self, actions: &mut Vec<InputAction>, k: KeyId, event: KeyEvent)
        ensures
            final(actions)@ == old(actions)@ + key_action(self.read_only, k, event),
    {
        if !self.read_only {
            actions.push(InputAction::EmitKey { keyval: k.0, keycode: k.1, event });
        }
    }

    /// Emits the pending press, if any.
    fn emit_last_key_press(&mut self, actions: &mut Vec<InputAction>)
        requires
            old(self).wf(),
        ensures
            final(self).wf(),
            final(self).key_model() == flush_step(old(self).key_model(), old(self).read_only).0,
            final(actions)@ == old(actions)@ + flush_step(
                old(self).key_model(),
                old(self).read_only,
            ).1,
            final(self).same_settings(old(self)),
    {
        if let Some(k) = self.last_key_press {
            self.last_key_press = None;
            self.keys_insert(k);
            self.emit_key(actions, k, KeyEvent::press());
        }
        self.clear_last_key_press(actions);
    }

    /// A key was pressed; `shortcut` tells whether it completes the grab shortcut.
    pub fn key_pressed(&mut self, keyval: u32, keycode: u32, shortcut: bool) -> (actions: Vec<
        InputAction,
    >)
        requires
            old(self).wf(),
        ensures
            final(self).wf(),
            final(self).same_settings(old(self)),
            (final(self).key_model(), actions@) == key_pressed_step(
                old(self).key_model(),
                old(self).read_only,
                old(self).synthesize_delay,
                (keyval, keycode),
                shortcut,
            ),
    {
        let mut actions = Vec::new();
        self.delayed_grab_shortcut = shortcut;
        self.emit_last_key_press(&mut actions);
        self.last_key_press = Some((keyval, keycode));
        actions.push(InputAction::StartKeyTimeout { delay_ms: self.synthesize_delay });
        self.key_timeout_armed = true;
        proof {
            assert(actions@ =~= key_pressed_step(
                old(self).key_model(),
                old(self).read_only,
                old(self).synthesize_delay,
                (keyval, keycode),
                shortcut,
            ).1);
        }
        actions
    }

    /// A key was released.
    pub fn key_released(&mut self, keyval: u32, keycode: u32) -> (actions: Vec<InputAction>)
        requires
            old(self).wf(),
        ensures
            final(self).wf(),
            final(self).same_settings(old(self)),
            (final(self).key_model(), actions@) == key_released_step(
                old(self).key_model(),
                old(self).read_only,
                old(self).grabbed.bits == 0,
                (keyval, keycode),
            ),
    {
        let mut actions = Vec::new();
        let k = (keyval, keycode);
        if self.delayed_grab_shortcut {
            self.delayed_grab_shortcut = false;
            if self.grabbed.is_empty() {
                actions.push(InputAction::TryGrab);
            } else {
                actions.push(InputAction::Ungrab);
            }
        }
        let ghost grab_part = actions@;
        let mut emitted = false;
        if let Some((last_keyval, last_keycode)) = self.last_key_press {
            if last_keyval == keyval && last_keycode == keycode {
                self.clear_last_key_press(&mut actions);
                self.emit_key(&mut actions, k, KeyEvent::press().union(KeyEvent::release()));
                emitted = true;
            }
        }
        self.emit_last_key_press(&mut actions);
        self.keys_remove(k);
        if !emitted {
            self.emit_key(&mut actions, k, KeyEvent::release());
        }
        proof {
            let step = key_released_step(
                old(self).key_model(),
                old(self).read_only,
                old(self).grabbed.bits == 0,
                (keyval, keycode),
            );
            if old(self).last_key_press == Some(k) {
                assert(actions@ =~= step.1);
            } else {
                assert(actions@ =~= step.1);
            }
        }
        actions
    }

    /// The press-and-release timer fired: the pending press is emitted.
    pub fn key_timeout(&mut self) -> (actions: Vec<InputAction>)
        requires
            old(self).wf(),
        ensures
            final(self).wf(),
            final(self).same_settings(old(self)),
            (final(self).key_model(), actions@) == flush_step(
                old(self).key_model(),
                old(self).read_only,
            ),
    {
        let mut actions = Vec::new();
        self.emit_last_key_press(&mut actions);
        proof {
            assert(actions@ =~= flush_step(old(self).key_model(), old(self).read_only).1);
        }
        actions
    }

    /// The widget lost the focus: the pending press is dropped, and every pressed key is
    /// released.
    pub fn focus_leave(&mut self) -> (actions: Vec<InputAction>)
        requires
            old(self).wf(),
        ensures
            final(self).wf(),
            final(self).same_settings(old(self)),
            final(self).last_key_press.is_none(),
            !final(self).delayed_grab_shortcut,
            final(self).keys_pressed@.len() == 0,
            actions@ == (if old(self).key_timeout_armed {
                seq![InputAction::CancelKeyTimeout]
            } else {
                seq![]
            }) + release_all_actions(old(self).read_only, old(self).keys_pressed@),
    {
        let mut actions = Vec::new();
        self.delayed_grab_shortcut = false;
        self.clear_last_key_press(&mut actions);
        let ghost prefix = actions@;
        let mut keys: Vec<KeyId> = Vec::new();
        std::mem::swap(&mut keys, &mut self.keys_pressed);
        let mut i: usize = 0;
        while i < keys.len()
            invariant
                i <= keys@.len(),
                keys@ == old(self).keys_pressed@,
                self.read_only == old(self).read_only,
                actions@ == prefix + release_all_actions(self.read_only, keys@.subrange(0, i as int)),
            decreases keys@.len() - i,
        {
            let k = keys[i];
            self.emit_key(&mut actions, k, KeyEvent::release());
            proof {
                assert(keys@.subrange(0, i + 1) =~= keys@.subrange(0, i as int).push(k));
                if self.read_only {
                    assert(release_all_actions(self.read_only, keys@.subrange(0, i + 1)) =~= seq![]);
                } else {
                    assert(release_all_actions(self.read_only, keys@.subrange(0, i + 1)) =~=
                        release_all_actions(self.read_only, keys@.subrange(0, i as int)).push(
                        InputAction::EmitKey { keyval: k.0, keycode: k.1, event: release_event() },
                    ));
                }
            }
            i = i + 1;
        }
        proof {
            assert(keys@.subrange(0, keys@.len() as int) =~= keys@);
        }
        actions
    }
}


/// The pointer cursor for a state: none of the widget's own when read-only or when
/// the local cursor is shown, the remote one in absolute mode, a hidden one while the
/// mouse is grabbed, else the default one.
pub open spec fn cursor_for(read_only: bool, show_local: bool, absolute: bool, grabbed: Grab) -> CursorChoice {
    if read_only || show_local {
        CursorChoice::Unset
    } else if absolute {
        CursorChoice::Defined
    } else if grabbed.bits & RDW_GRAB_MOUSE == RDW_GRAB_MOUSE {
        CursorChoice::Hidden
    } else {
        CursorChoice::Unset
    }
}

/// The flags newly taken by a grab attempt.
pub open spec fn grab_taken(keyboard: bool, mouse: bool) -> u32 {
    (if keyboard { RDW_GRAB_KEYBOARD } else { 0 }) | (if mouse { RDW_GRAB_MOUSE } else { 0 })
}

impl DisplayState {
    /// Whether the grab flag `flag` is held.
    pub open spec fn holds(&self, flag: u32) -> bool {
        self.grabbed.bits & flag == flag
    }

    /// Everything but the grab state.
    pub open spec fn same_but_grab(&self, other: &DisplayState) -> bool {
        &&& self.same_keys(other)
        &&& self.scaling == other.scaling
        &&& self.show_local_cursor == other.show_local_cursor
        &&& self.read_only == other.read_only
        &&& self.mouse_absolute == other.mouse_absolute
        &&& self.synthesize_delay == other.synthesize_delay
        &&& self.last_resize_request == other.last_resize_request
        &&& self.cursor_position == other.cursor_position
    }

    /// The cursor to show.
    pub fn cursor_choice(&self) -> (r: CursorChoice)
        ensures
            r == cursor_for(self.read_only, self.show_local_cursor, self.mouse_absolute, self.grabbed),
    {
        if self.read_only || self.show_local_cursor {
            CursorChoice::Unset
        } else if self.mouse_absolute {
            CursorChoice::Defined
        } else if self.grabbed.contains(Grab::mouse()) {
            CursorChoice::Hidden
        } else {
            CursorChoice::Unset
        }
    }

    /// How the keyboard grab proceeds: held already, taken when the widget has a
    /// toplevel surface, else unavailable.
    pub fn keyboard_grab_step(&self, toplevel_available: bool) -> (r: GrabStep)
        ensures
            r == (if self.holds(RDW_GRAB_KEYBOARD) {
                GrabStep::Already
            } else if toplevel_available {
                GrabStep::Acquire
            } else {
                GrabStep::Unavailable
            }),
    {
        if self.grabbed.contains(Grab::keyboard()) {
            GrabStep::Already
        } else if toplevel_available {
            GrabStep::Acquire
        } else {
            GrabStep::Unavailable
        }
    }

    /// How the mouse grab proceeds: never in absolute mode, held already, else taken
    /// from the pointer devices.
    pub fn mouse_grab_step(&self) -> (r: GrabStep)
        ensures
            r == (if self.mouse_absolute {
                GrabStep::Unavailable
            } else if self.holds(RDW_GRAB_MOUSE) {
                GrabStep::Already
            } else {
                GrabStep::Acquire
            }),
    {
        if self.mouse_absolute {
            GrabStep::Unavailable
        } else if self.grabbed.contains(Grab::mouse()) {
            GrabStep::Already
        } else {
            GrabStep::Acquire
        }
    }

    /// Ends a grab attempt: `keyboard` and `mouse` tell which grabs succeeded. They join
    /// the held grabs, and are returned. The mouse grab cannot succeed in absolute mode.
    pub fn finish_try_grab(&mut self, keyboard: bool, mouse: bool) -> (r: Grab)
        requires
            old(self).wf(),
            mouse ==> !old(self).mouse_absolute,
        ensures
            final(self).wf(),
            final(self).same_but_grab(old(self)),
            r.bits == grab_taken(keyboard, mouse),
            final(self).grabbed.bits == old(self).grabbed.bits | r.bits,
    {
        let mut grabbed = Grab::empty();
        if keyboard {
            grabbed.insert(Grab::keyboard());
        }
        if mouse {
            grabbed.insert(Grab::mouse());
        }
        let old_bits = self.grabbed.bits;
        self.grabbed = self.grabbed.union(grabbed);
        proof {
            assert(0u32 | 2u32 == 2u32 && 0u32 | 1u32 == 1u32 && 2u32 | 1u32 == 3u32) by (bit_vector);
            assert(0u32 | 0u32 == 0u32 && 2u32 | 0u32 == 2u32) by (bit_vector);
            crate::enums::lemma_grab_all_bits();
            let t = grabbed.bits;
            assert(t <= 3);
            assert(t <= 3 && old_bits & !3u32 == 0 ==> (old_bits | t) & !3u32 == 0) by (bit_vector);
            assert(t & 1u32 == 0 && old_bits & 1u32 == 0 ==> (old_bits | t) & 1u32 == 0) by (bit_vector);
            if !mouse {
                assert(t == 0 || t == 2);
                assert(t == 0 || t == 2 ==> t & 1u32 == 0) by (bit_vector);
            }
        }
        grabbed
    }

    /// Releases the keyboard grab, when held and when the widget has a toplevel surface
    /// (whose system shortcuts are then restored). Returns whether it was released.
    pub fn ungrab_keyboard(&mut self, toplevel_available: bool) -> (r: bool)
        requires
            old(self).wf(),
        ensures
            final(self).wf(),
            final(self).same_but_grab(old(self)),
            r == (old(self).holds(RDW_GRAB_KEYBOARD) && toplevel_available),
            final(self).grabbed.bits == (if r {
                old(self).grabbed.bits & !RDW_GRAB_KEYBOARD
            } else {
                old(self).grabbed.bits
            }),
    {
        if !self.grabbed.contains(Grab::keyboard()) {
            return false;
        }
        if toplevel_available {
            let b = self.grabbed.bits;
            self.grabbed.remove(Grab::keyboard());
            proof {
                assert(b & !3u32 == 0 ==> (b & !2u32) & !3u32 == 0) by (bit_vector);
                assert((b & 1u32 == 0) ==> (b & !2u32) & 1u32 == 0) by (bit_vector);
                crate::enums::lemma_grab_all_bits();
            }
            true
        } else {
            false
        }
    }

    /// Releases the mouse grab, when held. Returns `Some(reset)` when it was released,
    /// where `reset` tells whether the pointer cursor must be unset (relative mode).
    pub fn ungrab_mouse(&mut self) -> (r: Option<bool>)
        requires
            old(self).wf(),
        ensures
            final(self).wf(),
            final(self).same_but_grab(old(self)),
            r == (if old(self).holds(RDW_GRAB_MOUSE) {
                Some(!old(self).mouse_absolute)
            } else {
                None::<bool>
            }),
            final(self).grabbed.bits == old(self).grabbed.bits & !RDW_GRAB_MOUSE,
    {
        let b = self.grabbed.bits;
        proof {
            assert(b & 1u32 != 1u32 ==> b & !1u32 == b) by (bit_vector);
            assert(b & !3u32 == 0 ==> (b & !1u32) & !3u32 == 0) by (bit_vector);
            assert((b & !1u32) & 1u32 == 0) by (bit_vector);
            crate::enums::lemma_grab_all_bits();
        }
        if self.grabbed.contains(Grab::mouse()) {
            self.grabbed.remove(Grab::mouse());
            Some(!self.mouse_absolute)
        } else {
            None
        }
    }

    /// Sets the "read-only" property. When it turns on, the widget first releases its
    /// grabs: the keyboard grab when a toplevel surface is available, then the mouse
    /// grab. The result says whether the property changed (it is then notified and the
    /// cursor updated) and what was released.
    pub fn set_read_only(&mut self, read_only: bool, toplevel_available: bool) -> (r: ReadOnlyChange)
        requires
            old(self).wf(),
        ensures
            final(self).wf(),
            r.changed == (read_only != old(self).read_only),
            final(self).read_only == read_only,
            final(self).same_keys(old(self)),
            final(self).mouse_absolute == old(self).mouse_absolute,
            final(self).show_local_cursor == old(self).show_local_cursor,
            final(self).scaling == old(self).scaling,
            final(self).last_resize_request == old(self).last_resize_request,
            (r.changed && read_only) ==> {
                &&& r.keyboard_released == (old(self).holds(RDW_GRAB_KEYBOARD) && toplevel_available)
                &&& r.mouse_released == (if old(self).holds(RDW_GRAB_MOUSE) {
                    Some(!old(self).mouse_absolute)
                } else {
                    None::<bool>
                })
                &&& final(self).grabbed.bits == (if r.keyboard_released {
                    old(self).grabbed.bits & !RDW_GRAB_KEYBOARD
                } else {
                    old(self).grabbed.bits
                }) & !RDW_GRAB_MOUSE
            },
            !(r.changed && read_only) ==> !r.keyboard_released && r.mouse_released is None
                && final(self).grabbed == old(self).grabbed,
    {
        if read_only == self.read_only {
            return ReadOnlyChange { changed: false, keyboard_released: false, mouse_released: None };
        }
        let mut keyboard_released = false;
        let mut mouse_released = None;
        if read_only {
            let ghost b = self.grabbed.bits;
            keyboard_released = self.ungrab_keyboard(toplevel_available);
            proof {
                assert((b & !2u32) & 1u32 == b & 1u32) by (bit_vector);
            }
            mouse_released = self.ungrab_mouse();
        }
        self.read_only = read_only;
        ReadOnlyChange { changed: true, keyboard_released, mouse_released }
    }

    /// Takes the grabs: the keyboard grab is held or taken whenever a toplevel surface
    /// is available; the mouse grab, never in absolute mode, is held or taken when
    /// every pointer device was grabbed (`devices_grabbed`). The grabs taken join those
    /// held and are returned; the "grabbed" property is then notified once, and the
    /// cursor updated when the mouse grab is among them.
    pub fn try_grab(&mut self, toplevel_available: bool, devices_grabbed: bool) -> (r: Grab)
        requires
            old(self).wf(),
        ensures
            final(self).wf(),
            final(self).same_but_grab(old(self)),
            r.bits == grab_taken(
                old(self).holds(RDW_GRAB_KEYBOARD) || toplevel_available,
                !old(self).mouse_absolute && (old(self).holds(RDW_GRAB_MOUSE) || devices_grabbed),
            ),
            final(self).grabbed.bits == old(self).grabbed.bits | r.bits,
    {
        let keyboard = match self.keyboard_grab_step(toplevel_available) {
            GrabStep::Already => true,
            GrabStep::Acquire => true,
            GrabStep::Unavailable => false,
        };
        let mouse = match self.mouse_grab_step() {
            GrabStep::Already => true,
            GrabStep::Acquire => devices_grabbed,
            GrabStep::Unavailable => false,
        };
        self.finish_try_grab(keyboard, mouse)
    }

    /// The pointer input the widget emits: none while it is read-only, since a
    /// read-only display sends no input events.
    pub fn pointer_input(&self, input: PointerInput) -> (r: Option<PointerInput>)
        ensures
            r == (if self.read_only {
                None
            } else {
                Some(input)
            }),
    {
        if self.read_only {
            None
        } else {
            Some(input)
        }
    }

    /// Whether the client draws the remote cursor over the display: in relative mode,
    /// while the mouse is grabbed, at a known position, with a cursor image.
    pub fn cursor_drawn(&self, has_texture: bool) -> (r: bool)
        ensures
            r == (!self.mouse_absolute && self.holds(RDW_GRAB_MOUSE) && self.cursor_position.is_some() && has_texture),
    {
        !self.mouse_absolute && self.grabbed.contains(Grab::mouse()) && self.cursor_position.is_some() && has_texture
    }

    /// Sets the "show-local-cursor" property. Returns whether it changed (then the
    /// cursor is updated).
    pub fn set_show_local_cursor(&mut self, show: bool) -> (changed: bool)
        requires
            old(self).wf(),
        ensures
            final(self).wf(),
            changed == (show != old(self).show_local_cursor),
            final(self).show_local_cursor == show,
            final(self).same_keys(old(self)),
            final(self).grabbed == old(self).grabbed,
            final(self).read_only == old(self).read_only,
            final(self).mouse_absolute == old(self).mouse_absolute,
            final(self).scaling == old(self).scaling,
    {
        if show == self.show_local_cursor {
            return false;
        }
        self.show_local_cursor = show;
        true
    }

    /// Sets the "mouse-absolute" property. Switching to absolute mode first releases
    /// the mouse grab and updates the cursor (with the mode it had before).
    pub fn set_mouse_absolute(&mut self, absolute: bool) -> (r: MouseAbsoluteChange)
        requires
            old(self).wf(),
        ensures
            final(self).wf(),
            final(self).mouse_absolute == absolute,
            final(self).same_keys(old(self)),
            final(self).read_only == old(self).read_only,
            final(self).show_local_cursor == old(self).show_local_cursor,
            r.ungrab_mouse == (if absolute && old(self).holds(RDW_GRAB_MOUSE) {
                Some(!old(self).mouse_absolute)
            } else {
                None::<bool>
            }),
            final(self).grabbed.bits == (if absolute {
                old(self).grabbed.bits & !RDW_GRAB_MOUSE
            } else {
                old(self).grabbed.bits
            }),
            r.cursor == (if absolute {
                Some(
                    cursor_for(
                        old(self).read_only,
                        old(self).show_local_cursor,
                        old(self).mouse_absolute,
                        final(self).grabbed,
                    ),
                )
            } else {
                None::<CursorChoice>
            }),
    {
        if absolute {
            let b = self.grabbed.bits;
            let ungrab = self.ungrab_mouse();
            proof {
                assert((b & !1u32) & 1u32 == 0) by (bit_vector);
            }
            let cursor = self.cursor_choice();
            self.mouse_absolute = true;
            MouseAbsoluteChange { ungrab_mouse: ungrab, cursor: Some(cursor) }
        } else {
            self.mouse_absolute = false;
            MouseAbsoluteChange { ungrab_mouse: None, cursor: None }
        }
    }

    /// Sets the "scaling" property. Turning it off pins the widget to the display size
    /// in logical pixels, when the size is known.
    pub fn set_scaling(&mut self, scaling: bool, display_size: Option<(usize, usize)>, scale_factor: i32) -> (r: ScalingChange)
        requires
            old(self).wf(),
            scale_factor > 0,
            display_size matches Some((w, h)) ==> w <= i32::MAX && h <= i32::MAX,
        ensures
            final(self).wf(),
            final(self).scaling == scaling,
            final(self).same_keys(old(self)),
            final(self).grabbed == old(self).grabbed,
            final(self).read_only == old(self).read_only,
            final(self).mouse_absolute == old(self).mouse_absolute,
            r == (if scaling == old(self).scaling {
                ScalingChange::Unchanged
            } else if scaling {
                ScalingChange::Unconstrained
            } else {
                match display_size {
                    Some((w, h)) => ScalingChange::Fixed(
                        (w as int / scale_factor as int) as i32,
                        (h as int / scale_factor as int) as i32,
                    ),
                    None => ScalingChange::Kept,
                }
            }),
    {
        if scaling == self.scaling {
            return ScalingChange::Unchanged;
        }
        let r = if scaling {
            ScalingChange::Unconstrained
        } else {
            match display_size {
                Some((w, h)) => {
                    let wi = w as i32;
                    let hi = h as i32;
                    ScalingChange::Fixed(wi / scale_factor, hi / scale_factor)
                },
                None => ScalingChange::Kept,
            }
        };
        self.scaling = scaling;
        r
    }

    /// A resize request for the remote display. It is emitted unless the display is
    /// read-only or it repeats the last one emitted.
    pub fn resize_request(&mut self, width: u32, height: u32, width_mm: u32, height_mm: u32) -> (emit: bool)
        requires
            old(self).wf(),
        ensures
            final(self).wf(),
            final(self).same_keys(old(self)),
            final(self).grabbed == old(self).grabbed,
            final(self).read_only == old(self).read_only,
            final(self).mouse_absolute == old(self).mouse_absolute,
            emit == resize_emits(
                old(self).read_only,
                old(self).last_resize_request,
                (width, height, width_mm, height_mm),
            ),
            final(self).last_resize_request == (if emit {
                Some((width, height, width_mm, height_mm))
            } else {
                old(self).last_resize_request
            }),
    {
        if self.read_only {
            return false;
        }
        let same = match self.last_resize_request {
            Some((w, h, wm, hm)) => w == width && h == height && wm == width_mm && hm == height_mm,
            None => false,
        };
        if same {
            return false;
        }
        self.last_resize_request = Some((width, height, width_mm, height_mm));
        true
    }

    /// Sets the position of the cursor drawn by the client (relative mode).
    pub fn set_cursor_position(&mut self, pos: Option<(i32, i32)>)
        requires
            old(self).wf(),
        ensures
            final(self).wf(),
            final(self).cursor_position == pos,
            final(self).same_keys(old(self)),
            final(self).grabbed == old(self).grabbed,
            final(self).read_only == old(self).read_only,
            final(self).mouse_absolute == old(self).mouse_absolute,
    {
        self.cursor_position = pos;
    }

    /// Sets the "synthesize-delay" property.
    pub fn set_synthesize_delay(&mut self, delay_ms: u32)
        requires
            old(self).wf(),
        ensures
            final(self).wf(),
            final(self).synthesize_delay == delay_ms,
            final(self).same_keys(old(self)),
            final(self).grabbed == old(self).grabbed,
            final(self).read_only == old(self).read_only,
            final(self).mouse_absolute == old(self).mouse_absolute,
    {
        self.synthesize_delay = delay_ms;
    }
}


/// The emission of `event` for each keycode of a keyval, in order, unless read-only.
pub open spec fn keycodes_actions(read_only: bool, keyval: u32, keycodes: Seq<u32>, event: KeyEvent) -> Seq<InputAction> {
    if read_only {
        seq![]
    } else {
        Seq::new(keycodes.len(), |i: int| InputAction::EmitKey { keyval, keycode: keycodes[i], event })
    }
}

/// The presses of `send_keys`: every keyval in order.
pub open spec fn send_keys_presses(read_only: bool, keys: Seq<(u32, Vec<u32>)>) -> Seq<InputAction>
    decreases keys.len(),
{
    if keys.len() == 0 {
        seq![]
    } else {
        send_keys_presses(read_only, keys.drop_last()) + keycodes_actions(
            read_only,
            keys.last().0,
            keys.last().1@,
            press_event(),
        )
    }
}

/// The releases of `send_keys`: every keyval in reverse order.
pub open spec fn send_keys_releases(read_only: bool, keys: Seq<(u32, Vec<u32>)>) -> Seq<InputAction>
    decreases keys.len(),
{
    if keys.len() == 0 {
        seq![]
    } else {
        keycodes_actions(read_only, keys.last().0, keys.last().1@, release_event())
            + send_keys_releases(read_only, keys.drop_last())
    }
}

/// Whether a resize request is emitted, given the read-only flag and the last request.
pub open spec fn resize_emits(read_only: bool, last: Option<(u32, u32, u32, u32)>, req: (u32, u32, u32, u32)) -> bool {
    !read_only && last != Some(req)
}

impl DisplayState {
    /// The key events of sending a key sequence: each keyval comes with the keycodes it
    /// maps to (none when it maps to no key). Every key is pressed, in order, then
    /// released in reverse order.
    pub fn send_keys(&self, keys: &Vec<(u32, Vec<u32>)>) -> (actions: Vec<InputAction>)
        ensures
            actions@ == send_keys_presses(self.read_only, keys@) + send_keys_releases(
                self.read_only,
                keys@,
            ),
    {
        let mut actions: Vec<InputAction> = Vec::new();
        let mut i: usize = 0;
        while i < keys.len()
            invariant
                i <= keys@.len(),
                actions@ == send_keys_presses(self.read_only, keys@.subrange(0, i as int)),
            decreases keys@.len() - i,
        {
            let keyval = keys[i].0;
            let codes = &keys[i].1;
            let ghost before = actions@;
            let mut j: usize = 0;
            while j < codes.len()
                invariant
                    j <= codes@.len(),
                    codes@ == keys@[i as int].1@,
                    keyval == keys@[i as int].0,
                    actions@ == before + keycodes_actions(self.read_only, keyval, codes@.subrange(0, j as int), press_event()),
                decreases codes@.len() - j,
            {
                self.emit_key(&mut actions, (keyval, codes[j]), KeyEvent::press());
                proof {
                    assert(keycodes_actions(self.read_only, keyval, codes@.subrange(0, j + 1), press_event()) =~=
                        keycodes_actions(self.read_only, keyval, codes@.subrange(0, j as int), press_event())
                        + key_action(self.read_only, (keyval, codes@[j as int]), press_event()));
                }
                j = j + 1;
            }
            proof {
                assert(codes@.subrange(0, codes@.len() as int) =~= codes@);
                assert(keys@.subrange(0, i + 1).drop_last() =~= keys@.subrange(0, i as int));
                assert(keys@.subrange(0, i + 1).last() == keys@[i as int]);
            }
            i = i + 1;
        }
        proof {
            assert(keys@.subrange(0, keys@.len() as int) =~= keys@);
        }
        let ghost presses = actions@;
        let mut i: usize = keys.len();
        while i > 0
            invariant
                i <= keys@.len(),
                actions@ == presses + send_keys_releases_suffix(self.read_only, keys@, i as int),
            decreases i,
        {
            i = i - 1;
            let keyval = keys[i].0;
            let codes = &keys[i].1;
            let ghost before = actions@;
            let mut j: usize = 0;
            while j < codes.len()
                invariant
                    j <= codes@.len(),
                    codes@ == keys@[i as int].1@,
                    keyval == keys@[i as int].0,
                    actions@ == before + keycodes_actions(self.read_only, keyval, codes@.subrange(0, j as int), release_event()),
                decreases codes@.len() - j,
            {
                self.emit_key(&mut actions, (keyval, codes[j]), KeyEvent::release());
                proof {
                    assert(keycodes_actions(self.read_only, keyval, codes@.subrange(0, j + 1), release_event()) =~=
                        keycodes_actions(self.read_only, keyval, codes@.subrange(0, j as int), release_event())
                        + key_action(self.read_only, (keyval, codes@[j as int]), release_event()));
                }
                j = j + 1;
            }
            proof {
                assert(codes@.subrange(0, codes@.len() as int) =~= codes@);
                lemma_send_keys_releases_suffix_step(self.read_only, keys@, i as int);
            }
        }
        proof {
            lemma_send_keys_releases_suffix_whole(self.read_only, keys@);
        }
        actions
    }
}

/// The releases of the keyvals from position `i` on, last first.
pub open spec fn send_keys_releases_suffix(read_only: bool, keys: Seq<(u32, Vec<u32>)>, i: int) -> Seq<InputAction>
    decreases keys.len() - i,
{
    if i >= keys.len() || i < 0 {
        seq![]
    } else {
        send_keys_releases_suffix(read_only, keys, i + 1) + keycodes_actions(read_only, keys[i].0, keys[i].1@, release_event())
    }
}

proof fn lemma_send_keys_releases_suffix_step(read_only: bool, keys: Seq<(u32, Vec<u32>)>, i: int)
    requires
        0 <= i < keys.len(),
    ensures
        send_keys_releases_suffix(read_only, keys, i) == send_keys_releases_suffix(read_only, keys, i + 1)
            + keycodes_actions(read_only, keys[i].0, keys[i].1@, release_event()),
{
}

proof fn lemma_send_keys_releases_suffix_prefix(read_only: bool, keys: Seq<(u32, Vec<u32>)>, n: int)
    requires
        0 <= n <= keys.len(),
    ensures
        send_keys_releases_suffix(read_only, keys.subrange(0, n), 0) == send_keys_releases(read_only, keys.subrange(0, n)),
    decreases n,
{
    let p = keys.subrange(0, n);
    if n > 0 {
        lemma_send_keys_releases_suffix_prefix(read_only, keys, n - 1);
        assert(p.drop_last() =~= keys.subrange(0, n - 1));
        lemma_suffix_shift(read_only, p, 0);
    }
}

/// Releasing from position `i` of `s` is the releases of its last keyval followed by
/// those of the others from `i`.
proof fn lemma_suffix_shift(read_only: bool, s: Seq<(u32, Vec<u32>)>, i: int)
    requires
        s.len() > 0,
        0 <= i <= s.len() - 1,
    ensures
        send_keys_releases_suffix(read_only, s, i) == keycodes_actions(read_only, s.last().0, s.last().1@, release_event())
            + send_keys_releases_suffix(read_only, s.drop_last(), i),
    decreases s.len() - i,
{
    if i == s.len() - 1 {
        assert(send_keys_releases_suffix(read_only, s.drop_last(), i) == Seq::<InputAction>::empty());
        assert(send_keys_releases_suffix(read_only, s, i + 1) == Seq::<InputAction>::empty());
        assert(send_keys_releases_suffix(read_only, s, i) =~= keycodes_actions(read_only, s.last().0, s.last().1@, release_event()));
    } else {
        lemma_suffix_shift(read_only, s, i + 1);
        assert(s.drop_last()[i] == s[i]);
        assert(send_keys_releases_suffix(read_only, s, i) =~= keycodes_actions(read_only, s.last().0, s.last().1@, release_event())
            + send_keys_releases_suffix(read_only, s.drop_last(), i));
    }
}

proof fn lemma_send_keys_releases_suffix_whole(read_only: bool, keys: Seq<(u32, Vec<u32>)>)
    ensures
        send_keys_releases_suffix(read_only, keys, 0) == send_keys_releases(read_only, keys),
{
    lemma_send_keys_releases_suffix_prefix(read_only, keys, keys.len() as int);
    assert(keys.subrange(0, keys.len() as int) =~= keys);
}


/// Whether a sequence of actions emits no key event.
pub open spec fn no_key_emitted(actions: Seq<InputAction>) -> bool {
    forall|i: int| 0 <= i < actions.len() ==> !(actions[i] is EmitKey)
}

/// A key pressed and released before the press-and-release timer fires is sent as a
/// single press-and-release event, and is not left pressed.
pub proof fn law_quick_press_release_is_synthesized(
    m: KeyInputModel,
    read_only: bool,
    delay_ms: u32,
    grabbed_empty: bool,
    k: KeyId,
)
    requires
        m.last.is_none(),
    ensures
        ({
            let (m1, a1) = key_pressed_step(m, read_only, delay_ms, k, false);
            let (m2, a2) = key_released_step(m1, read_only, grabbed_empty, k);
            &&& a1 == seq![InputAction::StartKeyTimeout { delay_ms }]
            &&& a2 == seq![InputAction::CancelKeyTimeout] + key_action(
                read_only,
                k,
                press_and_release_event(),
            )
            &&& m2.last.is_none()
            &&& m2.pressed == m.pressed.remove(k)
            &&& !m2.delayed
        }),
{
    let (m1, a1) = key_pressed_step(m, read_only, delay_ms, k, false);
    assert(a1 =~= seq![InputAction::StartKeyTimeout { delay_ms }]);
    let (m2, a2) = key_released_step(m1, read_only, grabbed_empty, k);
    assert(a2 =~= seq![InputAction::CancelKeyTimeout] + key_action(read_only, k, press_and_release_event()));
}

/// A key held past the press-and-release timer is sent as a press when the timer fires,
/// stays pressed, and is sent as a release when it is released.
pub proof fn law_held_key_press_then_release(
    m: KeyInputModel,
    read_only: bool,
    delay_ms: u32,
    grabbed_empty: bool,
    k: KeyId,
)
    requires
        m.last.is_none(),
    ensures
        ({
            let (m1, a1) = key_pressed_step(m, read_only, delay_ms, k, false);
            let (m2, a2) = flush_step(m1, read_only);
            let (m3, a3) = key_released_step(m2, read_only, grabbed_empty, k);
            &&& a2 == key_action(read_only, k, press_event()) + seq![InputAction::CancelKeyTimeout]
            &&& m2.pressed.contains(k)
            &&& m2.last.is_none()
            &&& a3 == key_action(read_only, k, release_event())
            &&& m3.pressed == m.pressed.remove(k)
        }),
{
    let (m1, a1) = key_pressed_step(m, read_only, delay_ms, k, false);
    let (m2, a2) = flush_step(m1, read_only);
    let (m3, a3) = key_released_step(m2, read_only, grabbed_empty, k);
    assert(a3 =~= key_action(read_only, k, release_event()));
    assert(m3.pressed =~= m.pressed.remove(k));
}

/// Releasing a key that is not the pending press always sends that key's release, as
/// the last action, and the key is no longer held. When another key's press is pending,
/// that press is sent first and the other key stays held.
pub proof fn law_release_of_other_key_is_sent(m: KeyInputModel, grabbed_empty: bool, k: KeyId)
    requires
        m.last != Some(k),
    ensures
        ({
            let (m2, a) = key_released_step(m, false, grabbed_empty, k);
            &&& a.len() >= 1
            &&& a.last() == (InputAction::EmitKey {
                keyval: k.0,
                keycode: k.1,
                event: KeyEvent { bits: RDW_KEY_EVENT_RELEASE },
            })
            &&& !m2.pressed.contains(k)
            &&& m2.last.is_none()
        }),
        m.last matches Some(j) ==> ({
            let (m2, a) = key_released_step(m, false, grabbed_empty, k);
            &&& a.len() >= 3
            &&& a[a.len() - 3] == (InputAction::EmitKey {
                keyval: j.0,
                keycode: j.1,
                event: KeyEvent { bits: RDW_KEY_EVENT_PRESS },
            })
            &&& a[a.len() - 2] == InputAction::CancelKeyTimeout
            &&& m2.pressed.contains(j)
        }),
{
    let (m2, a) = key_released_step(m, false, grabbed_empty, k);
    assert(!m2.pressed.contains(k));
}

/// Pressing a second key while a first one is pending sends the first one's press.
pub proof fn law_second_press_flushes_first(
    m: KeyInputModel,
    read_only: bool,
    delay_ms: u32,
    k1: KeyId,
    k2: KeyId,
)
    requires
        m.last.is_none(),
    ensures
        ({
            let (m1, a1) = key_pressed_step(m, read_only, delay_ms, k1, false);
            let (m2, a2) = key_pressed_step(m1, read_only, delay_ms, k2, false);
            &&& a2 == key_action(read_only, k1, press_event()) + seq![
                InputAction::CancelKeyTimeout,
                InputAction::StartKeyTimeout { delay_ms },
            ]
            &&& m2.pressed == m.pressed.insert(k1)
            &&& m2.last == Some(k2)
        }),
{
    let (m1, a1) = key_pressed_step(m, read_only, delay_ms, k1, false);
    let (m2, a2) = key_pressed_step(m1, read_only, delay_ms, k2, false);
    assert(a2 =~= key_action(read_only, k1, press_event()) + seq![
        InputAction::CancelKeyTimeout,
        InputAction::StartKeyTimeout { delay_ms },
    ]);
}

/// Releasing the grab shortcut toggles the grab: it is taken when nothing is grabbed,
/// released otherwise.
pub proof fn law_shortcut_release_toggles_grab(
    m: KeyInputModel,
    read_only: bool,
    delay_ms: u32,
    grabbed_empty: bool,
    k: KeyId,
)
    requires
        m.last.is_none(),
    ensures
        ({
            let (m1, a1) = key_pressed_step(m, read_only, delay_ms, k, true);
            let (m2, a2) = key_released_step(m1, read_only, grabbed_empty, k);
            &&& a2[0] == (if grabbed_empty { InputAction::TryGrab } else { InputAction::Ungrab })
            &&& !m2.delayed
        }),
{
}

/// A read-only display emits no key event, whatever the key input.
pub proof fn law_read_only_emits_no_key(
    m: KeyInputModel,
    delay_ms: u32,
    grabbed_empty: bool,
    k: KeyId,
    shortcut: bool,
    keys: Seq<KeyId>,
    sent: Seq<(u32, Vec<u32>)>,
)
    ensures
        no_key_emitted(key_pressed_step(m, true, delay_ms, k, shortcut).1),
        no_key_emitted(key_released_step(m, true, grabbed_empty, k).1),
        no_key_emitted(flush_step(m, true).1),
        no_key_emitted(release_all_actions(true, keys)),
        no_key_emitted(send_keys_presses(true, sent) + send_keys_releases(true, sent)),
{
    lemma_send_keys_read_only(sent);
    let a = key_released_step(m, true, grabbed_empty, k).1;
    if m.last == Some(k) {
        assert(key_action(true, k, press_and_release_event()) =~= seq![]);
    } else {
        assert(key_action(true, k, release_event()) =~= seq![]);
    }
    match m.last {
        Some(l) => {
            assert(key_action(true, l, press_event()) =~= seq![]);
        },
        None => {},
    }
}

proof fn lemma_send_keys_read_only(sent: Seq<(u32, Vec<u32>)>)
    ensures
        send_keys_presses(true, sent) == Seq::<InputAction>::empty(),
        send_keys_releases(true, sent) == Seq::<InputAction>::empty(),
    decreases sent.len(),
{
    if sent.len() > 0 {
        lemma_send_keys_read_only(sent.drop_last());
        assert(send_keys_presses(true, sent) =~= Seq::<InputAction>::empty());
        assert(send_keys_releases(true, sent) =~= Seq::<InputAction>::empty());
    }
}

/// Losing the focus releases each pressed key exactly once.
pub proof fn law_focus_leave_releases_each_pressed_key(keys: Seq<KeyId>)
    requires
        keys.no_duplicates(),
    ensures
        release_all_actions(false, keys).len() == keys.len(),
        forall|k: KeyId|
            #![trigger key_set(keys).contains(k)]
            key_set(keys).contains(k) <==> exists|i: int|
                0 <= i < keys.len() && release_all_actions(false, keys)[i] == (InputAction::EmitKey {
                    keyval: k.0,
                    keycode: k.1,
                    event: release_event(),
                }),
{
    let r = release_all_actions(false, keys);
    assert forall|k: KeyId|
        #![trigger key_set(keys).contains(k)]
        key_set(keys).contains(k) <==> exists|i: int|
            0 <= i < keys.len() && r[i] == (InputAction::EmitKey {
                keyval: k.0,
                keycode: k.1,
                event: release_event(),
            }) by {
        if key_set(keys).contains(k) {
            let i = choose|i: int| 0 <= i < keys.len() && keys[i] == k;
            assert(r[i] == (InputAction::EmitKey { keyval: k.0, keycode: k.1, event: release_event() }));
        }
        if exists|i: int|
            0 <= i < keys.len() && r[i] == (InputAction::EmitKey {
                keyval: k.0,
                keycode: k.1,
                event: release_event(),
            }) {
            let i = choose|i: int|
                0 <= i < keys.len() && r[i] == (InputAction::EmitKey {
                    keyval: k.0,
                    keycode: k.1,
                    event: release_event(),
                });
            assert(keys[i] == k);
        }
    }
}

/// Sending keys emits as many releases as presses.
pub proof fn law_send_keys_balanced(read_only: bool, sent: Seq<(u32, Vec<u32>)>)
    ensures
        send_keys_presses(read_only, sent).len() == send_keys_releases(read_only, sent).len(),
    decreases sent.len(),
{
    if sent.len() > 0 {
        law_send_keys_balanced(read_only, sent.drop_last());
    }
}

/// Releasing both grabs (with a toplevel surface) leaves nothing grabbed.
pub proof fn law_ungrab_releases_everything(bits: u32)
    requires
        bits & !crate::enums::grab_all_bits() == 0,
    ensures
        (bits & !RDW_GRAB_KEYBOARD) & !RDW_GRAB_MOUSE == 0,
        bits & RDW_GRAB_KEYBOARD != RDW_GRAB_KEYBOARD ==> bits & !RDW_GRAB_MOUSE == 0,
{
    crate::enums::lemma_grab_all_bits();
    assert(bits & !3u32 == 0 ==> (bits & !2u32) & !1u32 == 0) by (bit_vector);
    assert(bits & !3u32 == 0 && bits & 2u32 != 2u32 ==> bits & !1u32 == 0) by (bit_vector);
}

/// A grab attempt keeps what was held and adds what it took.
pub proof fn law_try_grab_is_monotone(bits: u32, keyboard: bool, mouse: bool)
    ensures
        (bits | grab_taken(keyboard, mouse)) & bits == bits,
        keyboard ==> (bits | grab_taken(keyboard, mouse)) & RDW_GRAB_KEYBOARD == RDW_GRAB_KEYBOARD,
        mouse ==> (bits | grab_taken(keyboard, mouse)) & RDW_GRAB_MOUSE == RDW_GRAB_MOUSE,
{
    let t = grab_taken(keyboard, mouse);
    assert((bits | t) & bits == bits) by (bit_vector);
    assert(forall|x: u32, y: u32| (x | (2u32 | y)) & 2u32 == 2u32) by (bit_vector);
    assert(forall|x: u32, y: u32| (x | (y | 1u32)) & 1u32 == 1u32) by (bit_vector);
}

/// The resize request for a new allocation of the widget, in device pixels: the size
/// times the scale factor, and the physical size in millimeters of that part of the
/// monitor the widget is on (0 without a monitor).
pub fn allocation_resize_request(
    width: i32,
    height: i32,
    scale_factor: i32,
    monitor: Option<(u32, u32, i32, i32)>,
) -> (r: (u32, u32, u32, u32))
    requires
        (width as u32) * (scale_factor as u32) <= u32::MAX,
        (height as u32) * (scale_factor as u32) <= u32::MAX,
        monitor matches Some((wmm, hmm, gw, gh)) ==> {
            &&& gw as u32 != 0
            &&& gh as u32 != 0
            &&& wmm * ((width as u32) * (scale_factor as u32)) <= u32::MAX
            &&& hmm * ((height as u32) * (scale_factor as u32)) <= u32::MAX
        },
    ensures
        ({
            let w = (width as u32) * (scale_factor as u32);
            let h = (height as u32) * (scale_factor as u32);
            r == match monitor {
                Some((wmm, hmm, gw, gh)) => (
                    w as u32,
                    h as u32,
                    ((wmm * w) / (gw as u32) as int) as u32,
                    ((hmm * h) / (gh as u32) as int) as u32,
                ),
                None => (w as u32, h as u32, 0u32, 0u32),
            }
        }),
{
    let sf = scale_factor as u32;
    let w = (width as u32) * sf;
    let h = (height as u32) * sf;
    match monitor {
        Some((wmm, hmm, gw, gh)) => {
            let wm = wmm * w / (gw as u32);
            let hm = hmm * h / (gh as u32);
            (w, h, wm, hm)
        },
        None => (w, h, 0, 0),
    }
}

/// The geometry of a cursor built from RGBA pixels at a scale: the row stride of the
/// image, its scaled size, and its scaled hotspot.
pub fn cursor_geometry(width: i32, height: i32, hot_x: i32, hot_y: i32, scale: i32) -> (r: (i32, i32, i32, i32, i32))
    requires
        scale > 0,
        i32::MIN <= width * 4 <= i32::MAX,
        i32::MIN <= width * scale <= i32::MAX,
        i32::MIN <= height * scale <= i32::MAX,
        i32::MIN <= hot_x * scale <= i32::MAX,
        i32::MIN <= hot_y * scale <= i32::MAX,
    ensures
        r == ((width * 4) as i32, (width * scale) as i32, (height * scale) as i32, (hot_x * scale) as i32, (hot_y
            * scale) as i32),
{
    (width * 4, width * scale, height * scale, hot_x * scale, hot_y * scale)
}

/// The mouse is never grabbed in absolute mode.
pub proof fn law_no_mouse_grab_in_absolute_mode(s: &DisplayState)
    requires
        s.wf(),
        s.mouse_absolute,
    ensures
        !s.holds(RDW_GRAB_MOUSE),
{
}

/// The cursor is hidden only while the mouse is grabbed in relative mode, on a display
/// that is not read-only and does not show the local cursor.
pub proof fn law_hidden_cursor_only_when_grabbed(read_only: bool, show_local: bool, absolute: bool, grabbed: Grab)
    ensures
        cursor_for(read_only, show_local, absolute, grabbed) == CursorChoice::Hidden ==> (!read_only
            && !show_local && !absolute && grabbed.bits & RDW_GRAB_MOUSE == RDW_GRAB_MOUSE),
        read_only ==> cursor_for(read_only, show_local, absolute, grabbed) == CursorChoice::Unset,
{
}

/// A resize request that repeats the last one emitted is not emitted again.
pub proof fn law_resize_request_deduplicated(read_only: bool, last: Option<(u32, u32, u32, u32)>, req: (u32, u32, u32, u32))
    ensures
        resize_emits(read_only, last, req) ==> !resize_emits(read_only, Some(req), req),
        read_only ==> !resize_emits(read_only, last, req),
{
}

} // verus!
