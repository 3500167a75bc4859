use rdw::display::{
    allocation_resize_request, cursor_geometry, CursorChoice, DisplayState, GrabStep, InputAction,
    PointerInput, ReadOnlyChange, ScalingChange,
};
use rdw::enums::{Grab, KeyEvent, Scroll};
use rdw::paintable::{
    cursor_position_from_raw, display_size_from_raw, memory_format, picture_measure_base,
    update_data_len, MemoryFormat, Paintable, PixelFormat,
};

fn press_and_release() -> KeyEvent {
    KeyEvent::press().union(KeyEvent::release())
}

#[test]
fn quick_press_and_release_is_one_event() {
    let mut d = DisplayState::new();
    let a = d.key_pressed(0x61, 38, false);
    assert_eq!(a, vec![InputAction::StartKeyTimeout { delay_ms: 100 }]);
    let a = d.key_released(0x61, 38);
    assert_eq!(
        a,
        vec![
            InputAction::CancelKeyTimeout,
            InputAction::EmitKey { keyval: 0x61, keycode: 38, event: press_and_release() },
        ]
    );
    assert!(d.keys_pressed.is_empty());
}

#[test]
fn held_key_is_pressed_then_released() {
    let mut d = DisplayState::new();
    d.key_pressed(0x61, 38, false);
    let a = d.key_timeout();
    assert_eq!(
        a,
        vec![
            InputAction::EmitKey { keyval: 0x61, keycode: 38, event: KeyEvent::press() },
            InputAction::CancelKeyTimeout,
        ]
    );
    assert_eq!(d.keys_pressed, vec![(0x61, 38)]);
    let a = d.key_released(0x61, 38);
    assert_eq!(a, vec![InputAction::EmitKey { keyval: 0x61, keycode: 38, event: KeyEvent::release() }]);
    assert!(d.keys_pressed.is_empty());
}

#[test]
fn second_press_flushes_the_first() {
    let mut d = DisplayState::new();
    d.key_pressed(1, 10, false);
    let a = d.key_pressed(2, 20, false);
    assert_eq!(
        a,
        vec![
            InputAction::EmitKey { keyval: 1, keycode: 10, event: KeyEvent::press() },
            InputAction::CancelKeyTimeout,
            InputAction::StartKeyTimeout { delay_ms: 100 },
        ]
    );
}

#[test]
fn shortcut_release_toggles_the_grab() {
    let mut d = DisplayState::new();
    d.key_pressed(0xffe9, 64, true);
    let a = d.key_released(0xffe9, 64);
    assert_eq!(a[0], InputAction::TryGrab);
}

#[test]
fn read_only_display_emits_no_key() {
    let mut d = DisplayState::new();
    assert!(d.set_read_only(true, true).changed);
    d.key_pressed(1, 10, false);
    let a = d.key_released(1, 10);
    assert!(!a.iter().any(|x| matches!(x, InputAction::EmitKey { .. })));
}

#[test]
fn focus_leave_releases_pressed_keys() {
    let mut d = DisplayState::new();
    d.key_pressed(1, 10, false);
    d.key_timeout();
    d.key_pressed(2, 20, false);
    d.key_timeout();
    let a = d.focus_leave();
    assert_eq!(
        a,
        vec![
            InputAction::EmitKey { keyval: 1, keycode: 10, event: KeyEvent::release() },
            InputAction::EmitKey { keyval: 2, keycode: 20, event: KeyEvent::release() },
        ]
    );
    assert!(d.keys_pressed.is_empty());
}

#[test]
fn send_keys_presses_in_order_and_releases_in_reverse() {
    let d = DisplayState::new();
    let a = d.send_keys(&vec![(0xffe3, vec![37]), (0x63, vec![54])]);
    assert_eq!(
        a,
        vec![
            InputAction::EmitKey { keyval: 0xffe3, keycode: 37, event: KeyEvent::press() },
            InputAction::EmitKey { keyval: 0x63, keycode: 54, event: KeyEvent::press() },
            InputAction::EmitKey { keyval: 0x63, keycode: 54, event: KeyEvent::release() },
            InputAction::EmitKey { keyval: 0xffe3, keycode: 37, event: KeyEvent::release() },
        ]
    );
}

#[test]
fn grabs_and_cursor() {
    let mut d = DisplayState::new();
    assert_eq!(d.cursor_choice(), CursorChoice::Unset);
    assert_eq!(d.keyboard_grab_step(true), GrabStep::Acquire);
    assert_eq!(d.keyboard_grab_step(false), GrabStep::Unavailable);
    assert_eq!(d.mouse_grab_step(), GrabStep::Acquire);
    let g = d.finish_try_grab(true, true);
    assert_eq!(g, Grab::all());
    assert_eq!(d.cursor_choice(), CursorChoice::Hidden);
    assert_eq!(d.keyboard_grab_step(true), GrabStep::Already);
    assert!(d.ungrab_keyboard(true));
    assert_eq!(d.ungrab_mouse(), Some(true));
    assert!(d.grabbed.is_empty());
}

#[test]
fn entering_read_only_releases_the_grabs() {
    let mut d = DisplayState::new();
    assert_eq!(d.try_grab(true, true), Grab::all());
    assert_eq!(
        d.set_read_only(true, true),
        ReadOnlyChange { changed: true, keyboard_released: true, mouse_released: Some(true) }
    );
    assert!(d.grabbed.is_empty());
    assert_eq!(
        d.set_read_only(true, true),
        ReadOnlyChange { changed: false, keyboard_released: false, mouse_released: None }
    );
    let mut d = DisplayState::new();
    d.try_grab(true, true);
    let r = d.set_read_only(true, false);
    assert!(!r.keyboard_released);
    assert_eq!(r.mouse_released, Some(true));
    assert_eq!(d.grabbed, Grab::keyboard());
    assert_eq!(
        d.set_read_only(false, true),
        ReadOnlyChange { changed: true, keyboard_released: false, mouse_released: None }
    );
    assert_eq!(d.grabbed, Grab::keyboard());
}

#[test]
fn try_grab_takes_what_is_available() {
    let mut d = DisplayState::new();
    assert_eq!(d.try_grab(false, false), Grab::empty());
    assert_eq!(d.try_grab(true, false), Grab::keyboard());
    assert_eq!(d.try_grab(false, true), Grab::all());
    assert_eq!(d.grabbed, Grab::all());
    let mut d = DisplayState::new();
    d.set_mouse_absolute(true);
    assert_eq!(d.try_grab(true, true), Grab::keyboard());
}

#[test]
fn read_only_display_sends_no_pointer_input() {
    let mut d = DisplayState::new();
    assert_eq!(d.pointer_input(PointerInput::Press(1)), Some(PointerInput::Press(1)));
    d.set_read_only(true, false);
    assert_eq!(d.pointer_input(PointerInput::ScrollDiscrete(Scroll::Up)), None);
    assert_eq!(d.pointer_input(PointerInput::Motion(1, 2)), None);
}

#[test]
fn client_cursor_drawn_only_when_grabbed_in_relative_mode() {
    let mut d = DisplayState::new();
    d.set_cursor_position(Some((3, 4)));
    assert!(!d.cursor_drawn(true));
    d.try_grab(false, true);
    assert!(d.cursor_drawn(true));
    assert!(!d.cursor_drawn(false));
    d.set_cursor_position(None);
    assert!(!d.cursor_drawn(true));
}

#[test]
fn absolute_mouse_is_never_grabbed() {
    let mut d = DisplayState::new();
    d.set_mouse_absolute(true);
    assert_eq!(d.mouse_grab_step(), GrabStep::Unavailable);
    assert_eq!(d.cursor_choice(), CursorChoice::Defined);
}

#[test]
fn resize_requests_are_not_repeated() {
    let mut d = DisplayState::new();
    assert!(d.resize_request(800, 600, 0, 0));
    assert!(!d.resize_request(800, 600, 0, 0));
    assert!(d.resize_request(800, 601, 0, 0));
}

#[test]
fn scaling_off_pins_the_size() {
    let mut d = DisplayState::new();
    assert_eq!(d.set_scaling(true, None, 1), ScalingChange::Unchanged);
    assert_eq!(d.set_scaling(false, Some((1600, 1200)), 2), ScalingChange::Fixed(800, 600));
    assert_eq!(d.set_scaling(true, None, 1), ScalingChange::Unconstrained);
    assert_eq!(d.set_scaling(false, None, 1), ScalingChange::Kept);
}

#[test]
fn allocation_resize_in_device_pixels_and_millimeters() {
    assert_eq!(allocation_resize_request(800, 600, 2, None), (1600, 1200, 0, 0));
    assert_eq!(
        allocation_resize_request(960, 540, 2, Some((600, 340, 3840, 2160))),
        (1920, 1080, 300, 170)
    );
}

#[test]
fn cursor_geometry_scales() {
    assert_eq!(cursor_geometry(16, 16, 2, 3, 2), (64, 32, 32, 4, 6));
}

#[test]
fn paintable_update_copies_rows() {
    let mut p = Paintable::new();
    assert!(p.set_size(2, 2));
    assert!(!p.set_size(2, 2));
    assert_eq!(p.buffer.len(), 16);
    assert_eq!(p.size(), (2, 2));
    let data: Vec<u8> = (1..=8).collect();
    let area = p.update_area(1, 0, 1, 2, 4, Some(&data));
    assert_eq!(area, (1, 0, 1, 2));
    assert_eq!(p.buffer, vec![0, 0, 0, 0, 1, 2, 3, 4, 0, 0, 0, 0, 5, 6, 7, 8]);
    assert_eq!(&p.buffer[4..8], &[1, 2, 3, 4]);
    assert_eq!(&p.buffer[12..16], &[5, 6, 7, 8]);
    assert_eq!(&p.buffer[0..4], &[0, 0, 0, 0]);
    let area = p.update_area(1, 1, 5, 5, 4, None);
    assert_eq!(area, (1, 1, 1, 1));
}

#[test]
fn full_update_replaces_the_buffer() {
    let mut p = Paintable::new();
    p.set_size(2, 1);
    let data = [1u8, 2, 3, 4, 5, 6, 7, 8];
    assert_eq!(p.update_area(0, 0, 2, 1, 8, Some(&data)), (0, 0, 2, 1));
    assert_eq!(p.buffer, data.to_vec());
}

#[test]
fn paintable_sizes_and_formats() {
    let mut p = Paintable::new();
    assert_eq!(p.size(), (0, 0));
    assert!(p.set_display_size(Some((3, 2))));
    assert!(!p.set_display_size(Some((3, 2))));
    assert_eq!(p.display_size(), Some((3, 2)));
    assert!(p.set_display_size(None));
    assert_eq!(p.display_size(), None);
    assert!(!p.set_display_size(None));
    assert!(p.set_display_size(Some((0, 5))));
    assert_eq!(p.display_size(), None);
    assert_eq!(Paintable::new().display_size(), None);
    assert!(p.set_display_size(Some((3, 2))));
    assert_eq!(p.intrinsic_width(), 3);
    assert!(p.set_pixel_format(PixelFormat::Rgba));
    assert!(!p.set_pixel_format(PixelFormat::Rgba));
    assert_eq!(memory_format(PixelFormat::Rgba), MemoryFormat::R8g8b8a8Premultiplied);
    assert_eq!(memory_format(PixelFormat::Bgrx), MemoryFormat::B8g8r8x8);
    assert_eq!(display_size_from_raw(0, 5), None);
    assert_eq!(display_size_from_raw(4, 5), Some((4, 5)));
    assert_eq!(cursor_position_from_raw(false, 1, 2), None);
    assert_eq!(cursor_position_from_raw(true, 1, 2), Some((1, 2)));
    assert_eq!(update_data_len(3, 16), 48);
    assert_eq!(picture_measure_base(0, 800, 600), None);
    assert_eq!(picture_measure_base(100, 800, 100), Some((800, 480)));
    assert_eq!(picture_measure_base(100, 10, 900), Some((640, 900)));
}

#[test]
fn flags_and_scroll_values() {
    assert_eq!(Scroll::from_glib(2), Scroll::Left);
    assert_eq!(Scroll::Right.into_glib(), 3);
    assert_eq!(Scroll::from_glib(42).into_glib(), 42);
    assert_eq!(Grab::from_bits(3), Some(Grab::all()));
    assert_eq!(Grab::from_bits(4), None);
    assert_eq!(Grab::from_bits_truncate(7), Grab::all());
    let mut g = Grab::empty();
    g.insert(Grab::mouse());
    assert!(g.contains(Grab::mouse()));
    assert!(!g.contains(Grab::keyboard()));
    g.remove(Grab::mouse());
    assert!(g.is_empty());
    assert_eq!(Grab::default(), Grab::empty());
    assert_eq!(KeyEvent::press().union(KeyEvent::release()).bits(), 3);
    assert_eq!(KeyEvent::from_bits(8), None);
}
