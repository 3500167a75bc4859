use rdw::enums::{KeyEvent, Scroll};
use rdw::spice::{
    button_number, clipboard_from_selection, clipboard_grab_mimes, clipboard_request_reply,
    clipboard_selection_data, format_from_mime, format_from_number, format_number,
    invalidate_range, key_event as spice_key_event, local_grab_types, mime_from_format,
    monitor_display_size, mouse_absolute, Selection, SpiceClipboardFormat, SpiceKeyAction,
    SpiceMouseButton, SpicePointer,
};
use rdw::vnc::{
    choose_auth, key_event as vnc_key_event, preferred_encodings, resize_request, Framebuffer,
    PointerEvent, VncAuth, VncEncoding, VncKeyEvent, VncPointer,
};

#[test]
fn auth_prefers_tls_types() {
    assert_eq!(choose_auth(&[VncAuth::Vnc, VncAuth::Tls, VncAuth::Vencrypt]), Some(VncAuth::Vencrypt));
    assert_eq!(choose_auth(&[VncAuth::Open, VncAuth::Vnc]), Some(VncAuth::Vnc));
    assert_eq!(choose_auth(&[VncAuth::Open]), Some(VncAuth::Open));
    assert_eq!(choose_auth(&[VncAuth::Ra2, VncAuth::Tight]), None);
    assert_eq!(choose_auth(&[]), None);
}

#[test]
fn encodings_depend_on_jpeg_and_keymap() {
    let all = preferred_encodings(true, true, false);
    assert_eq!(all.len(), 20);
    assert_eq!(all[0], VncEncoding::TightJpeg5);
    assert_eq!(all[19], VncEncoding::Raw);
    let lossless = preferred_encodings(true, false, false);
    assert_eq!(lossless.len(), 19);
    assert_eq!(lossless[0], VncEncoding::Tight);
    let no_jpeg = preferred_encodings(false, true, true);
    assert_eq!(no_jpeg.len(), 17);
    assert_eq!(no_jpeg[0], VncEncoding::Xvp);
    assert!(!no_jpeg.contains(&VncEncoding::ExtKeyEvent));
    assert!(!no_jpeg.contains(&VncEncoding::Tight));
}

#[test]
fn vnc_pointer_motion_in_both_modes() {
    let mut p = VncPointer::new();
    assert_eq!(p.motion(10, 20), Some(PointerEvent { button_mask: 0, x: 10, y: 20 }));
    assert_eq!(p.motion_relative(5, -5), None);
    p.set_mouse_absolute(false);
    assert_eq!(p.motion(11, 21), None);
    assert_eq!(p.last_motion, Some((11, 21)));
    assert_eq!(p.motion_relative(5, -5), Some(PointerEvent { button_mask: 0, x: 0x7fff + 5, y: 0x7fff - 5 }));
}

#[test]
fn vnc_buttons_build_the_mask() {
    let mut p = VncPointer::new();
    let press = p.mouse_click(true, 1).unwrap();
    assert_eq!(press, PointerEvent { button_mask: 1, x: 0, y: 0 });
    p.motion(3, 4);
    let press3 = p.mouse_click(true, 3).unwrap();
    assert_eq!(press3, PointerEvent { button_mask: 5, x: 3, y: 4 });
    let release = p.mouse_click(false, 1).unwrap();
    assert_eq!(release.button_mask, 4);
    assert_eq!(p.mouse_click(true, 4), None);
    assert_eq!(p.last_button_mask(), 4);
    p.set_mouse_absolute(false);
    let e = p.button_event(true, 2);
    assert_eq!((e.x, e.y, e.button_mask), (0x7fff, 0x7fff, 6));
}

#[test]
fn vnc_scroll_clicks_wheel_buttons() {
    let mut p = VncPointer::new();
    let v = p.scroll(Scroll::Up);
    assert_eq!(v.len(), 2);
    assert_eq!(v[0].button_mask, 8);
    assert_eq!(v[1].button_mask, 0);
    let v = p.scroll(Scroll::Right);
    assert_eq!(v[0].button_mask, 64);
    assert!(p.scroll(Scroll::__Unknown(9)).is_empty());
}

#[test]
fn vnc_keys_need_a_key_number() {
    let keymap = [0u16, 0x10, 0x11];
    let both = KeyEvent::press().union(KeyEvent::release());
    assert_eq!(
        vnc_key_event(&keymap, 0x61, 2, both),
        vec![
            VncKeyEvent { press: true, keyval: 0x61, qnum: 0x11 },
            VncKeyEvent { press: false, keyval: 0x61, qnum: 0x11 },
        ]
    );
    assert_eq!(vnc_key_event(&keymap, 0x61, 1, KeyEvent::release()), vec![VncKeyEvent {
        press: false,
        keyval: 0x61,
        qnum: 0x10
    }]);
    assert!(vnc_key_event(&keymap, 0x61, 7, both).is_empty());
}

#[test]
fn vnc_resize_in_scaled_units() {
    assert_eq!(resize_request(1920, 1080, 2), (960, 540));
    assert_eq!(resize_request(801, 601, 1), (801, 601));
}

#[test]
fn framebuffer_sub_area() {
    let mut fb = Framebuffer::new(4, 3);
    assert_eq!(fb.buffer.len(), 48);
    assert_eq!(fb.rowstride(), 16);
    for (i, b) in fb.buffer.iter_mut().enumerate() {
        *b = i as u8;
    }
    let sub = fb.get_sub(1, 1, 2, 2);
    assert_eq!(sub.len(), (1 + 2 + 2 * 4 - (1 + 4)) * 4);
    assert_eq!(sub[0], 20);
    assert_eq!(*sub.last().unwrap(), 43);
}

#[test]
fn spice_buttons_and_state() {
    let mut p = SpicePointer::new();
    let e = p.mouse_click(true, 1).unwrap();
    assert_eq!((e.button, e.button_state, e.press), (1, 1, true));
    let e = p.mouse_click(true, 3).unwrap();
    assert_eq!((e.button, e.button_state), (3, 5));
    let e = p.mouse_click(false, 1).unwrap();
    assert_eq!(e.button_state, 4);
    assert!(p.mouse_click(true, 8).is_none());
    assert_eq!(p.last_button_state(), 4);
    assert_eq!(button_number(SpiceMouseButton::Down), 5);
}

#[test]
fn spice_scroll_has_up_and_down() {
    let mut p = SpicePointer::new();
    let v = p.scroll(Scroll::Down);
    assert_eq!(v.len(), 2);
    assert_eq!((v[0].button, v[0].button_state), (5, 16));
    assert_eq!((v[1].button, v[1].button_state), (5, 0));
    assert!(p.scroll(Scroll::Left).is_empty());
}

#[test]
fn spice_key_actions() {
    let keymap = [0u16, 0x1e];
    let both = KeyEvent::press().union(KeyEvent::release());
    assert_eq!(spice_key_event(&keymap, 1, both), Some(SpiceKeyAction::PressAndRelease(0x1e)));
    assert_eq!(spice_key_event(&keymap, 1, KeyEvent::press()), Some(SpiceKeyAction::Press(0x1e)));
    assert_eq!(spice_key_event(&keymap, 1, KeyEvent::release()), Some(SpiceKeyAction::Release(0x1e)));
    assert_eq!(spice_key_event(&keymap, 1, KeyEvent::empty()), None);
    assert_eq!(spice_key_event(&keymap, 2, both), None);
}

#[test]
fn spice_mouse_mode() {
    assert!(mouse_absolute(2));
    assert!(mouse_absolute(3));
    assert!(!mouse_absolute(1));
}

#[test]
fn spice_clipboard_formats() {
    assert_eq!(mime_from_format(SpiceClipboardFormat::Utf8), "text/plain;charset=utf-8");
    assert_eq!(mime_from_format(SpiceClipboardFormat::FileList), "text/uri-list");
    assert_eq!(format_from_mime("text/plain"), Some(SpiceClipboardFormat::Utf8));
    assert_eq!(format_from_mime("text/plain;charset=utf-8"), Some(SpiceClipboardFormat::Utf8));
    assert_eq!(format_from_mime("image/png"), None);
    assert_eq!(format_number(SpiceClipboardFormat::Jpg), 5);
    assert_eq!(format_from_number(2), Some(SpiceClipboardFormat::Png));
    assert_eq!(format_from_number(0), None);
    assert_eq!(clipboard_from_selection(0), Some(Selection::Clipboard));
    assert_eq!(clipboard_from_selection(1), Some(Selection::Primary));
    assert_eq!(clipboard_from_selection(2), None);
}

#[test]
fn spice_clipboard_grab() {
    assert_eq!(clipboard_grab_mimes(&[1, 9, 3]), vec!["text/plain;charset=utf-8", "image/bmp"]);
    let mimes: Vec<String> = ["text/plain", "image/png", "text/plain;charset=utf-8"]
        .iter()
        .map(|s| s.to_string())
        .collect();
    assert_eq!(local_grab_types(&mimes), vec![1]);
    assert!(local_grab_types(&["image/png".to_string()]).is_empty());
}

#[test]
fn spice_clipboard_data_and_requests() {
    let mut pending = Some(SpiceClipboardFormat::Utf8);
    assert!(clipboard_selection_data(&mut pending, 1));
    assert!(pending.is_none());
    let mut pending = Some(SpiceClipboardFormat::Utf8);
    assert!(!clipboard_selection_data(&mut pending, 2));
    assert!(pending.is_none());
    assert!(!clipboard_selection_data(&mut pending, 1));
    assert_eq!(clipboard_request_reply(Some(("text/plain", vec![1, 2]))), (1, vec![1, 2]));
    assert_eq!(clipboard_request_reply(Some(("image/png", vec![1, 2]))), (0, vec![]));
    assert_eq!(clipboard_request_reply(None), (0, vec![]));
}

#[test]
fn spice_monitor_and_invalidate() {
    assert_eq!(monitor_display_size((0, 0, 800, 600)), Some((800, 600)));
    assert_eq!(monitor_display_size((10, 0, 800, 600)), None);
    assert_eq!(invalidate_range(Some((0, 0, 800, 600)), true, 3200, 2, 3, 4, 5), Some((2 * 4 + 3 * 3200, 6 * 4 + 7 * 3200)));
    assert_eq!(invalidate_range(None, true, 3200, 2, 3, 4, 5), None);
    assert_eq!(invalidate_range(Some((1, 0, 800, 600)), true, 3200, 2, 3, 4, 5), None);
    assert_eq!(invalidate_range(Some((0, 0, 800, 600)), false, 3200, 2, 3, 4, 5), None);
}
