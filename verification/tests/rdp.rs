use rdw::enums::KeyEvent;
use rdw::paintable::PixelFormat;
use rdw::rdp::cliprdr::{
    rdp_clipboard_format, rdp_clipboard_formats, rdp_clipboard_mime, rdp_clipboard_mime_from_id,
    same_format, CbBackend, ClipboardFormat, ClipboardMessage, PasteProgress, CF_DIB, CF_DIBV5,
    CF_OEMTEXT, CF_TEXT, CF_UNICODETEXT,
};
use rdw::rdp::ffi::RdpPerformanceFlags;
use rdw::rdp::input::{
    gdk_button_to_pointer_flags, rdp_key_event, rdp_motion, rdp_mouse_press, rdp_mouse_release,
    rdp_scroll, FastPathInputEvent, MousePdu, KBD_FLAGS_EXTENDED, KBD_FLAGS_RELEASE, PTR_FLAGS_DOWN,
    PTR_FLAGS_HORIZONTAL_WHEEL, PTR_FLAGS_LEFT_BUTTON, PTR_FLAGS_MIDDLE_BUTTON_OR_WHEEL,
    PTR_FLAGS_MOVE, PTR_FLAGS_RIGHT_BUTTON, PTR_FLAGS_VERTICAL_WHEEL,
};
use rdw::rdp::session::{
    clipboard_step, output_step, session_step, OutputAction, SessionAction, SessionEvent,
    StageOutput,
    adjusted_display_size, after_session, reconnect_with_size, clipboard_send_initiate_copy, cliprdr_handle_message, content_provider_write,
    key_input, major_platform_type, rdp_connect_config, paintable_pixel_format, paste_reply, rdp_clipboard, rdp_config,
    resize_event, ClipboardAction, Platform, RdpConnection, Error, RdpInputEvent,
    RdpPixelFormat, SessionEnd,
};
use rdw::rdp::snd::{format_to_caps, AudioFormat, RdwSndBackend, WaveFormat, WaveStart};
use rdw::rdp::util::{string_from_utf16, utf16_from_utf8};

fn text_format() -> ClipboardFormat {
    ClipboardFormat { id: CF_UNICODETEXT, name: None }
}

#[test]
fn utf16_text_decodes_little_endian_units() {
    let data = [0x68u8, 0x00, 0x69, 0x00];
    assert_eq!(string_from_utf16(&data).unwrap(), "hi");
    let surrogate = [0x3Du8, 0xD8, 0x00, 0xDE];
    assert_eq!(string_from_utf16(&surrogate).unwrap(), "\u{1F600}");
    let odd = [0x41u8, 0x00, 0x42];
    assert_eq!(string_from_utf16(&odd).unwrap(), "A");
}

#[test]
fn utf16_unpaired_surrogate_is_an_error() {
    let data = [0x00u8, 0xD8, 0x41, 0x00];
    assert!(string_from_utf16(&data).is_err());
}

#[test]
fn utf8_text_becomes_utf16_with_a_zero_byte() {
    assert_eq!(utf16_from_utf8(b"hi").unwrap(), vec![0x68, 0x00, 0x69, 0x00, 0x00]);
    assert_eq!(
        utf16_from_utf8("\u{1F600}".as_bytes()).unwrap(),
        vec![0x3D, 0xD8, 0x00, 0xDE, 0x00]
    );
    assert_eq!(utf16_from_utf8(b"").unwrap(), vec![0x00]);
    assert_eq!(utf16_from_utf8(&[0xff, 0xfe]).unwrap_err().valid_up_to(), 0);
    assert_eq!(utf16_from_utf8(&[0x61, 0xff]).unwrap_err().valid_up_to(), 1);
    assert_eq!(utf16_from_utf8(&[0x61, 0xff]).unwrap_err().error_len(), Some(1));
    assert_eq!(utf16_from_utf8(&[0x61, 0xe2, 0x82]).unwrap_err().error_len(), None);
    assert_eq!(utf16_from_utf8(&[0x61, 0x62, 0xe2, 0x82]).unwrap_err().valid_up_to(), 2);
}

#[test]
fn clipboard_text_round_trip() {
    let text = "h\u{e9}llo \u{1F600}";
    let bytes = utf16_from_utf8(text.as_bytes()).unwrap();
    assert_eq!(string_from_utf16(&bytes).unwrap(), text);
}

#[test]
fn text_mime_types_map_to_unicode_text() {
    for mime in ["text/plain", "text/plain;charset=utf-8", "UTF8_STRING", "TEXT", "STRING"] {
        let f = rdp_clipboard_format(mime);
        assert_eq!(f.id, CF_UNICODETEXT);
        assert!(f.name.is_none());
    }
}

#[test]
fn other_mime_types_are_named_formats() {
    let f = rdp_clipboard_format("image/png");
    assert_eq!(f.id, 0);
    assert_eq!(f.name.as_deref(), Some("image/png"));
}

#[test]
fn clipboard_formats_drop_adjacent_repeats_only() {
    let mimes: Vec<String> = ["text/plain", "UTF8_STRING", "image/png", "image/png", "TEXT"]
        .iter()
        .map(|s| s.to_string())
        .collect();
    let f = rdp_clipboard_formats(&mimes);
    assert_eq!(f.len(), 3);
    assert!(same_format(&f[0], &text_format()));
    assert_eq!(f[1].id, 0);
    assert_eq!(f[1].name.as_deref(), Some("image/png"));
    assert!(same_format(&f[2], &text_format()));
    assert!(rdp_clipboard_formats(&[]).is_empty());
}

#[test]
fn format_ids_map_to_mime_types() {
    for id in [CF_TEXT, CF_OEMTEXT, CF_UNICODETEXT] {
        assert_eq!(rdp_clipboard_mime_from_id(id), Some("text/plain;charset=utf-8"));
    }
    for id in [CF_DIB, CF_DIBV5] {
        assert_eq!(rdp_clipboard_mime_from_id(id), Some("image/bmp"));
    }
    assert_eq!(rdp_clipboard_mime_from_id(2), None);
    assert_eq!(rdp_clipboard_mime(&text_format()), Some("text/plain;charset=utf-8"));
}

#[test]
fn format_data_response_needs_a_pending_paste() {
    let mut be = CbBackend::new();
    assert!(!be.ready);
    be.on_ready();
    assert!(be.ready);
    assert_eq!(be.temporary_directory(), ".cliprdr");
    let mut paste = PasteProgress::new();
    assert!(be.on_format_data_response(&mut paste, &[1, 2, 3]).is_none());
}

#[test]
fn format_data_response_converts_unicode_text() {
    let be = CbBackend::new();
    let mut paste = PasteProgress::new();
    paste.set(CF_UNICODETEXT);
    assert!(paste.is_some());
    let out = be.on_format_data_response(&mut paste, &[0x68, 0x00, 0x69, 0x00, 0x00, 0x00]);
    assert_eq!(out, Some(b"hi\0".to_vec()));
    assert!(!paste.is_some());
    paste.set(CF_UNICODETEXT);
    assert_eq!(be.on_format_data_response(&mut paste, &[0x00, 0xD8]), None);
    assert!(paste.pending.is_none());
}

#[test]
fn format_data_response_passes_other_formats() {
    let be = CbBackend::new();
    let mut paste = PasteProgress::new();
    paste.set(CF_DIB);
    assert_eq!(be.on_format_data_response(&mut paste, &[9, 8, 7]), Some(vec![9, 8, 7]));
    assert_eq!(paste.take(), None);
    paste.set(CF_DIB);
    assert_eq!(paste.take(), Some(CF_DIB));
}

#[test]
fn remote_copy_and_paste_requests_are_forwarded() {
    let be = CbBackend::new();
    match be.on_remote_copy(&[text_format()]) {
        ClipboardMessage::SendInitiateCopy(v) => {
            assert_eq!(v.len(), 1);
            assert!(same_format(&v[0], &text_format()));
        }
        _ => panic!("expected a copy"),
    }
    assert!(matches!(be.on_format_data_request(13), ClipboardMessage::SendInitiatePaste(13)));
}

#[test]
fn motion_is_a_move_event() {
    assert_eq!(
        rdp_motion(10, 20),
        vec![FastPathInputEvent::MouseEvent(MousePdu {
            flags: PTR_FLAGS_MOVE,
            number_of_wheel_rotation_units: 0,
            x_position: 10,
            y_position: 20,
        })]
    );
}

#[test]
fn buttons_press_with_down_flag() {
    assert_eq!(gdk_button_to_pointer_flags(1), Some(PTR_FLAGS_LEFT_BUTTON));
    assert_eq!(gdk_button_to_pointer_flags(2), Some(PTR_FLAGS_MIDDLE_BUTTON_OR_WHEEL));
    assert_eq!(gdk_button_to_pointer_flags(3), Some(PTR_FLAGS_RIGHT_BUTTON));
    assert_eq!(gdk_button_to_pointer_flags(8), None);
    let press = rdp_mouse_press(1, 2, 1);
    assert_eq!(
        press,
        vec![FastPathInputEvent::MouseEvent(MousePdu {
            flags: PTR_FLAGS_DOWN | PTR_FLAGS_LEFT_BUTTON,
            number_of_wheel_rotation_units: 0,
            x_position: 1,
            y_position: 2,
        })]
    );
    let release = rdp_mouse_release(1, 2, 1);
    assert_eq!(
        release,
        vec![FastPathInputEvent::MouseEvent(MousePdu {
            flags: PTR_FLAGS_LEFT_BUTTON,
            number_of_wheel_rotation_units: 0,
            x_position: 1,
            y_position: 2,
        })]
    );
    assert!(rdp_mouse_press(1, 2, 9).is_empty());
    assert!(rdp_mouse_release(1, 2, 9).is_empty());
}

#[test]
fn key_events_follow_the_flags() {
    let both = KeyEvent::press().union(KeyEvent::release());
    assert_eq!(
        rdp_key_event(0x11c, both),
        vec![
            FastPathInputEvent::KeyboardEvent(KBD_FLAGS_EXTENDED, 0x1c),
            FastPathInputEvent::KeyboardEvent(KBD_FLAGS_EXTENDED | KBD_FLAGS_RELEASE, 0x1c),
        ]
    );
    assert_eq!(
        rdp_key_event(0x1e, KeyEvent::release()),
        vec![FastPathInputEvent::KeyboardEvent(KBD_FLAGS_RELEASE, 0x1e)]
    );
    assert!(rdp_key_event(0x1e, KeyEvent::empty()).is_empty());
}

#[test]
fn scroll_sends_horizontal_then_vertical() {
    let v = rdp_scroll(2, -3, 5, 6);
    assert_eq!(
        v,
        vec![
            FastPathInputEvent::MouseEvent(MousePdu {
                flags: PTR_FLAGS_HORIZONTAL_WHEEL,
                number_of_wheel_rotation_units: -2,
                x_position: 5,
                y_position: 6,
            }),
            FastPathInputEvent::MouseEvent(MousePdu {
                flags: PTR_FLAGS_VERTICAL_WHEEL,
                number_of_wheel_rotation_units: -3,
                x_position: 5,
                y_position: 6,
            }),
        ]
    );
    assert!(rdp_scroll(0, 0, 1, 1).is_empty());
}

#[test]
fn performance_flags_have_their_bits() {
    assert_eq!(RdpPerformanceFlags::DisableWallpaper.bits(), 0x01);
    assert_eq!(RdpPerformanceFlags::EnableDesktopComposition.bits(), 0x100);
}

#[test]
fn error_messages() {
    assert_eq!(Error::AlreadyConnected.message(), "Already connected");
    assert_eq!(Error::Io("boom".to_string()).message(), "IO error: boom");
    assert_eq!(Error::Other("x".to_string()).message(), "Other error: x");
    assert_eq!(Error::Session("s".to_string()).message(), "Session error: s");
}

#[test]
fn pixel_formats_of_the_session() {
    assert_eq!(paintable_pixel_format(RdpPixelFormat::BgrX32), PixelFormat::Bgra);
    assert_eq!(paintable_pixel_format(RdpPixelFormat::RgbA32), PixelFormat::Rgba);
    assert_eq!(paintable_pixel_format(RdpPixelFormat::RgbX32), PixelFormat::Rgba);
    assert_eq!(paintable_pixel_format(RdpPixelFormat::XRgb32), PixelFormat::Bgra);
}

#[test]
fn connection_settings() {
    let c = rdp_config("user", "pw", None, Platform::Linux);
    assert_eq!(c.username, "user");
    assert_eq!(c.password, "pw");
    assert_eq!(c.client_name, "ironrdp");
    assert_eq!(c.client_dir, "C:\\Windows\\System32\\mstscax.dll");
    assert_eq!((c.desktop_width, c.desktop_height), (1920, 1080));
    assert_eq!(c.keyboard_functional_keys_count, 12);
    assert_eq!(c.platform, 4);
    assert!(c.enable_tls && c.enable_credssp && c.autologon && c.enable_audio_playback);
    let c = rdp_config("u", "p", Some("host".to_string()), Platform::Windows);
    assert_eq!(c.client_name, "host");
    assert_eq!(major_platform_type(Platform::Windows), 1);
    assert_eq!(major_platform_type(Platform::Mac), 3);
    assert_eq!(major_platform_type(Platform::Android), 7);
    assert_eq!(major_platform_type(Platform::Other), 0);
}

#[test]
fn connection_settings_of_this_host() {
    let c = rdp_connect_config("me", "secret");
    assert_eq!(c.username, "me");
    assert_eq!(c.password, "secret");
    assert_eq!((c.desktop_width, c.desktop_height), (1920, 1080));
    assert!(!c.client_name.is_empty());
    assert!([0u16, 1, 3, 4, 5, 7].contains(&c.platform));
}

#[test]
fn second_connect_is_refused() {
    let mut c = RdpConnection::new();
    assert!(c.connect().is_ok());
    assert!(matches!(c.connect(), Err(Error::AlreadyConnected)));
    assert_eq!(c.on_connected(), (true, true));
    assert_eq!(c.on_connected(), (false, false));
    assert_eq!(c.on_terminated(false), (false, true));
    assert!(c.disconnect());
    assert!(!c.disconnect());
    assert!(c.connect().is_ok());
}

#[test]
fn failed_session_fails_the_waiting_connection() {
    let mut c = RdpConnection::new();
    c.connect().unwrap();
    assert_eq!(c.on_terminated(true), (true, false));
    assert!(!c.waiting);
    assert!(!c.set_connected(false));
    assert!(c.set_connected(true));
}

#[test]
fn key_input_needs_a_scancode() {
    let keymap = [0u16, 0x1e, 0x11c];
    match key_input(&keymap, 1, KeyEvent::press()) {
        Some(RdpInputEvent::FastPath(v)) => {
            assert_eq!(v, vec![FastPathInputEvent::KeyboardEvent(0, 0x1e)])
        }
        _ => panic!("expected key events"),
    }
    assert!(key_input(&keymap, 3, KeyEvent::press()).is_none());
}

#[test]
fn resize_event_scales_the_factor() {
    match resize_event(800, 600, 200, 150, 2) {
        RdpInputEvent::Resize { width, height, scale_factor, physical_size } => {
            assert_eq!((width, height, scale_factor, physical_size), (800, 600, 200, Some((200, 150))));
        }
        _ => panic!("expected a resize"),
    }
}

#[test]
fn local_clipboard_copy_decisions() {
    let mimes = vec!["text/plain".to_string()];
    assert!(clipboard_send_initiate_copy(false, true, &mimes).is_none());
    match clipboard_send_initiate_copy(true, true, &mimes) {
        Some(RdpInputEvent::ClipboardResponseInitialCopy(f)) => assert!(f.is_empty()),
        _ => panic!("expected an empty answer"),
    }
    match clipboard_send_initiate_copy(false, false, &mimes) {
        Some(RdpInputEvent::Clipboard(ClipboardMessage::SendInitiateCopy(f))) => {
            assert_eq!(f.len(), 1);
            assert_eq!(f[0].id, CF_UNICODETEXT);
        }
        _ => panic!("expected a copy"),
    }
}

#[test]
fn server_clipboard_messages() {
    let copy = ClipboardMessage::SendInitiateCopy(vec![
        text_format(),
        ClipboardFormat { id: 0, name: Some("x".to_string()) },
        ClipboardFormat { id: CF_DIB, name: None },
    ]);
    assert!(matches!(rdp_clipboard(true, false, &copy), ClipboardAction::Ignore));
    assert!(matches!(rdp_clipboard(false, true, &copy), ClipboardAction::Ignore));
    match rdp_clipboard(false, false, &copy) {
        ClipboardAction::Offer(m) => assert_eq!(m, vec!["text/plain;charset=utf-8", "image/bmp"]),
        _ => panic!("expected an offer"),
    }
    match rdp_clipboard(false, false, &ClipboardMessage::SendInitiatePaste(CF_UNICODETEXT)) {
        ClipboardAction::Paste { format, mime } => {
            assert_eq!(format, CF_UNICODETEXT);
            assert_eq!(mime, Some("text/plain;charset=utf-8"));
        }
        _ => panic!("expected a paste"),
    }
    assert!(matches!(
        rdp_clipboard(false, false, &ClipboardMessage::Error("e".to_string())),
        ClipboardAction::Ignore
    ));
}

#[test]
fn local_paste_sets_the_pending_format() {
    let mut paste = PasteProgress::new();
    match content_provider_write(&mut paste, "text/plain") {
        RdpInputEvent::Clipboard(ClipboardMessage::SendInitiatePaste(f)) => assert_eq!(f, CF_UNICODETEXT),
        _ => panic!("expected a paste request"),
    }
    assert_eq!(paste.pending, Some(CF_UNICODETEXT));
    content_provider_write(&mut paste, "image/png");
    assert_eq!(paste.pending, Some(0));
}

#[test]
fn paste_reply_converts_text() {
    match paste_reply(CF_UNICODETEXT, Some(b"A")) {
        ClipboardMessage::SendFormatData(d) => assert_eq!(d, Some(vec![0x41, 0x00, 0x00])),
        _ => panic!(),
    }
    match paste_reply(CF_UNICODETEXT, Some(&[0xff])) {
        ClipboardMessage::SendFormatData(d) => assert_eq!(d, None),
        _ => panic!(),
    }
    match paste_reply(CF_DIB, Some(&[1, 2])) {
        ClipboardMessage::SendFormatData(d) => assert_eq!(d, Some(vec![1, 2])),
        _ => panic!(),
    }
    match paste_reply(CF_DIB, None) {
        ClipboardMessage::SendFormatData(d) => assert_eq!(d, None),
        _ => panic!(),
    }
}

#[test]
fn clipboard_channel_preconditions() {
    let m = ClipboardMessage::SendInitiatePaste(13);
    match cliprdr_handle_message(false, true, m.clone(), false) {
        Err(Error::Other(s)) => assert_eq!(s, "No clipboard processor"),
        _ => panic!(),
    }
    match cliprdr_handle_message(true, false, m.clone(), false) {
        Err(Error::Other(s)) => assert_eq!(s, "Clipboard processor not ready"),
        _ => panic!(),
    }
    assert!(matches!(
        cliprdr_handle_message(true, false, m.clone(), true),
        Ok(ClipboardMessage::SendInitiatePaste(13))
    ));
    match cliprdr_handle_message(true, true, ClipboardMessage::Error("bad".to_string()), false) {
        Err(Error::Other(s)) => assert_eq!(s, "Clipboard backend error: bad"),
        _ => panic!(),
    }
}

#[test]
fn session_end_decides_reconnection() {
    assert_eq!(after_session(SessionEnd::ReconnectWithNewSize { width: 1024, height: 768 }).ok(), Some((1024, 768)));
    assert!(matches!(
        after_session(SessionEnd::TerminatedGracefully("bye".to_string())),
        Err(SessionEnd::TerminatedGracefully(_))
    ));
}

#[test]
fn resize_sizes_are_adjusted_for_the_server() {
    assert_eq!(adjusted_display_size(1921, 100), (1920, 200));
    assert_eq!(adjusted_display_size(10000, 9000), (8192, 8192));
    assert_eq!(adjusted_display_size(199, 8191), (200, 8191));
    assert_eq!(adjusted_display_size(1024, 768), (1024, 768));
    match reconnect_with_size(adjusted_display_size(801, 601)) {
        SessionEnd::ReconnectWithNewSize { width, height } => assert_eq!((width, height), (800, 601)),
        _ => panic!("expected a reconnection"),
    }
}

#[test]
fn offered_sound_formats() {
    let mut be = RdwSndBackend::new();
    assert_eq!(be.get_flags(), 2);
    let f = be.get_formats(false);
    assert_eq!(f.len(), 4);
    assert_eq!((f[0].n_channels, f[0].n_samples_per_sec, f[0].n_avg_bytes_per_sec), (2, 48000, 192000));
    assert_eq!((f[3].n_channels, f[3].n_samples_per_sec, f[3].n_block_align), (1, 22050, 2));
    let mut be = RdwSndBackend::new();
    let f = be.get_formats(true);
    assert_eq!(f.len(), 5);
    assert_eq!(f[4].format, WaveFormat::Opus);
}

#[test]
fn caps_of_sound_formats() {
    let mut be = RdwSndBackend::new();
    let f = be.get_formats(true);
    assert_eq!(
        format_to_caps(&f[0]).unwrap(),
        "audio/x-raw,channels=2,rate=48000,format=S16LE,layout=interleaved"
    );
    assert_eq!(
        format_to_caps(&f[4]).unwrap(),
        "audio/x-opus,channels=2,rate=48000,channel-mapping-family=0"
    );
    let other = AudioFormat {
        format: WaveFormat::Other(2),
        n_channels: 1,
        n_samples_per_sec: 8000,
        n_avg_bytes_per_sec: 8000,
        n_block_align: 1,
        bits_per_sample: 8,
        data: None,
    };
    assert!(format_to_caps(&other).is_none());
}

#[test]
fn every_offered_format_has_caps() {
    let mut be = RdwSndBackend::new();
    for f in be.get_formats(true) {
        assert!(format_to_caps(&f).is_some());
    }
}

#[test]
fn wave_restarts_output_on_format_change() {
    let mut be = RdwSndBackend::new();
    match be.wave(1, false) {
        WaveStart::Restart(caps) => {
            assert_eq!(caps, "audio/x-raw,channels=2,rate=44100,format=S16LE,layout=interleaved")
        }
        _ => panic!("expected a restart"),
    }
    assert!(matches!(be.wave(1, true), WaveStart::Write));
    assert!(matches!(be.wave(4, true), WaveStart::Stop));
    assert_eq!(be.format_no, Some(4));
    assert!(matches!(be.wave(4, true), WaveStart::Write));
    assert_eq!(be.get_formats(true).len(), 4);
}

#[test]
fn sound_format_list_is_made_once() {
    let mut be = RdwSndBackend::new();
    let first = be.get_formats(true);
    assert_eq!(first.len(), 5);
    let later = be.get_formats(false);
    assert_eq!(later.len(), 5);
    for (a, b) in first.iter().zip(later.iter()) {
        assert_eq!(
            (a.format, a.n_channels, a.n_samples_per_sec, a.n_avg_bytes_per_sec, a.n_block_align, a.bits_per_sample),
            (b.format, b.n_channels, b.n_samples_per_sec, b.n_avg_bytes_per_sec, b.n_block_align, b.bits_per_sample)
        );
    }
}

#[test]
fn session_steps_for_each_event() {
    assert!(matches!(session_step(SessionEvent::Frame, true), SessionAction::ProcessFrame));
    match session_step(SessionEvent::InputClosed, true) {
        SessionAction::Fail(Error::Other(m)) => assert_eq!(m, "Input event not received"),
        _ => panic!("expected a failure"),
    }
    let resize = || {
        SessionEvent::Input(RdpInputEvent::Resize {
            width: 1921,
            height: 100,
            scale_factor: 100,
            physical_size: None,
        })
    };
    match session_step(resize(), true) {
        SessionAction::Resize { width, height, scale_factor, physical_size } => {
            assert_eq!((width, height, scale_factor, physical_size), (1920, 200, 100, None))
        }
        _ => panic!("expected a resize"),
    }
    match session_step(resize(), false) {
        SessionAction::End(SessionEnd::ReconnectWithNewSize { width, height }) => {
            assert_eq!((width, height), (1920, 200))
        }
        _ => panic!("expected a reconnection"),
    }
    assert!(matches!(session_step(SessionEvent::Input(RdpInputEvent::Close), true), SessionAction::Shutdown));
    match session_step(SessionEvent::Input(RdpInputEvent::FastPath(rdp_motion(1, 2))), true) {
        SessionAction::FastPath(v) => assert_eq!(v, rdp_motion(1, 2)),
        _ => panic!("expected input events"),
    }
    assert!(matches!(
        session_step(SessionEvent::Input(RdpInputEvent::ClipboardResponseInitialCopy(vec![])), true),
        SessionAction::Clipboard { message: ClipboardMessage::SendInitiateCopy(_), is_initiate: true }
    ));
    assert!(matches!(
        session_step(SessionEvent::Input(RdpInputEvent::Clipboard(ClipboardMessage::SendInitiatePaste(13))), true),
        SessionAction::Clipboard { message: ClipboardMessage::SendInitiatePaste(13), is_initiate: false }
    ));
}

#[test]
fn clipboard_errors_skip_the_event() {
    assert!(clipboard_step(false, true, ClipboardMessage::SendInitiatePaste(13), false).is_none());
    assert!(clipboard_step(true, false, ClipboardMessage::SendInitiatePaste(13), false).is_none());
    assert!(matches!(
        clipboard_step(true, false, ClipboardMessage::SendInitiatePaste(13), true),
        Some(ClipboardMessage::SendInitiatePaste(13))
    ));
    assert!(clipboard_step(true, true, ClipboardMessage::Error("e".to_string()), false).is_none());
}

#[test]
fn stage_outputs() {
    assert_eq!(output_step(StageOutput::ResponseFrame), OutputAction::WriteFrame);
    assert_eq!(
        output_step(StageOutput::GraphicsUpdate { left: 1, top: 2, right: 3, bottom: 4 }),
        OutputAction::GraphicsUpdate { left: 1, top: 2, right: 3, bottom: 4 }
    );
    assert_eq!(output_step(StageOutput::PointerPosition { x: 5, y: 6 }), OutputAction::PointerPosition { x: 5, y: 6 });
    assert_eq!(output_step(StageOutput::DeactivateAll), OutputAction::Reactivate);
    assert_eq!(output_step(StageOutput::Terminate), OutputAction::Terminate);
}
