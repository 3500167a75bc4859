use rdw::gstaudio::{pipeline_state, AudioError, GstAudio, PipelineState, SampleQueue};
use rdw::keymap::{keymap_lookup, keymap_qnum, keymap_xtkbd, DisplayBackend, KeycodeTable};
use rdw::launcher::{
    credential_fields, credentials_response, default_uri, display_host, display_kind,
    display_port, display_uri, vnc_credentials, window_title, DisplayKind, VncCredential,
};
use rdw::text::{push_decimal, push_decimal_padded, text_eq, text_starts_with};
use rdw::usbredir::{
    char_attribute_path, device_manufacturer_product, device_name, device_node_path,
    device_state_result, log_level, poll_outcome, set_device_state, stream_read, stream_write,
    trim_trailing_newlines, worker_step, DeviceStateChange, HostLogLevel, Key, LogLevel,
    PollOutcome, ReadOutcome, WorkerAction, WorkerEvent,
};

#[test]
fn text_comparisons() {
    assert!(text_eq("abc", "abc"));
    assert!(!text_eq("abc", "abd"));
    assert!(!text_eq("abc", "ab"));
    assert!(text_starts_with("spice+unix", "spice"));
    assert!(!text_starts_with("spi", "spice"));
}

#[test]
fn decimal_formatting() {
    let mut s = String::new();
    push_decimal(&mut s, 0);
    assert_eq!(s, "0");
    let mut s = String::from("n=");
    push_decimal(&mut s, 1234567890123);
    assert_eq!(s, "n=1234567890123");
    let mut s = String::new();
    push_decimal_padded(&mut s, 7, 3);
    assert_eq!(s, "007");
    let mut s = String::new();
    push_decimal_padded(&mut s, 1234, 3);
    assert_eq!(s, "1234");
}

#[test]
fn usb_device_names() {
    assert_eq!(device_name(None, 1, 12), "Bus 001 Device 012");
    assert_eq!(
        device_name(Some(("ACME".to_string(), "Mouse".to_string())), 1, 2),
        "ACME Mouse"
    );
    assert_eq!(device_node_path(3, 100), "/dev/bus/usb/003/100");
    assert_eq!(char_attribute_path(189, 5, "product"), "/sys/dev/char/189:5/product");
    assert_eq!(Key(1, 2), Key(1, 2));
}

#[test]
fn usb_attributes() {
    assert_eq!(trim_trailing_newlines("Mouse\n\n"), "Mouse");
    assert_eq!(trim_trailing_newlines("a\nb"), "a\nb");
    assert_eq!(trim_trailing_newlines("\n"), "");
    let once = trim_trailing_newlines("x\n\n");
    assert_eq!(trim_trailing_newlines(&once), once);
    assert!(device_manufacturer_product(None, None).is_none());
    assert_eq!(
        device_manufacturer_product(Some("ACME".to_string()), None),
        Some(("ACME".to_string(), "N/A".to_string()))
    );
    assert_eq!(
        device_manufacturer_product(None, Some("Pad".to_string())),
        Some(("N/A".to_string(), "Pad".to_string()))
    );
}

#[test]
fn usb_device_state_changes() {
    assert_eq!(set_device_state(true, true), DeviceStateChange::Keep(true));
    assert_eq!(set_device_state(true, false), DeviceStateChange::Connect);
    assert_eq!(set_device_state(false, true), DeviceStateChange::Disconnect);
    assert_eq!(device_state_result(true, Ok(true)), (Some(true), None));
    assert_eq!(device_state_result(true, Err("busy".to_string())), (Some(false), Some("busy".to_string())));
    assert_eq!(device_state_result(false, Err("busy".to_string())), (None, Some("busy".to_string())));
}

#[test]
fn poll_outcomes() {
    assert_eq!(poll_outcome(-1, 0, None), PollOutcome::OsError);
    assert_eq!(poll_outcome(0, 0, Some(0)), PollOutcome::Readable(false));
    assert_eq!(poll_outcome(1, 0x1, None), PollOutcome::Readable(true));
    assert_eq!(poll_outcome(1, 0x4, None), PollOutcome::Readable(false));
    assert_eq!(poll_outcome(1, 0x10, None), PollOutcome::HangUp);
    assert_eq!(poll_outcome(1, 0x1, Some(0x1)), PollOutcome::HangUp);
    assert_eq!(poll_outcome(1, 0x1, Some(0)), PollOutcome::Readable(true));
}

#[test]
fn stream_reads_and_writes() {
    assert_eq!(stream_read(Ok(true), Ok(5)), (ReadOutcome::Data(5), false));
    assert_eq!(stream_read(Ok(true), Ok(0)), (ReadOutcome::Disconnected, true));
    assert_eq!(stream_read(Ok(false), Ok(5)), (ReadOutcome::Idle, false));
    assert_eq!(stream_read(Err(()), Ok(5)), (ReadOutcome::PollFailed, true));
    assert_eq!(stream_read(Ok(true), Err(())), (ReadOutcome::ReadFailed, true));
    assert_eq!(stream_write(7, Ok(())), (Ok(7), false));
    assert_eq!(stream_write(7, Err(())), (Err(()), true));
    assert_eq!(log_level(HostLogLevel::Warning), LogLevel::Warn);
    assert_eq!(log_level(HostLogLevel::Debug), LogLevel::Debug);
}

#[test]
fn audio_streams_by_id() {
    let mut a: GstAudio<u32, u32> = GstAudio::new();
    assert!(a.init_out(0, || Ok(10)).is_ok());
    assert!(matches!(a.init_out(0, || Ok(11)), Err(AudioError::AlreadySetup(0))));
    assert_eq!(*a.get_out(0).unwrap(), 10);
    a.fini_out(0);
    assert!(matches!(a.get_out(0), Err(AudioError::NotFound(0))));
    assert!(a.init_out(0, || Ok(12)).is_ok());
    assert!(matches!(a.init_out(1, || Err("no pipeline".to_string())), Err(AudioError::Failed(_))));
    assert_eq!(AudioError::AlreadySetup(3).message(), "id 3 is already setup");
    assert_eq!(AudioError::NotFound(42).message(), "Stream not found: 42");
    assert!(matches!(a.set_enabled_out(0, true), Ok((12, PipelineState::Playing))));
    assert!(matches!(a.set_enabled_out(5, true), Err(AudioError::NotFound(5))));
    a.init_in(2, || Ok(7)).unwrap();
    assert!(matches!(a.set_enabled_in(2, false), Ok((7, PipelineState::Ready))));
    assert!(matches!(a.set_enabled_in(3, false), Err(AudioError::NotFound(3))));
    assert_eq!(pipeline_state(true), PipelineState::Playing);
    assert_eq!(pipeline_state(false), PipelineState::Ready);
}

#[test]
fn captured_audio_is_read_in_order() {
    let mut a: GstAudio<u32, u32> = GstAudio::new();
    assert!(matches!(a.read_in(1, 2), Err(AudioError::NotFound(1))));
    a.init_in(1, || Ok(5)).unwrap();
    a.push_in(1, &[1, 2, 3]).unwrap();
    assert_eq!(a.read_in(1, 4).unwrap(), None);
    a.push_in(1, &[4, 5]).unwrap();
    assert_eq!(a.read_in(1, 4).unwrap(), Some(vec![1, 2, 3, 4]));
    assert_eq!(a.get_in(1).ok().map(|s| s.samples.queue.clone()), Some(vec![5]));
    a.fini_in(1);
    assert!(a.get_in(1).is_err());
    let mut q = SampleQueue::new();
    q.push_sample(&[9, 8]);
    assert!(!q.needs_more(2));
    assert!(q.needs_more(3));
    assert_eq!(q.take(1), vec![9]);
    assert_eq!(q.queue, vec![8]);
}

#[test]
fn keymaps_by_backend() {
    assert_eq!(keymap_xtkbd(Some(DisplayBackend::Wayland), false), Some(KeycodeTable::XorgEvdevToXtkbd));
    assert_eq!(keymap_qnum(Some(DisplayBackend::X11), false), Some(KeycodeTable::XorgEvdevToQnum));
    assert_eq!(keymap_xtkbd(Some(DisplayBackend::Win32), false), None);
    assert_eq!(keymap_qnum(Some(DisplayBackend::Win32), true), Some(KeycodeTable::Win32ToQnum));
    assert_eq!(keymap_xtkbd(Some(DisplayBackend::MacOS), true), None);
    assert_eq!(keymap_xtkbd(None, false), None);
    assert_eq!(keymap_lookup(&[5, 6], 1), Some(6));
    assert_eq!(keymap_lookup(&[5, 6], 2), None);
}

#[test]
fn launcher_uris() {
    assert_eq!(default_uri(), "vnc://localhost");
    assert_eq!(display_uri("host:1", false), "vnc://host:1");
    assert_eq!(display_uri("rdp://host", true), "rdp://host");
    assert_eq!(display_kind("vnc"), Some(DisplayKind::Vnc));
    assert_eq!(display_kind("rdp"), Some(DisplayKind::Rdp));
    assert_eq!(display_kind("spice+unix"), Some(DisplayKind::Spice));
    assert_eq!(display_kind("http"), None);
    assert_eq!(display_port(DisplayKind::Rdp, -1), 3389);
    assert_eq!(display_port(DisplayKind::Vnc, -1), 5900);
    assert_eq!(display_port(DisplayKind::Vnc, 5901), 5901);
    assert_eq!(display_host(None), "localhost");
    assert_eq!(display_host(Some("h".to_string())), "h");
}

#[test]
fn launcher_credentials_and_title() {
    let creds = [VncCredential::Password, VncCredential::Clientname];
    assert_eq!(credential_fields(&creds), (false, true));
    let v = vnc_credentials(&creds, "u", "p");
    assert_eq!(v, vec![(VncCredential::Password, "p".to_string()), (VncCredential::Clientname, "rdw-vnc".to_string())]);
    assert_eq!(
        credentials_response("ok", "u".to_string(), "p".to_string()),
        Some(("u".to_string(), "p".to_string()))
    );
    assert_eq!(credentials_response("cancel", "u".to_string(), "p".to_string()), None);
    assert_eq!(window_title(false, "Ctrl+Alt"), "rdw demo");
    assert_eq!(window_title(true, "Ctrl+Alt"), "rdw demo - Ctrl+Alt");
}

#[test]
fn usb_worker_loop_stops_on_failure_or_quit() {
    assert_eq!(worker_step(WorkerEvent::Begin { quit: true }), WorkerAction::Stop);
    assert_eq!(worker_step(WorkerEvent::Begin { quit: false }), WorkerAction::Poll);
    assert_eq!(worker_step(WorkerEvent::Polled(PollOutcome::Readable(true))), WorkerAction::ReadPeer);
    assert_eq!(worker_step(WorkerEvent::Polled(PollOutcome::Readable(false))), WorkerAction::CheckPendingWrite);
    assert_eq!(worker_step(WorkerEvent::Polled(PollOutcome::HangUp)), WorkerAction::Stop);
    assert_eq!(worker_step(WorkerEvent::Polled(PollOutcome::OsError)), WorkerAction::Stop);
    assert_eq!(worker_step(WorkerEvent::PeerRead(false)), WorkerAction::Stop);
    assert_eq!(worker_step(WorkerEvent::PeerRead(true)), WorkerAction::CheckPendingWrite);
    assert_eq!(worker_step(WorkerEvent::PendingWrite(true)), WorkerAction::WritePeer);
    assert_eq!(worker_step(WorkerEvent::PendingWrite(false)), WorkerAction::HandleEvents);
    assert_eq!(worker_step(WorkerEvent::PeerWritten(false)), WorkerAction::Stop);
    assert_eq!(worker_step(WorkerEvent::EventsHandled(true)), WorkerAction::NextTurn);
    assert_eq!(worker_step(WorkerEvent::EventsHandled(false)), WorkerAction::Stop);
}
