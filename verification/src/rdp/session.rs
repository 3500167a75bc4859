//! The RDP display's decisions around its session: the connection settings, the
//! connection state, the events sent to the session, and the clipboard exchanges with
//! the local clipboard.

use vstd::prelude::*;

use crate::enums::KeyEvent;
use crate::paintable::PixelFormat;
use crate::rdp::cliprdr::{
    rdp_clipboard_format, rdp_clipboard_formats, rdp_clipboard_mime, ClipboardFormat,
    ClipboardMessage, PasteProgress, CF_UNICODETEXT,
};
use crate::rdp::input::{rdp_key_event, FastPathInputEvent};
use crate::rdp::util::utf16_from_utf8;

verus! {

/// An error of the RDP display.
#[derive(Clone, Debug)]
pub enum Error {
    AlreadyConnected,
    Io(String),
    Pdu(String),
    Connector(String),
    Session(String),
    Other(String),
}

/// The message that describes an error.
pub open spec fn error_message(e: Error) -> Seq<char> {
    match e {
        Error::AlreadyConnected => "Already connected"@,
        Error::Io(s) => "IO error: "@ + s@,
        Error::Pdu(s) => "Pdu error: "@ + s@,
        Error::Connector(s) => "Connector error: "@ + s@,
        Error::Session(s) => "Session error: "@ + s@,
        Error::Other(s) => "Other error: "@ + s@,
    }
}

fn prefixed(prefix: &str, s: &String) -> (r: String)
    ensures
        r@ == prefix@ + s@,
{
    let mut r = String::from_str(prefix);
    r.append(s.as_str());
    r
}

impl Error {
    /// The message that describes the error.
    pub fn message(&self) -> (r: String)
        ensures
            r@ == error_message(*self),
    {
        match self {
            Error::AlreadyConnected => String::from_str("Already connected"),
            Error::Io(s) => prefixed("IO error: ", s),
            Error::Pdu(s) => prefixed("Pdu error: ", s),
            Error::Connector(s) => prefixed("Connector error: ", s),
            Error::Session(s) => prefixed("Session error: ", s),
            Error::Other(s) => prefixed("Other error: ", s),
        }
    }
}

/// The layout of a pixel in the images that the RDP session decodes.
#[derive(Debug, PartialEq, Eq, Clone, Copy, Structural)]
pub enum RdpPixelFormat {
    ARgb32,
    XRgb32,
    ABgr32,
    XBgr32,
    BgrA32,
    BgrX32,
    RgbA32,
    RgbX32,
}

/// The paintable's pixel format for an image of the session: alpha and padding are
/// treated alike, and a layout the paintable lacks is shown as BGRA.
pub open spec fn spec_paintable_pixel_format(format: RdpPixelFormat) -> PixelFormat {
    match format {
        RdpPixelFormat::RgbA32 | RdpPixelFormat::RgbX32 => PixelFormat::Rgba,
        _ => PixelFormat::Bgra,
    }
}

/// The paintable's pixel format for an image of the session.
pub fn paintable_pixel_format(format: RdpPixelFormat) -> (r: PixelFormat)
    ensures
        r == spec_paintable_pixel_format(format),
{
    match format {
        RdpPixelFormat::BgrA32 | RdpPixelFormat::BgrX32 => PixelFormat::Bgra,
        RdpPixelFormat::RgbA32 | RdpPixelFormat::RgbX32 => PixelFormat::Rgba,
        _ => PixelFormat::Bgra,
    }
}

/// The operating system the client reports.
#[derive(Debug, PartialEq, Eq, Clone, Copy, Structural)]
pub enum Platform {
    Windows,
    Linux,
    Mac,
    Ios,
    Android,
    Other,
}

/// The major platform type of the client capability set (MS-RDPBCGR 2.2.7.1.1).
pub open spec fn spec_major_platform_type(p: Platform) -> u16 {
    match p {
        Platform::Windows => 1,
        Platform::Mac => 3,
        Platform::Linux => 4,
        Platform::Ios => 5,
        Platform::Android => 7,
        Platform::Other => 0,
    }
}

/// The major platform type reported for the client's operating system.
pub fn major_platform_type(p: Platform) -> (r: u16)
    ensures
        r == spec_major_platform_type(p),
{
    match p {
        Platform::Windows => 1,
        Platform::Mac => 3,
        Platform::Linux => 4,
        Platform::Ios => 5,
        Platform::Android => 7,
        Platform::Other => 0,
    }
}

/// The settings of an RDP connection.
#[derive(Clone, Debug)]
pub struct RdpConfig {
    pub username: String,
    pub password: String,
    pub enable_tls: bool,
    pub enable_credssp: bool,
    pub keyboard_subtype: u32,
    pub keyboard_layout: u32,
    pub keyboard_functional_keys_count: u32,
    pub ime_file_name: String,
    pub dig_product_id: String,
    pub desktop_width: u16,
    pub desktop_height: u16,
    pub desktop_scale_factor: u32,
    pub client_build: u32,
    pub client_name: String,
    pub client_dir: String,
    pub platform: u16,
    pub enable_server_pointer: bool,
    pub autologon: bool,
    pub enable_audio_playback: bool,
    pub pointer_software_rendering: bool,
}

/// The settings with which the display connects as `username`: TLS and CredSSP, an IBM
/// enhanced keyboard of 12 function keys in the server's layout, a 1920x1080 desktop,
/// the host's name as client name (`ironrdp` when it has none), the client directory of
/// mstsc, the host's platform, the server's pointer, automatic logon and sound.
pub fn rdp_config(username: &str, password: &str, hostname: Option<String>, platform: Platform) -> (r: RdpConfig)
    ensures
        config_of(r, username@, password@, hostname, platform),
{
    let client_name = match hostname {
        Some(h) => h,
        None => String::from_str("ironrdp"),
    };
    RdpConfig {
        username: String::from_str(username),
        password: String::from_str(password),
        enable_tls: true,
        enable_credssp: true,
        keyboard_subtype: 0,
        keyboard_layout: 0,
        keyboard_functional_keys_count: 12,
        ime_file_name: String::from_str(""),
        dig_product_id: String::from_str(""),
        desktop_width: 1920,
        desktop_height: 1080,
        desktop_scale_factor: 0,
        client_build: 0,
        client_name,
        client_dir: String::from_str("C:\\Windows\\System32\\mstscax.dll"),
        platform: major_platform_type(platform),
        enable_server_pointer: true,
        autologon: true,
        enable_audio_playback: true,
        pointer_software_rendering: false,
    }
}

/// Calls `whoami::hostname`, which reads the host's name from the system; the name,
/// or none when it cannot be read. What it returns depends on the machine, so nothing
/// is stated of it.
#[verifier::external_body]
fn host_name() -> (r: Option<String>) {
    whoami::hostname().ok()
}

/// Calls `whoami::platform`, the operating system this program was built for, and
/// tells its platforms apart; those without a platform type of their own are `Other`.
/// What it returns depends on the machine, so nothing is stated of it.
#[verifier::external_body]
fn host_platform() -> (r: Platform) {
    match whoami::platform() {
        whoami::Platform::Windows => Platform::Windows,
        whoami::Platform::Linux => Platform::Linux,
        whoami::Platform::Mac => Platform::Mac,
        whoami::Platform::Ios => Platform::Ios,
        whoami::Platform::Android => Platform::Android,
        _ => Platform::Other,
    }
}

/// The settings with which the display connects as `username`, with the host's name
/// and platform: everything but the client name and the platform is as `rdp_config`
/// sets it.
pub fn rdp_connect_config(username: &str, password: &str) -> (r: RdpConfig)
    ensures
        exists|hostname: Option<String>, platform: Platform| config_of(r, username@, password@, hostname, platform),
{
    let hostname = host_name();
    let platform = host_platform();
    let r = rdp_config(username, password, hostname, platform);
    proof {
        assert(config_of(r, username@, password@, hostname, platform));
    }
    r
}

/// Whether `r` holds the settings `rdp_config` makes of these arguments.
pub open spec fn config_of(r: RdpConfig, username: Seq<char>, password: Seq<char>, hostname: Option<String>, platform: Platform) -> bool {
    &&& r.username@ == username
    &&& r.password@ == password
    &&& r.enable_tls
    &&& r.enable_credssp
    &&& r.keyboard_subtype == 0
    &&& r.keyboard_layout == 0
    &&& r.keyboard_functional_keys_count == 12
    &&& r.ime_file_name@ == ""@
    &&& r.dig_product_id@ == ""@
    &&& r.desktop_width == 1920
    &&& r.desktop_height == 1080
    &&& r.desktop_scale_factor == 0
    &&& r.client_build == 0
    &&& r.client_name@ == (match hostname {
        Some(h) => h@,
        None => "ironrdp"@,
    })
    &&& r.client_dir@ == "C:\\Windows\\System32\\mstscax.dll"@
    &&& r.platform == spec_major_platform_type(platform)
    &&& r.enable_server_pointer
    &&& r.autologon
    &&& r.enable_audio_playback
    &&& !r.pointer_software_rendering
}

/// An event sent to the RDP session.
#[derive(Clone, Debug)]
pub enum RdpInputEvent {
    /// The display asks for another desktop size; the physical size is in millimeters.
    Resize { width: u16, height: u16, scale_factor: u32, physical_size: Option<(u32, u32)> },
    FastPath(Vec<FastPathInputEvent>),
    Close,
    /// The formats of the local clipboard, which the server asked for.
    ClipboardResponseInitialCopy(Vec<ClipboardFormat>),
    Clipboard(ClipboardMessage),
}

/// The state of the display's RDP connection.
#[derive(Clone, Copy, Debug)]
pub struct RdpConnection {
    /// A session runs and takes input events.
    pub running: bool,
    /// A connection waits to be told whether it came up.
    pub waiting: bool,
    /// The session is up.
    pub connected: bool,
}

impl RdpConnection {
    /// No session.
    pub fn new() -> (r: RdpConnection)
        ensures
            !r.running,
            !r.waiting,
            !r.connected,
    {
        RdpConnection { running: false, waiting: false, connected: false }
    }

    /// Starts a session that waits to come up, unless one runs.
    pub fn connect(&mut self) -> (r: Result<(), Error>)
        ensures
            old(self).running ==> (r matches Err(Error::AlreadyConnected) && *final(self) == *old(self)),
            !old(self).running ==> r is Ok && final(self).running && final(self).waiting && final(self).connected
                == old(self).connected,
    {
        if self.running {
            return Err(Error::AlreadyConnected);
        }
        self.running = true;
        self.waiting = true;
        Ok(())
    }

    /// Records whether the session is up; says whether that changed, which is when the
    /// `rdp-connected` property is notified.
    pub fn set_connected(&mut self, connected: bool) -> (notify: bool)
        ensures
            final(self).connected == connected,
            final(self).running == old(self).running,
            final(self).waiting == old(self).waiting,
            notify == (old(self).connected != connected),
    {
        let changed = self.connected != connected;
        self.connected = connected;
        changed
    }

    /// The session came up: a waiting connection succeeds (the result says whether one
    /// waited), and the display is connected.
    pub fn on_connected(&mut self) -> (r: (bool, bool))
        ensures
            r.0 == old(self).waiting,
            r.1 == !old(self).connected,
            !final(self).waiting,
            final(self).connected,
            final(self).running == old(self).running,
    {
        let resolve = self.waiting;
        self.waiting = false;
        let notify = self.set_connected(true);
        (resolve, notify)
    }

    /// The session ended, `failed` or not: a waiting connection fails when the session
    /// failed (the result says whether it did), and the display is not connected.
    pub fn on_terminated(&mut self, failed: bool) -> (r: (bool, bool))
        ensures
            r.0 == (failed && old(self).waiting),
            r.1 == old(self).connected,
            final(self).waiting == (old(self).waiting && !failed),
            !final(self).connected,
            final(self).running == old(self).running,
    {
        let resolve = failed && self.waiting;
        if resolve {
            self.waiting = false;
        }
        let notify = self.set_connected(false);
        (resolve, notify)
    }

    /// Stops the session: whether it ran, and so whether it is told to close.
    pub fn disconnect(&mut self) -> (close: bool)
        ensures
            close == old(self).running,
            !final(self).running,
            final(self).waiting == old(self).waiting,
            final(self).connected == old(self).connected,
    {
        let close = self.running;
        self.running = false;
        close
    }
}

/// The keyboard events sent for a key event: none when the keymap has no scancode for
/// the key.
pub fn key_input(keymap: &[u16], keycode: u32, event: KeyEvent) -> (r: Option<RdpInputEvent>)
    ensures
        (keycode as int) < keymap@.len() <==> r is Some,
        r matches Some(RdpInputEvent::FastPath(v)) ==> v@ == crate::rdp::session::key_events(
            keymap@[keycode as int],
            event,
        ),
        r matches Some(e) ==> e is FastPath,
{
    let k = keycode as usize;
    if k < keymap.len() {
        Some(RdpInputEvent::FastPath(rdp_key_event(keymap[k], event)))
    } else {
        None
    }
}

/// The keyboard events of a key event on an XT scancode.
pub open spec fn key_events(xt: u16, event: KeyEvent) -> Seq<FastPathInputEvent> {
    (if event.bits & crate::ffi::RDW_KEY_EVENT_PRESS == crate::ffi::RDW_KEY_EVENT_PRESS {
        seq![FastPathInputEvent::KeyboardEvent(crate::rdp::input::scancode_flags(xt), xt as u8)]
    } else {
        seq![]
    }) + (if event.bits & crate::ffi::RDW_KEY_EVENT_RELEASE == crate::ffi::RDW_KEY_EVENT_RELEASE {
        seq![
            FastPathInputEvent::KeyboardEvent(
                crate::rdp::input::scancode_flags(xt) | crate::rdp::input::KBD_FLAGS_RELEASE,
                xt as u8,
            ),
        ]
    } else {
        seq![]
    })
}

/// The resize event for a resize request of the display, with the widget's scale
/// factor in percent.
pub fn resize_event(width: u32, height: u32, wmm: u32, hmm: u32, scale_factor: i32) -> (r: RdpInputEvent)
    requires
        width <= u16::MAX,
        height <= u16::MAX,
        0 <= scale_factor,
        scale_factor * 100 <= i32::MAX,
    ensures
        r == (RdpInputEvent::Resize {
            width: width as u16,
            height: height as u16,
            scale_factor: (scale_factor * 100) as u32,
            physical_size: Some((wmm, hmm)),
        }),
{
    let sf = scale_factor * 100;
    RdpInputEvent::Resize {
        width: width as u16,
        height: height as u16,
        scale_factor: sf as u32,
        physical_size: Some((wmm, hmm)),
    }
}

/// What the local clipboard tells the session: nothing when the clipboard is the
/// display's own and the server did not ask; else its formats (none when it is the
/// display's own), as the answer to the server's request or as a copy.
pub fn clipboard_send_initiate_copy(request: bool, is_local: bool, mimes: &[String]) -> (r: Option<RdpInputEvent>)
    ensures
        (is_local && !request) <==> r is None,
        r matches Some(RdpInputEvent::ClipboardResponseInitialCopy(f)) ==> request && crate::rdp::cliprdr::format_views(f@)
            == crate::rdp::session::local_formats(is_local, mimes@),
        r matches Some(RdpInputEvent::Clipboard(ClipboardMessage::SendInitiateCopy(f))) ==> !request
            && crate::rdp::cliprdr::format_views(f@) == crate::rdp::session::local_formats(is_local, mimes@),
        r matches Some(e) ==> (request && e is ClipboardResponseInitialCopy) || (!request && e matches RdpInputEvent::Clipboard(
            ClipboardMessage::SendInitiateCopy(_),
        )),
{
    if is_local && !request {
        return None;
    }
    let formats = if is_local {
        Vec::new()
    } else {
        rdp_clipboard_formats(mimes)
    };
    proof {
        if is_local {
            assert(crate::rdp::cliprdr::format_views(formats@) =~= Seq::<(u32, Option<Seq<char>>)>::empty());
        }
    }
    if request {
        Some(RdpInputEvent::ClipboardResponseInitialCopy(formats))
    } else {
        Some(RdpInputEvent::Clipboard(ClipboardMessage::SendInitiateCopy(formats)))
    }
}

/// The formats the local clipboard offers: none when it is the display's own.
pub open spec fn local_formats(is_local: bool, mimes: Seq<String>) -> Seq<(u32, Option<Seq<char>>)> {
    if is_local {
        seq![]
    } else {
        crate::rdp::cliprdr::formats_for_mimes(mimes.map_values(|m: String| m@))
    }
}

/// The local MIME types of clipboard formats, in their order, formats without one left
/// out.
pub open spec fn offered_mimes(formats: Seq<(u32, Option<Seq<char>>)>) -> Seq<Seq<char>>
    decreases formats.len(),
{
    if formats.len() == 0 {
        seq![]
    } else {
        let rest = offered_mimes(formats.drop_last());
        match crate::rdp::cliprdr::mime_for_id(formats.last().0) {
            Some(m) => rest.push(m),
            None => rest,
        }
    }
}

/// What the display does with a clipboard message of the session.
#[derive(Clone, Debug)]
pub enum ClipboardAction {
    /// Nothing.
    Ignore,
    /// The local clipboard offers the server's data under these MIME types.
    Offer(Vec<&'static str>),
    /// The local clipboard is read for the server, in this format, under this MIME type
    /// (none when the format has none: the server then gets an error).
    Paste { format: u32, mime: Option<&'static str> },
}

/// What the display does with a clipboard message of the session: nothing when it is
/// read-only; for a copy of the server, nothing while a paste waits, else the offer of
/// the formats' MIME types; for a paste of the server, a read of the local clipboard;
/// nothing for an error.
pub fn rdp_clipboard(read_only: bool, paste_busy: bool, message: &ClipboardMessage) -> (r: ClipboardAction)
    requires
        !(message is SendFormatData),
    ensures
        read_only ==> r is Ignore,
        !read_only ==> match *message {
            ClipboardMessage::SendInitiateCopy(formats) => if paste_busy {
                r is Ignore
            } else {
                r matches ClipboardAction::Offer(m) && m@.map_values(|s: &'static str| s@) == offered_mimes(
                    crate::rdp::cliprdr::format_views(formats@),
                )
            },
            ClipboardMessage::SendInitiatePaste(format) => r matches ClipboardAction::Paste { format: f, mime } && f
                == format && match mime {
                Some(s) => crate::rdp::cliprdr::mime_for_id(format) == Some(s@),
                None => crate::rdp::cliprdr::mime_for_id(format) is None,
            },
            _ => r is Ignore,
        },
{
    if read_only {
        return ClipboardAction::Ignore;
    }
    match message {
        ClipboardMessage::SendInitiateCopy(formats) => {
            if paste_busy {
                return ClipboardAction::Ignore;
            }
            let ghost fv = crate::rdp::cliprdr::format_views(formats@);
            let mut out: Vec<&'static str> = Vec::new();
            let mut i: usize = 0;
            while i < formats.len()
                invariant
                    i <= formats@.len(),
                    fv == crate::rdp::cliprdr::format_views(formats@),
                    out@.map_values(|s: &'static str| s@) == offered_mimes(fv.subrange(0, i as int)),
                decreases formats@.len() - i,
            {
                let ghost before = out@;
                proof {
                    assert(fv.subrange(0, i + 1).drop_last() =~= fv.subrange(0, i as int));
                    assert(fv.subrange(0, i + 1).last() == formats@[i as int]@);
                }
                match rdp_clipboard_mime(&formats[i]) {
                    Some(m) => {
                        out.push(m);
                        proof {
                            assert(out@.map_values(|s: &'static str| s@) =~= before.map_values(
                                |s: &'static str| s@,
                            ).push(m@));
                        }
                    },
                    None => {},
                }
                i = i + 1;
            }
            proof {
                assert(fv.subrange(0, formats@.len() as int) =~= fv);
            }
            ClipboardAction::Offer(out)
        },
        ClipboardMessage::SendInitiatePaste(format) => {
            ClipboardAction::Paste { format: *format, mime: crate::rdp::cliprdr::rdp_clipboard_mime_from_id(*format) }
        },
        _ => ClipboardAction::Ignore,
    }
}

/// The local clipboard is asked for the server's data under a MIME type: a paste of the
/// matching format now waits, and the session is asked for it.
pub fn content_provider_write(paste: &mut PasteProgress, mime: &str) -> (r: RdpInputEvent)
    ensures
        final(paste).pending == Some(crate::rdp::cliprdr::mime_format(mime@).0),
        r == RdpInputEvent::Clipboard(ClipboardMessage::SendInitiatePaste(crate::rdp::cliprdr::mime_format(mime@).0)),
{
    let format = rdp_clipboard_format(mime);
    paste.set(format.id);
    RdpInputEvent::Clipboard(ClipboardMessage::SendInitiatePaste(format.id))
}

/// The bytes sent to the server for a paste in `format` of the local clipboard's data:
/// UTF-8 text becomes little-endian UTF-16 ended by a zero byte (nothing when it is not
/// UTF-8); other formats go as they are.
pub open spec fn paste_bytes(format: u32, data: Seq<u8>) -> Option<Seq<u8>> {
    if format == CF_UNICODETEXT {
        if vstd::utf8::valid_utf8(data) {
            Some(
                crate::rdp::util::utf16_le_bytes(
                    crate::rdp::util::utf16_encode(vstd::utf8::decode_utf8(data)),
                ).push(0u8),
            )
        } else {
            None
        }
    } else {
        Some(data)
    }
}

/// The answer to a paste of the server, from what was read of the local clipboard
/// (`None` when nothing could be read): its bytes in the pasted format, or an error.
pub fn paste_reply(format: u32, local: Option<&[u8]>) -> (r: ClipboardMessage)
    ensures
        r matches ClipboardMessage::SendFormatData(d) && match local {
            None => d is None,
            Some(bytes) => match paste_bytes(format, bytes@) {
                None => d is None,
                Some(b) => d matches Some(v) && v@ == b,
            },
        },
{
    let data = match local {
        None => None,
        Some(bytes) => {
            if format == CF_UNICODETEXT {
                match utf16_from_utf8(bytes) {
                    Ok(v) => Some(v),
                    Err(_) => None,
                }
            } else {
                Some(vstd::slice::slice_to_vec(bytes))
            }
        },
    };
    ClipboardMessage::SendFormatData(data)
}

/// Whether the session's clipboard channel takes a message: with a channel, ready
/// unless the message answers the server's request for the format list; an error
/// message is refused with its text.
pub fn cliprdr_handle_message(has_processor: bool, ready: bool, message: ClipboardMessage, is_initiate: bool) -> (r: Result<
    ClipboardMessage,
    Error,
>)
    ensures
        !has_processor ==> (r matches Err(Error::Other(s)) && s@ == "No clipboard processor"@),
        has_processor && !is_initiate && !ready ==> (r matches Err(Error::Other(s)) && s@
            == "Clipboard processor not ready"@),
        has_processor && (is_initiate || ready) ==> match message {
            ClipboardMessage::Error(e) => r matches Err(Error::Other(s)) && s@ == "Clipboard backend error: "@ + e@,
            _ => r == Ok::<ClipboardMessage, Error>(message),
        },
{
    if !has_processor {
        return Err(Error::Other(String::from_str("No clipboard processor")));
    }
    if !is_initiate && !ready {
        return Err(Error::Other(String::from_str("Clipboard processor not ready")));
    }
    match message {
        ClipboardMessage::Error(e) => Err(Error::Other(prefixed("Clipboard backend error: ", &e))),
        m => Ok(m),
    }
}

/// How an RDP session ended.
#[derive(Clone, Debug)]
pub enum SessionEnd {
    /// The server cannot resize: reconnect with this desktop size.
    ReconnectWithNewSize { width: u16, height: u16 },
    /// The session ended for this reason.
    TerminatedGracefully(String),
    /// The session failed.
    Failed(Error),
}

/// A display size brought within what the display control channel accepts: 200 to
/// 8192 pixels each way.
pub open spec fn clamp_display_side(v: int) -> int {
    if v < 200 {
        200
    } else if v > 8192 {
        8192
    } else {
        v
    }
}

/// The desktop size asked of the server for a requested size: an odd width loses one
/// pixel, then both sides are brought within 200 to 8192 pixels.
pub open spec fn spec_adjusted_display_size(width: u32, height: u32) -> (u32, u32) {
    let even = if width % 2 == 1 {
        width - 1
    } else {
        width as int
    };
    (clamp_display_side(even) as u32, clamp_display_side(height as int) as u32)
}

/// Calls `MonitorLayoutEntry::adjust_display_size` of ironrdp's display control
/// channel, whose source takes one off an odd width, then clamps width and height to
/// 200..=8192.
#[verifier::external_body]
fn monitor_adjust_display_size(width: u32, height: u32) -> (r: (u32, u32))
    ensures
        r == spec_adjusted_display_size(width, height),
{
    ironrdp::displaycontrol::pdu::MonitorLayoutEntry::adjust_display_size(width, height)
}

/// The desktop size asked of the server for a resize event of the display.
pub fn adjusted_display_size(width: u16, height: u16) -> (r: (u32, u32))
    ensures
        r == spec_adjusted_display_size(width as u32, height as u32),
        200 <= r.0 <= 8192,
        200 <= r.1 <= 8192,
        r.0 % 2 == 0,
{
    monitor_adjust_display_size(width as u32, height as u32)
}

/// The end of a session whose server cannot resize its desktop: reconnect with the
/// adjusted size.
pub fn reconnect_with_size(size: (u32, u32)) -> (r: SessionEnd)
    requires
        size.0 <= u16::MAX,
        size.1 <= u16::MAX,
    ensures
        r == (SessionEnd::ReconnectWithNewSize { width: size.0 as u16, height: size.1 as u16 }),
{
    SessionEnd::ReconnectWithNewSize { width: size.0 as u16, height: size.1 as u16 }
}

/// After a session: the desktop size to reconnect with, or the end of the connection.
pub fn after_session(end: SessionEnd) -> (r: Result<(u16, u16), SessionEnd>)
    ensures
        match end {
            SessionEnd::ReconnectWithNewSize { width, height } => r == Ok::<(u16, u16), SessionEnd>((width, height)),
            _ => r == Err::<(u16, u16), SessionEnd>(end),
        },
{
    match end {
        SessionEnd::ReconnectWithNewSize { width, height } => Ok((width, height)),
        e => Err(e),
    }
}

/// Text pasted to the server and pasted back comes back unchanged: the bytes sent for
/// UTF-8 text in `CF_UNICODETEXT`, delivered locally from that format, are the text's
/// bytes.
pub proof fn law_clipboard_text_survives_paste_both_ways(data: Seq<u8>)
    requires
        vstd::utf8::valid_utf8(data),
    ensures
        paste_bytes(CF_UNICODETEXT, data) matches Some(sent) && crate::rdp::cliprdr::pasted_data(CF_UNICODETEXT, sent)
            == Some(data),
{
    crate::rdp::util::law_clipboard_text_round_trip(data);
    vstd::utf8::decode_utf8_encode_utf8(data);
}

/// Data of any other format goes to the server and comes back as it is.
pub proof fn law_other_formats_pass_unchanged(format: u32, data: Seq<u8>)
    requires
        format != CF_UNICODETEXT,
    ensures
        paste_bytes(format, data) == Some(data),
        crate::rdp::cliprdr::pasted_data(format, data) == Some(data),
{
}

/// What wakes the active session up.
#[derive(Clone, Debug)]
pub enum SessionEvent {
    /// A frame of the server arrived.
    Frame,
    /// The display's input channel closed.
    InputClosed,
    /// An event of the display.
    Input(RdpInputEvent),
}

/// What the active session does next.
#[derive(Clone, Debug)]
pub enum SessionAction {
    /// The frame goes to the active stage, whose outputs are then handled.
    ProcessFrame,
    /// The session fails with this error.
    Fail(Error),
    /// The display control channel is asked for this desktop size.
    Resize { width: u32, height: u32, scale_factor: u32, physical_size: Option<(u32, u32)> },
    /// The session ends this way.
    End(SessionEnd),
    /// These input events go to the server.
    FastPath(Vec<FastPathInputEvent>),
    /// The session shuts down gracefully.
    Shutdown,
    /// This message goes to the clipboard channel; `is_initiate` when it answers the
    /// server's request for the format list.
    Clipboard { message: ClipboardMessage, is_initiate: bool },
}

/// What the active session does with an event: a frame is processed; the closing of
/// the display's input fails the session with "Input event not received"; a resize asks
/// the display control channel for the adjusted size when the channel can resize
/// (`resize_supported`), else ends the session to reconnect with that size; input
/// events go to the server; closing shuts down; clipboard events go to the clipboard
/// channel.
pub fn session_step(event: SessionEvent, resize_supported: bool) -> (r: SessionAction)
    ensures
        match event {
            SessionEvent::Frame => r is ProcessFrame,
            SessionEvent::InputClosed => r matches SessionAction::Fail(Error::Other(m)) && m@
                == "Input event not received"@,
            SessionEvent::Input(RdpInputEvent::Resize { width, height, scale_factor, physical_size }) => {
                let a = spec_adjusted_display_size(width as u32, height as u32);
                if resize_supported {
                    r == (SessionAction::Resize { width: a.0, height: a.1, scale_factor, physical_size })
                } else {
                    r == SessionAction::End(
                        SessionEnd::ReconnectWithNewSize { width: a.0 as u16, height: a.1 as u16 },
                    )
                }
            },
            SessionEvent::Input(RdpInputEvent::FastPath(events)) => r == SessionAction::FastPath(events),
            SessionEvent::Input(RdpInputEvent::Close) => r is Shutdown,
            SessionEvent::Input(RdpInputEvent::ClipboardResponseInitialCopy(formats)) => r
                == (SessionAction::Clipboard { message: ClipboardMessage::SendInitiateCopy(formats), is_initiate: true }),
            SessionEvent::Input(RdpInputEvent::Clipboard(message)) => r == (SessionAction::Clipboard {
                message,
                is_initiate: false,
            }),
        },
{
    match event {
        SessionEvent::Frame => SessionAction::ProcessFrame,
        SessionEvent::InputClosed => SessionAction::Fail(Error::Other(String::from_str("Input event not received"))),
        SessionEvent::Input(input) => match input {
            RdpInputEvent::Resize { width, height, scale_factor, physical_size } => {
                let (w, h) = adjusted_display_size(width, height);
                if resize_supported {
                    SessionAction::Resize { width: w, height: h, scale_factor, physical_size }
                } else {
                    SessionAction::End(reconnect_with_size((w, h)))
                }
            },
            RdpInputEvent::FastPath(events) => SessionAction::FastPath(events),
            RdpInputEvent::Close => SessionAction::Shutdown,
            RdpInputEvent::ClipboardResponseInitialCopy(formats) => SessionAction::Clipboard {
                message: ClipboardMessage::SendInitiateCopy(formats),
                is_initiate: true,
            },
            RdpInputEvent::Clipboard(message) => SessionAction::Clipboard { message, is_initiate: false },
        },
    }
}

/// The message the clipboard channel submits, or none when the channel refuses it:
/// the session then skips the event (with a warning) and goes on.
pub fn clipboard_step(has_processor: bool, ready: bool, message: ClipboardMessage, is_initiate: bool) -> (r: Option<
    ClipboardMessage,
>)
    ensures
        (has_processor && (is_initiate || ready) && !(message is Error)) ==> r == Some(message),
        !(has_processor && (is_initiate || ready) && !(message is Error)) ==> r is None,
{
    match cliprdr_handle_message(has_processor, ready, message, is_initiate) {
        Ok(m) => Some(m),
        Err(_) => None,
    }
}

/// An output of the active stage.
#[derive(Clone, Debug, PartialEq, Eq, Structural)]
pub enum StageOutput {
    /// A frame to send to the server.
    ResponseFrame,
    /// The image changed in this inclusive rectangle.
    GraphicsUpdate { left: u16, top: u16, right: u16, bottom: u16 },
    PointerDefault,
    PointerHidden,
    PointerPosition { x: u16, y: u16 },
    /// The server's pointer image changed.
    PointerBitmap,
    /// The server deactivated the session: the reactivation sequence runs.
    DeactivateAll,
    /// The session ended.
    Terminate,
}

/// What the session does with an output of the active stage.
#[derive(Clone, Debug, PartialEq, Eq, Structural)]
pub enum OutputAction {
    /// The frame is written to the server.
    WriteFrame,
    /// The display is told of a graphics update of this inclusive rectangle.
    GraphicsUpdate { left: u16, top: u16, right: u16, bottom: u16 },
    PointerDefault,
    PointerHidden,
    PointerPosition { x: u16, y: u16 },
    PointerBitmap,
    /// The deactivation-reactivation sequence runs, then a new image of the new
    /// desktop size replaces the old one.
    Reactivate,
    /// The session ends gracefully; no later output is handled.
    Terminate,
}

/// What the session does with an output of the active stage: frames are written,
/// image and pointer changes go to the display, a deactivation reactivates, a
/// termination ends the session.
pub fn output_step(out: StageOutput) -> (r: OutputAction)
    ensures
        r == match out {
            StageOutput::ResponseFrame => OutputAction::WriteFrame,
            StageOutput::GraphicsUpdate { left, top, right, bottom } => OutputAction::GraphicsUpdate {
                left,
                top,
                right,
                bottom,
            },
            StageOutput::PointerDefault => OutputAction::PointerDefault,
            StageOutput::PointerHidden => OutputAction::PointerHidden,
            StageOutput::PointerPosition { x, y } => OutputAction::PointerPosition { x, y },
            StageOutput::PointerBitmap => OutputAction::PointerBitmap,
            StageOutput::DeactivateAll => OutputAction::Reactivate,
            StageOutput::Terminate => OutputAction::Terminate,
        },
{
    match out {
        StageOutput::ResponseFrame => OutputAction::WriteFrame,
        StageOutput::GraphicsUpdate { left, top, right, bottom } => OutputAction::GraphicsUpdate {
            left,
            top,
            right,
            bottom,
        },
        StageOutput::PointerDefault => OutputAction::PointerDefault,
        StageOutput::PointerHidden => OutputAction::PointerHidden,
        StageOutput::PointerPosition { x, y } => OutputAction::PointerPosition { x, y },
        StageOutput::PointerBitmap => OutputAction::PointerBitmap,
        StageOutput::DeactivateAll => OutputAction::Reactivate,
        StageOutput::Terminate => OutputAction::Terminate,
    }
}

} // verus!
