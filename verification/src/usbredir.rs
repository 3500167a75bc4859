//! USB redirection: the names and paths of local USB devices, the state changes asked
//! of a redirection, and how the redirection session reads its stream.

use vstd::prelude::*;

use crate::text::{push_decimal, push_decimal_padded};

verus! {

/// A USB device, by its bus number and address.
#[derive(Debug, PartialEq, Eq, Clone, Copy, Structural, Hash)]
pub struct Key(pub u8, pub u8);

/// The text without the newlines at its end.
pub open spec fn trim_newlines(s: Seq<char>) -> Seq<char>
    decreases s.len(),
{
    if s.len() > 0 && s.last() == '\n' {
        trim_newlines(s.drop_last())
    } else {
        s
    }
}

/// The contents of a device attribute file, without the newlines at its end.
pub fn trim_trailing_newlines(contents: &str) -> (r: String)
    ensures
        r@ == trim_newlines(contents@),
{
    let n = contents.unicode_len();
    let mut end: usize = n;
    proof {
        assert(contents@.subrange(0, n as int) =~= contents@);
    }
    while end > 0 && contents.get_char(end - 1) == '\n'
        invariant
            n == contents@.len(),
            end <= n,
            trim_newlines(contents@) == trim_newlines(contents@.subrange(0, end as int)),
        decreases end,
    {
        proof {
            let s = contents@.subrange(0, end as int);
            assert(s.drop_last() =~= contents@.subrange(0, end - 1));
        }
        end = end - 1;
    }
    proof {
        let s = contents@.subrange(0, end as int);
        if end > 0 {
            assert(s.last() == contents@[end - 1]);
        }
        assert(contents@.subrange(0, n as int) =~= contents@);
    }
    String::from_str(contents.substring_char(0, end))
}

/// The name a device is shown with: its manufacturer and product, or else its bus and
/// address, in three digits each.
pub open spec fn spec_device_name(info: Option<(Seq<char>, Seq<char>)>, bus: u8, addr: u8) -> Seq<char> {
    match info {
        Some((m, p)) => m + " "@ + p,
        None => "Bus "@ + crate::text::decimal_padded(bus as nat, 3) + " Device "@ + crate::text::decimal_padded(
            addr as nat,
            3,
        ),
    }
}

/// The name a device is shown with.
pub fn device_name(info: Option<(String, String)>, bus: u8, addr: u8) -> (r: String)
    ensures
        r@ == spec_device_name(
            match info {
                Some((m, p)) => Some((m@, p@)),
                None => None,
            },
            bus,
            addr,
        ),
{
    match info {
        Some((m, p)) => {
            let mut s = String::from_str(m.as_str());
            s.append(" ");
            s.append(p.as_str());
            s
        },
        None => {
            let mut s = String::from_str("Bus ");
            push_decimal_padded(&mut s, bus as u64, 3);
            s.append(" Device ");
            push_decimal_padded(&mut s, addr as u64, 3);
            s
        },
    }
}

/// The manufacturer and product of a device from its attribute files: each that could
/// not be read is `N/A`; none when neither could.
pub fn device_manufacturer_product(manufacturer: Option<String>, product: Option<String>) -> (r: Option<
    (String, String),
>)
    ensures
        (manufacturer is None && product is None) <==> r is None,
        r matches Some((m, p)) ==> m@ == (match manufacturer {
            Some(s) => s@,
            None => "N/A"@,
        }) && p@ == (match product {
            Some(s) => s@,
            None => "N/A"@,
        }),
{
    if manufacturer.is_none() && product.is_none() {
        return None;
    }
    let m = match manufacturer {
        Some(s) => s,
        None => String::from_str("N/A"),
    };
    let p = match product {
        Some(s) => s,
        None => String::from_str("N/A"),
    };
    Some((m, p))
}

/// The path of a device's node under `/dev/bus/usb`.
pub fn device_node_path(bus: u8, addr: u8) -> (r: String)
    ensures
        r@ == "/dev/bus/usb/"@ + crate::text::decimal_padded(bus as nat, 3) + "/"@ + crate::text::decimal_padded(
            addr as nat,
            3,
        ),
{
    let mut s = String::from_str("/dev/bus/usb/");
    push_decimal_padded(&mut s, bus as u64, 3);
    s.append("/");
    push_decimal_padded(&mut s, addr as u64, 3);
    s
}

/// The path of an attribute of a character device under `/sys/dev/char`.
pub fn char_attribute_path(major: u32, minor: u32, attribute: &str) -> (r: String)
    ensures
        r@ == "/sys/dev/char/"@ + crate::text::decimal(major as nat) + ":"@ + crate::text::decimal(minor as nat) + "/"@
            + attribute@,
{
    let mut s = String::from_str("/sys/dev/char/");
    push_decimal(&mut s, major as u64);
    s.append(":");
    push_decimal(&mut s, minor as u64);
    s.append("/");
    s.append(attribute);
    s
}

/// What a redirection is asked to do when a device's switch is set.
#[derive(Debug, PartialEq, Eq, Clone, Copy, Structural)]
pub enum DeviceStateChange {
    /// The device already is in that state: it stays.
    Keep(bool),
    Connect,
    Disconnect,
}

/// What a redirection is asked to do when a device's switch is set to `state`, the
/// device being `connected` or not.
pub fn set_device_state(state: bool, connected: bool) -> (r: DeviceStateChange)
    ensures
        r == (if state == connected {
            DeviceStateChange::Keep(state)
        } else if state {
            DeviceStateChange::Connect
        } else {
            DeviceStateChange::Disconnect
        }),
{
    if state == connected {
        DeviceStateChange::Keep(state)
    } else if state {
        DeviceStateChange::Connect
    } else {
        DeviceStateChange::Disconnect
    }
}

/// What a device's switch shows after a change asked with `state`, and the error to
/// show: on success the state reached; on failure the switch goes off if it was set on,
/// and the error is shown.
pub fn device_state_result(state: bool, result: Result<bool, String>) -> (r: (Option<bool>, Option<String>))
    ensures
        match result {
            Ok(active) => r.0 == Some(active) && r.1 is None,
            Err(e) => r.0 == (if state {
                Some(false)
            } else {
                None
            }) && (r.1 matches Some(m) && m@ == e@),
        },
{
    match result {
        Ok(active) => (Some(active), None),
        Err(e) => (
            if state {
                Some(false)
            } else {
                None
            },
            Some(e),
        ),
    }
}

/// Poll events of Linux: data to read, an error, a hang-up, an invalid descriptor.
pub const POLLIN: i16 = 0x1;
pub const POLLERR: i16 = 0x8;
pub const POLLHUP: i16 = 0x10;
pub const POLLNVAL: i16 = 0x20;

/// What a poll of the stream, and of the descriptor that ends the wait if any, found.
#[derive(Debug, PartialEq, Eq, Clone, Copy, Structural)]
pub enum PollOutcome {
    /// The poll itself failed: the system's error.
    OsError,
    /// The stream has data to read, or not.
    Readable(bool),
    /// The stream hung up or failed, or the wait was ended.
    HangUp,
}

/// Whether returned poll events hold an error event.
pub open spec fn has_error_event(revents: i16) -> bool {
    revents & (POLLHUP | POLLERR | POLLNVAL) != 0
}

/// What a poll found, from its result and the events returned for the stream and for
/// the descriptor that ends the wait: an error event on the stream, or any event on the
/// other descriptor, is a hang-up.
pub fn poll_outcome(ret: i32, stream_revents: i16, wait_revents: Option<i16>) -> (r: PollOutcome)
    ensures
        r == (if ret < 0 {
            PollOutcome::OsError
        } else if ret == 0 {
            PollOutcome::Readable(false)
        } else if has_error_event(stream_revents) || (wait_revents matches Some(w) && (w & (POLLIN | POLLHUP | POLLERR
            | POLLNVAL)) != 0) {
            PollOutcome::HangUp
        } else {
            PollOutcome::Readable(stream_revents & POLLIN != 0)
        }),
{
    let err_events: i16 = POLLHUP | POLLERR | POLLNVAL;
    proof {
        assert(0x10i16 | 0x8i16 | 0x20i16 == 0x38i16) by (bit_vector);
        assert(0x1i16 | 0x10i16 | 0x8i16 | 0x20i16 == 0x39i16) by (bit_vector);
        assert(0x1i16 | 0x38i16 == 0x39i16) by (bit_vector);
    }
    if ret < 0 {
        PollOutcome::OsError
    } else if ret == 0 {
        PollOutcome::Readable(false)
    } else if stream_revents & err_events != 0 || match wait_revents {
        Some(w) => w & (POLLIN | err_events) != 0,
        None => false,
    } {
        PollOutcome::HangUp
    } else {
        PollOutcome::Readable(stream_revents & POLLIN != 0)
    }
}

/// What a read of the redirection stream gives the redirection.
#[derive(Debug, PartialEq, Eq, Clone, Copy, Structural)]
pub enum ReadOutcome {
    /// This many bytes were read.
    Data(usize),
    /// Nothing to read now.
    Idle,
    /// The peer closed the stream.
    Disconnected,
    /// The poll failed with the error it gave.
    PollFailed,
    /// The read failed with the error it gave.
    ReadFailed,
}

/// A read of the redirection stream, from the poll's outcome and, when data waited,
/// the read's: reading nothing means the peer is gone. The second result says whether
/// the session must end, which is when the read fails.
pub fn stream_read(poll: Result<bool, ()>, read: Result<usize, ()>) -> (r: (ReadOutcome, bool))
    ensures
        r.0 == (match poll {
            Err(_) => ReadOutcome::PollFailed,
            Ok(false) => ReadOutcome::Idle,
            Ok(true) => match read {
                Ok(0) => ReadOutcome::Disconnected,
                Ok(n) => ReadOutcome::Data(n),
                Err(_) => ReadOutcome::ReadFailed,
            },
        }),
        r.1 == !(r.0 is Data || r.0 is Idle),
{
    let outcome = match poll {
        Err(_) => ReadOutcome::PollFailed,
        Ok(false) => ReadOutcome::Idle,
        Ok(true) => match read {
            Ok(0) => ReadOutcome::Disconnected,
            Ok(n) => ReadOutcome::Data(n),
            Err(_) => ReadOutcome::ReadFailed,
        },
    };
    let quit = match outcome {
        ReadOutcome::Data(_) | ReadOutcome::Idle => false,
        _ => true,
    };
    (outcome, quit)
}

/// A write to the redirection stream: the whole buffer on success; the session must
/// end when it fails.
pub fn stream_write(len: usize, written: Result<(), ()>) -> (r: (Result<usize, ()>, bool))
    ensures
        r == (match written {
            Ok(()) => (Ok::<usize, ()>(len), false),
            Err(()) => (Err::<usize, ()>(()), true),
        }),
{
    match written {
        Ok(()) => (Ok(len), false),
        Err(()) => (Err(()), true),
    }
}

/// The level of a message of the USB redirection host.
#[derive(Debug, PartialEq, Eq, Clone, Copy, Structural)]
pub enum HostLogLevel {
    Error,
    Warning,
    Info,
    Debug,
}

/// The level a message is logged with.
#[derive(Debug, PartialEq, Eq, Clone, Copy, Structural)]
pub enum LogLevel {
    Error,
    Warn,
    Info,
    Debug,
}

/// The level a message of the USB redirection host is logged with.
pub fn log_level(level: HostLogLevel) -> (r: LogLevel)
    ensures
        r == (match level {
            HostLogLevel::Error => LogLevel::Error,
            HostLogLevel::Warning => LogLevel::Warn,
            HostLogLevel::Info => LogLevel::Info,
            HostLogLevel::Debug => LogLevel::Debug,
        }),
{
    match level {
        HostLogLevel::Error => LogLevel::Error,
        HostLogLevel::Warning => LogLevel::Warn,
        HostLogLevel::Info => LogLevel::Info,
        HostLogLevel::Debug => LogLevel::Debug,
    }
}

/// Trimming leaves no newline at the end, and trimming again changes nothing.
pub proof fn law_trim_newlines_idempotent(s: Seq<char>)
    ensures
        trim_newlines(s).len() == 0 || trim_newlines(s).last() != '\n',
        trim_newlines(trim_newlines(s)) == trim_newlines(s),
    decreases s.len(),
{
    if s.len() > 0 && s.last() == '\n' {
        law_trim_newlines_idempotent(s.drop_last());
    }
}

/// What the redirection session's worker learns at a point of its loop.
#[derive(Debug, PartialEq, Eq, Clone, Copy, Structural)]
pub enum WorkerEvent {
    /// A turn of the loop begins; `quit` tells whether the session was asked to end.
    Begin { quit: bool },
    /// What the poll of the stream found.
    Polled(PollOutcome),
    /// The redirection read from its peer, with success or not.
    PeerRead(bool),
    /// Whether the redirection has data to write to its peer.
    PendingWrite(bool),
    /// The redirection wrote to its peer, with success or not.
    PeerWritten(bool),
    /// The USB events were handled, with success or not.
    EventsHandled(bool),
}

/// What the worker does next.
#[derive(Debug, PartialEq, Eq, Clone, Copy, Structural)]
pub enum WorkerAction {
    /// Poll the stream, without waiting.
    Poll,
    /// Read from the peer.
    ReadPeer,
    /// Ask whether there is data to write.
    CheckPendingWrite,
    /// Write to the peer.
    WritePeer,
    /// Handle the USB events.
    HandleEvents,
    /// Begin the next turn.
    NextTurn,
    /// The loop ends, and whoever waits for the end of the session is told.
    Stop,
}

/// Whether a worker event reports a failure or a quit request.
pub open spec fn worker_event_ends(event: WorkerEvent) -> bool {
    match event {
        WorkerEvent::Begin { quit } => quit,
        WorkerEvent::Polled(p) => !(p is Readable),
        WorkerEvent::PeerRead(ok) => !ok,
        WorkerEvent::PendingWrite(_) => false,
        WorkerEvent::PeerWritten(ok) => !ok,
        WorkerEvent::EventsHandled(ok) => !ok,
    }
}

/// The worker loop of a redirection session: each turn stops at a quit request; polls
/// the stream and reads from the peer when data waits; writes to the peer when data is
/// pending; handles the USB events. Any failure ends the loop.
pub fn worker_step(event: WorkerEvent) -> (r: WorkerAction)
    ensures
        (r == WorkerAction::Stop) == worker_event_ends(event),
        r == match event {
            WorkerEvent::Begin { quit } => if quit {
                WorkerAction::Stop
            } else {
                WorkerAction::Poll
            },
            WorkerEvent::Polled(PollOutcome::Readable(true)) => WorkerAction::ReadPeer,
            WorkerEvent::Polled(PollOutcome::Readable(false)) => WorkerAction::CheckPendingWrite,
            WorkerEvent::Polled(_) => WorkerAction::Stop,
            WorkerEvent::PeerRead(ok) => if ok {
                WorkerAction::CheckPendingWrite
            } else {
                WorkerAction::Stop
            },
            WorkerEvent::PendingWrite(pending) => if pending {
                WorkerAction::WritePeer
            } else {
                WorkerAction::HandleEvents
            },
            WorkerEvent::PeerWritten(ok) => if ok {
                WorkerAction::HandleEvents
            } else {
                WorkerAction::Stop
            },
            WorkerEvent::EventsHandled(ok) => if ok {
                WorkerAction::NextTurn
            } else {
                WorkerAction::Stop
            },
        },
{
    match event {
        WorkerEvent::Begin { quit } => if quit {
            WorkerAction::Stop
        } else {
            WorkerAction::Poll
        },
        WorkerEvent::Polled(PollOutcome::Readable(true)) => WorkerAction::ReadPeer,
        WorkerEvent::Polled(PollOutcome::Readable(false)) => WorkerAction::CheckPendingWrite,
        WorkerEvent::Polled(_) => WorkerAction::Stop,
        WorkerEvent::PeerRead(ok) => if ok {
            WorkerAction::CheckPendingWrite
        } else {
            WorkerAction::Stop
        },
        WorkerEvent::PendingWrite(pending) => if pending {
            WorkerAction::WritePeer
        } else {
            WorkerAction::HandleEvents
        },
        WorkerEvent::PeerWritten(ok) => if ok {
            WorkerAction::HandleEvents
        } else {
            WorkerAction::Stop
        },
        WorkerEvent::EventsHandled(ok) => if ok {
            WorkerAction::NextTurn
        } else {
            WorkerAction::Stop
        },
    }
}

} // verus!
