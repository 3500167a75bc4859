//! The launcher's decisions: which display a URI opens, on which host and port, which
//! credentials go to a VNC server, and the window's title.

use vstd::prelude::*;

use crate::text::{text_eq, text_starts_with};

verus! {

/// The URI opened when none is given.
pub fn default_uri() -> (r: String)
    ensures
        r@ == "vnc://localhost"@,
{
    String::from_str("vnc://localhost")
}

/// The URI to open for what was given: with the `vnc` scheme when it has none.
pub fn display_uri(uri: &str, has_scheme: bool) -> (r: String)
    ensures
        r@ == (if has_scheme {
            uri@
        } else {
            "vnc://"@ + uri@
        }),
{
    if has_scheme {
        String::from_str(uri)
    } else {
        let mut s = String::from_str("vnc://");
        s.append(uri);
        s
    }
}

/// The kind of display a URI opens.
#[derive(Debug, PartialEq, Eq, Clone, Copy, Structural)]
pub enum DisplayKind {
    Vnc,
    Rdp,
    Spice,
}

/// The kind of display for a URI scheme: `vnc`, `rdp`, and the schemes that begin with
/// `spice`; none for the others.
pub open spec fn spec_display_kind(scheme: Seq<char>) -> Option<DisplayKind> {
    if scheme == "vnc"@ {
        Some(DisplayKind::Vnc)
    } else if scheme == "rdp"@ {
        Some(DisplayKind::Rdp)
    } else if "spice"@.len() <= scheme.len() && scheme.subrange(0, "spice"@.len() as int) == "spice"@ {
        Some(DisplayKind::Spice)
    } else {
        None
    }
}

/// The kind of display for a URI scheme.
pub fn display_kind(scheme: &str) -> (r: Option<DisplayKind>)
    ensures
        r == spec_display_kind(scheme@),
{
    if text_eq(scheme, "vnc") {
        Some(DisplayKind::Vnc)
    } else if text_eq(scheme, "rdp") {
        Some(DisplayKind::Rdp)
    } else if text_starts_with(scheme, "spice") {
        Some(DisplayKind::Spice)
    } else {
        None
    }
}

/// The port a display connects to: the URI's, or the protocol's own when the URI has
/// none (-1): 3389 for RDP, 5900 for the others.
pub fn display_port(kind: DisplayKind, uri_port: i32) -> (r: i32)
    ensures
        r == (if uri_port == -1 {
            if kind == DisplayKind::Rdp {
                3389i32
            } else {
                5900i32
            }
        } else {
            uri_port
        }),
{
    if uri_port == -1 {
        match kind {
            DisplayKind::Rdp => 3389,
            _ => 5900,
        }
    } else {
        uri_port
    }
}

/// The host a display connects to: the URI's, or `localhost`.
pub fn display_host(host: Option<String>) -> (r: String)
    ensures
        r@ == (match host {
            Some(h) => h@,
            None => "localhost"@,
        }),
{
    match host {
        Some(h) => h,
        None => String::from_str("localhost"),
    }
}

/// A credential a VNC server asks for.
#[derive(Debug, PartialEq, Eq, Clone, Copy, Structural)]
pub enum VncCredential {
    Username,
    Password,
    Clientname,
}

/// Whether the credentials dialog asks for a username and for a password.
pub fn credential_fields(creds: &[VncCredential]) -> (r: (bool, bool))
    ensures
        r == (creds@.contains(VncCredential::Username), creds@.contains(VncCredential::Password)),
{
    let mut user = false;
    let mut pass = false;
    let mut i: usize = 0;
    while i < creds.len()
        invariant
            i <= creds@.len(),
            user == creds@.subrange(0, i as int).contains(VncCredential::Username),
            pass == creds@.subrange(0, i as int).contains(VncCredential::Password),
        decreases creds@.len() - i,
    {
        proof {
            let s = creds@.subrange(0, i + 1);
            assert(s =~= creds@.subrange(0, i as int).push(creds@[i as int]));
            if s.contains(VncCredential::Username) && !creds@.subrange(0, i as int).contains(VncCredential::Username) {
                let k = choose|k: int| 0 <= k < s.len() && s[k] == VncCredential::Username;
                if k < i {
                    assert(creds@.subrange(0, i as int)[k] == VncCredential::Username);
                }
            }
            if s.contains(VncCredential::Password) && !creds@.subrange(0, i as int).contains(VncCredential::Password) {
                let k = choose|k: int| 0 <= k < s.len() && s[k] == VncCredential::Password;
                if k < i {
                    assert(creds@.subrange(0, i as int)[k] == VncCredential::Password);
                }
            }
            if creds@.subrange(0, i as int).contains(VncCredential::Username) {
                let k = choose|k: int| 0 <= k < i && creds@.subrange(0, i as int)[k] == VncCredential::Username;
                assert(s[k] == VncCredential::Username);
            }
            if creds@.subrange(0, i as int).contains(VncCredential::Password) {
                let k = choose|k: int| 0 <= k < i && creds@.subrange(0, i as int)[k] == VncCredential::Password;
                assert(s[k] == VncCredential::Password);
            }
            if creds@[i as int] == VncCredential::Username {
                assert(s[i as int] == VncCredential::Username);
            }
            if creds@[i as int] == VncCredential::Password {
                assert(s[i as int] == VncCredential::Password);
            }
        }
        match creds[i] {
            VncCredential::Username => {
                user = true;
            },
            VncCredential::Password => {
                pass = true;
            },
            VncCredential::Clientname => {},
        }
        i = i + 1;
    }
    proof {
        assert(creds@.subrange(0, creds@.len() as int) =~= creds@);
    }
    (user, pass)
}

/// The credential given for `cred`: the username and password entered, and `rdw-vnc`
/// as client name.
pub open spec fn credential_entry(
    entry: (VncCredential, String),
    cred: VncCredential,
    username: Seq<char>,
    password: Seq<char>,
) -> bool {
    &&& entry.0 == cred
    &&& entry.1@ == match cred {
        VncCredential::Username => username,
        VncCredential::Password => password,
        VncCredential::Clientname => "rdw-vnc"@,
    }
}

/// The credentials given to a VNC server, in the order it asked: the username and
/// password entered, and `rdw-vnc` as client name.
pub fn vnc_credentials(creds: &[VncCredential], username: &str, password: &str) -> (r: Vec<(VncCredential, String)>)
    ensures
        r@.len() == creds@.len(),
        forall|i: int| 0 <= i < creds@.len() ==> credential_entry(#[trigger] r@[i], creds@[i], username@, password@),
{
    let mut out: Vec<(VncCredential, String)> = Vec::new();
    let mut i: usize = 0;
    while i < creds.len()
        invariant
            i <= creds@.len(),
            out@.len() == i,
            forall|k: int| 0 <= k < i ==> credential_entry(#[trigger] out@[k], creds@[k], username@, password@),
        decreases creds@.len() - i,
    {
        let c = creds[i];
        let value = match c {
            VncCredential::Username => String::from_str(username),
            VncCredential::Password => String::from_str(password),
            VncCredential::Clientname => String::from_str("rdw-vnc"),
        };
        let ghost before = out@;
        out.push((c, value));
        proof {
            assert(forall|k: int| 0 <= k < i ==> out@[k] == before[k]);
            assert(credential_entry(out@[i as int], creds@[i as int], username@, password@));
        }
        i = i + 1;
    }
    out
}

/// The credentials entered, when the dialog was answered with `ok`.
pub fn credentials_response(response: &str, username: String, password: String) -> (r: Option<(String, String)>)
    ensures
        response@ == "ok"@ ==> (r matches Some((u, p)) && u@ == username@ && p@ == password@),
        response@ != "ok"@ ==> r is None,
{
    if text_eq(response, "ok") {
        Some((username, password))
    } else {
        None
    }
}

/// The window's title: the launcher's name, and while the display grabs input, the
/// shortcut that ungrabs it.
pub fn window_title(grabbed: bool, shortcut_label: &str) -> (r: String)
    ensures
        r@ == (if grabbed {
            "rdw demo - "@ + shortcut_label@
        } else {
            "rdw demo"@
        }),
{
    let mut title = String::from_str("rdw demo");
    if grabbed {
        title.append(" - ");
        title.append(shortcut_label);
        proof {
            reveal_strlit("rdw demo");
            reveal_strlit(" - ");
            reveal_strlit("rdw demo - ");
            assert(title@ =~= "rdw demo - "@ + shortcut_label@);
        }
    }
    title
}

/// A scheme opens a VNC display when it is `vnc`, an RDP display when it is `rdp`, and a
/// Spice display whenever it begins with the letters `spice`, `spice` itself included;
/// any other scheme opens none.
pub proof fn law_display_kind_by_scheme(scheme: Seq<char>)
    ensures
        scheme =~= seq!['v', 'n', 'c'] ==> spec_display_kind(scheme) == Some(DisplayKind::Vnc),
        scheme =~= seq!['r', 'd', 'p'] ==> spec_display_kind(scheme) == Some(DisplayKind::Rdp),
        starts_with_spice_letters(scheme) ==> spec_display_kind(scheme) == Some(DisplayKind::Spice),
        !(scheme =~= seq!['v', 'n', 'c']) && !(scheme =~= seq!['r', 'd', 'p'])
            && !starts_with_spice_letters(scheme) ==> spec_display_kind(scheme) is None,
{
    reveal_strlit("vnc");
    reveal_strlit("rdp");
    reveal_strlit("spice");
    assert("vnc"@ =~= seq!['v', 'n', 'c']);
    assert("rdp"@ =~= seq!['r', 'd', 'p']);
    if starts_with_spice_letters(scheme) {
        assert(scheme.subrange(0, 5) =~= "spice"@);
    }
    if "spice"@.len() <= scheme.len() && scheme.subrange(0, "spice"@.len() as int) == "spice"@ {
        assert(scheme[0] == scheme.subrange(0, 5)[0]);
        assert(scheme[1] == scheme.subrange(0, 5)[1]);
        assert(scheme[2] == scheme.subrange(0, 5)[2]);
        assert(scheme[3] == scheme.subrange(0, 5)[3]);
        assert(scheme[4] == scheme.subrange(0, 5)[4]);
    }
}

/// Whether a text begins with the five letters s, p, i, c, e.
pub open spec fn starts_with_spice_letters(s: Seq<char>) -> bool {
    &&& s.len() >= 5
    &&& s[0] == 's'
    &&& s[1] == 'p'
    &&& s[2] == 'i'
    &&& s[3] == 'c'
    &&& s[4] == 'e'
}

} // verus!
