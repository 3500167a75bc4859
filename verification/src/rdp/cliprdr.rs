//! The RDP clipboard channel: which clipboard formats stand for which MIME types, and
//! what the client answers the server's clipboard messages.

use vstd::prelude::*;

use crate::rdp::util::string_from_utf16;
use crate::text::text_eq;

verus! {

/// Clipboard format of plain text in the ANSI code page.
pub const CF_TEXT: u32 = 1;
/// Clipboard format of plain text in the OEM code page.
pub const CF_OEMTEXT: u32 = 7;
/// Clipboard format of a device independent bitmap.
pub const CF_DIB: u32 = 8;
/// Clipboard format of UTF-16 text.
pub const CF_UNICODETEXT: u32 = 13;
/// Clipboard format of a version 5 device independent bitmap.
pub const CF_DIBV5: u32 = 17;

/// A clipboard format of the RDP clipboard channel: a format id and, for a format that
/// the id alone does not name, a name.
#[derive(Clone, Debug)]
pub struct ClipboardFormat {
    pub id: u32,
    pub name: Option<String>,
}

impl View for ClipboardFormat {
    type V = (u32, Option<Seq<char>>);

    open spec fn view(&self) -> (u32, Option<Seq<char>>) {
        (
            self.id,
            match self.name {
                Some(n) => Some(n@),
                None => None,
            },
        )
    }
}

/// The views of clipboard formats.
pub open spec fn format_views(fs: Seq<ClipboardFormat>) -> Seq<(u32, Option<Seq<char>>)> {
    fs.map_values(|f: ClipboardFormat| f@)
}

/// Whether a MIME type is one of the local names of plain text.
pub open spec fn is_text_mime(mime: Seq<char>) -> bool {
    ||| mime == "text/plain"@
    ||| mime == "text/plain;charset=utf-8"@
    ||| mime == "UTF8_STRING"@
    ||| mime == "TEXT"@
    ||| mime == "STRING"@
}

/// The clipboard format offered for a MIME type: UTF-16 text for plain text, else a
/// format without id named by the MIME type.
pub open spec fn mime_format(mime: Seq<char>) -> (u32, Option<Seq<char>>) {
    if is_text_mime(mime) {
        (CF_UNICODETEXT, None)
    } else {
        (0u32, Some(mime))
    }
}

/// The formats offered for a list of MIME types, each run of equal formats kept once.
pub open spec fn formats_for_mimes(mimes: Seq<Seq<char>>) -> Seq<(u32, Option<Seq<char>>)> {
    crate::seqs::dedup_adjacent(mimes.map_values(|m: Seq<char>| mime_format(m)))
}

/// The MIME type under which a clipboard format id is offered locally, if any.
pub open spec fn mime_for_id(id: u32) -> Option<Seq<char>> {
    if id == CF_TEXT || id == CF_OEMTEXT || id == CF_UNICODETEXT {
        Some("text/plain;charset=utf-8"@)
    } else if id == CF_DIB || id == CF_DIBV5 {
        Some("image/bmp"@)
    } else {
        None
    }
}

/// Whether two clipboard formats are equal.
pub fn same_format(a: &ClipboardFormat, b: &ClipboardFormat) -> (r: bool)
    ensures
        r == (a@ == b@),
{
    if a.id != b.id {
        return false;
    }
    match (&a.name, &b.name) {
        (Some(x), Some(y)) => text_eq(x.as_str(), y.as_str()),
        (None, None) => true,
        _ => false,
    }
}

/// The clipboard format offered to the server for a local MIME type.
pub fn rdp_clipboard_format(mime: &str) -> (r: ClipboardFormat)
    ensures
        r@ == mime_format(mime@),
{
    if text_eq(mime, "text/plain") || text_eq(mime, "text/plain;charset=utf-8") || text_eq(
        mime,
        "UTF8_STRING",
    ) || text_eq(mime, "TEXT") || text_eq(mime, "STRING") {
        ClipboardFormat { id: CF_UNICODETEXT, name: None }
    } else {
        ClipboardFormat { id: 0, name: Some(String::from_str(mime)) }
    }
}

/// The clipboard formats offered to the server for the MIME types of the local
/// clipboard, in their order, each run of equal formats kept once.
pub fn rdp_clipboard_formats(mimes: &[String]) -> (r: Vec<ClipboardFormat>)
    ensures
        format_views(r@) == formats_for_mimes(mimes@.map_values(|m: String| m@)),
{
    let ghost ms = mimes@.map_values(|m: String| m@);
    let mut out: Vec<ClipboardFormat> = Vec::new();
    let mut i: usize = 0;
    while i < mimes.len()
        invariant
            i <= mimes@.len(),
            ms == mimes@.map_values(|m: String| m@),
            format_views(out@) == formats_for_mimes(ms.subrange(0, i as int)),
        decreases mimes@.len() - i,
    {
        let f = rdp_clipboard_format(mimes[i].as_str());
        let ghost prev = format_views(out@);
        let ghost head = ms.subrange(0, i as int).map_values(|m: Seq<char>| mime_format(m));
        proof {
            assert(ms.subrange(0, i + 1).map_values(|m: Seq<char>| mime_format(m)) =~= head.push(
                mime_format(ms[i as int]),
            ));
            crate::seqs::lemma_dedup_adjacent_push(head, mime_format(ms[i as int]));
            assert(ms[i as int] == mimes@[i as int]@);
        }
        let n = out.len();
        let dup = if n > 0 {
            same_format(&out[n - 1], &f)
        } else {
            false
        };
        if !dup {
            out.push(f);
            proof {
                assert(format_views(out@) =~= prev.push(f@));
            }
        } else {
            proof {
                assert(prev.last() == out@[n - 1]@);
            }
        }
        i = i + 1;
    }
    proof {
        assert(ms.subrange(0, mimes@.len() as int) =~= ms);
    }
    out
}

/// The local MIME type of a clipboard format id: UTF-8 text for the text formats, a
/// bitmap for the bitmap formats, none for the others.
pub fn rdp_clipboard_mime_from_id(id: u32) -> (r: Option<&'static str>)
    ensures
        match r {
            Some(s) => mime_for_id(id) == Some(s@),
            None => mime_for_id(id) is None,
        },
{
    if id == CF_TEXT || id == CF_OEMTEXT || id == CF_UNICODETEXT {
        Some("text/plain;charset=utf-8")
    } else if id == CF_DIB || id == CF_DIBV5 {
        Some("image/bmp")
    } else {
        None
    }
}

/// The local MIME type of a clipboard format, by its id.
pub fn rdp_clipboard_mime(format: &ClipboardFormat) -> (r: Option<&'static str>)
    ensures
        match r {
            Some(s) => mime_for_id(format.id) == Some(s@),
            None => mime_for_id(format.id) is None,
        },
{
    rdp_clipboard_mime_from_id(format.id)
}

/// The clipboard data that a paste of `format` delivers locally, from the server's
/// data: UTF-16 text becomes UTF-8 text (`None` when it holds an unpaired surrogate);
/// other formats are delivered as they came.
pub open spec fn pasted_data(format: u32, data: Seq<u8>) -> Option<Seq<u8>> {
    if format == CF_UNICODETEXT {
        match crate::rdp::util::utf16_decode(crate::rdp::util::utf16_units_from_le(data)) {
            Some(text) => Some(vstd::utf8::encode_utf8(text)),
            None => None,
        }
    } else {
        Some(data)
    }
}

/// The format of the paste that waits for the server's data, if one does.
#[derive(Clone, Copy, Debug)]
pub struct PasteProgress {
    pub pending: Option<u32>,
}

impl PasteProgress {
    /// No paste waits.
    pub fn new() -> (r: PasteProgress)
        ensures
            r.pending is None,
    {
        PasteProgress { pending: None }
    }

    /// A paste of `format_id` now waits.
    pub fn set(&mut self, format_id: u32)
        ensures
            final(self).pending == Some(format_id),
    {
        self.pending = Some(format_id);
    }

    /// Ends the wait, and gives the format that was waited for.
    pub fn take(&mut self) -> (r: Option<u32>)
        ensures
            r == old(self).pending,
            final(self).pending is None,
    {
        let r = self.pending;
        self.pending = None;
        r
    }

    /// Whether a paste waits.
    pub fn is_some(&self) -> (r: bool)
        ensures
            r == self.pending is Some,
    {
        self.pending.is_some()
    }
}

/// A message of the clipboard channel to the display.
#[derive(Clone, Debug)]
pub enum ClipboardMessage {
    /// The server copied data in these formats.
    SendInitiateCopy(Vec<ClipboardFormat>),
    /// The server pastes, in this format.
    SendInitiatePaste(u32),
    /// The display answers a paste of the server: the data, or `None` for an error.
    SendFormatData(Option<Vec<u8>>),
    /// The clipboard channel failed.
    Error(String),
}

/// The client side of the clipboard channel. The paste that waits for the server's
/// data is shared with the display, which starts it.
#[derive(Clone, Copy, Debug)]
pub struct CbBackend {
    pub ready: bool,
}

impl CbBackend {
    /// A channel that is not ready yet.
    pub fn new() -> (r: CbBackend)
        ensures
            !r.ready,
    {
        CbBackend { ready: false }
    }

    /// The directory of file transfers.
    pub fn temporary_directory(&self) -> (r: &'static str)
        ensures
            r@ == ".cliprdr"@,
    {
        ".cliprdr"
    }

    /// The channel is ready.
    pub fn on_ready(&mut self)
        ensures
            final(self).ready,
    {
        self.ready = true;
    }

    /// The server copied: the display is told the formats offered.
    pub fn on_remote_copy(&self, available_formats: &[ClipboardFormat]) -> (r: ClipboardMessage)
        ensures
            r matches ClipboardMessage::SendInitiateCopy(v) && format_views(v@) == format_views(available_formats@),
    {
        let mut v: Vec<ClipboardFormat> = Vec::new();
        let mut i: usize = 0;
        while i < available_formats.len()
            invariant
                i <= available_formats@.len(),
                format_views(v@) == format_views(available_formats@.subrange(0, i as int)),
            decreases available_formats@.len() - i,
        {
            let f = &available_formats[i];
            let c = ClipboardFormat {
                id: f.id,
                name: match &f.name {
                    Some(n) => Some(String::from_str(n.as_str())),
                    None => None,
                },
            };
            let ghost old_v = v@;
            proof {
                assert(c@ == available_formats@[i as int]@);
            }
            v.push(c);
            proof {
                let a = available_formats@;
                assert(format_views(v@) =~= format_views(old_v).push(c@));
                assert(a.subrange(0, i + 1) =~= a.subrange(0, i as int).push(a[i as int]));
                assert(format_views(a.subrange(0, i + 1)) =~= format_views(a.subrange(0, i as int)).push(
                    a[i as int]@,
                ));
            }
            i = i + 1;
        }
        proof {
            assert(available_formats@.subrange(0, available_formats@.len() as int) =~= available_formats@);
        }
        ClipboardMessage::SendInitiateCopy(v)
    }

    /// The server asks for the clipboard's data in a format: the display is told to
    /// paste it.
    pub fn on_format_data_request(&self, format: u32) -> (r: ClipboardMessage)
        ensures
            r matches ClipboardMessage::SendInitiatePaste(f) && f == format,
    {
        ClipboardMessage::SendInitiatePaste(format)
    }

    /// The server sent the data of a paste: when a paste waits, it ends and its data is
    /// delivered (`None` when it is UTF-16 text that does not decode); without a paste
    /// waiting nothing is delivered.
    pub fn on_format_data_response(&self, paste: &mut PasteProgress, data: &[u8]) -> (r: Option<Vec<u8>>)
        ensures
            final(paste).pending is None,
            match old(paste).pending {
                None => r is None,
                Some(format) => match pasted_data(format, data@) {
                    None => r is None,
                    Some(d) => r matches Some(v) && v@ == d,
                },
            },
    {
        let format = match paste.take() {
            Some(f) => f,
            None => return None,
        };
        if format == CF_UNICODETEXT {
            match string_from_utf16(data) {
                Ok(res) => Some(res.as_str().as_bytes_vec()),
                Err(_) => None,
            }
        } else {
            Some(vstd::slice::slice_to_vec(data))
        }
    }
}

/// The formats offered for the local MIME types are exactly the formats of those MIME
/// types, and no format is offered twice in a row.
pub proof fn law_offered_formats_match_mimes(mimes: Seq<Seq<char>>)
    ensures
        crate::seqs::same_items(mimes.map_values(|m: Seq<char>| mime_format(m)), formats_for_mimes(mimes)),
        forall|i: int|
            0 <= i < formats_for_mimes(mimes).len() - 1 ==> #[trigger] formats_for_mimes(mimes)[i]
                != formats_for_mimes(mimes)[i + 1],
{
    let s = mimes.map_values(|m: Seq<char>| mime_format(m));
    crate::seqs::lemma_dedup_adjacent_same_items(s);
    crate::seqs::lemma_dedup_adjacent_no_repeats(s);
}

} // verus!
