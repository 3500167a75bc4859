//! Sound from the RDP server: the audio formats the client offers, their GStreamer
//! caps, and when the audio output is set up again.

use vstd::prelude::*;

use crate::text::push_decimal;

verus! {

/// The encoding of an audio format.
#[derive(Debug, PartialEq, Eq, Clone, Copy, Structural)]
pub enum WaveFormat {
    Pcm,
    Opus,
    /// Another encoding, by its format tag.
    Other(u16),
}

/// An audio format of the RDP sound channel.
#[derive(Clone, Debug)]
pub struct AudioFormat {
    pub format: WaveFormat,
    pub n_channels: u16,
    pub n_samples_per_sec: u32,
    pub n_avg_bytes_per_sec: u32,
    pub n_block_align: u16,
    pub bits_per_sample: u16,
    pub data: Option<Vec<u8>>,
}

/// The fields of an audio format, and whether it carries no extra data.
pub open spec fn audio_format_fields(f: AudioFormat) -> (WaveFormat, u16, u32, u32, u16, u16, bool) {
    (f.format, f.n_channels, f.n_samples_per_sec, f.n_avg_bytes_per_sec, f.n_block_align, f.bits_per_sample, f.data is None)
}

/// The formats the client offers, in its order of preference: 16-bit PCM in stereo at
/// 48 kHz, 44.1 kHz and 22.05 kHz, and in mono at 22.05 kHz; then Opus in stereo at
/// 48 kHz when it can be decoded.
pub open spec fn offered_formats(opus: bool) -> Seq<(WaveFormat, u16, u32, u32, u16, u16, bool)> {
    let pcm = seq![
        (WaveFormat::Pcm, 2u16, 48000u32, 192000u32, 4u16, 16u16, true),
        (WaveFormat::Pcm, 2u16, 44100u32, 176400u32, 4u16, 16u16, true),
        (WaveFormat::Pcm, 2u16, 22050u32, 88200u32, 4u16, 16u16, true),
        (WaveFormat::Pcm, 1u16, 22050u32, 44100u32, 2u16, 16u16, true),
    ];
    if opus {
        pcm.push((WaveFormat::Opus, 2u16, 48000u32, 192000u32, 4u16, 16u16, true))
    } else {
        pcm
    }
}

/// The format flag that says the client sets the volume (MS-RDPEA 2.2.2.1).
pub const TSSNDCAPS_VOLUME: u32 = 0x2;

/// The GStreamer caps of an audio format: raw little-endian interleaved samples for PCM,
/// Opus with the default channel mapping; none for other encodings.
pub open spec fn format_caps(f: AudioFormat) -> Option<Seq<char>> {
    match f.format {
        WaveFormat::Pcm => Some(
            "audio/x-raw,channels="@ + crate::text::decimal(f.n_channels as nat) + ",rate="@
                + crate::text::decimal(f.n_samples_per_sec as nat) + ",format=S"@ + crate::text::decimal(
                f.bits_per_sample as nat,
            ) + "LE,layout=interleaved"@,
        ),
        WaveFormat::Opus => Some(
            "audio/x-opus,channels="@ + crate::text::decimal(f.n_channels as nat) + ",rate="@
                + crate::text::decimal(f.n_samples_per_sec as nat) + ",channel-mapping-family=0"@,
        ),
        WaveFormat::Other(_) => None,
    }
}

fn pcm_format(n_channels: u16, rate: u32, avg: u32, align: u16) -> (r: AudioFormat)
    ensures
        audio_format_fields(r) == (WaveFormat::Pcm, n_channels, rate, avg, align, 16u16, true),
{
    AudioFormat {
        format: WaveFormat::Pcm,
        n_channels,
        n_samples_per_sec: rate,
        n_avg_bytes_per_sec: avg,
        n_block_align: align,
        bits_per_sample: 16,
        data: None,
    }
}

/// The GStreamer caps of an audio format.
pub fn format_to_caps(fmt: &AudioFormat) -> (r: Option<String>)
    ensures
        match format_caps(*fmt) {
            None => r is None,
            Some(c) => r matches Some(s) && s@ == c,
        },
{
    match fmt.format {
        WaveFormat::Pcm => {
            let mut s = String::from_str("audio/x-raw,channels=");
            push_decimal(&mut s, fmt.n_channels as u64);
            s.append(",rate=");
            push_decimal(&mut s, fmt.n_samples_per_sec as u64);
            s.append(",format=S");
            push_decimal(&mut s, fmt.bits_per_sample as u64);
            s.append("LE,layout=interleaved");
            Some(s)
        },
        WaveFormat::Opus => {
            let mut s = String::from_str("audio/x-opus,channels=");
            push_decimal(&mut s, fmt.n_channels as u64);
            s.append(",rate=");
            push_decimal(&mut s, fmt.n_samples_per_sec as u64);
            s.append(",channel-mapping-family=0");
            Some(s)
        },
        WaveFormat::Other(_) => None,
    }
}

/// What the audio output does with a wave of the server.
#[derive(Clone, Debug)]
pub enum WaveStart {
    /// The format is the one set up: the samples are written.
    Write,
    /// The output is closed and set up again with these caps, then enabled, and the
    /// samples are written (from the first of these steps that fails on, nothing is).
    Restart(String),
    /// The output is closed, and the samples are dropped: the format is unknown or has
    /// no caps.
    Stop,
}

/// An audio format with its extra data, as a value.
pub open spec fn format_value(f: AudioFormat) -> (WaveFormat, u16, u32, u32, u16, u16, Option<Seq<u8>>) {
    (
        f.format,
        f.n_channels,
        f.n_samples_per_sec,
        f.n_avg_bytes_per_sec,
        f.n_block_align,
        f.bits_per_sample,
        match f.data {
            Some(d) => Some(d@),
            None => None,
        },
    )
}

/// Audio formats as values.
pub open spec fn formats_value(s: Seq<AudioFormat>) -> Seq<(WaveFormat, u16, u32, u32, u16, u16, Option<Seq<u8>>)> {
    s.map_values(|f: AudioFormat| format_value(f))
}

/// How the stored format list changes: a stored list stays; without one, the list
/// offered for what can be decoded now is stored.
pub open spec fn formats_stored(old_formats: Option<Vec<AudioFormat>>, new_formats: Option<Vec<AudioFormat>>, opus: bool) -> bool {
    match old_formats {
        Some(_) => new_formats == old_formats,
        None => new_formats matches Some(v) && v@.map_values(|f: AudioFormat| audio_format_fields(f)) == offered_formats(opus),
    }
}

proof fn lemma_same_formats(a: Seq<AudioFormat>, b: Seq<AudioFormat>)
    requires
        formats_value(a) == formats_value(b),
    ensures
        a.len() == b.len(),
        forall|i: int| 0 <= i < a.len() ==> #[trigger] format_value(a[i]) == format_value(b[i]),
{
    assert(formats_value(a).len() == a.len());
    assert(formats_value(b).len() == b.len());
    assert forall|i: int| 0 <= i < a.len() implies #[trigger] format_value(a[i]) == format_value(b[i]) by {
        assert(formats_value(a)[i] == format_value(a[i]));
        assert(formats_value(b)[i] == format_value(b[i]));
    }
}

fn copy_format(f: &AudioFormat) -> (r: AudioFormat)
    ensures
        format_value(r) == format_value(*f),
{
    AudioFormat {
        format: f.format,
        n_channels: f.n_channels,
        n_samples_per_sec: f.n_samples_per_sec,
        n_avg_bytes_per_sec: f.n_avg_bytes_per_sec,
        n_block_align: f.n_block_align,
        bits_per_sample: f.bits_per_sample,
        data: match &f.data {
            Some(d) => Some(vstd::slice::slice_to_vec(d.as_slice())),
            None => None,
        },
    }
}

fn copy_formats(v: &Vec<AudioFormat>) -> (r: Vec<AudioFormat>)
    ensures
        formats_value(r@) == formats_value(v@),
{
    let mut out: Vec<AudioFormat> = Vec::new();
    let mut i: usize = 0;
    while i < v.len()
        invariant
            i <= v@.len(),
            formats_value(out@) == formats_value(v@.subrange(0, i as int)),
        decreases v@.len() - i,
    {
        let c = copy_format(&v[i]);
        let ghost before = out@;
        out.push(c);
        proof {
            assert(formats_value(out@) =~= formats_value(before).push(format_value(c)));
            assert(v@.subrange(0, i + 1) =~= v@.subrange(0, i as int).push(v@[i as int]));
            assert(formats_value(v@.subrange(0, i + 1)) =~= formats_value(v@.subrange(0, i as int)).push(
                format_value(v@[i as int]),
            ));
        }
        i = i + 1;
    }
    proof {
        assert(v@.subrange(0, v@.len() as int) =~= v@);
    }
    out
}

/// The formats offered to the server; Opus only when it can be decoded.
fn offered_format_list(can_decode_opus: bool) -> (r: Vec<AudioFormat>)
    ensures
        r@.map_values(|f: AudioFormat| audio_format_fields(f)) == offered_formats(can_decode_opus),
{
    let mut res: Vec<AudioFormat> = Vec::new();
    res.push(pcm_format(2, 48000, 192000, 4));
    res.push(pcm_format(2, 44100, 176400, 4));
    res.push(pcm_format(2, 22050, 88200, 4));
    res.push(pcm_format(1, 22050, 44100, 2));
    if can_decode_opus {
        res.push(
            AudioFormat {
                format: WaveFormat::Opus,
                n_channels: 2,
                n_samples_per_sec: 48000,
                n_avg_bytes_per_sec: 192000,
                n_block_align: 4,
                bits_per_sample: 16,
                data: None,
            },
        );
    }
    proof {
        assert(res@.map_values(|f: AudioFormat| audio_format_fields(f)) =~= offered_formats(can_decode_opus));
    }
    res
}

/// The sound channel's client: the number of the format the output is set up for, and
/// the format list once it is made.
#[derive(Debug)]
pub struct RdwSndBackend {
    pub format_no: Option<usize>,
    pub formats: Option<Vec<AudioFormat>>,
}

impl RdwSndBackend {
    /// No format set up yet, no format list made.
    pub fn new() -> (r: RdwSndBackend)
        ensures
            r.format_no is None,
            r.formats is None,
    {
        RdwSndBackend { format_no: None, formats: None }
    }

    /// The client sets the volume.
    pub fn get_flags(&self) -> (r: u32)
        ensures
            r == TSSNDCAPS_VOLUME,
    {
        TSSNDCAPS_VOLUME
    }

    /// The formats offered to the server. The list is made on the first call, with
    /// Opus only when it can be decoded then, and kept: every later call gives it
    /// unchanged, whatever can be decoded by then.
    pub fn get_formats(&mut self, can_decode_opus: bool) -> (r: Vec<AudioFormat>)
        ensures
            final(self).format_no == old(self).format_no,
            formats_stored(old(self).formats, final(self).formats, can_decode_opus),
            final(self).formats matches Some(v) && formats_value(r@) == formats_value(v@),
            old(self).formats is None ==> r@.map_values(|f: AudioFormat| audio_format_fields(f)) == offered_formats(
                can_decode_opus,
            ),
    {
        if self.formats.is_none() {
            self.formats = Some(offered_format_list(can_decode_opus));
        }
        let r = match &self.formats {
            Some(v) => copy_formats(v),
            None => Vec::new(),
        };
        proof {
            if old(self).formats is None {
                let v = self.formats->0;
                lemma_same_formats(r@, v@);
                assert forall|i: int| 0 <= i < r@.len() implies #[trigger] audio_format_fields(r@[i])
                    == audio_format_fields(v@[i]) by {
                    assert(format_value(r@[i]) == format_value(v@[i]));
                }
                assert(r@.map_values(|f: AudioFormat| audio_format_fields(f)) =~= v@.map_values(
                    |f: AudioFormat| audio_format_fields(f),
                ));
            }
        }
        r
    }

    /// A wave of the server in format number `format_no` of the offered formats: in the
    /// format set up, its samples are written; in another, that format is now the one
    /// set up, and the output restarts with its caps, or stops when the list has no such
    /// format or it has no caps.
    pub fn wave(&mut self, format_no: usize, can_decode_opus: bool) -> (r: WaveStart)
        ensures
            final(self).format_no == Some(format_no),
            old(self).format_no == Some(format_no) ==> r is Write && final(self).formats == old(self).formats,
            old(self).format_no != Some(format_no) ==> {
                &&& formats_stored(old(self).formats, final(self).formats, can_decode_opus)
                &&& final(self).formats matches Some(v) && if format_no < v@.len() {
                    match format_caps(v@[format_no as int]) {
                        Some(c) => r matches WaveStart::Restart(s) && s@ == c,
                        None => r is Stop,
                    }
                } else {
                    r is Stop
                }
            },
    {
        if self.format_no == Some(format_no) {
            return WaveStart::Write;
        }
        self.format_no = Some(format_no);
        let formats = self.get_formats(can_decode_opus);
        proof {
            lemma_same_formats(formats@, self.formats->0@);
        }
        if format_no >= formats.len() {
            return WaveStart::Stop;
        }
        proof {
            assert(format_value(formats@[format_no as int]) == format_value(self.formats->0@[format_no as int]));
        }
        match format_to_caps(&formats[format_no]) {
            Some(caps) => WaveStart::Restart(caps),
            None => WaveStart::Stop,
        }
    }
}

/// Every format offered to the server can be played: each has GStreamer caps.
pub proof fn law_offered_formats_have_caps(opus: bool, formats: Seq<AudioFormat>)
    requires
        formats.map_values(|f: AudioFormat| audio_format_fields(f)) == offered_formats(opus),
    ensures
        forall|i: int| 0 <= i < formats.len() ==> #[trigger] format_caps(formats[i]) is Some,
{
    let o = offered_formats(opus);
    assert(o[0].0 == WaveFormat::Pcm && o[1].0 == WaveFormat::Pcm && o[2].0 == WaveFormat::Pcm && o[3].0
        == WaveFormat::Pcm);
    assert(opus ==> o[4].0 == WaveFormat::Opus);
    assert forall|i: int| 0 <= i < formats.len() implies #[trigger] format_caps(formats[i]) is Some by {
        assert(formats.map_values(|f: AudioFormat| audio_format_fields(f))[i] == audio_format_fields(formats[i]));
        assert(formats.len() == o.len());
        assert(o.len() == (if opus { 5int } else { 4int }));
        if i == 0 {
        } else if i == 1 {
        } else if i == 2 {
        } else if i == 3 {
        } else {
            assert(i == 4 && opus);
        }
        assert(o[i].0 == WaveFormat::Pcm || o[i].0 == WaveFormat::Opus);
    }
}

} // verus!
