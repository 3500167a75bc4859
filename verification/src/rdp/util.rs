//! Text conversions of the RDP clipboard format `CF_UNICODETEXT`: little-endian UTF-16.

use vstd::prelude::*;

use std::string::FromUtf16Error;

verus! {

#[verifier::external_type_specification]
#[verifier::external_body]
pub struct ExFromUtf16Error(FromUtf16Error);

/// The UTF-16 code units of a character: one unit below U+10000, else a surrogate pair.
pub open spec fn utf16_encode_char(c: char) -> Seq<u16> {
    let v = c as u32;
    if v < 0x10000 {
        seq![v as u16]
    } else {
        let u = v - 0x10000;
        seq![(0xD800 + u / 0x400) as u16, (0xDC00 + u % 0x400) as u16]
    }
}

/// The UTF-16 code units of a text.
pub open spec fn utf16_encode(chars: Seq<char>) -> Seq<u16>
    decreases chars.len(),
{
    if chars.len() == 0 {
        seq![]
    } else {
        utf16_encode_char(chars[0]) + utf16_encode(chars.drop_first())
    }
}

/// The text that UTF-16 code units encode, or `None` when a surrogate is unpaired.
pub open spec fn utf16_decode(units: Seq<u16>) -> Option<Seq<char>>
    decreases units.len(),
{
    if units.len() == 0 {
        Some(seq![])
    } else {
        let a = units[0];
        if a < 0xD800 || a >= 0xE000 {
            match utf16_decode(units.drop_first()) {
                Some(t) => Some(seq![(a as u32) as char] + t),
                None => None,
            }
        } else if a < 0xDC00 && units.len() >= 2 && 0xDC00 <= units[1] < 0xE000 {
            let v = 0x10000 + (a - 0xD800) * 0x400 + (units[1] - 0xDC00);
            match utf16_decode(units.subrange(2, units.len() as int)) {
                Some(t) => Some(seq![(v as u32) as char] + t),
                None => None,
            }
        } else {
            None
        }
    }
}

/// The little-endian bytes of UTF-16 code units.
pub open spec fn utf16_le_bytes(units: Seq<u16>) -> Seq<u8>
    decreases units.len(),
{
    if units.len() == 0 {
        seq![]
    } else {
        seq![(units[0] % 256) as u8, (units[0] / 256) as u8] + utf16_le_bytes(units.drop_first())
    }
}

/// The code units of little-endian bytes, two bytes each; a trailing odd byte is dropped.
pub open spec fn utf16_units_from_le(bytes: Seq<u8>) -> Seq<u16> {
    Seq::new(
        bytes.len() / 2,
        |i: int| (bytes[2 * i] as int + bytes[2 * i + 1] as int * 256) as u16,
    )
}

/// Whether `n` is the length of the longest prefix of `bytes` that is UTF-8.
pub open spec fn longest_utf8_prefix(bytes: Seq<u8>, n: int) -> bool {
    &&& 0 <= n <= bytes.len()
    &&& vstd::utf8::valid_utf8(bytes.subrange(0, n))
    &&& forall|m: int| n < m <= bytes.len() ==> !vstd::utf8::valid_utf8(#[trigger] bytes.subrange(0, m))
}

/// Calls `std::str::from_utf8`, which checks that the bytes are UTF-8 and, when they
/// are, gives them as a string slice without copying: its characters are the UTF-8
/// decoding of the input. On failure the error is given by its `valid_up_to`, which
/// std documents as the largest index up to which the input is UTF-8, and its
/// `error_len`: the length of the invalid sequence found there, or none when the input
/// ends in the middle of a character. Which bytes make that invalid sequence is not
/// stated here, only that it lies within the input.
#[verifier::external_body]
fn str_from_utf8(data: &[u8]) -> (r: Result<&str, (usize, Option<usize>)>)
    ensures
        r is Ok <==> vstd::utf8::valid_utf8(data@),
        r matches Ok(s) ==> s@ == vstd::utf8::decode_utf8(data@),
        r matches Err((n, _)) ==> longest_utf8_prefix(data@, n as int),
        r matches Err((n, Some(len))) ==> 1 <= len && n + len <= data@.len(),
{
    match std::str::from_utf8(data) {
        Ok(s) => Ok(s),
        Err(e) => Err((e.valid_up_to(), e.error_len())),
    }
}

/// Bytes that are not UTF-8: the length of their longest UTF-8 prefix, and the length
/// of the invalid sequence after it (none when the bytes end in the middle of a
/// character).
#[derive(Debug, PartialEq, Eq, Clone, Copy, Structural)]
pub struct InvalidUtf8 {
    pub valid_up_to: usize,
    pub error_len: Option<usize>,
}

impl InvalidUtf8 {
    /// The length of the longest prefix of the bytes that is UTF-8.
    pub fn valid_up_to(&self) -> (r: usize)
        ensures
            r == self.valid_up_to,
    {
        self.valid_up_to
    }

    /// The length of the invalid sequence after the UTF-8 prefix; none when the bytes
    /// end in the middle of a character.
    pub fn error_len(&self) -> (r: Option<usize>)
        ensures
            r == self.error_len,
    {
        self.error_len
    }
}

/// Calls `String::from_utf16`, which decodes UTF-16 code units, and fails on an unpaired
/// surrogate.
#[verifier::external_body]
fn string_from_utf16_units(units: &[u16]) -> (r: Result<String, FromUtf16Error>)
    ensures
        r is Ok <==> utf16_decode(units@) is Some,
        r matches Ok(s) ==> s@ == utf16_decode(units@).unwrap(),
{
    String::from_utf16(units)
}

proof fn lemma_utf16_encode_push(chars: Seq<char>, c: char)
    ensures
        utf16_encode(chars.push(c)) == utf16_encode(chars) + utf16_encode_char(c),
    decreases chars.len(),
{
    if chars.len() == 0 {
        assert(chars.push(c).drop_first() =~= Seq::<char>::empty());
        assert(utf16_encode(chars.push(c).drop_first()) == Seq::<u16>::empty());
        assert(utf16_encode(chars) == Seq::<u16>::empty());
        assert(utf16_encode(chars.push(c)) =~= utf16_encode_char(c));
    } else {
        lemma_utf16_encode_push(chars.drop_first(), c);
        assert(chars.push(c).drop_first() =~= chars.drop_first().push(c));
        assert(utf16_encode(chars.push(c)) =~= utf16_encode(chars) + utf16_encode_char(c));
    }
}

proof fn lemma_utf16_le_bytes_push(units: Seq<u16>, u: u16)
    ensures
        utf16_le_bytes(units.push(u)) == utf16_le_bytes(units) + seq![(u % 256) as u8, (u / 256) as u8],
    decreases units.len(),
{
    if units.len() == 0 {
        assert(units.push(u).drop_first() =~= Seq::<u16>::empty());
        assert(utf16_le_bytes(units.push(u).drop_first()) == Seq::<u8>::empty());
        assert(utf16_le_bytes(units) == Seq::<u8>::empty());
        assert(utf16_le_bytes(units.push(u)) =~= seq![(u % 256) as u8, (u / 256) as u8]);
    } else {
        lemma_utf16_le_bytes_push(units.drop_first(), u);
        assert(units.push(u).drop_first() =~= units.drop_first().push(u));
        assert(utf16_le_bytes(units.push(u)) =~= utf16_le_bytes(units) + seq![(u % 256) as u8, (u / 256) as u8]);
    }
}

proof fn lemma_utf16_le_bytes_concat(a: Seq<u16>, b: Seq<u16>)
    ensures
        utf16_le_bytes(a + b) == utf16_le_bytes(a) + utf16_le_bytes(b),
    decreases a.len(),
{
    if a.len() == 0 {
        assert(a + b =~= b);
        assert(utf16_le_bytes(a) =~= seq![]);
        assert(utf16_le_bytes(a) + utf16_le_bytes(b) =~= utf16_le_bytes(b));
    } else {
        lemma_utf16_le_bytes_concat(a.drop_first(), b);
        assert((a + b).drop_first() =~= a.drop_first() + b);
        assert(utf16_le_bytes(a + b) =~= utf16_le_bytes(a) + utf16_le_bytes(b));
    }
}

/// Byte `j` of the little-endian bytes of code units.
pub open spec fn le_byte(units: Seq<u16>, j: int) -> u8 {
    if j % 2 == 0 {
        (units[j / 2] % 256) as u8
    } else {
        (units[j / 2] / 256) as u8
    }
}

proof fn lemma_utf16_le_bytes_index(units: Seq<u16>)
    ensures
        utf16_le_bytes(units).len() == 2 * units.len(),
        forall|j: int| 0 <= j < 2 * units.len() ==> #[trigger] utf16_le_bytes(units)[j] == le_byte(units, j),
    decreases units.len(),
{
    if units.len() > 0 {
        let t = units.drop_first();
        lemma_utf16_le_bytes_index(t);
        let b = utf16_le_bytes(units);
        let head = seq![(units[0] % 256) as u8, (units[0] / 256) as u8];
        assert(b == head + utf16_le_bytes(t));
        assert forall|j: int| 0 <= j < 2 * units.len() implies #[trigger] b[j] == le_byte(units, j) by {
            if j < 2 {
                assert(b[j] == head[j]);
            } else {
                assert(b[j] == utf16_le_bytes(t)[j - 2]);
                assert((j - 2) / 2 == j / 2 - 1);
                assert((j - 2) % 2 == j % 2);
                assert(t[j / 2 - 1] == units[j / 2]);
            }
        }
    } else {
        assert(utf16_le_bytes(units) == Seq::<u8>::empty());
    }
}

/// The code units of the little-endian bytes of `units`, with one more byte after them,
/// are `units`.
pub proof fn lemma_utf16_units_from_le_bytes(units: Seq<u16>, extra: u8)
    ensures
        utf16_units_from_le(utf16_le_bytes(units).push(extra)) == units,
{
    lemma_utf16_le_bytes_index(units);
    let b = utf16_le_bytes(units).push(extra);
    assert(b.len() / 2 == units.len());
    assert forall|i: int| 0 <= i < units.len() implies #[trigger] utf16_units_from_le(b)[i] == units[i] by {
        assert(b[2 * i] == utf16_le_bytes(units)[2 * i]);
        assert(b[2 * i + 1] == utf16_le_bytes(units)[2 * i + 1]);
        assert(utf16_le_bytes(units)[2 * i] == le_byte(units, 2 * i));
        assert(utf16_le_bytes(units)[2 * i + 1] == le_byte(units, 2 * i + 1));
        assert((2 * i) / 2 == i && (2 * i) % 2 == 0 && (2 * i + 1) / 2 == i && (2 * i + 1) % 2 == 1);
        let u = units[i];
        assert((((u % 256) as u8) as int + ((u / 256) as u8) as int * 256) as u16 == u);
    }
    assert(utf16_units_from_le(b) =~= units);
}

/// Decoding the UTF-16 encoding of a text gives the text back.
pub proof fn lemma_utf16_decode_encode(chars: Seq<char>)
    ensures
        utf16_decode(utf16_encode(chars)) == Some(chars),
    decreases chars.len(),
{
    if chars.len() > 0 {
        let c = chars[0];
        let rest = chars.drop_first();
        lemma_utf16_decode_encode(rest);
        let e = utf16_encode(chars);
        let v = c as u32;
        vstd::utf8::char_is_scalar(c);
        vstd::utf8::char_u32_cast(c, v);
        assert(vstd::utf8::is_scalar(v));
        if v < 0x10000 {
            assert(e =~= seq![v as u16] + utf16_encode(rest));
            assert(e.drop_first() =~= utf16_encode(rest));
            assert(((v as u16) as u32) == v);
            assert(((v as u16) as u32) as char == c);
            assert(seq![c] + rest =~= chars);
        } else {
            let u = v - 0x10000;
            let a = (0xD800 + u / 0x400) as u16;
            let b = (0xDC00 + u % 0x400) as u16;
            assert(e =~= seq![a, b] + utf16_encode(rest));
            assert(e.subrange(2, e.len() as int) =~= utf16_encode(rest));
            assert(0x10000 + (a - 0xD800) * 0x400 + (b - 0xDC00) == v);
            assert(seq![c] + rest =~= chars);
        }
    } else {
        assert(utf16_encode(chars) =~= seq![]);
        assert(chars =~= seq![]);
    }
}

/// Formats a string from the RDP ClipboardFormatId CF_UNICODETEXT: the data is read as
/// little-endian UTF-16 code units (a trailing odd byte is dropped) and decoded; an
/// unpaired surrogate is an error.
pub fn string_from_utf16(data: &[u8]) -> (r: Result<String, FromUtf16Error>)
    ensures
        r is Ok <==> utf16_decode(utf16_units_from_le(data@)) is Some,
        r matches Ok(s) ==> s@ == utf16_decode(utf16_units_from_le(data@)).unwrap(),
{
    let dlen = data.len();
    let n = dlen / 2;
    let mut units: Vec<u16> = Vec::new();
    let mut i: usize = 0;
    while i < n
        invariant
            dlen == data@.len(),
            n == data@.len() / 2,
            i <= n,
            units@ == utf16_units_from_le(data@).subrange(0, i as int),
        decreases n - i,
    {
        assert(2 * i + 1 < data@.len());
        let lo = data[2 * i];
        let hi = data[2 * i + 1];
        let u: u16 = (lo as u16) + (hi as u16) * 256;
        units.push(u);
        proof {
            assert(units@ =~= utf16_units_from_le(data@).subrange(0, i + 1));
        }
        i = i + 1;
    }
    proof {
        assert(units@ =~= utf16_units_from_le(data@));
    }
    string_from_utf16_units(units.as_slice())
}

/// Formats a string for the RDP ClipboardFormatId CF_UNICODETEXT: UTF-8 text becomes
/// its little-endian UTF-16 bytes followed by one 0 byte; data that is not UTF-8 is an
/// error that tells how long its UTF-8 prefix is.
pub fn utf16_from_utf8(data: &[u8]) -> (r: Result<Vec<u8>, InvalidUtf8>)
    ensures
        r is Ok <==> vstd::utf8::valid_utf8(data@),
        r matches Err(e) ==> longest_utf8_prefix(data@, e.valid_up_to as int),
        match r {
            Err(InvalidUtf8 { valid_up_to, error_len: Some(len) }) => 1 <= len && valid_up_to + len <= data@.len(),
            _ => true,
        },
        r matches Ok(v) ==> v@ == utf16_le_bytes(utf16_encode(vstd::utf8::decode_utf8(data@))).push(0u8),
{
    let utf8 = match str_from_utf8(data) {
        Ok(s) => s,
        Err((n, len)) => return Err(InvalidUtf8 { valid_up_to: n, error_len: len }),
    };
    let mut out: Vec<u8> = Vec::new();
    let mut it = utf8.chars();
    let ghost all = utf8@;
    let ghost mut done: Seq<char> = seq![];
    broadcast use vstd::string::group_string_axioms;
    loop
        invariant
            all == utf8@,
            vstd::utf8::valid_utf8(data@),
            all == vstd::utf8::decode_utf8(data@),
            vstd::std_specs::iter::IteratorSpec::obeys_prophetic_iter_laws(&it),
            all == done + vstd::std_specs::iter::IteratorSpec::remaining(&it),
            vstd::std_specs::iter::IteratorSpec::decrease(&it) is Some,
            out@ == utf16_le_bytes(utf16_encode(done)),
        ensures
            done == all,
            out@ == utf16_le_bytes(utf16_encode(done)),
        decreases vstd::std_specs::iter::IteratorSpec::decrease(&it)->0,
    {
        match it.next() {
            Some(c) => {
                let v = c as u32;
                if v < 0x10000 {
                    let u = v as u16;
                    out.push((u % 256) as u8);
                    out.push((u / 256) as u8);
                    proof {
                        lemma_utf16_encode_push(done, c);
                        lemma_utf16_le_bytes_concat(utf16_encode(done), seq![u]);
                        lemma_utf16_le_bytes_push(Seq::<u16>::empty(), u);
                        assert(Seq::<u16>::empty().push(u) =~= seq![u]);
                        assert(utf16_le_bytes(Seq::<u16>::empty()) == Seq::<u8>::empty());
                        assert(utf16_le_bytes(seq![u]) =~= seq![(u % 256) as u8, (u / 256) as u8]);
                    }
                } else {
                    let w = v - 0x10000;
                    let a = (0xD800 + w / 0x400) as u16;
                    let b = (0xDC00 + w % 0x400) as u16;
                    out.push((a % 256) as u8);
                    out.push((a / 256) as u8);
                    out.push((b % 256) as u8);
                    out.push((b / 256) as u8);
                    proof {
                        lemma_utf16_encode_push(done, c);
                        lemma_utf16_le_bytes_concat(utf16_encode(done), seq![a, b]);
                        lemma_utf16_le_bytes_push(Seq::<u16>::empty(), a);
                        lemma_utf16_le_bytes_push(seq![a], b);
                        assert(Seq::<u16>::empty().push(a) =~= seq![a]);
                        assert(seq![a].push(b) =~= seq![a, b]);
                        assert(utf16_le_bytes(Seq::<u16>::empty()) == Seq::<u8>::empty());
                        assert(utf16_le_bytes(seq![a, b]) =~= seq![(a % 256) as u8, (a / 256) as u8, (b % 256) as u8, (b / 256) as u8]);
                    }
                }
                proof {
                    done = done.push(c);
                    assert(all == done + vstd::std_specs::iter::IteratorSpec::remaining(&it));
                }
            },
            None => {
                proof {
                    assert(done == all);
                }
                break;
            },
        }
    }
    out.push(0u8);
    Ok(out)
}

/// Text that goes to the clipboard in `CF_UNICODETEXT` and comes back from it is
/// unchanged: decoding the bytes that `utf16_from_utf8` makes of UTF-8 data gives the
/// data's text.
pub proof fn law_clipboard_text_round_trip(data: Seq<u8>)
    requires
        vstd::utf8::valid_utf8(data),
    ensures
        utf16_decode(utf16_units_from_le(utf16_le_bytes(utf16_encode(vstd::utf8::decode_utf8(data))).push(0u8)))
            == Some(vstd::utf8::decode_utf8(data)),
{
    lemma_utf16_units_from_le_bytes(utf16_encode(vstd::utf8::decode_utf8(data)), 0u8);
    lemma_utf16_decode_encode(vstd::utf8::decode_utf8(data));
}

} // verus!
