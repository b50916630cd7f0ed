//! ID3v1 and ID3v2 tag parsing.
//!
//! ID3v1 is a fixed 128-byte trailer marked `TAG`; ID3v2 is a 10-byte
//! header with a synchsafe body size, followed by `(id, size, flags,
//! payload)` frames.

use vstd::prelude::*;

use crate::cursor::{be_u32, spec_be_u32, spec_synchsafe_u32};
use crate::helpers::{decode_text_frame, spec_decode_text_frame, spec_trim_id3v1, synchsafe_to_u32,
    trim_id3v1_text};
use crate::text::chars_to_string;
use crate::{spec_empty_model, MetaModel, SongMetadata};

verus! {

/// The decimal digit character for `d < 10`.
pub open spec fn spec_digit(d: u8) -> char {
    ((0x30 + d) as u8) as char
}

/// The decimal rendering of a byte, one to three digits, no padding.
pub open spec fn spec_dec_u8(n: u8) -> Seq<char> {
    if n < 10 {
        seq![spec_digit(n)]
    } else if n < 100 {
        seq![spec_digit(n / 10), spec_digit(n % 10)]
    } else {
        seq![spec_digit(n / 100), spec_digit((n / 10) % 10), spec_digit(n % 10)]
    }
}

/// Renders a byte as its decimal numeric string.
pub fn dec_u8_string(n: u8) -> (r: String)
    ensures
        r@ == spec_dec_u8(n),
{
    let mut v: Vec<char> = Vec::new();
    if n >= 100 {
        v.push((0x30 + n / 100) as char);
    }
    if n >= 10 {
        v.push((0x30 + (n / 10) % 10) as char);
    }
    v.push((0x30 + n % 10) as char);
    assert(v@ =~= spec_dec_u8(n));
    chars_to_string(&v)
}

/// What an ID3v1 trailer yields: `None` unless the input is at least 128
/// bytes and its last 128 bytes start with `TAG`; otherwise the three
/// 30-byte text fields, and the genre byte rendered as its decimal
/// numeric string.
pub open spec fn spec_id3v1(d: Seq<u8>) -> Option<MetaModel> {
    if d.len() < 128 {
        None
    } else {
        let t = d.subrange(d.len() - 128, d.len() as int);
        if t[0] == 0x54 && t[1] == 0x41 && t[2] == 0x47 {
            Some(
                MetaModel {
                    artist: spec_trim_id3v1(t.subrange(33, 63)),
                    title: spec_trim_id3v1(t.subrange(3, 33)),
                    album: spec_trim_id3v1(t.subrange(63, 93)),
                    genre: Some(spec_dec_u8(t[127])),
                    duration_ms: None,
                },
            )
        } else {
            None
        }
    }
}

/// The record after scanning ID3v2 frames from offset `i` of the tag
/// body: 4-byte id, 4-byte big-endian size, 2 flag bytes, payload.
/// A zero or overrunning frame size ends the scan; `TIT2`, `TPE1`,
/// `TALB` and `TCON` overwrite title, artist, album and genre with the
/// decoded payload text, last wins.
pub open spec fn spec_id3v2_frames(b: Seq<u8>, i: int, m: MetaModel) -> MetaModel
    decreases b.len() - i,
{
    if i + 10 > b.len() {
        m
    } else {
        let size = spec_be_u32(b, i + 4) as int;
        if size == 0 || i + 10 + size > b.len() {
            m
        } else {
            let text = spec_decode_text_frame(b.subrange(i + 10, i + 10 + size));
            let m2 = if b[i] == 0x54 && b[i + 1] == 0x49 && b[i + 2] == 0x54 && b[i + 3]
                == 0x32 {
                MetaModel { title: text, ..m }
            } else if b[i] == 0x54 && b[i + 1] == 0x50 && b[i + 2] == 0x45 && b[i + 3] == 0x31 {
                MetaModel { artist: text, ..m }
            } else if b[i] == 0x54 && b[i + 1] == 0x41 && b[i + 2] == 0x4C && b[i + 3] == 0x42 {
                MetaModel { album: text, ..m }
            } else if b[i] == 0x54 && b[i + 1] == 0x43 && b[i + 2] == 0x4F && b[i + 3] == 0x4E {
                MetaModel { genre: text, ..m }
            } else {
                m
            };
            spec_id3v2_frames(b, i + 10 + size, m2)
        }
    }
}

/// What an ID3v2 tag yields: `None` unless the input starts with `ID3`;
/// otherwise the result of scanning the frames of the tag body, whose
/// length is the 4-byte synchsafe size (clipped to the available bytes).
pub open spec fn spec_mp3v2(d: Seq<u8>) -> Option<MetaModel> {
    if d.len() < 10 {
        None
    } else if !(d[0] == 0x49 && d[1] == 0x44 && d[2] == 0x33) {
        None
    } else {
        let size = spec_synchsafe_u32(d, 6) as int;
        let end = if 10 + size <= d.len() {
            10 + size
        } else {
            d.len() as int
        };
        Some(spec_id3v2_frames(d.subrange(10, end), 0, spec_empty_model()))
    }
}

use crate::text::spec_ascii_bytes;

/// A run of zero bytes.
pub open spec fn spec_zero_bytes(k: nat) -> Seq<u8> {
    Seq::new(k, |i: int| 0u8)
}

/// A 30-byte ID3v1 text field: the characters as bytes, NUL-padded.
pub open spec fn spec_id3v1_field(s: Seq<char>) -> Seq<u8> {
    spec_ascii_bytes(s) + spec_zero_bytes((30 - s.len()) as nat)
}

/// A 128-byte ID3v1 trailer built from the given fields: the `TAG`
/// marker, three NUL-padded 30-byte text fields, 34 zero bytes where
/// year and comment would sit, and the genre byte.
pub open spec fn spec_id3v1_trailer(t: Seq<char>, a: Seq<char>, al: Seq<char>, g: u8) -> Seq<u8> {
    seq![0x54u8, 0x41u8, 0x47u8] + spec_id3v1_field(t) + spec_id3v1_field(a) + spec_id3v1_field(
        al,
    ) + spec_zero_bytes(34) + seq![g]
}

/// A field value that survives a trailer round trip unchanged:
/// nonempty ASCII of at most 30 characters, free of NULs, with no
/// leading or trailing whitespace.
pub open spec fn spec_clean_field(s: Seq<char>) -> bool {
    &&& 0 < s.len() <= 30
    &&& vstd::utf8::is_ascii_chars(s)
    &&& forall|i: int| 0 <= i < s.len() ==> !crate::text::spec_is_nul(#[trigger] s[i])
    &&& !crate::text::spec_is_space(s[0])
    &&& !crate::text::spec_is_space(s[s.len() - 1])
}

proof fn lemma_field_round_trip(s: Seq<char>)
    requires
        spec_clean_field(s),
    ensures
        spec_trim_id3v1(spec_id3v1_field(s)) == Some(s),
{
    let b = spec_id3v1_field(s);
    let padded = s + crate::text::spec_nul_run((30 - s.len()) as nat);
    assert(vstd::utf8::is_ascii_chars(padded)) by {
        assert(forall|i: int|
            0 <= i < padded.len() ==> '\u{0}' <= #[trigger] padded[i] <= '\u{7f}');
    }
    vstd::utf8::is_ascii_chars_encode_utf8(padded);
    assert(b =~= vstd::utf8::encode_utf8(padded));
    vstd::utf8::encode_utf8_valid_utf8(padded);
    vstd::utf8::encode_utf8_decode_utf8(padded);
    assert(crate::text::spec_utf8_lossy(b) == padded);
    crate::text::lemma_trim_end_nuls_pad(s, (30 - s.len()) as nat);
    crate::text::lemma_trim_spaces_id(s);
}

/// Round trip through the ID3v1 trailer: building a trailer from clean
/// field values and parsing it back yields exactly those values, with
/// the genre byte rendered as its decimal string and no duration.
pub proof fn lemma_id3v1_round_trip(t: Seq<char>, a: Seq<char>, al: Seq<char>, g: u8)
    requires
        spec_clean_field(t),
        spec_clean_field(a),
        spec_clean_field(al),
    ensures
        spec_id3v1(spec_id3v1_trailer(t, a, al, g)) == Some(
            MetaModel {
                artist: Some(a),
                title: Some(t),
                album: Some(al),
                genre: Some(spec_dec_u8(g)),
                duration_ms: None,
            },
        ),
{
    let d = spec_id3v1_trailer(t, a, al, g);
    assert(d.len() == 128);
    assert(d.subrange(d.len() - 128, d.len() as int) =~= d);
    assert(d[0] == 0x54 && d[1] == 0x41 && d[2] == 0x47);
    assert(d.subrange(3, 33) =~= spec_id3v1_field(t));
    assert(d.subrange(33, 63) =~= spec_id3v1_field(a));
    assert(d.subrange(63, 93) =~= spec_id3v1_field(al));
    assert(d[127] == g);
    lemma_field_round_trip(t);
    lemma_field_round_trip(a);
    lemma_field_round_trip(al);
}

/// ASCII characters written as bytes read back unchanged through
/// Latin-1.
proof fn lemma_latin1_ascii(s: Seq<char>)
    requires
        vstd::utf8::is_ascii_chars(s),
    ensures
        crate::text::spec_latin1(spec_ascii_bytes(s)) == s,
{
    assert forall|i: int| 0 <= i < s.len() implies crate::text::spec_latin1(spec_ascii_bytes(s))[i]
        == s[i] by {
        let c = s[i];
        vstd::utf8::char_u32_cast(c, c as u32);
        assert((c as u8) as char == c);
    }
    assert(crate::text::spec_latin1(spec_ascii_bytes(s)) =~= s);
}

/// Round trip through an ID3v2 tag holding one Latin-1 `TIT2` frame:
/// building the 10-byte header (synchsafe body size) around the frame
/// and parsing it back yields exactly the title text.
pub proof fn lemma_id3v2_title_round_trip(s: Seq<char>)
    requires
        0 < s.len() <= 100,
        vstd::utf8::is_ascii_chars(s),
        forall|i: int| 0 <= i < s.len() ==> !crate::text::spec_is_nul(#[trigger] s[i]),
    ensures
        ({
            let payload = seq![0u8] + spec_ascii_bytes(s);
            let frame = seq![0x54u8, 0x49u8, 0x54u8, 0x32u8] + seq![
                0u8,
                0u8,
                0u8,
                (1 + s.len()) as u8,
            ] + seq![0u8, 0u8] + payload;
            let d = seq![0x49u8, 0x44u8, 0x33u8, 3u8, 0u8, 0u8] + seq![
                0u8,
                0u8,
                0u8,
                frame.len() as u8,
            ] + frame;
            spec_mp3v2(d) == Some(
                MetaModel {
                    artist: None,
                    title: Some(s),
                    album: None,
                    genre: None,
                    duration_ms: None,
                },
            )
        }),
{
    let payload = seq![0u8] + spec_ascii_bytes(s);
    let frame = seq![0x54u8, 0x49u8, 0x54u8, 0x32u8] + seq![
        0u8,
        0u8,
        0u8,
        (1 + s.len()) as u8,
    ] + seq![0u8, 0u8] + payload;
    let d = seq![0x49u8, 0x44u8, 0x33u8, 3u8, 0u8, 0u8] + seq![
        0u8,
        0u8,
        0u8,
        frame.len() as u8,
    ] + frame;
    let n: u8 = frame.len() as u8;
    assert(frame.len() == 11 + s.len());
    assert(d.len() == 10 + frame.len());
    assert(d[6] == 0 && d[7] == 0 && d[8] == 0 && d[9] == n);
    assert((((0u8 as u32) & 0x7F) << 21 | ((0u8 as u32) & 0x7F) << 14 | ((0u8 as u32) & 0x7F)
        << 7 | ((n as u32) & 0x7F)) == n as u32) by (bit_vector)
        requires
            n <= 127,
    ;
    assert(spec_synchsafe_u32(d, 6) == frame.len());
    let body = d.subrange(10, d.len() as int);
    assert(body =~= frame);
    let m: u8 = (1 + s.len()) as u8;
    assert(body[4] == 0 && body[5] == 0 && body[6] == 0 && body[7] == m);
    assert((((0u8 as u32) << 24) | ((0u8 as u32) << 16) | ((0u8 as u32) << 8) | (m as u32)) == m
        as u32) by (bit_vector);
    assert(spec_be_u32(body, 4) == 1 + s.len());
    assert(body.subrange(10, body.len() as int) =~= payload);
    assert(payload.skip(1) =~= spec_ascii_bytes(s));
    lemma_latin1_ascii(s);
    crate::text::lemma_trim_nuls_id(s);
    assert(spec_decode_text_frame(payload) == Some(s));
    assert(body[0] == 0x54 && body[1] == 0x49 && body[2] == 0x54 && body[3] == 0x32);
    let m2 = MetaModel { artist: None, title: Some(s), album: None, genre: None, duration_ms: None };
    assert(spec_id3v2_frames(body, body.len() as int, m2) == m2);
    assert(spec_id3v2_frames(body, 0, spec_empty_model()) =~= m2);
}

/// Maps an `Option<SongMetadata>` into the model world.
pub open spec fn spec_opt_model(r: Option<SongMetadata>) -> Option<MetaModel> {
    match r {
        Some(s) => Some(s@),
        None => None,
    }
}

impl SongMetadata {
    /// Parses the fixed 128-byte ID3v1 trailer at the end of the buffer.
    pub fn from_id3v1(data: &[u8]) -> (r: Option<SongMetadata>)
        ensures
            spec_opt_model(r) == spec_id3v1(data@),
    {
        if data.len() < 128 {
            return None;
        }
        let base = data.len() - 128;
        let ghost t: Seq<u8> = data@.subrange(data@.len() - 128, data@.len() as int);
        assert(forall|k: int| 0 <= k < 128 ==> t[k] == data@[base + k]);
        if !(data[base] == 0x54 && data[base + 1] == 0x41 && data[base + 2] == 0x47) {
            return None;
        }
        let title = trim_id3v1_text(&data[base + 3..base + 33]);
        let artist = trim_id3v1_text(&data[base + 33..base + 63]);
        let album = trim_id3v1_text(&data[base + 63..base + 93]);
        let genre = Some(dec_u8_string(data[base + 127]));
        assert(data@.subrange(base + 3 as int, base + 33 as int) =~= t.subrange(3, 33));
        assert(data@.subrange(base + 33 as int, base + 63 as int) =~= t.subrange(33, 63));
        assert(data@.subrange(base + 63 as int, base + 93 as int) =~= t.subrange(63, 93));
        let r = Some(SongMetadata { artist, title, album, genre, duration_ms: None });
        assert(spec_opt_model(r) =~= spec_id3v1(data@));
        r
    }

    /// Parses an ID3v2 tag at the start of the buffer.
    #[verifier::loop_isolation(false)]
    pub fn from_mp3v2(data: &[u8]) -> (r: Option<SongMetadata>)
        ensures
            spec_opt_model(r) == spec_mp3v2(data@),
    {
        if data.len() < 10 {
            return None;
        }
        if !(data[0] == 0x49 && data[1] == 0x44 && data[2] == 0x33) {
            return None;
        }
        let size = synchsafe_to_u32(&data[6..10]) as usize;
        assert(data@.subrange(6, 10)[0] == data@[6]);
        assert(data@.subrange(6, 10)[1] == data@[7]);
        assert(data@.subrange(6, 10)[2] == data@[8]);
        assert(data@.subrange(6, 10)[3] == data@[9]);
        let end = if size <= data.len() - 10 {
            10 + size
        } else {
            data.len()
        };
        let b = &data[10..end];
        let mut meta = SongMetadata::default();
        let mut i: usize = 0;
        while b.len() - i >= 10
            invariant
                i <= b@.len(),
                spec_id3v2_frames(b@, 0, spec_empty_model()) == spec_id3v2_frames(
                    b@,
                    i as int,
                    meta@,
                ),
            decreases b@.len() - i,
        {
            let size = be_u32(b, i + 4) as usize;
            if size == 0 || size > b.len() - (i + 10) {
                assert(spec_id3v2_frames(b@, i as int, meta@) == meta@);
                return Some(meta);
            }
            let text = decode_text_frame(&b[i + 10..i + 10 + size]);
            let ghost m_before: MetaModel = meta@;
            if b[i] == 0x54 && b[i + 1] == 0x49 && b[i + 2] == 0x54 && b[i + 3] == 0x32 {
                meta.title = text;
            } else if b[i] == 0x54 && b[i + 1] == 0x50 && b[i + 2] == 0x45 && b[i + 3] == 0x31 {
                meta.artist = text;
            } else if b[i] == 0x54 && b[i + 1] == 0x41 && b[i + 2] == 0x4C && b[i + 3] == 0x42 {
                meta.album = text;
            } else if b[i] == 0x54 && b[i + 1] == 0x43 && b[i + 2] == 0x4F && b[i + 3] == 0x4E {
                meta.genre = text;
            }
            assert(spec_id3v2_frames(b@, i as int, m_before) == spec_id3v2_frames(
                b@,
                i + 10 + size as int,
                meta@,
            ));
            i = i + 10 + size;
        }
        assert(spec_id3v2_frames(b@, i as int, meta@) == meta@);
        Some(meta)
    }
}

} // verus!
