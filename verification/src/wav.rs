//! WAV/RIFF parsing: LIST/INFO text chunks and fmt/data duration.
//!
//! After the 12-byte `RIFF....WAVE` header, top-level chunks are walked
//! as `(4-byte id, 4-byte little-endian size, payload)`. A `LIST` chunk
//! of list-type `INFO` holds nested `(sub-id, size, payload)` text
//! entries.

use vstd::prelude::*;

use crate::cursor::{le_u32, spec_le_u32};
use crate::text::{
    chars_to_string, spec_trim_nuls, spec_trim_spaces, trim_nuls, trim_spaces, utf8_lossy,
    spec_utf8_lossy,
};
use crate::{spec_empty_model, MetaModel, SongMetadata};

verus! {

/// What a RIFF INFO text payload yields: lossy UTF-8, NULs trimmed from
/// both ends, then whitespace trimmed from both ends.
pub open spec fn spec_wav_text(b: Seq<u8>) -> Seq<char> {
    spec_trim_spaces(spec_trim_nuls(spec_utf8_lossy(b)))
}

/// One INFO entry applied to the record: `IART`, `INAM`, `IPRD` and
/// `IGNR` overwrite artist, title, album and genre.
pub open spec fn spec_wav_entry(m: MetaModel, d: Seq<u8>, pos: int, text: Seq<char>) -> MetaModel {
    if d[pos] == 0x49 && d[pos + 1] == 0x41 && d[pos + 2] == 0x52 && d[pos + 3] == 0x54 {
        MetaModel { artist: Some(text), ..m }
    } else if d[pos] == 0x49 && d[pos + 1] == 0x4E && d[pos + 2] == 0x41 && d[pos + 3] == 0x4D {
        MetaModel { title: Some(text), ..m }
    } else if d[pos] == 0x49 && d[pos + 1] == 0x50 && d[pos + 2] == 0x52 && d[pos + 3] == 0x44 {
        MetaModel { album: Some(text), ..m }
    } else if d[pos] == 0x49 && d[pos + 1] == 0x47 && d[pos + 2] == 0x4E && d[pos + 3] == 0x52 {
        MetaModel { genre: Some(text), ..m }
    } else {
        m
    }
}

/// Rank used for termination: walking inside an INFO list sits above the
/// plain chunk walk at the same position.
pub open spec fn spec_wav_mode_rank(info: Option<int>) -> int {
    match info {
        Some(_) => 1,
        None => 0,
    }
}

/// The record after walking the buffer from `pos`. With `info` absent,
/// top-level chunks are walked: a `LIST` of list-type `INFO` descends
/// into its entries (a list size under 4 ends the walk), any other chunk
/// is skipped by its declared size. With `info` present it carries the
/// INFO bytes still expected; entries are applied until fewer than 8
/// remain or a read would fail, after which the chunk walk resumes at
/// the current position. An entry payload that overruns the buffer ends
/// the whole walk.
pub open spec fn spec_wav_walk(d: Seq<u8>, pos: int, info: Option<int>, m: MetaModel) -> MetaModel
    decreases d.len() - pos, spec_wav_mode_rank(info),
{
    match info {
        Some(remaining) => {
            if remaining < 8 {
                spec_wav_walk(d, pos, None, m)
            } else if pos + 8 > d.len() {
                spec_wav_walk(d, pos, None, m)
            } else {
                let sub_size = spec_le_u32(d, pos + 4) as int;
                if pos + 8 + sub_size > d.len() {
                    m
                } else {
                    let m2 = spec_wav_entry(
                        m,
                        d,
                        pos,
                        spec_wav_text(d.subrange(pos + 8, pos + 8 + sub_size)),
                    );
                    let rem2 = if remaining - (8 + sub_size) >= 0 {
                        remaining - (8 + sub_size)
                    } else {
                        0
                    };
                    spec_wav_walk(d, pos + 8 + sub_size, Some(rem2), m2)
                }
            }
        },
        None => {
            if pos + 8 > d.len() {
                m
            } else {
                let size = spec_le_u32(d, pos + 4) as int;
                let next = pos + 8 + size;
                if d[pos] == 0x4C && d[pos + 1] == 0x49 && d[pos + 2] == 0x53 && d[pos + 3]
                    == 0x54 {
                    if pos + 12 > d.len() {
                        m
                    } else if d[pos + 8] == 0x49 && d[pos + 9] == 0x4E && d[pos + 10] == 0x46
                        && d[pos + 11] == 0x4F {
                        if size < 4 {
                            m
                        } else {
                            spec_wav_walk(d, pos + 12, Some(size - 4), m)
                        }
                    } else if next > d.len() {
                        m
                    } else {
                        spec_wav_walk(d, next, None, m)
                    }
                } else if next > d.len() {
                    m
                } else {
                    spec_wav_walk(d, next, None, m)
                }
            }
        },
    }
}

/// What WAV tag parsing yields: the chunk walk started right after the
/// 12-byte RIFF/WAVE header position.
pub open spec fn spec_wav(d: Seq<u8>) -> MetaModel {
    spec_wav_walk(d, 12, None, spec_empty_model())
}

/// The `(fmt seen, byte rate, data size)` state after walking chunks
/// from `pos`: a `fmt ` chunk of at least 12 bytes records its byte-rate
/// field, a `data` chunk records its declared size (its payload is not
/// skipped), anything else is skipped by its declared size. A `fmt `
/// payload that overruns the buffer fails the whole walk.
pub open spec fn spec_wav_dur_walk(
    d: Seq<u8>,
    pos: int,
    fmt_found: bool,
    byte_rate: u32,
    data_size: u32,
) -> Option<(bool, u32, u32)>
    decreases d.len() - pos,
{
    if pos + 8 > d.len() {
        Some((fmt_found, byte_rate, data_size))
    } else {
        let size = spec_le_u32(d, pos + 4) as int;
        if d[pos] == 0x66 && d[pos + 1] == 0x6D && d[pos + 2] == 0x74 && d[pos + 3] == 0x20 {
            if pos + 8 + size > d.len() {
                None
            } else if size >= 12 {
                spec_wav_dur_walk(d, pos + 8 + size, true, spec_le_u32(d, pos + 16), data_size)
            } else {
                spec_wav_dur_walk(d, pos + 8 + size, fmt_found, byte_rate, data_size)
            }
        } else if d[pos] == 0x64 && d[pos + 1] == 0x61 && d[pos + 2] == 0x74 && d[pos + 3]
            == 0x61 {
            spec_wav_dur_walk(d, pos + 8, fmt_found, byte_rate, spec_le_u32(d, pos + 4))
        } else {
            let next = pos + 8 + size;
            if next > d.len() {
                Some((fmt_found, byte_rate, data_size))
            } else {
                spec_wav_dur_walk(d, next, fmt_found, byte_rate, data_size)
            }
        }
    }
}

/// What WAV duration estimation yields: `data_size * 1000 / byte_rate`
/// milliseconds from the final walk state; `None` when no usable `fmt `
/// chunk was seen, the byte rate is zero, or the walk failed.
pub open spec fn spec_wav_duration(d: Seq<u8>) -> Option<u64> {
    match spec_wav_dur_walk(d, 12, false, 0, 0) {
        None => None,
        Some((f, br, ds)) => if f && br > 0 {
            Some((((ds as int) * 1000) / (br as int)) as u64)
        } else {
            None
        },
    }
}

/// Round trip through a WAV LIST/INFO chunk: a RIFF/WAVE header
/// followed by one INFO list holding a single `IART` entry with clean
/// ASCII text parses back to exactly that artist. Clean means nonempty,
/// NUL-free, with no leading or trailing whitespace.
pub proof fn lemma_wav_artist_round_trip(s: Seq<char>)
    requires
        0 < s.len() <= 100,
        vstd::utf8::is_ascii_chars(s),
        forall|i: int| 0 <= i < s.len() ==> !crate::text::spec_is_nul(#[trigger] s[i]),
        !crate::text::spec_is_space(s[0]),
        !crate::text::spec_is_space(s[s.len() - 1]),
    ensures
        ({
            let entry = seq![0x49u8, 0x41u8, 0x52u8, 0x54u8] + seq![
                s.len() as u8,
                0u8,
                0u8,
                0u8,
            ] + crate::text::spec_ascii_bytes(s);
            let d = seq![
                0x52u8,
                0x49u8,
                0x46u8,
                0x46u8,
                0u8,
                0u8,
                0u8,
                0u8,
                0x57u8,
                0x41u8,
                0x56u8,
                0x45u8,
            ] + seq![0x4Cu8, 0x49u8, 0x53u8, 0x54u8] + seq![(12 + s.len()) as u8, 0u8, 0u8, 0u8]
                + seq![0x49u8, 0x4Eu8, 0x46u8, 0x4Fu8] + entry;
            spec_wav(d) == (MetaModel {
                artist: Some(s),
                title: None,
                album: None,
                genre: None,
                duration_ms: None,
            })
        }),
{
    let entry = seq![0x49u8, 0x41u8, 0x52u8, 0x54u8] + seq![
        s.len() as u8,
        0u8,
        0u8,
        0u8,
    ] + crate::text::spec_ascii_bytes(s);
    let d = seq![
        0x52u8,
        0x49u8,
        0x46u8,
        0x46u8,
        0u8,
        0u8,
        0u8,
        0u8,
        0x57u8,
        0x41u8,
        0x56u8,
        0x45u8,
    ] + seq![0x4Cu8, 0x49u8, 0x53u8, 0x54u8] + seq![(12 + s.len()) as u8, 0u8, 0u8, 0u8]
        + seq![0x49u8, 0x4Eu8, 0x46u8, 0x4Fu8] + entry;
    assert(d.len() == 32 + s.len());
    let n: u8 = (12 + s.len()) as u8;
    assert(d[16] == n && d[17] == 0 && d[18] == 0 && d[19] == 0);
    assert((((n as u32)) | ((0u8 as u32) << 8) | ((0u8 as u32) << 16) | ((0u8 as u32) << 24))
        == n as u32) by (bit_vector);
    assert(spec_le_u32(d, 16) == 12 + s.len());
    let m: u8 = s.len() as u8;
    assert(d[28] == m && d[29] == 0 && d[30] == 0 && d[31] == 0);
    assert((((m as u32)) | ((0u8 as u32) << 8) | ((0u8 as u32) << 16) | ((0u8 as u32) << 24))
        == m as u32) by (bit_vector);
    assert(spec_le_u32(d, 28) == s.len());
    assert(d.subrange(32, d.len() as int) =~= crate::text::spec_ascii_bytes(s));
    crate::text::lemma_ascii_utf8(s);
    crate::text::lemma_trim_nuls_id(s);
    crate::text::lemma_trim_spaces_id(s);
    assert(spec_wav_text(d.subrange(32, d.len() as int)) == s);
    assert(d[24] == 0x49 && d[25] == 0x41 && d[26] == 0x52 && d[27] == 0x54);
    let m1 = MetaModel { artist: Some(s), title: None, album: None, genre: None, duration_ms: None };
    assert(spec_wav_entry(spec_empty_model(), d, 24, s) =~= m1);
    assert(spec_wav_walk(d, d.len() as int, Some(0), m1) == spec_wav_walk(
        d,
        d.len() as int,
        None,
        m1,
    ));
    assert(spec_wav_walk(d, d.len() as int, None, m1) == m1);
    assert(spec_wav_walk(d, 24, Some(8 + s.len() as int), spec_empty_model()) == m1);
    assert(spec_wav_walk(d, 12, None, spec_empty_model()) == m1);
}

impl SongMetadata {
    /// Parses the LIST/INFO text chunks of a WAV file.
    #[verifier::loop_isolation(false)]
    pub fn from_wav(data: &[u8]) -> (r: SongMetadata)
        ensures
            r@ == spec_wav(data@),
    {
        let mut meta = SongMetadata::default();
        let mut pos: usize = 12;
        while data.len() >= pos && data.len() - pos >= 8
            invariant
                spec_wav(data@) == spec_wav_walk(data@, pos as int, None, meta@),
            decreases data@.len() - pos,
        {
            let size = le_u32(data, pos + 4) as usize;
            if data[pos] == 0x4C && data[pos + 1] == 0x49 && data[pos + 2] == 0x53 && data[pos
                + 3] == 0x54 {
                if data.len() - pos < 12 {
                    assert(spec_wav_walk(data@, pos as int, None, meta@) == meta@);
                    return meta;
                }
                if data[pos + 8] == 0x49 && data[pos + 9] == 0x4E && data[pos + 10] == 0x46
                    && data[pos + 11] == 0x4F {
                    if size < 4 {
                        assert(spec_wav_walk(data@, pos as int, None, meta@) == meta@);
                        return meta;
                    }
                    let ghost pos0: int = pos as int;
                    let mut remaining: usize = size - 4;
                    pos = pos + 12;
                    while remaining >= 8 && data.len() >= pos && data.len() - pos >= 8
                        invariant
                            pos0 < pos <= data@.len(),
                            spec_wav(data@) == spec_wav_walk(
                                data@,
                                pos as int,
                                Some(remaining as int),
                                meta@,
                            ),
                        decreases data@.len() - pos,
                    {
                        let sub_size = le_u32(data, pos + 4) as usize;
                        if sub_size > data.len() - (pos + 8) {
                            assert(spec_wav_walk(
                                data@,
                                pos as int,
                                Some(remaining as int),
                                meta@,
                            ) == meta@);
                            return meta;
                        }
                        let cs = utf8_lossy(&data[pos + 8..pos + 8 + sub_size]);
                        let t = trim_spaces(trim_nuls(cs));
                        let text = chars_to_string(&t);
                        let ghost m_before: MetaModel = meta@;
                        if data[pos] == 0x49 && data[pos + 1] == 0x41 && data[pos + 2] == 0x52
                            && data[pos + 3] == 0x54 {
                            meta.artist = Some(text);
                        } else if data[pos] == 0x49 && data[pos + 1] == 0x4E && data[pos + 2]
                            == 0x41 && data[pos + 3] == 0x4D {
                            meta.title = Some(text);
                        } else if data[pos] == 0x49 && data[pos + 1] == 0x50 && data[pos + 2]
                            == 0x52 && data[pos + 3] == 0x44 {
                            meta.album = Some(text);
                        } else if data[pos] == 0x49 && data[pos + 1] == 0x47 && data[pos + 2]
                            == 0x4E && data[pos + 3] == 0x52 {
                            meta.genre = Some(text);
                        }
                        assert(meta@ =~= spec_wav_entry(
                            m_before,
                            data@,
                            pos as int,
                            spec_wav_text(data@.subrange(pos + 8 as int, pos + 8 + sub_size)),
                        ));
                        let step = 8 + sub_size;
                        remaining = if remaining >= step {
                            remaining - step
                        } else {
                            0
                        };
                        pos = pos + step;
                    }
                    assert(spec_wav_walk(data@, pos as int, Some(remaining as int), meta@)
                        == spec_wav_walk(data@, pos as int, None, meta@));
                } else {
                    if size > data.len() - (pos + 8) {
                        assert(spec_wav_walk(data@, pos as int, None, meta@) == meta@);
                        return meta;
                    }
                    pos = pos + 8 + size;
                }
            } else {
                if size > data.len() - (pos + 8) {
                    assert(spec_wav_walk(data@, pos as int, None, meta@) == meta@);
                    return meta;
                }
                pos = pos + 8 + size;
            }
        }
        assert(spec_wav_walk(data@, pos as int, None, meta@) == meta@);
        meta
    }

    /// Computes the WAV duration from the `fmt ` byte rate and the
    /// `data` chunk's declared size.
    #[verifier::loop_isolation(false)]
    pub fn wav_duration(data: &[u8]) -> (r: Option<u64>)
        ensures
            r == spec_wav_duration(data@),
    {
        let mut fmt_found = false;
        let mut byte_rate: u32 = 0;
        let mut data_size: u32 = 0;
        let mut pos: usize = 12;
        while data.len() >= pos && data.len() - pos >= 8
            invariant
                spec_wav_dur_walk(data@, 12, false, 0, 0) == spec_wav_dur_walk(
                    data@,
                    pos as int,
                    fmt_found,
                    byte_rate,
                    data_size,
                ),
            decreases data@.len() - pos,
        {
            let size = le_u32(data, pos + 4) as usize;
            if data[pos] == 0x66 && data[pos + 1] == 0x6D && data[pos + 2] == 0x74 && data[pos
                + 3] == 0x20 {
                if size > data.len() - (pos + 8) {
                    return None;
                }
                if size >= 12 {
                    byte_rate = le_u32(data, pos + 16);
                    fmt_found = true;
                }
                pos = pos + 8 + size;
            } else if data[pos] == 0x64 && data[pos + 1] == 0x61 && data[pos + 2] == 0x74
                && data[pos + 3] == 0x61 {
                data_size = le_u32(data, pos + 4);
                pos = pos + 8;
            } else {
                if size > data.len() - (pos + 8) {
                    if fmt_found && byte_rate > 0 {
                        return Some(((data_size as u64) * 1000) / (byte_rate as u64));
                    }
                    return None;
                }
                pos = pos + 8 + size;
            }
        }
        if fmt_found && byte_rate > 0 {
            Some(((data_size as u64) * 1000) / (byte_rate as u64))
        } else {
            None
        }
    }
}

} // verus!
