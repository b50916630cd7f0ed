//! FLAC metadata-block parsing: VORBIS_COMMENT tags and STREAMINFO
//! duration.
//!
//! After the 4-byte `fLaC` signature, each block has a 4-byte header:
//! top bit = last-block flag, low 7 bits = block type, then a 3-byte
//! big-endian length.

use vstd::prelude::*;

use crate::cursor::{be_u24, spec_be_u24};
use crate::helpers::{parse_vorbis_comments, spec_vorbis_apply};
use crate::{spec_empty_model, MetaModel, SongMetadata};
use crate::id3::spec_opt_model;

verus! {

/// The record after walking metadata blocks from `pos`: VORBIS_COMMENT
/// blocks (type 4) are applied, others skipped; the walk ends at the
/// block whose last flag is set, at end-of-stream, or at a block body
/// that overruns the buffer.
pub open spec fn spec_flac_blocks(d: Seq<u8>, pos: int, m: MetaModel) -> MetaModel
    decreases d.len() - pos,
{
    if pos + 4 > d.len() {
        m
    } else {
        let last = d[pos] >= 0x80;
        let btype = d[pos] % 0x80;
        let blen = spec_be_u24(d, pos + 1) as int;
        if btype == 4 {
            if pos + 4 + blen > d.len() {
                m
            } else {
                let m2 = spec_vorbis_apply(m, d.subrange(pos + 4, pos + 4 + blen));
                if last {
                    m2
                } else {
                    spec_flac_blocks(d, pos + 4 + blen, m2)
                }
            }
        } else {
            if last {
                m
            } else if pos + 4 + blen > d.len() {
                m
            } else {
                spec_flac_blocks(d, pos + 4 + blen, m)
            }
        }
    }
}

/// What FLAC tag parsing yields: `None` unless the buffer starts with
/// `fLaC`, else the result of the block walk.
pub open spec fn spec_flac(d: Seq<u8>) -> Option<MetaModel> {
    if d.len() < 4 {
        None
    } else if !(d[0] == 0x66 && d[1] == 0x4C && d[2] == 0x61 && d[3] == 0x43) {
        None
    } else {
        Some(spec_flac_blocks(d, 4, spec_empty_model()))
    }
}

/// The duration taken from a STREAMINFO block whose body starts at `s`:
/// a 20-bit sample rate packed in bytes 10..13 and a 36-bit total sample
/// count packed in bytes 12..17; `total_samples * 1000 / sample_rate`
/// milliseconds, `None` on a zero sample rate.
pub open spec fn spec_streaminfo_duration(d: Seq<u8>, s: int) -> Option<u64> {
    let sr = (d[s + 10] as u32) * 0x1000 + (d[s + 11] as u32) * 0x10 + (d[s + 12] as u32) / 0x10;
    let ts = ((d[s + 12] as u64) % 0x10) * 0x100000000 + (d[s + 13] as u64) * 0x1000000 + (d[s
        + 14] as u64) * 0x10000 + (d[s + 15] as u64) * 0x100 + (d[s + 16] as u64);
    if sr == 0 {
        None
    } else {
        Some(((ts * 1000) / (sr as int)) as u64)
    }
}

/// The duration after walking metadata blocks from `pos` looking for
/// STREAMINFO (type 0, at least 18 bytes): `None` when it is absent,
/// truncated, too short, or carries a zero sample rate.
pub open spec fn spec_flac_duration_blocks(d: Seq<u8>, pos: int) -> Option<u64>
    decreases d.len() - pos,
{
    if pos + 4 > d.len() {
        None
    } else {
        let last = d[pos] >= 0x80;
        let btype = d[pos] % 0x80;
        let blen = spec_be_u24(d, pos + 1) as int;
        if btype == 0 {
            if pos + 4 + blen > d.len() {
                None
            } else if blen < 18 {
                None
            } else {
                spec_streaminfo_duration(d, pos + 4)
            }
        } else if last {
            None
        } else if pos + 4 + blen > d.len() {
            None
        } else {
            spec_flac_duration_blocks(d, pos + 4 + blen)
        }
    }
}

/// What FLAC duration estimation yields: the STREAMINFO walk, starting
/// right after the 4-byte signature position.
pub open spec fn spec_flac_duration(d: Seq<u8>) -> Option<u64> {
    spec_flac_duration_blocks(d, 4)
}

/// Round trip through a FLAC VORBIS_COMMENT block: the `fLaC`
/// signature followed by one last-flagged comment block holding a
/// single `ARTIST=` entry with ASCII text parses back to exactly that
/// artist.
pub proof fn lemma_flac_artist_round_trip(s: Seq<char>)
    requires
        0 < s.len() <= 100,
        vstd::utf8::is_ascii_chars(s),
    ensures
        ({
            let entry = seq!['A', 'R', 'T', 'I', 'S', 'T', '='] + s;
            let body = seq![0u8, 0u8, 0u8, 0u8] + seq![1u8, 0u8, 0u8, 0u8] + seq![
                (7 + s.len()) as u8,
                0u8,
                0u8,
                0u8,
            ] + crate::text::spec_ascii_bytes(entry);
            let d = seq![0x66u8, 0x4Cu8, 0x61u8, 0x43u8] + seq![
                0x84u8,
                0u8,
                0u8,
                (19 + s.len()) as u8,
            ] + body;
            spec_flac(d) == Some(
                MetaModel {
                    artist: Some(s),
                    title: None,
                    album: None,
                    genre: None,
                    duration_ms: None,
                },
            )
        }),
{
    let entry = seq!['A', 'R', 'T', 'I', 'S', 'T', '='] + s;
    let body = seq![0u8, 0u8, 0u8, 0u8] + seq![1u8, 0u8, 0u8, 0u8] + seq![
        (7 + s.len()) as u8,
        0u8,
        0u8,
        0u8,
    ] + crate::text::spec_ascii_bytes(entry);
    let d = seq![0x66u8, 0x4Cu8, 0x61u8, 0x43u8] + seq![0x84u8, 0u8, 0u8, (19 + s.len()) as u8]
        + body;
    assert(entry.len() == 7 + s.len());
    assert(body.len() == 19 + s.len());
    assert(d.len() == 27 + s.len());
    assert(d[4] == 0x84);
    let n: u8 = (19 + s.len()) as u8;
    assert(d[5] == 0 && d[6] == 0 && d[7] == n);
    assert((((0u8 as u32) << 16) | ((0u8 as u32) << 8) | (n as u32)) == n as u32)
        by (bit_vector);
    assert(spec_be_u24(d, 5) == 19 + s.len());
    assert(d.subrange(8, d.len() as int) =~= body);
    let e: u8 = (7 + s.len()) as u8;
    assert(body[0] == 0 && body[1] == 0 && body[2] == 0 && body[3] == 0);
    assert(body[4] == 1 && body[5] == 0 && body[6] == 0 && body[7] == 0);
    assert(body[8] == e && body[9] == 0 && body[10] == 0 && body[11] == 0);
    assert((((0u8 as u32)) | ((0u8 as u32) << 8) | ((0u8 as u32) << 16) | ((0u8 as u32) << 24))
        == 0u32) by (bit_vector);
    assert((((1u8 as u32)) | ((0u8 as u32) << 8) | ((0u8 as u32) << 16) | ((0u8 as u32) << 24))
        == 1u32) by (bit_vector);
    assert((((e as u32)) | ((0u8 as u32) << 8) | ((0u8 as u32) << 16) | ((0u8 as u32) << 24))
        == e as u32) by (bit_vector);
    assert(crate::cursor::spec_le_u32(body, 0) == 0);
    assert(crate::cursor::spec_le_u32(body, 4) == 1);
    assert(crate::cursor::spec_le_u32(body, 8) == 7 + s.len());
    let eb = body.subrange(12, body.len() as int);
    assert(eb =~= crate::text::spec_ascii_bytes(entry));
    assert(vstd::utf8::is_ascii_chars(entry)) by {
        assert(forall|i: int| 0 <= i < entry.len() ==> '\u{0}' <= #[trigger] entry[i] <= '\u{7f}');
    }
    crate::text::lemma_ascii_utf8(entry);
    assert(vstd::utf8::decode_utf8(eb) == entry);
    assert(crate::helpers::spec_find_eq(entry, 6) == 6);
    assert(crate::helpers::spec_find_eq(entry, 5) == 6);
    assert(crate::helpers::spec_find_eq(entry, 4) == 6);
    assert(crate::helpers::spec_find_eq(entry, 3) == 6);
    assert(crate::helpers::spec_find_eq(entry, 2) == 6);
    assert(crate::helpers::spec_find_eq(entry, 1) == 6);
    assert(crate::helpers::spec_find_eq(entry, 0) == 6);
    assert(crate::helpers::spec_key_artist(entry.subrange(0, 6)));
    assert(entry.subrange(7, entry.len() as int) =~= s);
    let m1 = MetaModel { artist: Some(s), title: None, album: None, genre: None, duration_ms: None };
    assert(crate::helpers::spec_vorbis_entry(spec_empty_model(), eb) =~= m1);
    assert(crate::helpers::spec_vorbis_entries(m1, body, 12 + (7 + s.len() as int), 0) == m1);
    assert(crate::helpers::spec_vorbis_entries(spec_empty_model(), body, 8, 1) == m1);
    assert(crate::helpers::spec_vorbis_apply(spec_empty_model(), body) == m1);
    assert(spec_flac_blocks(d, 4, spec_empty_model()) == m1);
}

impl SongMetadata {
    /// Parses FLAC VORBIS_COMMENT metadata.
    #[verifier::loop_isolation(false)]
    pub fn from_flac(data: &[u8]) -> (r: Option<SongMetadata>)
        ensures
            spec_opt_model(r) == spec_flac(data@),
    {
        if data.len() < 4 {
            return None;
        }
        if !(data[0] == 0x66 && data[1] == 0x4C && data[2] == 0x61 && data[3] == 0x43) {
            return None;
        }
        let mut meta = SongMetadata::default();
        let mut pos: usize = 4;
        while data.len() - pos >= 4
            invariant
                pos <= data@.len(),
                spec_flac_blocks(data@, 4, spec_empty_model()) == spec_flac_blocks(
                    data@,
                    pos as int,
                    meta@,
                ),
            decreases data@.len() - pos,
        {
            let last = data[pos] >= 0x80;
            let btype = data[pos] % 0x80;
            let blen = be_u24(data, pos + 1) as usize;
            if btype == 4 {
                if blen > data.len() - (pos + 4) {
                    assert(spec_flac_blocks(data@, pos as int, meta@) == meta@);
                    return Some(meta);
                }
                let ghost m_before: MetaModel = meta@;
                parse_vorbis_comments(&mut meta, &data[pos + 4..pos + 4 + blen]);
                if last {
                    assert(spec_flac_blocks(data@, pos as int, m_before) == meta@);
                    return Some(meta);
                }
                assert(spec_flac_blocks(data@, pos as int, m_before) == spec_flac_blocks(
                    data@,
                    pos + 4 + blen as int,
                    meta@,
                ));
                pos = pos + 4 + blen;
            } else {
                if last {
                    assert(spec_flac_blocks(data@, pos as int, meta@) == meta@);
                    return Some(meta);
                }
                if blen > data.len() - (pos + 4) {
                    assert(spec_flac_blocks(data@, pos as int, meta@) == meta@);
                    return Some(meta);
                }
                assert(spec_flac_blocks(data@, pos as int, meta@) == spec_flac_blocks(
                    data@,
                    pos + 4 + blen as int,
                    meta@,
                ));
                pos = pos + 4 + blen;
            }
        }
        assert(spec_flac_blocks(data@, pos as int, meta@) == meta@);
        Some(meta)
    }

    /// Computes the FLAC duration from the STREAMINFO block.
    #[verifier::loop_isolation(false)]
    pub fn flac_duration(data: &[u8]) -> (r: Option<u64>)
        ensures
            r == spec_flac_duration(data@),
    {
        let mut pos: usize = 4;
        while data.len() >= pos && data.len() - pos >= 4
            invariant
                spec_flac_duration(data@) == spec_flac_duration_blocks(data@, pos as int),
            decreases data@.len() - pos,
        {
            let last = data[pos] >= 0x80;
            let btype = data[pos] % 0x80;
            let blen = be_u24(data, pos + 1) as usize;
            if btype == 0 {
                if blen > data.len() - (pos + 4) {
                    return None;
                }
                if blen < 18 {
                    return None;
                }
                let s = pos + 4;
                let sr: u32 = (data[s + 10] as u32) * 0x1000 + (data[s + 11] as u32) * 0x10 + (
                data[s + 12] as u32) / 0x10;
                let ts: u64 = ((data[s + 12] as u64) % 0x10) * 0x100000000 + (data[s + 13]
                    as u64) * 0x1000000 + (data[s + 14] as u64) * 0x10000 + (data[s + 15]
                    as u64) * 0x100 + (data[s + 16] as u64);
                if sr == 0 {
                    return None;
                }
                return Some((ts * 1000) / (sr as u64));
            } else {
                if last {
                    return None;
                }
                if blen > data.len() - (pos + 4) {
                    return None;
                }
                pos = pos + 4 + blen;
            }
        }
        None
    }
}

} // verus!
