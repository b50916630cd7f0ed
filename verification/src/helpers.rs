//! Shared tag-parsing helpers: fixed-width ID3v1 text trimming, synchsafe
//! integers, ID3v2 text-frame decoding, Vorbis-comment parsing and MP4
//! "data atom" text extraction.

use vstd::prelude::*;

use crate::cursor::{be_u32, le_u32, spec_be_u32, spec_le_u32, spec_synchsafe_u32};
use crate::text::{
    chars_to_string, latin1_chars, be_units, spec_be_units, spec_latin1, spec_trim_end_nuls,
    spec_trim_nuls, spec_trim_spaces, trim_end_nuls, trim_nuls, trim_spaces, utf16_lossy,
    utf16_lossy_of, utf8_lossy, spec_utf8_lossy, vec_range,
};
use crate::{MetaModel, SongMetadata};

verus! {

/// What an ID3v1 fixed-width text field yields: the bytes decoded
/// lossily as UTF-8, trailing NULs removed, then whitespace removed from
/// both ends; an empty result counts as absent.
pub open spec fn spec_trim_id3v1(b: Seq<u8>) -> Option<Seq<char>> {
    let t = spec_trim_spaces(spec_trim_end_nuls(spec_utf8_lossy(b)));
    if t.len() == 0 {
        None
    } else {
        Some(t)
    }
}

/// Trims an ID3v1 fixed-width text field; `None` when nothing but
/// padding remains.
pub fn trim_id3v1_text(b: &[u8]) -> (r: Option<String>)
    ensures
        r.deep_view() == spec_trim_id3v1(b@),
{
    let cs = utf8_lossy(b);
    let t = trim_spaces(trim_end_nuls(cs));
    if t.len() == 0 {
        None
    } else {
        Some(chars_to_string(&t))
    }
}

/// Decodes the 4-byte synchsafe integer at the start of the slice: each
/// byte contributes its low 7 bits, concatenated big-endian.
pub fn synchsafe_to_u32(bytes: &[u8]) -> (r: u32)
    requires
        bytes@.len() >= 4,
    ensures
        r == spec_synchsafe_u32(bytes@, 0),
        r <= 0x0FFFFFFF,
{
    let b0 = bytes[0];
    let b1 = bytes[1];
    let b2 = bytes[2];
    let b3 = bytes[3];
    let r = (((b0 as u32) & 0x7F) << 21) | (((b1 as u32) & 0x7F) << 14) | (((b2 as u32) & 0x7F)
        << 7) | ((b3 as u32) & 0x7F);
    assert((((b0 as u32) & 0x7F) << 21 | ((b1 as u32) & 0x7F) << 14 | ((b2 as u32) & 0x7F) << 7
        | ((b3 as u32) & 0x7F)) <= 0x0FFFFFFF) by (bit_vector);
    r
}

/// What an ID3v2 text frame yields. The first payload byte selects the
/// encoding: 0 = Latin-1 (bytes read one-for-one), 1 = UTF-16 big-endian
/// (byte pairs, lossily decoded, a trailing odd byte dropped); any other
/// selector yields no text. NULs are trimmed from both ends.
pub open spec fn spec_decode_text_frame(d: Seq<u8>) -> Option<Seq<char>> {
    if d.len() == 0 {
        None
    } else if d[0] == 0 {
        Some(spec_trim_nuls(spec_latin1(d.skip(1))))
    } else if d[0] == 1 {
        Some(spec_trim_nuls(utf16_lossy_of(spec_be_units(d.skip(1)))))
    } else {
        None
    }
}

/// Decodes an ID3v2 text frame's payload.
pub fn decode_text_frame(data: &[u8]) -> (r: Option<String>)
    ensures
        r.deep_view() == spec_decode_text_frame(data@),
{
    if data.len() == 0 {
        return None;
    }
    assert(data@.subrange(1, data@.len() as int) =~= data@.skip(1));
    if data[0] == 0 {
        let cs = latin1_chars(&data[1..data.len()]);
        let t = trim_nuls(cs);
        Some(chars_to_string(&t))
    } else if data[0] == 1 {
        let units = be_units(&data[1..data.len()]);
        let cs = utf16_lossy(units.as_slice());
        let t = trim_nuls(cs);
        Some(chars_to_string(&t))
    } else {
        None
    }
}

/// What scanning an `©xxx` atom payload for its nested "data" atom
/// yields: at the first "data" sub-atom, the text starts 8 bytes into
/// that sub-atom's payload when the sub-atom has at least 16 bytes, else
/// at its payload's start; trailing and leading NULs are trimmed. A
/// malformed sub-atom size ends the scan with nothing.
pub open spec fn spec_extract_m4a_text(d: Seq<u8>, i: int) -> Option<Seq<char>>
    decreases d.len() - i,
{
    if i + 8 > d.len() {
        None
    } else {
        let size = spec_be_u32(d, i) as int;
        if size < 8 || i + size > d.len() {
            None
        } else if d[i + 4] == 0x64 && d[i + 5] == 0x61 && d[i + 6] == 0x74 && d[i + 7] == 0x61 {
            let start = if size >= 16 {
                i + 16
            } else {
                i + 8
            };
            Some(spec_trim_nuls(spec_utf8_lossy(d.subrange(start, i + size))))
        } else {
            spec_extract_m4a_text(d, i + size)
        }
    }
}

/// Extracts the text of an MP4 `©xxx` atom's payload.
pub fn extract_m4a_text(data: &[u8]) -> (r: Option<String>)
    ensures
        r.deep_view() == spec_extract_m4a_text(data@, 0),
{
    let mut i: usize = 0;
    while data.len() - i >= 8
        invariant
            i <= data@.len(),
            spec_extract_m4a_text(data@, 0) == spec_extract_m4a_text(data@, i as int),
        decreases data@.len() - i,
    {
        let size = be_u32(data, i) as usize;
        if size < 8 || size > data.len() - i {
            return None;
        }
        if data[i + 4] == 0x64 && data[i + 5] == 0x61 && data[i + 6] == 0x74 && data[i + 7]
            == 0x61 {
            let start = if size >= 16 {
                i + 16
            } else {
                i + 8
            };
            let cs = utf8_lossy(&data[start..i + size]);
            let t = trim_nuls(cs);
            return Some(chars_to_string(&t));
        }
        i = i + size;
    }
    None
}

/// The position of the first `'='` in `s` at or after `i`, or -1.
pub open spec fn spec_find_eq(s: Seq<char>, i: int) -> int
    decreases s.len() - i,
{
    if i < 0 || i >= s.len() {
        -1
    } else if s[i] == '=' {
        i
    } else {
        spec_find_eq(s, i + 1)
    }
}

fn find_eq(cs: &Vec<char>) -> (r: Option<usize>)
    ensures
        match r {
            Some(p) => p < cs@.len() && spec_find_eq(cs@, 0) == p,
            None => spec_find_eq(cs@, 0) == -1,
        },
{
    let mut i: usize = 0;
    while i < cs.len()
        invariant
            i <= cs@.len(),
            spec_find_eq(cs@, 0) == spec_find_eq(cs@, i as int),
        decreases cs@.len() - i,
    {
        if cs[i] == '=' {
            return Some(i);
        }
        i = i + 1;
    }
    None
}

/// ASCII-case-insensitive match of `c` against a lowercase letter `l`.
pub open spec fn spec_ci_eq(c: char, l: char) -> bool {
    c == l || (c as u32) + 32 == (l as u32)
}

fn ci_eq(c: char, l: char) -> (r: bool)
    ensures
        r == spec_ci_eq(c, l),
{
    c == l || (c as u32) + 32 == (l as u32)
}

pub open spec fn spec_key_artist(s: Seq<char>) -> bool {
    s.len() == 6 && spec_ci_eq(s[0], 'a') && spec_ci_eq(s[1], 'r') && spec_ci_eq(s[2], 't')
        && spec_ci_eq(s[3], 'i') && spec_ci_eq(s[4], 's') && spec_ci_eq(s[5], 't')
}

pub open spec fn spec_key_title(s: Seq<char>) -> bool {
    s.len() == 5 && spec_ci_eq(s[0], 't') && spec_ci_eq(s[1], 'i') && spec_ci_eq(s[2], 't')
        && spec_ci_eq(s[3], 'l') && spec_ci_eq(s[4], 'e')
}

pub open spec fn spec_key_album(s: Seq<char>) -> bool {
    s.len() == 5 && spec_ci_eq(s[0], 'a') && spec_ci_eq(s[1], 'l') && spec_ci_eq(s[2], 'b')
        && spec_ci_eq(s[3], 'u') && spec_ci_eq(s[4], 'm')
}

pub open spec fn spec_key_genre(s: Seq<char>) -> bool {
    s.len() == 5 && spec_ci_eq(s[0], 'g') && spec_ci_eq(s[1], 'e') && spec_ci_eq(s[2], 'n')
        && spec_ci_eq(s[3], 'r') && spec_ci_eq(s[4], 'e')
}

/// What one Vorbis comment entry does to a record: a strictly valid
/// UTF-8 `KEY=VALUE` entry whose key matches artist/title/album/genre
/// case-insensitively overwrites that field; anything else leaves the
/// record unchanged.
pub open spec fn spec_vorbis_entry(m: MetaModel, e: Seq<u8>) -> MetaModel {
    if !vstd::utf8::valid_utf8(e) {
        m
    } else {
        let cs = vstd::utf8::decode_utf8(e);
        let p = spec_find_eq(cs, 0);
        if p < 0 {
            m
        } else {
            let key = cs.subrange(0, p);
            let value = cs.subrange(p + 1, cs.len() as int);
            if spec_key_artist(key) {
                MetaModel { artist: Some(value), ..m }
            } else if spec_key_title(key) {
                MetaModel { title: Some(value), ..m }
            } else if spec_key_album(key) {
                MetaModel { album: Some(value), ..m }
            } else if spec_key_genre(key) {
                MetaModel { genre: Some(value), ..m }
            } else {
                m
            }
        }
    }
}

/// The record after applying up to `count` length-prefixed entries
/// starting at `idx`; a truncated length or entry ends the walk.
pub open spec fn spec_vorbis_entries(m: MetaModel, d: Seq<u8>, idx: int, count: int) -> MetaModel
    decreases count,
{
    if count <= 0 {
        m
    } else if idx + 4 > d.len() {
        m
    } else {
        let l = spec_le_u32(d, idx) as int;
        if idx + 4 + l > d.len() {
            m
        } else {
            spec_vorbis_entries(
                spec_vorbis_entry(m, d.subrange(idx + 4, idx + 4 + l)),
                d,
                idx + 4 + l,
                count - 1,
            )
        }
    }
}

/// What a VORBIS_COMMENT block body does to a record: skip the
/// length-prefixed vendor string, then apply the declared number of
/// `KEY=VALUE` entries in order, last wins.
pub open spec fn spec_vorbis_apply(m: MetaModel, d: Seq<u8>) -> MetaModel {
    if d.len() < 8 {
        m
    } else {
        let vendor = spec_le_u32(d, 0) as int;
        let idx = 4 + vendor;
        if idx + 4 > d.len() {
            m
        } else {
            spec_vorbis_entries(m, d, idx + 4, spec_le_u32(d, idx) as int)
        }
    }
}

fn vorbis_entry_apply(meta: &mut SongMetadata, e: &[u8])
    ensures
        final (meta)@ == spec_vorbis_entry(old(meta)@, e@),
{
    let decoded = crate::text::utf8_strict(e);
    match decoded {
        None => {},
        Some(cs) => {
            match find_eq(&cs) {
                None => {},
                Some(p) => {
                    let value = vec_range(&cs, p + 1, cs.len());
                    if p == 6 && ci_eq(cs[0], 'a') && ci_eq(cs[1], 'r') && ci_eq(cs[2], 't')
                        && ci_eq(cs[3], 'i') && ci_eq(cs[4], 's') && ci_eq(cs[5], 't') {
                        meta.artist = Some(chars_to_string(&value));
                    } else if p == 5 && ci_eq(cs[0], 't') && ci_eq(cs[1], 'i') && ci_eq(
                        cs[2],
                        't',
                    ) && ci_eq(cs[3], 'l') && ci_eq(cs[4], 'e') {
                        meta.title = Some(chars_to_string(&value));
                    } else if p == 5 && ci_eq(cs[0], 'a') && ci_eq(cs[1], 'l') && ci_eq(
                        cs[2],
                        'b',
                    ) && ci_eq(cs[3], 'u') && ci_eq(cs[4], 'm') {
                        meta.album = Some(chars_to_string(&value));
                    } else if p == 5 && ci_eq(cs[0], 'g') && ci_eq(cs[1], 'e') && ci_eq(
                        cs[2],
                        'n',
                    ) && ci_eq(cs[3], 'r') && ci_eq(cs[4], 'e') {
                        meta.genre = Some(chars_to_string(&value));
                    }
                    assert(meta@ =~= spec_vorbis_entry(old(meta)@, e@));
                },
            }
        },
    }
}

/// Applies a FLAC VORBIS_COMMENT block body to the record: recognized
/// `KEY=VALUE` entries overwrite the matching field, last wins.
#[verifier::loop_isolation(false)]
pub fn parse_vorbis_comments(meta: &mut SongMetadata, data: &[u8])
    ensures
        final (meta)@ == spec_vorbis_apply(old(meta)@, data@),
{
    if data.len() < 8 {
        return ;
    }
    let vendor_len = le_u32(data, 0) as usize;
    if vendor_len > data.len() - 8 {
        return ;
    }
    let idx = 4 + vendor_len;
    let count = le_u32(data, idx) as usize;
    let mut pos: usize = idx + 4;
    let mut rem: usize = count;
    while rem > 0
        invariant
            pos <= data@.len(),
            spec_vorbis_entries(old(meta)@, data@, (4 + vendor_len + 4) as int, count as int)
                == spec_vorbis_entries(meta@, data@, pos as int, rem as int),
        decreases rem,
    {
        if data.len() - pos < 4 {
            assert(spec_vorbis_entries(meta@, data@, pos as int, rem as int) == meta@);
            return ;
        }
        let l = le_u32(data, pos) as usize;
        if l > data.len() - (pos + 4) {
            assert(spec_vorbis_entries(meta@, data@, pos as int, rem as int) == meta@);
            return ;
        }
        let ghost m_before: MetaModel = meta@;
        vorbis_entry_apply(meta, &data[pos + 4..pos + 4 + l]);
        assert(spec_vorbis_entries(m_before, data@, pos as int, rem as int)
            == spec_vorbis_entries(meta@, data@, pos + 4 + l as int, rem - 1));
        pos = pos + 4 + l;
        rem = rem - 1;
    }
}

} // verus!
