//! MP4/M4A atom parsing: `©xxx` text atoms and `moov`/`mvhd` duration.
//!
//! The buffer is a sequence of `(4-byte big-endian size, 4-byte type,
//! payload)` atoms. The text scan is shallow: it only reads the "data"
//! sub-structure of `©nam`, `©ART`, `©alb` and `©gen` atoms. The
//! duration scan descends one level, into `moov`, looking for `mvhd`.

use vstd::prelude::*;

use crate::cursor::{be_u32, be_u64, spec_be_u32, spec_be_u64};
use crate::helpers::{extract_m4a_text, spec_extract_m4a_text};
use crate::{spec_empty_model, MetaModel, SongMetadata};

verus! {

/// The record after walking top-level atoms from `i`: an atom size under
/// 8 or past the buffer ends the walk; `©nam`, `©ART`, `©alb` and `©gen`
/// overwrite title, artist, album and genre with their extracted text.
pub open spec fn spec_m4a_atoms(d: Seq<u8>, i: int, m: MetaModel) -> MetaModel
    decreases d.len() - i,
{
    if i + 8 > d.len() {
        m
    } else {
        let size = spec_be_u32(d, i) as int;
        if size < 8 || i + size > d.len() {
            m
        } else {
            let text = spec_extract_m4a_text(d.subrange(i + 8, i + size), 0);
            let m2 = if d[i + 4] == 0xA9 && d[i + 5] == 0x6E && d[i + 6] == 0x61 && d[i + 7]
                == 0x6D {
                MetaModel { title: text, ..m }
            } else if d[i + 4] == 0xA9 && d[i + 5] == 0x41 && d[i + 6] == 0x52 && d[i + 7]
                == 0x54 {
                MetaModel { artist: text, ..m }
            } else if d[i + 4] == 0xA9 && d[i + 5] == 0x61 && d[i + 6] == 0x6C && d[i + 7]
                == 0x62 {
                MetaModel { album: text, ..m }
            } else if d[i + 4] == 0xA9 && d[i + 5] == 0x67 && d[i + 6] == 0x65 && d[i + 7]
                == 0x6E {
                MetaModel { genre: text, ..m }
            } else {
                m
            };
            spec_m4a_atoms(d, i + size, m2)
        }
    }
}

/// What M4A tag parsing yields: the top-level atom walk from the start
/// of the buffer.
pub open spec fn spec_m4a(d: Seq<u8>) -> MetaModel {
    spec_m4a_atoms(d, 0, spec_empty_model())
}

/// The duration read from the `mvhd` atom starting at `j`: byte 8 of its
/// payload selects the layout — version 1 has a 32-bit timescale at
/// offset 24 and a 64-bit duration at offset 28, version 0 a 32-bit
/// timescale at offset 20 and a 32-bit duration at offset 24. The result
/// is `duration * 1000 / timescale` milliseconds, saturating at the
/// largest 64-bit value; `None` on truncation or a zero timescale.
pub open spec fn spec_mvhd_duration(d: Seq<u8>, j: int) -> Option<u64> {
    if j + 9 > d.len() {
        None
    } else if d[j + 8] == 1 {
        if j + 36 > d.len() {
            None
        } else {
            let timescale = spec_be_u32(d, j + 24);
            let duration = spec_be_u64(d, j + 28);
            if timescale == 0 {
                None
            } else {
                let q = (duration as int) * 1000 / (timescale as int);
                Some(
                    if q > u64::MAX {
                        u64::MAX
                    } else {
                        q as u64
                    },
                )
            }
        }
    } else {
        if j + 28 > d.len() {
            None
        } else {
            let timescale = spec_be_u32(d, j + 20);
            let duration = spec_be_u32(d, j + 24);
            if timescale == 0 {
                None
            } else {
                Some(((duration as int) * 1000 / (timescale as int)) as u64)
            }
        }
    }
}

/// The result of scanning the immediate children of a `moov` atom that
/// ends at `end` for `mvhd`: `None` when it is not there (the top-level
/// walk goes on), `Some(r)` when it is, `r` being the duration read from
/// it.
pub open spec fn spec_mvhd_in_moov(d: Seq<u8>, j: int, end: int) -> Option<Option<u64>>
    decreases end - j,
{
    if j + 8 > end {
        None
    } else {
        let sub_size = spec_be_u32(d, j) as int;
        if sub_size < 8 || j + sub_size > d.len() {
            None
        } else if d[j + 4] == 0x6D && d[j + 5] == 0x76 && d[j + 6] == 0x68 && d[j + 7] == 0x64 {
            Some(spec_mvhd_duration(d, j))
        } else if j + sub_size + 8 > end {
            None
        } else {
            spec_mvhd_in_moov(d, j + sub_size, end)
        }
    }
}

/// The duration after walking top-level atoms from `i` looking for
/// `moov` and, inside it, `mvhd`.
pub open spec fn spec_m4a_dur_atoms(d: Seq<u8>, i: int) -> Option<u64>
    decreases d.len() - i,
{
    if i + 8 > d.len() {
        None
    } else {
        let size = spec_be_u32(d, i) as int;
        if size < 8 || i + size > d.len() {
            None
        } else if d[i + 4] == 0x6D && d[i + 5] == 0x6F && d[i + 6] == 0x6F && d[i + 7] == 0x76 {
            match spec_mvhd_in_moov(d, i + 8, i + size) {
                Some(r) => r,
                None => spec_m4a_dur_atoms(d, i + size),
            }
        } else {
            spec_m4a_dur_atoms(d, i + size)
        }
    }
}

/// What M4A duration estimation yields.
pub open spec fn spec_m4a_duration(d: Seq<u8>) -> Option<u64> {
    spec_m4a_dur_atoms(d, 0)
}

/// Round trip through an M4A `©ART` atom: a single atom holding one
/// "data" sub-atom whose payload is clean ASCII text (nonempty,
/// NUL-free) parses back to exactly that artist.
pub proof fn lemma_m4a_artist_round_trip(s: Seq<char>)
    requires
        0 < s.len() <= 100,
        vstd::utf8::is_ascii_chars(s),
        forall|i: int| 0 <= i < s.len() ==> !crate::text::spec_is_nul(#[trigger] s[i]),
    ensures
        ({
            let data_atom = seq![0u8, 0u8, 0u8, (16 + s.len()) as u8] + seq![
                0x64u8,
                0x61u8,
                0x74u8,
                0x61u8,
            ] + Seq::new(8, |i: int| 0u8) + crate::text::spec_ascii_bytes(s);
            let d = seq![0u8, 0u8, 0u8, (24 + s.len()) as u8] + seq![
                0xA9u8,
                0x41u8,
                0x52u8,
                0x54u8,
            ] + data_atom;
            spec_m4a(d) == (MetaModel {
                artist: Some(s),
                title: None,
                album: None,
                genre: None,
                duration_ms: None,
            })
        }),
{
    let data_atom = seq![0u8, 0u8, 0u8, (16 + s.len()) as u8] + seq![
        0x64u8,
        0x61u8,
        0x74u8,
        0x61u8,
    ] + Seq::new(8, |i: int| 0u8) + crate::text::spec_ascii_bytes(s);
    let d = seq![0u8, 0u8, 0u8, (24 + s.len()) as u8] + seq![0xA9u8, 0x41u8, 0x52u8, 0x54u8]
        + data_atom;
    assert(data_atom.len() == 16 + s.len());
    assert(d.len() == 24 + s.len());
    let n: u8 = (24 + s.len()) as u8;
    assert(d[0] == 0 && d[1] == 0 && d[2] == 0 && d[3] == n);
    assert((((0u8 as u32) << 24) | ((0u8 as u32) << 16) | ((0u8 as u32) << 8) | (n as u32)) == n
        as u32) by (bit_vector);
    assert(spec_be_u32(d, 0) == 24 + s.len());
    let sub = d.subrange(8, d.len() as int);
    assert(sub =~= data_atom);
    let m: u8 = (16 + s.len()) as u8;
    assert(sub[0] == 0 && sub[1] == 0 && sub[2] == 0 && sub[3] == m);
    assert((((0u8 as u32) << 24) | ((0u8 as u32) << 16) | ((0u8 as u32) << 8) | (m as u32)) == m
        as u32) by (bit_vector);
    assert(spec_be_u32(sub, 0) == 16 + s.len());
    assert(sub[4] == 0x64 && sub[5] == 0x61 && sub[6] == 0x74 && sub[7] == 0x61);
    assert(sub.subrange(16, sub.len() as int) =~= crate::text::spec_ascii_bytes(s));
    crate::text::lemma_ascii_utf8(s);
    crate::text::lemma_trim_nuls_id(s);
    assert(crate::helpers::spec_extract_m4a_text(sub, 0) == Some(s));
    assert(d[4] == 0xA9 && d[5] == 0x41 && d[6] == 0x52 && d[7] == 0x54);
    let m1 = MetaModel { artist: Some(s), title: None, album: None, genre: None, duration_ms: None };
    assert(spec_m4a_atoms(d, d.len() as int, m1) == m1);
    assert(spec_m4a_atoms(d, 0, spec_empty_model()) =~= m1);
}

impl SongMetadata {
    /// Parses the `©xxx` text atoms of an MP4/M4A buffer.
    #[verifier::loop_isolation(false)]
    pub fn from_m4a(data: &[u8]) -> (r: SongMetadata)
        ensures
            r@ == spec_m4a(data@),
    {
        let mut meta = SongMetadata::default();
        let mut i: usize = 0;
        while data.len() - i >= 8
            invariant
                i <= data@.len(),
                spec_m4a(data@) == spec_m4a_atoms(data@, i as int, meta@),
            decreases data@.len() - i,
        {
            let size = be_u32(data, i) as usize;
            if size < 8 || size > data.len() - i {
                assert(spec_m4a_atoms(data@, i as int, meta@) == meta@);
                return meta;
            }
            let text = extract_m4a_text(&data[i + 8..i + size]);
            let ghost m_before: MetaModel = meta@;
            if data[i + 4] == 0xA9 && data[i + 5] == 0x6E && data[i + 6] == 0x61 && data[i + 7]
                == 0x6D {
                meta.title = text;
            } else if data[i + 4] == 0xA9 && data[i + 5] == 0x41 && data[i + 6] == 0x52
                && data[i + 7] == 0x54 {
                meta.artist = text;
            } else if data[i + 4] == 0xA9 && data[i + 5] == 0x61 && data[i + 6] == 0x6C
                && data[i + 7] == 0x62 {
                meta.album = text;
            } else if data[i + 4] == 0xA9 && data[i + 5] == 0x67 && data[i + 6] == 0x65
                && data[i + 7] == 0x6E {
                meta.genre = text;
            }
            assert(spec_m4a_atoms(data@, i as int, m_before) == spec_m4a_atoms(
                data@,
                i + size as int,
                meta@,
            ));
            i = i + size;
        }
        assert(spec_m4a_atoms(data@, i as int, meta@) == meta@);
        meta
    }

    /// Computes the MP4/M4A duration from the `mvhd` atom inside `moov`.
    #[verifier::loop_isolation(false)]
    pub fn m4a_duration(data: &[u8]) -> (r: Option<u64>)
        ensures
            r == spec_m4a_duration(data@),
    {
        let mut i: usize = 0;
        while data.len() - i >= 8
            invariant
                i <= data@.len(),
                spec_m4a_duration(data@) == spec_m4a_dur_atoms(data@, i as int),
            decreases data@.len() - i,
        {
            let size = be_u32(data, i) as usize;
            if size < 8 || size > data.len() - i {
                return None;
            }
            if data[i + 4] == 0x6D && data[i + 5] == 0x6F && data[i + 6] == 0x6F && data[i + 7]
                == 0x76 {
                match Self::mvhd_in_moov(data, i + 8, i + size) {
                    Some(r) => {
                        return r;
                    },
                    None => {},
                }
            }
            assert(spec_m4a_dur_atoms(data@, i as int) == spec_m4a_dur_atoms(
                data@,
                i + size as int,
            ));
            i = i + size;
        }
        None
    }

    /// Scans the immediate children of a `moov` atom for `mvhd`.
    #[verifier::loop_isolation(false)]
    fn mvhd_in_moov(data: &[u8], j0: usize, end: usize) -> (r: Option<Option<u64>>)
        requires
            end <= data@.len(),
        ensures
            r == spec_mvhd_in_moov(data@, j0 as int, end as int),
    {
        let mut j: usize = j0;
        while end >= j && end - j >= 8
            invariant
                spec_mvhd_in_moov(data@, j0 as int, end as int) == spec_mvhd_in_moov(
                    data@,
                    j as int,
                    end as int,
                ),
            decreases end - j,
        {
            let sub_size = be_u32(data, j) as usize;
            if sub_size < 8 || sub_size > data.len() - j {
                return None;
            }
            if data[j + 4] == 0x6D && data[j + 5] == 0x76 && data[j + 6] == 0x68 && data[j + 7]
                == 0x64 {
                return Some(Self::mvhd_duration(data, j));
            }
            if sub_size > (end - j) - 8 {
                return None;
            }
            j = j + sub_size;
        }
        None
    }

    /// Reads the timescale and duration fields of the `mvhd` atom at `j`
    /// and converts them to milliseconds.
    fn mvhd_duration(data: &[u8], j: usize) -> (r: Option<u64>)
        ensures
            r == spec_mvhd_duration(data@, j as int),
    {
        if data.len() < j || data.len() - j < 9 {
            return None;
        }
        if data[j + 8] == 1 {
            if data.len() - j < 36 {
                return None;
            }
            let timescale = be_u32(data, j + 24);
            let duration = be_u64(data, j + 28);
            if timescale == 0 {
                return None;
            }
            let q = ((duration as u128) * 1000) / (timescale as u128);
            if q > u64::MAX as u128 {
                Some(u64::MAX)
            } else {
                Some(q as u64)
            }
        } else {
            if data.len() - j < 28 {
                return None;
            }
            let timescale = be_u32(data, j + 20);
            let duration = be_u32(data, j + 24);
            if timescale == 0 {
                return None;
            }
            Some(((duration as u64) * 1000) / (timescale as u64))
        }
    }
}

} // verus!
