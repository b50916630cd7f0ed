//! Extraction of descriptive metadata (artist, title, album, genre) and
//! playback duration from audio containers, by direct parsing of their
//! binary layouts: ID3v1 and ID3v2 tags, FLAC metadata blocks, WAV/RIFF
//! INFO chunks, MP4/M4A atoms, and a lenient raw MPEG frame scanner used
//! as a duration fallback.
//!
//! All parsers work on in-memory byte buffers and are total: malformed or
//! truncated input degrades to partial or empty metadata, never to a panic
//! or an out-of-bounds read.

use vstd::prelude::*;

pub mod cursor;
pub mod flac;
pub mod helpers;
pub mod id3;
pub mod mp4;
pub mod mpeg;
pub mod rand;
pub mod text;
pub mod title;
pub mod utils;
pub mod wav;

verus! {

/// The spec-level value of a metadata record: each text field as an
/// optional character sequence, the duration in milliseconds.
#[verifier::ext_equal]
pub struct MetaModel {
    pub artist: Option<Seq<char>>,
    pub title: Option<Seq<char>>,
    pub album: Option<Seq<char>>,
    pub genre: Option<Seq<char>>,
    pub duration_ms: Option<u64>,
}

/// An empty record: every field absent.
pub open spec fn spec_empty_model() -> MetaModel {
    MetaModel { artist: None, title: None, album: None, genre: None, duration_ms: None }
}

/// A song's metadata: free-text fields extracted from the container's
/// tags (absent when the container carries none) and the playback
/// duration in milliseconds (absent when no estimator succeeds).
#[derive(Debug, PartialEq)]
pub struct SongMetadata {
    pub artist: Option<String>,
    pub title: Option<String>,
    pub album: Option<String>,
    pub genre: Option<String>,
    pub duration_ms: Option<u64>,
}

impl View for SongMetadata {
    type V = MetaModel;

    open spec fn view(&self) -> MetaModel {
        MetaModel {
            artist: self.artist.deep_view(),
            title: self.title.deep_view(),
            album: self.album.deep_view(),
            genre: self.genre.deep_view(),
            duration_ms: self.duration_ms,
        }
    }
}

/// The record with the filename-derived title filled in when no tag
/// parser supplied one.
pub open spec fn spec_with_title(m: MetaModel, name: Seq<char>) -> MetaModel {
    if m.title is None {
        MetaModel { title: Some(crate::title::spec_prettified(name)), ..m }
    } else {
        m
    }
}

/// What extraction yields for a whole file image and its file name.
/// The first 12 bytes pick the container: RIFF/WAVE, fLaC, or an ID3v2
/// marker with major version 3 or 4; anything else tries the ID3v1
/// trailer, then the MP4 atom scan. The matching duration estimator
/// fills `duration_ms` (the fallback branch tries MP4 first, then raw
/// MPEG scanning), and a missing title is derived from the file name.
pub open spec fn spec_extract(d: Seq<u8>, name: Seq<char>) -> MetaModel {
    if d.len() < 12 {
        spec_with_title(spec_empty_model(), name)
    } else if d[0] == 0x52 && d[1] == 0x49 && d[2] == 0x46 && d[3] == 0x46 && d[8] == 0x57
        && d[9] == 0x41 && d[10] == 0x56 && d[11] == 0x45 {
        let m = crate::wav::spec_wav(d);
        spec_with_title(MetaModel { duration_ms: crate::wav::spec_wav_duration(d), ..m }, name)
    } else if d[0] == 0x66 && d[1] == 0x4C && d[2] == 0x61 && d[3] == 0x43 {
        let m = crate::flac::spec_flac(d)->0;
        spec_with_title(MetaModel { duration_ms: crate::flac::spec_flac_duration(d), ..m }, name)
    } else if d[0] == 0x49 && d[1] == 0x44 && d[2] == 0x33 && (d[3] == 3 || d[3] == 4) {
        let m = crate::id3::spec_mp3v2(d)->0;
        spec_with_title(
            MetaModel { duration_ms: crate::mpeg::spec_opt_ms(crate::mpeg::spec_mp3_duration(d)), ..m },
            name,
        )
    } else {
        let m = if crate::id3::spec_id3v1(d) is Some {
            crate::id3::spec_id3v1(d)->0
        } else {
            crate::mp4::spec_m4a(d)
        };
        let dur = if crate::mp4::spec_m4a_duration(d) is Some {
            crate::mp4::spec_m4a_duration(d)
        } else {
            crate::mpeg::spec_opt_ms(crate::mpeg::spec_mp3_duration(d))
        };
        spec_with_title(MetaModel { duration_ms: dur, ..m }, name)
    }
}

impl SongMetadata {
    /// Extracts the metadata record from a file's bytes and its name:
    /// sniffs the container, runs the matching tag parser and duration
    /// estimator, and fills a missing title from the file name. Total:
    /// any input, however malformed, yields a record.
    pub fn from_bytes(data: &[u8], name: &str) -> (r: SongMetadata)
        ensures
            r@ == spec_extract(data@, name@),
    {
        if data.len() < 12 {
            return Self::default_with_filename(name);
        }
        let mut meta: SongMetadata;
        if data[0] == 0x52 && data[1] == 0x49 && data[2] == 0x46 && data[3] == 0x46 && data[8]
            == 0x57 && data[9] == 0x41 && data[10] == 0x56 && data[11] == 0x45 {
            meta = Self::from_wav(data);
            meta.duration_ms = Self::wav_duration(data);
        } else if data[0] == 0x66 && data[1] == 0x4C && data[2] == 0x61 && data[3] == 0x43 {
            meta = match Self::from_flac(data) {
                Some(m) => m,
                None => SongMetadata::default(),
            };
            meta.duration_ms = Self::flac_duration(data);
        } else if data[0] == 0x49 && data[1] == 0x44 && data[2] == 0x33 && (data[3] == 3
            || data[3] == 4) {
            meta = match Self::from_mp3v2(data) {
                Some(m) => m,
                None => SongMetadata::default(),
            };
            meta.duration_ms = match crate::mpeg::mp3_duration(data) {
                Some(e) => Some(e.ms()),
                None => None,
            };
        } else {
            meta = match Self::from_id3v1(data) {
                Some(m) => m,
                None => Self::from_m4a(data),
            };
            let primary = Self::m4a_duration(data);
            meta.duration_ms = match primary {
                Some(v) => Some(v),
                None => match crate::mpeg::mp3_duration(data) {
                    Some(e) => Some(e.ms()),
                    None => None,
                },
            };
        }
        if meta.title.is_none() {
            meta.title = Some(Self::prettify_filename(name));
        }
        assert(meta@ =~= spec_extract(data@, name@));
        meta
    }
}

/// Parsing is deterministic: any two records drawn from the same bytes
/// and the same file name are identical, so parsing a well-formed file
/// twice yields bit-identical records.
pub proof fn lemma_extract_deterministic(
    m1: MetaModel,
    m2: MetaModel,
    d: Seq<u8>,
    name: Seq<char>,
)
    requires
        m1 == spec_extract(d, name),
        m2 == spec_extract(d, name),
    ensures
        m1 == m2,
{
}

/// For a buffer whose first 12 bytes match no known container, the
/// ID3v1 trailer is attempted before the MP4 atom scan: when ID3v1
/// succeeds its fields win, otherwise the atom scan's fields are taken;
/// when both produce nothing, the record is empty except for the
/// synthesized title.
pub proof fn lemma_fallback_order(d: Seq<u8>, name: Seq<char>)
    requires
        d.len() >= 12,
        !(d[0] == 0x52 && d[1] == 0x49 && d[2] == 0x46 && d[3] == 0x46 && d[8] == 0x57 && d[9]
            == 0x41 && d[10] == 0x56 && d[11] == 0x45),
        !(d[0] == 0x66 && d[1] == 0x4C && d[2] == 0x61 && d[3] == 0x43),
        !(d[0] == 0x49 && d[1] == 0x44 && d[2] == 0x33 && (d[3] == 3 || d[3] == 4)),
    ensures
        crate::id3::spec_id3v1(d) is Some ==> {
            let t = crate::id3::spec_id3v1(d)->0;
            let e = spec_extract(d, name);
            e.artist == t.artist && e.album == t.album && e.genre == t.genre && e.title == (
            if t.title is Some {
                t.title
            } else {
                Some(crate::title::spec_prettified(name))
            })
        },
        crate::id3::spec_id3v1(d) is None ==> {
            let t = crate::mp4::spec_m4a(d);
            let e = spec_extract(d, name);
            e.artist == t.artist && e.album == t.album && e.genre == t.genre && e.title == (
            if t.title is Some {
                t.title
            } else {
                Some(crate::title::spec_prettified(name))
            })
        },
        (crate::id3::spec_id3v1(d) is None && crate::mp4::spec_m4a(d) == spec_empty_model())
            ==> {
            let e = spec_extract(d, name);
            e.artist is None && e.album is None && e.genre is None && e.title == Some(
                crate::title::spec_prettified(name),
            )
        },
{
}

impl Default for SongMetadata {
    /// The empty record.
    fn default() -> (r: Self)
        ensures
            r@ == spec_empty_model(),
    {
        SongMetadata { artist: None, title: None, album: None, genre: None, duration_ms: None }
    }
}

} // verus!
