//! Lenient raw-MPEG frame scanning, used as the duration fallback.
//!
//! The scanner skips a leading ID3v2 tag, then walks the buffer: at each
//! position it tests for an 11-bit frame sync; a valid MPEG1/2/2.5
//! Layer III header advances by the whole frame and accumulates its
//! samples, anything else advances one byte. An iteration cap of twice
//! the buffer length bounds the walk on hostile input.

use vstd::prelude::*;

use crate::cursor::spec_synchsafe_u32;
use crate::helpers::synchsafe_to_u32;

verus! {

/// A duration in milliseconds, tagged by confidence: `Measured` comes
/// from parsed frame headers, `Estimated` is a file-size guess at an
/// assumed constant 128 kbps.
#[derive(Debug, Clone, Copy, PartialEq, Eq, Structural)]
pub enum DurationEstimate {
    Measured(u64),
    Estimated(u64),
}

impl DurationEstimate {
    /// The milliseconds value, whatever the confidence.
    pub open spec fn spec_ms(self) -> u64 {
        match self {
            DurationEstimate::Measured(m) => m,
            DurationEstimate::Estimated(m) => m,
        }
    }

    /// Returns the milliseconds value, whatever the confidence.
    pub fn ms(&self) -> (r: u64)
        ensures
            r == self.spec_ms(),
    {
        match *self {
            DurationEstimate::Measured(m) => m,
            DurationEstimate::Estimated(m) => m,
        }
    }
}

/// Layer III bitrate in kbps for MPEG1, by header index; 0 marks the
/// free/reserved indices, which invalidate the header.
pub open spec fn spec_bitrate_mpeg1(i: u8) -> u32 {
    if i == 1 {
        32
    } else if i == 2 {
        40
    } else if i == 3 {
        48
    } else if i == 4 {
        56
    } else if i == 5 {
        64
    } else if i == 6 {
        80
    } else if i == 7 {
        96
    } else if i == 8 {
        112
    } else if i == 9 {
        128
    } else if i == 10 {
        160
    } else if i == 11 {
        192
    } else if i == 12 {
        224
    } else if i == 13 {
        256
    } else if i == 14 {
        320
    } else {
        0
    }
}

/// Layer III bitrate in kbps for MPEG2/2.5, by header index.
pub open spec fn spec_bitrate_mpeg2(i: u8) -> u32 {
    if i == 1 {
        8
    } else if i == 2 {
        16
    } else if i == 3 {
        24
    } else if i == 4 {
        32
    } else if i == 5 {
        40
    } else if i == 6 {
        48
    } else if i == 7 {
        56
    } else if i == 8 {
        64
    } else if i == 9 {
        80
    } else if i == 10 {
        96
    } else if i == 11 {
        112
    } else if i == 12 {
        128
    } else if i == 13 {
        144
    } else if i == 14 {
        160
    } else {
        0
    }
}

/// Sample rate in Hz by MPEG version bits (3 = MPEG1, 2 = MPEG2,
/// 0 = MPEG2.5) and header index; 0 marks the reserved index.
pub open spec fn spec_sample_rate(version_bits: u8, i: u8) -> u32 {
    if version_bits == 3 {
        if i == 0 {
            44100
        } else if i == 1 {
            48000
        } else if i == 2 {
            32000
        } else {
            0
        }
    } else if version_bits == 2 {
        if i == 0 {
            22050
        } else if i == 1 {
            24000
        } else if i == 2 {
            16000
        } else {
            0
        }
    } else if version_bits == 0 {
        if i == 0 {
            11025
        } else if i == 1 {
            12000
        } else if i == 2 {
            8000
        } else {
            0
        }
    } else {
        0
    }
}

/// What the scanner does at one position: advance a byte, stop, or
/// consume a frame of the given length, sample rate and samples.
#[derive(Debug, Clone, Copy, PartialEq, Eq, Structural)]
pub enum MpegStep {
    Skip,
    Halt,
    Frame(usize, u32, u32),
}

/// The scanner's decision at `pos` (which must leave 4 readable bytes):
/// no sync, a reserved version, a non-Layer-III layer, or a reserved
/// bitrate/sample-rate index advance one byte; a valid header whose
/// frame would pass the end of the buffer stops the scan; otherwise the
/// frame is consumed whole.
pub open spec fn spec_mpeg_step(d: Seq<u8>, pos: int) -> MpegStep {
    let b2 = d[pos + 1];
    if !(d[pos] == 0xFF && b2 >= 0xE0) {
        MpegStep::Skip
    } else {
        let version_bits = (b2 / 8) % 4;
        let layer_bits = (b2 / 2) % 4;
        let b3 = d[pos + 2];
        let bitrate_index = b3 / 16;
        let sample_rate_index = (b3 / 4) % 4;
        let padding = (b3 / 2) % 2;
        if version_bits == 1 || layer_bits != 1 {
            MpegStep::Skip
        } else {
            let sr = spec_sample_rate(version_bits, sample_rate_index);
            let br = if version_bits == 3 {
                spec_bitrate_mpeg1(bitrate_index)
            } else {
                spec_bitrate_mpeg2(bitrate_index)
            };
            if sr == 0 || br == 0 {
                MpegStep::Skip
            } else {
                let fs = (if version_bits == 3 {
                    144000 * br / (sr as int)
                } else {
                    72000 * br / (sr as int)
                }) + padding;
                if fs == 0 {
                    MpegStep::Skip
                } else if pos + fs > d.len() {
                    MpegStep::Halt
                } else {
                    MpegStep::Frame(
                        fs as usize,
                        sr,
                        if version_bits == 3 {
                            1152u32
                        } else {
                            576u32
                        },
                    )
                }
            }
        }
    }
}

/// The `(total samples, last sample rate)` pair after scanning from
/// `pos` with `iters` of the `cap` iterations already used.
pub open spec fn spec_mpeg_scan(
    d: Seq<u8>,
    pos: int,
    iters: int,
    cap: int,
    total: int,
    rate: u32,
) -> (int, u32)
    decreases cap - iters,
{
    if pos + 4 > d.len() || iters >= cap {
        (total, rate)
    } else {
        match spec_mpeg_step(d, pos) {
            MpegStep::Skip => spec_mpeg_scan(d, pos + 1, iters + 1, cap, total, rate),
            MpegStep::Halt => (total, rate),
            MpegStep::Frame(fs, sr, spf) => spec_mpeg_scan(
                d,
                pos + fs,
                iters + 1,
                cap,
                total + spf,
                sr,
            ),
        }
    }
}

/// Where scanning starts: past a leading ID3v2 tag when one is present,
/// else at the first byte.
pub open spec fn spec_mpeg_start(d: Seq<u8>) -> int {
    if d.len() >= 10 && d[0] == 0x49 && d[1] == 0x44 && d[2] == 0x33 {
        10 + spec_synchsafe_u32(d, 6) as int
    } else {
        0
    }
}

/// The duration from a finished scan: measured from the accumulated
/// samples and last sample rate when any frame was parsed (saturating at
/// the largest 64-bit value), else estimated from the byte length at an
/// assumed 128 kbps, else nothing for an empty buffer.
pub open spec fn spec_mpeg_finish(len: int, total: int, rate: u32) -> Option<DurationEstimate> {
    if total > 0 && rate > 0 {
        let ms = total * 1000 / (rate as int);
        Some(
            DurationEstimate::Measured(
                if ms > u64::MAX {
                    u64::MAX
                } else {
                    ms as u64
                },
            ),
        )
    } else if len > 0 {
        Some(DurationEstimate::Estimated((len * 8 * 1000 / 128000) as u64))
    } else {
        None
    }
}

/// The bare milliseconds of an optional estimate, confidence dropped.
pub open spec fn spec_opt_ms(r: Option<DurationEstimate>) -> Option<u64> {
    match r {
        Some(e) => Some(e.spec_ms()),
        None => None,
    }
}

/// What MPEG duration estimation yields on a whole buffer.
pub open spec fn spec_mp3_duration(d: Seq<u8>) -> Option<DurationEstimate> {
    let r = spec_mpeg_scan(d, spec_mpeg_start(d), 0, 2 * (d.len() as int), 0, 0);
    spec_mpeg_finish(d.len() as int, r.0, r.1)
}

/// A buffer of back-to-back MPEG1 Layer III frames at 128 kbps and
/// 44100 Hz without padding: each frame is 417 bytes, and each frame
/// header carries sync, version 1, Layer III, bitrate index 9 and
/// sample-rate index 0. The frame interiors are arbitrary.
pub open spec fn spec_cbr128_frames(d: Seq<u8>, n: int) -> bool {
    &&& d.len() == 417 * n
    &&& forall|k: int|
        0 <= k < n ==> #[trigger] d[417 * k] == 0xFF && d[417 * k + 1] == 0xFB && d[417 * k
            + 2] == 0x90
}

proof fn lemma_cbr128_scan(d: Seq<u8>, n: int, j: int, total: int, rate: u32)
    requires
        n >= 1,
        spec_cbr128_frames(d, n),
        0 <= j <= n,
    ensures
        spec_mpeg_scan(d, 417 * j, j, 2 * (d.len() as int), total, rate) == (
            total + 1152 * (n - j),
            if j < n {
                44100u32
            } else {
                rate
            },
        ),
    decreases n - j,
{
    if j == n {
    } else {
        assert(d[417 * j] == 0xFF && d[417 * j + 1] == 0xFB && d[417 * j + 2] == 0x90);
        assert(spec_mpeg_step(d, 417 * j) == MpegStep::Frame(417usize, 44100u32, 1152u32));
        lemma_cbr128_scan(d, n, j + 1, total + 1152, 44100);
    }
}

/// On a buffer of `n` back-to-back valid MPEG1 Layer III frames at
/// 128 kbps and 44100 Hz, the scanner measures exactly
/// `n * 1152 * 1000 / 44100` milliseconds, rounded down.
pub proof fn lemma_cbr128_duration(d: Seq<u8>, n: int)
    requires
        1 <= n <= 0xFFFFFFFF,
        spec_cbr128_frames(d, n),
    ensures
        spec_mp3_duration(d) == Some(
            DurationEstimate::Measured(((n * 1152 * 1000) / 44100) as u64),
        ),
{
    assert(d[417 * 0int] == 0xFF);
    assert(spec_mpeg_start(d) == 0);
    lemma_cbr128_scan(d, n, 0, 0, 0);
    assert(spec_mpeg_scan(d, 0, 0, 2 * (d.len() as int), 0, 0) == (1152 * n, 44100u32));
    assert(1152 * n * 1000 / 44100 <= u64::MAX);
}

fn mpeg_step(data: &[u8], pos: usize) -> (r: MpegStep)
    requires
        pos + 4 <= data@.len(),
    ensures
        r == spec_mpeg_step(data@, pos as int),
        r matches MpegStep::Frame(fs, sr, spf) ==> pos + fs <= data@.len() && fs >= 1 && sr > 0,
{
    let n = data.len();
    let b2 = data[pos + 1];
    if !(data[pos] == 0xFF && b2 >= 0xE0) {
        return MpegStep::Skip;
    }
    let version_bits = (b2 / 8) % 4;
    let layer_bits = (b2 / 2) % 4;
    let b3 = data[pos + 2];
    let bitrate_index = b3 / 16;
    let sample_rate_index = (b3 / 4) % 4;
    let padding = ((b3 / 2) % 2) as u32;
    if version_bits == 1 || layer_bits != 1 {
        return MpegStep::Skip;
    }
    let sr = sample_rate(version_bits, sample_rate_index);
    let br = if version_bits == 3 {
        bitrate_mpeg1(bitrate_index)
    } else {
        bitrate_mpeg2(bitrate_index)
    };
    if sr == 0 || br == 0 {
        return MpegStep::Skip;
    }
    let fs = (if version_bits == 3 {
        144000 * br / sr
    } else {
        72000 * br / sr
    }) + padding;
    if fs == 0 {
        return MpegStep::Skip;
    }
    let fs = fs as usize;
    if fs > n - pos {
        return MpegStep::Halt;
    }
    MpegStep::Frame(
        fs,
        sr,
        if version_bits == 3 {
            1152
        } else {
            576
        },
    )
}

fn bitrate_mpeg1(i: u8) -> (r: u32)
    ensures
        r == spec_bitrate_mpeg1(i),
        r <= 320,
{
    if i == 1 {
        32
    } else if i == 2 {
        40
    } else if i == 3 {
        48
    } else if i == 4 {
        56
    } else if i == 5 {
        64
    } else if i == 6 {
        80
    } else if i == 7 {
        96
    } else if i == 8 {
        112
    } else if i == 9 {
        128
    } else if i == 10 {
        160
    } else if i == 11 {
        192
    } else if i == 12 {
        224
    } else if i == 13 {
        256
    } else if i == 14 {
        320
    } else {
        0
    }
}

fn bitrate_mpeg2(i: u8) -> (r: u32)
    ensures
        r == spec_bitrate_mpeg2(i),
        r <= 320,
{
    if i == 1 {
        8
    } else if i == 2 {
        16
    } else if i == 3 {
        24
    } else if i == 4 {
        32
    } else if i == 5 {
        40
    } else if i == 6 {
        48
    } else if i == 7 {
        56
    } else if i == 8 {
        64
    } else if i == 9 {
        80
    } else if i == 10 {
        96
    } else if i == 11 {
        112
    } else if i == 12 {
        128
    } else if i == 13 {
        144
    } else if i == 14 {
        160
    } else {
        0
    }
}

fn sample_rate(version_bits: u8, i: u8) -> (r: u32)
    ensures
        r == spec_sample_rate(version_bits, i),
{
    if version_bits == 3 {
        if i == 0 {
            44100
        } else if i == 1 {
            48000
        } else if i == 2 {
            32000
        } else {
            0
        }
    } else if version_bits == 2 {
        if i == 0 {
            22050
        } else if i == 1 {
            24000
        } else if i == 2 {
            16000
        } else {
            0
        }
    } else if version_bits == 0 {
        if i == 0 {
            11025
        } else if i == 1 {
            12000
        } else if i == 2 {
            8000
        } else {
            0
        }
    } else {
        0
    }
}

fn mpeg_finish(len: usize, total: u128, rate: u32) -> (r: Option<DurationEstimate>)
    requires
        total <= 0x1000000000000000000000000,
    ensures
        r == spec_mpeg_finish(len as int, total as int, rate),
{
    if total > 0 && rate > 0 {
        let ms = (total * 1000) / (rate as u128);
        if ms > u64::MAX as u128 {
            Some(DurationEstimate::Measured(u64::MAX))
        } else {
            Some(DurationEstimate::Measured(ms as u64))
        }
    } else if len > 0 {
        Some(DurationEstimate::Estimated((((len as u128) * 8 * 1000) / 128000) as u64))
    } else {
        None
    }
}

/// Estimates a duration by lenient MPEG frame scanning: measured from
/// frame headers when any parse, estimated from the byte count at an
/// assumed 128 kbps otherwise; nothing only for an empty buffer.
#[verifier::loop_isolation(false)]
pub fn mp3_duration(data: &[u8]) -> (r: Option<DurationEstimate>)
    ensures
        r == spec_mp3_duration(data@),
{
    let mut pos: usize = 0;
    if data.len() >= 10 && data[0] == 0x49 && data[1] == 0x44 && data[2] == 0x33 {
        let tag_size = synchsafe_to_u32(&data[6..10]) as usize;
        assert(data@.subrange(6, 10)[0] == data@[6]);
        assert(data@.subrange(6, 10)[1] == data@[7]);
        assert(data@.subrange(6, 10)[2] == data@[8]);
        assert(data@.subrange(6, 10)[3] == data@[9]);
        pos = 10 + tag_size;
    }
    assert(pos == spec_mpeg_start(data@));
    let cap: u128 = 2 * (data.len() as u128);
    let mut iters: u128 = 0;
    let mut total: u128 = 0;
    let mut rate: u32 = 0;
    while data.len() >= pos && data.len() - pos >= 4 && iters < cap
        invariant
            iters <= cap,
            total <= 1152 * iters,
            spec_mpeg_scan(data@, spec_mpeg_start(data@), 0, cap as int, 0, 0) == spec_mpeg_scan(
                data@,
                pos as int,
                iters as int,
                cap as int,
                total as int,
                rate,
            ),
        decreases cap - iters,
    {
        iters = iters + 1;
        match mpeg_step(data, pos) {
            MpegStep::Skip => {
                pos = pos + 1;
            },
            MpegStep::Halt => {
                return mpeg_finish(data.len(), total, rate);
            },
            MpegStep::Frame(fs, sr, spf) => {
                pos = pos + fs;
                total = total + (spf as u128);
                rate = sr;
            },
        }
    }
    mpeg_finish(data.len(), total, rate)
}

} // verus!
