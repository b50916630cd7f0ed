use meta::mpeg::{mp3_duration, DurationEstimate};
use meta::SongMetadata;

fn flac_with_streaminfo(sample_rate: u32, total_samples: u64) -> Vec<u8> {
    let mut body = vec![0u8; 34];
    body[10] = (sample_rate >> 12) as u8;
    body[11] = ((sample_rate >> 4) & 0xFF) as u8;
    body[12] = (((sample_rate & 0xF) as u8) << 4) | (((total_samples >> 32) & 0xF) as u8);
    body[13] = ((total_samples >> 24) & 0xFF) as u8;
    body[14] = ((total_samples >> 16) & 0xFF) as u8;
    body[15] = ((total_samples >> 8) & 0xFF) as u8;
    body[16] = (total_samples & 0xFF) as u8;
    let mut d = Vec::new();
    d.extend_from_slice(b"fLaC");
    d.push(0x80);
    d.extend_from_slice(&[0, 0, 34]);
    d.extend_from_slice(&body);
    d
}

fn wav_with_fmt_and_data(byte_rate: u32, data_size: u32) -> Vec<u8> {
    let mut d = Vec::new();
    d.extend_from_slice(b"RIFF");
    d.extend_from_slice(&0u32.to_le_bytes());
    d.extend_from_slice(b"WAVE");
    d.extend_from_slice(b"fmt ");
    d.extend_from_slice(&16u32.to_le_bytes());
    let mut fmt = vec![0u8; 16];
    fmt[8..12].copy_from_slice(&byte_rate.to_le_bytes());
    d.extend_from_slice(&fmt);
    d.extend_from_slice(b"data");
    d.extend_from_slice(&data_size.to_le_bytes());
    d
}

fn mvhd_v0(timescale: u32, duration: u32) -> Vec<u8> {
    let mut mvhd = Vec::new();
    mvhd.extend_from_slice(&32u32.to_be_bytes());
    mvhd.extend_from_slice(b"mvhd");
    mvhd.extend_from_slice(&[0u8; 12]);
    mvhd.extend_from_slice(&timescale.to_be_bytes());
    mvhd.extend_from_slice(&duration.to_be_bytes());
    mvhd.resize(32, 0);
    mvhd
}

fn mvhd_v1(timescale: u32, duration: u64) -> Vec<u8> {
    let mut mvhd = Vec::new();
    mvhd.extend_from_slice(&36u32.to_be_bytes());
    mvhd.extend_from_slice(b"mvhd");
    mvhd.push(1);
    mvhd.extend_from_slice(&[0u8; 15]);
    mvhd.extend_from_slice(&timescale.to_be_bytes());
    mvhd.extend_from_slice(&duration.to_be_bytes());
    assert_eq!(mvhd.len(), 36);
    mvhd
}

fn moov(children: &[u8]) -> Vec<u8> {
    let mut d = Vec::new();
    d.extend_from_slice(&((8 + children.len()) as u32).to_be_bytes());
    d.extend_from_slice(b"moov");
    d.extend_from_slice(children);
    d
}

fn mpeg1_frames(n: usize) -> Vec<u8> {
    let mut d = Vec::new();
    for _ in 0..n {
        let mut f = vec![0u8; 417];
        f[0] = 0xFF;
        f[1] = 0xFB;
        f[2] = 0x90;
        d.extend_from_slice(&f);
    }
    d
}

#[test]
fn flac_duration_one_second() {
    let d = flac_with_streaminfo(44100, 44100);
    assert_eq!(SongMetadata::flac_duration(&d), Some(1000));
}

#[test]
fn flac_duration_zero_sample_rate_declines() {
    let d = flac_with_streaminfo(0, 44100);
    assert_eq!(SongMetadata::flac_duration(&d), None);
}

#[test]
fn flac_duration_missing_streaminfo() {
    assert_eq!(SongMetadata::flac_duration(b"fLaC"), None);
}

#[test]
fn wav_duration_one_second() {
    let d = wav_with_fmt_and_data(176400, 176400);
    assert_eq!(SongMetadata::wav_duration(&d), Some(1000));
}

#[test]
fn wav_duration_zero_byte_rate_declines() {
    let d = wav_with_fmt_and_data(0, 176400);
    assert_eq!(SongMetadata::wav_duration(&d), None);
}

#[test]
fn wav_duration_without_fmt_declines() {
    assert_eq!(SongMetadata::wav_duration(b"RIFF\x00\x00\x00\x00WAVE"), None);
}

#[test]
fn m4a_duration_version0() {
    let d = moov(&mvhd_v0(1000, 5000));
    assert_eq!(SongMetadata::m4a_duration(&d), Some(5000));
}

#[test]
fn m4a_duration_version1() {
    let d = moov(&mvhd_v1(1000, 5000));
    assert_eq!(SongMetadata::m4a_duration(&d), Some(5000));
}

#[test]
fn m4a_duration_zero_timescale_declines() {
    let d = moov(&mvhd_v0(0, 5000));
    assert_eq!(SongMetadata::m4a_duration(&d), None);
}

#[test]
fn m4a_duration_no_moov_declines() {
    assert_eq!(SongMetadata::m4a_duration(&mvhd_v0(1000, 5000)), None);
}

#[test]
fn m4a_duration_truncated_mvhd_declines() {
    let mut short = mvhd_v1(1000, 5000);
    short.truncate(30);
    short[0..4].copy_from_slice(&30u32.to_be_bytes());
    let d = moov(&short);
    assert_eq!(SongMetadata::m4a_duration(&d), None);
}

#[test]
fn mpeg_duration_measured_from_frames() {
    for n in [1usize, 3, 10] {
        let d = mpeg1_frames(n);
        let expect = (n as u64 * 1152 * 1000) / 44100;
        assert_eq!(mp3_duration(&d), Some(DurationEstimate::Measured(expect)));
    }
}

#[test]
fn mpeg_duration_resyncs_over_garbage() {
    let mut d = vec![0u8; 37];
    d.extend_from_slice(&mpeg1_frames(2));
    let expect = (2u64 * 1152 * 1000) / 44100;
    assert_eq!(mp3_duration(&d), Some(DurationEstimate::Measured(expect)));
}

#[test]
fn mpeg_duration_discards_partial_trailing_frame() {
    let mut d = mpeg1_frames(2);
    d.extend_from_slice(&[0xFF, 0xFB, 0x90, 0x00, 0x00]);
    let expect = (2u64 * 1152 * 1000) / 44100;
    assert_eq!(mp3_duration(&d), Some(DurationEstimate::Measured(expect)));
}

#[test]
fn mpeg_duration_estimates_when_no_frames() {
    let d = vec![0u8; 1600];
    assert_eq!(mp3_duration(&d), Some(DurationEstimate::Estimated(100)));
}

#[test]
fn mpeg_duration_empty_buffer_declines() {
    assert_eq!(mp3_duration(&[]), None);
}

#[test]
fn mpeg_duration_skips_leading_id3v2() {
    let mut d = Vec::new();
    d.extend_from_slice(b"ID3\x03\x00\x00\x00\x00\x00\x05");
    d.extend_from_slice(&[0u8; 5]);
    d.extend_from_slice(&mpeg1_frames(1));
    let expect = (1152u64 * 1000) / 44100;
    assert_eq!(mp3_duration(&d), Some(DurationEstimate::Measured(expect)));
}
