use meta::SongMetadata;

fn id3v1_trailer(title: &str, artist: &str, album: &str, genre: u8) -> Vec<u8> {
    let mut t = Vec::new();
    t.extend_from_slice(b"TAG");
    let mut field = |s: &str| {
        let mut f = s.as_bytes().to_vec();
        f.resize(30, 0);
        t.extend_from_slice(&f);
    };
    field(title);
    field(artist);
    field(album);
    t.extend_from_slice(&[0u8; 34]);
    t.push(genre);
    assert_eq!(t.len(), 128);
    t
}

fn id3v2_frame(id: &[u8; 4], encoding: u8, text: &[u8]) -> Vec<u8> {
    let mut f = Vec::new();
    f.extend_from_slice(id);
    let size = (1 + text.len()) as u32;
    f.extend_from_slice(&size.to_be_bytes());
    f.extend_from_slice(&[0, 0]);
    f.push(encoding);
    f.extend_from_slice(text);
    f
}

fn id3v2_file(frames: &[Vec<u8>]) -> Vec<u8> {
    let body: Vec<u8> = frames.concat();
    let n = body.len() as u32;
    let mut d = Vec::new();
    d.extend_from_slice(b"ID3\x03\x00\x00");
    d.push(((n >> 21) & 0x7F) as u8);
    d.push(((n >> 14) & 0x7F) as u8);
    d.push(((n >> 7) & 0x7F) as u8);
    d.push((n & 0x7F) as u8);
    d.extend_from_slice(&body);
    d
}

fn flac_file(entries: &[(&str, &str)], last_vorbis: bool) -> Vec<u8> {
    let mut body = Vec::new();
    body.extend_from_slice(&4u32.to_le_bytes());
    body.extend_from_slice(b"test");
    body.extend_from_slice(&(entries.len() as u32).to_le_bytes());
    for (k, v) in entries {
        let e = format!("{}={}", k, v);
        body.extend_from_slice(&(e.len() as u32).to_le_bytes());
        body.extend_from_slice(e.as_bytes());
    }
    let mut d = Vec::new();
    d.extend_from_slice(b"fLaC");
    d.push(if last_vorbis { 0x84 } else { 0x04 });
    let n = body.len() as u32;
    d.push(((n >> 16) & 0xFF) as u8);
    d.push(((n >> 8) & 0xFF) as u8);
    d.push((n & 0xFF) as u8);
    d.extend_from_slice(&body);
    d
}

fn wav_info_file(entries: &[(&[u8; 4], &str)]) -> Vec<u8> {
    let mut list = Vec::new();
    list.extend_from_slice(b"INFO");
    for (id, text) in entries {
        list.extend_from_slice(*id);
        list.extend_from_slice(&(text.len() as u32).to_le_bytes());
        list.extend_from_slice(text.as_bytes());
    }
    let mut d = Vec::new();
    d.extend_from_slice(b"RIFF");
    d.extend_from_slice(&0u32.to_le_bytes());
    d.extend_from_slice(b"WAVE");
    d.extend_from_slice(b"LIST");
    d.extend_from_slice(&(list.len() as u32).to_le_bytes());
    d.extend_from_slice(&list);
    d
}

fn m4a_text_atom(kind: &[u8; 4], text: &str) -> Vec<u8> {
    let mut data_atom = Vec::new();
    data_atom.extend_from_slice(&((16 + text.len()) as u32).to_be_bytes());
    data_atom.extend_from_slice(b"data");
    data_atom.extend_from_slice(&[0u8; 8]);
    data_atom.extend_from_slice(text.as_bytes());
    let mut atom = Vec::new();
    atom.extend_from_slice(&((8 + data_atom.len()) as u32).to_be_bytes());
    atom.extend_from_slice(kind);
    atom.extend_from_slice(&data_atom);
    atom
}

#[test]
fn id3v1_round_trip() {
    let mut d = vec![0u8; 64];
    d.extend_from_slice(&id3v1_trailer("Test Title", "Test Artist", "Test Album", 17));
    let m = SongMetadata::from_id3v1(&d).unwrap();
    assert_eq!(m.title, Some("Test Title".to_string()));
    assert_eq!(m.artist, Some("Test Artist".to_string()));
    assert_eq!(m.album, Some("Test Album".to_string()));
    assert_eq!(m.genre, Some("17".to_string()));
    assert_eq!(m.duration_ms, None);
}

#[test]
fn id3v1_rejects_short_or_unmarked() {
    assert!(SongMetadata::from_id3v1(&[0u8; 127]).is_none());
    assert!(SongMetadata::from_id3v1(&[0u8; 200]).is_none());
}

#[test]
fn id3v1_genre_is_raw_decimal_index() {
    let d = id3v1_trailer("t", "a", "b", 0);
    assert_eq!(SongMetadata::from_id3v1(&d).unwrap().genre, Some("0".to_string()));
    let d = id3v1_trailer("t", "a", "b", 255);
    assert_eq!(SongMetadata::from_id3v1(&d).unwrap().genre, Some("255".to_string()));
}

#[test]
fn id3v2_round_trip() {
    let d = id3v2_file(&[
        id3v2_frame(b"TIT2", 0, b"My Song"),
        id3v2_frame(b"TPE1", 0, b"Somebody"),
        id3v2_frame(b"TALB", 0, b"An Album"),
        id3v2_frame(b"TCON", 0, b"Rock"),
    ]);
    let m = SongMetadata::from_mp3v2(&d).unwrap();
    assert_eq!(m.title, Some("My Song".to_string()));
    assert_eq!(m.artist, Some("Somebody".to_string()));
    assert_eq!(m.album, Some("An Album".to_string()));
    assert_eq!(m.genre, Some("Rock".to_string()));
}

#[test]
fn id3v2_last_frame_wins() {
    let d = id3v2_file(&[
        id3v2_frame(b"TIT2", 0, b"First"),
        id3v2_frame(b"TIT2", 0, b"Second"),
    ]);
    let m = SongMetadata::from_mp3v2(&d).unwrap();
    assert_eq!(m.title, Some("Second".to_string()));
}

#[test]
fn id3v2_utf16_frame_and_unknown_id() {
    let d = id3v2_file(&[
        id3v2_frame(b"TXXX", 0, b"ignored"),
        id3v2_frame(b"TPE1", 1, &[0x00, 0x48, 0x00, 0x69]),
    ]);
    let m = SongMetadata::from_mp3v2(&d).unwrap();
    assert_eq!(m.artist, Some("Hi".to_string()));
    assert_eq!(m.title, None);
}

#[test]
fn id3v2_stops_at_zero_or_overrunning_frame() {
    // A frame whose declared size overruns the tag body ends the scan;
    // what came before is kept.
    let good = id3v2_frame(b"TIT2", 0, b"Kept");
    let mut bad = Vec::new();
    bad.extend_from_slice(b"TPE1");
    bad.extend_from_slice(&1000u32.to_be_bytes());
    bad.extend_from_slice(&[0, 0, 0]);
    let d = id3v2_file(&[good, bad]);
    let m = SongMetadata::from_mp3v2(&d).unwrap();
    assert_eq!(m.title, Some("Kept".to_string()));
    assert_eq!(m.artist, None);
}

#[test]
fn id3v2_requires_marker() {
    assert!(SongMetadata::from_mp3v2(b"XXX\x03\x00\x00\x00\x00\x00\x00").is_none());
}

#[test]
fn flac_round_trip_case_insensitive_keys() {
    let d = flac_file(
        &[("Artist", "Someone"), ("TITLE", "Thing"), ("album", "Records"), ("GeNrE", "Jazz")],
        true,
    );
    let m = SongMetadata::from_flac(&d).unwrap();
    assert_eq!(m.artist, Some("Someone".to_string()));
    assert_eq!(m.title, Some("Thing".to_string()));
    assert_eq!(m.album, Some("Records".to_string()));
    assert_eq!(m.genre, Some("Jazz".to_string()));
}

#[test]
fn flac_last_comment_wins_and_unknown_skipped() {
    let d = flac_file(&[("ARTIST", "One"), ("COMMENT", "x"), ("ARTIST", "Two")], true);
    let m = SongMetadata::from_flac(&d).unwrap();
    assert_eq!(m.artist, Some("Two".to_string()));
}

#[test]
fn flac_empty_value_is_kept() {
    let d = flac_file(&[("ARTIST", "")], true);
    let m = SongMetadata::from_flac(&d).unwrap();
    assert_eq!(m.artist, Some(String::new()));
}

#[test]
fn flac_requires_signature() {
    assert!(SongMetadata::from_flac(b"flaC\x00\x00\x00\x00").is_none());
}

#[test]
fn flac_invalid_utf8_entry_is_skipped() {
    let mut body = Vec::new();
    body.extend_from_slice(&0u32.to_le_bytes());
    body.extend_from_slice(&1u32.to_le_bytes());
    let entry = [b'A', b'R', b'T', b'I', b'S', b'T', b'=', 0xFF, 0xFE];
    body.extend_from_slice(&(entry.len() as u32).to_le_bytes());
    body.extend_from_slice(&entry);
    let mut d = Vec::new();
    d.extend_from_slice(b"fLaC");
    d.push(0x84);
    d.extend_from_slice(&[0, 0, body.len() as u8]);
    d.extend_from_slice(&body);
    let m = SongMetadata::from_flac(&d).unwrap();
    assert_eq!(m.artist, None);
}

#[test]
fn wav_round_trip() {
    let d = wav_info_file(&[
        (b"IART", "Artist W"),
        (b"INAM", "Name W"),
        (b"IPRD", "Album W"),
        (b"IGNR", "Genre W"),
    ]);
    let m = SongMetadata::from_wav(&d);
    assert_eq!(m.artist, Some("Artist W".to_string()));
    assert_eq!(m.title, Some("Name W".to_string()));
    assert_eq!(m.album, Some("Album W".to_string()));
    assert_eq!(m.genre, Some("Genre W".to_string()));
}

#[test]
fn wav_text_is_nul_and_space_trimmed() {
    let d = wav_info_file(&[(b"IART", " Spacey\0\0")]);
    let m = SongMetadata::from_wav(&d);
    assert_eq!(m.artist, Some("Spacey".to_string()));
}

#[test]
fn wav_non_info_list_skipped() {
    let mut d = Vec::new();
    d.extend_from_slice(b"RIFF");
    d.extend_from_slice(&0u32.to_le_bytes());
    d.extend_from_slice(b"WAVE");
    d.extend_from_slice(b"LIST");
    d.extend_from_slice(&8u32.to_le_bytes());
    d.extend_from_slice(b"adtl");
    d.extend_from_slice(&[0u8; 4]);
    let m = SongMetadata::from_wav(&d);
    assert_eq!(m.artist, None);
    assert_eq!(m.title, None);
}

#[test]
fn m4a_round_trip() {
    let mut d = Vec::new();
    d.extend_from_slice(&m4a_text_atom(b"\xa9nam", "M4A Title"));
    d.extend_from_slice(&m4a_text_atom(b"\xa9ART", "M4A Artist"));
    d.extend_from_slice(&m4a_text_atom(b"\xa9alb", "M4A Album"));
    d.extend_from_slice(&m4a_text_atom(b"\xa9gen", "M4A Genre"));
    let m = SongMetadata::from_m4a(&d);
    assert_eq!(m.title, Some("M4A Title".to_string()));
    assert_eq!(m.artist, Some("M4A Artist".to_string()));
    assert_eq!(m.album, Some("M4A Album".to_string()));
    assert_eq!(m.genre, Some("M4A Genre".to_string()));
}

#[test]
fn m4a_bad_atom_size_stops_walk() {
    let mut d = m4a_text_atom(b"\xa9nam", "Kept");
    // A follow-up atom claiming more bytes than remain.
    d.extend_from_slice(&100u32.to_be_bytes());
    d.extend_from_slice(b"\xa9ART");
    d.extend_from_slice(b"tiny");
    let m = SongMetadata::from_m4a(&d);
    assert_eq!(m.title, Some("Kept".to_string()));
    assert_eq!(m.artist, None);
}

#[test]
fn truncated_inputs_do_not_panic() {
    let samples: Vec<Vec<u8>> = vec![
        b"RIFF\x10\x00\x00\x00WAVELIST\xff\xff".to_vec(),
        b"fLaC\x04\xff\xff\xff".to_vec(),
        b"ID3\x03\x00\x00\x7f\x7f\x7f\x7f".to_vec(),
        b"\x00\x00\x00\x09data".to_vec(),
        vec![0xFF, 0xFB, 0x90],
    ];
    for d in samples {
        let m = SongMetadata::from_bytes(&d, "x.mp3");
        assert_eq!(m.artist, None);
        assert_eq!(m.album, None);
        assert!(m.title.is_some());
    }
}
