use meta::SongMetadata;

fn id3v1_trailer_block(title: &str, artist: &str) -> Vec<u8> {
    let mut t = Vec::new();
    t.extend_from_slice(b"TAG");
    let mut field = |s: &str| {
        let mut f = s.as_bytes().to_vec();
        f.resize(30, 0);
        t.extend_from_slice(&f);
    };
    field(title);
    field(artist);
    field("");
    t.extend_from_slice(&[0u8; 34]);
    t.push(12);
    t
}

fn m4a_title_atom(text: &str) -> Vec<u8> {
    let mut data_atom = Vec::new();
    data_atom.extend_from_slice(&((16 + text.len()) as u32).to_be_bytes());
    data_atom.extend_from_slice(b"data");
    data_atom.extend_from_slice(&[0u8; 8]);
    data_atom.extend_from_slice(text.as_bytes());
    let mut atom = Vec::new();
    atom.extend_from_slice(&((8 + data_atom.len()) as u32).to_be_bytes());
    atom.extend_from_slice(b"\xa9nam");
    atom.extend_from_slice(&data_atom);
    atom
}

#[test]
fn short_input_gives_filename_title_only() {
    let m = SongMetadata::from_bytes(&[0u8; 5], "tiny_file.wav");
    assert_eq!(m.title, Some("Tiny File".to_string()));
    assert_eq!(m.artist, None);
    assert_eq!(m.album, None);
    assert_eq!(m.genre, None);
    assert_eq!(m.duration_ms, None);
}

#[test]
fn wav_dispatch_fills_duration_and_title() {
    let mut d = Vec::new();
    d.extend_from_slice(b"RIFF");
    d.extend_from_slice(&0u32.to_le_bytes());
    d.extend_from_slice(b"WAVE");
    d.extend_from_slice(b"fmt ");
    d.extend_from_slice(&16u32.to_le_bytes());
    let mut fmt = vec![0u8; 16];
    fmt[8..12].copy_from_slice(&176400u32.to_le_bytes());
    d.extend_from_slice(&fmt);
    d.extend_from_slice(b"data");
    d.extend_from_slice(&176400u32.to_le_bytes());
    let m = SongMetadata::from_bytes(&d, "some_song.wav");
    assert_eq!(m.duration_ms, Some(1000));
    assert_eq!(m.title, Some("Some Song".to_string()));
}

#[test]
fn id3v2_dispatch_title_from_tag_wins_over_filename() {
    let mut d = Vec::new();
    d.extend_from_slice(b"ID3\x04\x00\x00\x00\x00\x00\x0f");
    d.extend_from_slice(b"TIT2");
    d.extend_from_slice(&5u32.to_be_bytes());
    d.extend_from_slice(&[0, 0]);
    d.push(0);
    d.extend_from_slice(b"Real");
    let m = SongMetadata::from_bytes(&d, "wrong_name.mp3");
    assert_eq!(m.title, Some("Real".to_string()));
    // The ID3v2 branch always attempts the MPEG fallback estimator.
    assert!(m.duration_ms.is_some());
}

#[test]
fn fallback_prefers_id3v1_over_m4a() {
    // Valid M4A title atoms followed by a valid ID3v1 trailer: the
    // trailer is attempted first and wins.
    let mut d = m4a_title_atom("Atom Title");
    d.extend_from_slice(&id3v1_trailer_block("Trailer Title", "Trailer Artist"));
    let m = SongMetadata::from_bytes(&d, "file.m4a");
    assert_eq!(m.title, Some("Trailer Title".to_string()));
    assert_eq!(m.artist, Some("Trailer Artist".to_string()));
}

#[test]
fn fallback_uses_m4a_when_no_id3v1() {
    let d = m4a_title_atom("Atom Title");
    let m = SongMetadata::from_bytes(&d, "file.m4a");
    assert_eq!(m.title, Some("Atom Title".to_string()));
}

#[test]
fn fallback_both_fail_gives_empty_record_with_title() {
    let d = vec![0u8; 32];
    let m = SongMetadata::from_bytes(&d, "mystery_track.bin");
    assert_eq!(m.title, Some("Mystery Track".to_string()));
    assert_eq!(m.artist, None);
    assert_eq!(m.album, None);
    assert_eq!(m.genre, None);
    // The raw-MPEG fallback still estimates from the byte count.
    assert_eq!(m.duration_ms, Some(2));
}

#[test]
fn parsing_twice_is_bit_identical() {
    let mut d = m4a_title_atom("Stable");
    d.extend_from_slice(&id3v1_trailer_block("Stable Title", "Stable Artist"));
    let m1 = SongMetadata::from_bytes(&d, "same_name.m4a");
    let m2 = SongMetadata::from_bytes(&d, "same_name.m4a");
    assert_eq!(m1, m2);
}

#[test]
fn flac_dispatch_combines_tags_and_duration() {
    // STREAMINFO (not last), then a VORBIS_COMMENT block marked last.
    let mut body = vec![0u8; 34];
    body[10] = (44100u32 >> 12) as u8;
    body[11] = ((44100u32 >> 4) & 0xFF) as u8;
    body[12] = ((44100u32 & 0xF) as u8) << 4;
    body[14] = ((88200u64 >> 16) & 0xFF) as u8;
    body[15] = ((88200u64 >> 8) & 0xFF) as u8;
    body[16] = (88200u64 & 0xFF) as u8;
    let mut vorbis = Vec::new();
    vorbis.extend_from_slice(&0u32.to_le_bytes());
    vorbis.extend_from_slice(&1u32.to_le_bytes());
    let entry = b"TITLE=Flac Song";
    vorbis.extend_from_slice(&(entry.len() as u32).to_le_bytes());
    vorbis.extend_from_slice(entry);
    let mut d = Vec::new();
    d.extend_from_slice(b"fLaC");
    d.push(0x00);
    d.extend_from_slice(&[0, 0, 34]);
    d.extend_from_slice(&body);
    d.push(0x84);
    d.extend_from_slice(&[0, 0, vorbis.len() as u8]);
    d.extend_from_slice(&vorbis);
    let m = SongMetadata::from_bytes(&d, "x.flac");
    assert_eq!(m.title, Some("Flac Song".to_string()));
    assert_eq!(m.duration_ms, Some(2000));
}
