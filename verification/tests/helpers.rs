use meta::helpers::{decode_text_frame, synchsafe_to_u32, trim_id3v1_text};
use meta::rand::RandomInt;
use meta::utils::{is_roman_alphabet, is_supported_extension};
use meta::SongMetadata;

#[test]
fn synchsafe_example_values() {
    assert_eq!(synchsafe_to_u32(&[0x00, 0x00, 0x02, 0x01]), 257);
    assert_eq!(synchsafe_to_u32(&[0x7F, 0x7F, 0x7F, 0x7F]), 0x0FFF_FFFF);
}

#[test]
fn synchsafe_ignores_high_bits() {
    assert_eq!(synchsafe_to_u32(&[0x80, 0x80, 0x82, 0x81]), 257);
}

#[test]
fn trim_id3v1_strips_nuls_and_spaces() {
    assert_eq!(trim_id3v1_text(b"Hello\0\0\0"), Some("Hello".to_string()));
    assert_eq!(trim_id3v1_text(b"  Hi  \0\0"), Some("Hi".to_string()));
    assert_eq!(trim_id3v1_text(b"\0\0\0"), None);
    assert_eq!(trim_id3v1_text(b"   "), None);
    assert_eq!(trim_id3v1_text(b""), None);
}

#[test]
fn trim_id3v1_decodes_utf8_lossily() {
    // 0xC3 0xA9 is valid UTF-8 for e-acute; a lone 0xFF becomes the
    // replacement character.
    assert_eq!(trim_id3v1_text(&[0x41, 0xC3, 0xA9]), Some("A\u{e9}".to_string()));
    assert_eq!(trim_id3v1_text(&[0x41, 0xFF]), Some("A\u{fffd}".to_string()));
}

#[test]
fn trim_id3v1_keeps_leading_nuls() {
    // Only trailing NULs are padding; leading NULs are content and NUL
    // is not whitespace.
    assert_eq!(trim_id3v1_text(b"\0\0abc"), Some("\0\0abc".to_string()));
}

#[test]
fn text_frame_empty_payload_after_selector() {
    assert_eq!(decode_text_frame(&[0x00]), Some(String::new()));
    assert_eq!(decode_text_frame(&[0x01]), Some(String::new()));
}

#[test]
fn prettify_strips_only_last_extension() {
    assert_eq!(SongMetadata::prettify_filename("a.b.c.mp3"), "A.b.c");
}

#[test]
fn text_frame_latin1() {
    assert_eq!(decode_text_frame(b"\x00Song\0\0"), Some("Song".to_string()));
    // Latin-1 reads bytes one-for-one: 0xE9 is e-acute.
    assert_eq!(decode_text_frame(&[0x00, 0x43, 0xE9]), Some("C\u{e9}".to_string()));
}

#[test]
fn text_frame_utf16_be() {
    // UTF-16BE "Hi" with a trailing odd byte, which is dropped.
    assert_eq!(decode_text_frame(&[0x01, 0x00, 0x48, 0x00, 0x69, 0x20]), Some("Hi".to_string()));
}

#[test]
fn text_frame_unknown_selector() {
    assert_eq!(decode_text_frame(&[0x02, 0x41]), None);
    assert_eq!(decode_text_frame(&[]), None);
}

#[test]
fn prettify_basic() {
    assert_eq!(SongMetadata::prettify_filename("foo_bar-baz.mp3"), "Foo Bar Baz");
}

#[test]
fn prettify_empty_name_is_unknown() {
    assert_eq!(SongMetadata::prettify_filename(""), "Unknown");
}

#[test]
fn prettify_keeps_inner_case_and_collapses_spaces() {
    assert_eq!(SongMetadata::prettify_filename("my__COOL track.flac"), "My COOL Track");
    assert_eq!(SongMetadata::prettify_filename("dotfile"), "Dotfile");
    assert_eq!(SongMetadata::prettify_filename(".bashrc"), ".bashrc");
}

#[test]
fn roman_alphabet_check() {
    assert!(is_roman_alphabet("Hello, World! 123".to_string()));
    assert!(is_roman_alphabet(String::new()));
    assert!(!is_roman_alphabet("h\u{e9}llo".to_string()));
}

#[test]
fn supported_extensions() {
    assert!(is_supported_extension("mp3"));
    assert!(is_supported_extension("MP3"));
    assert!(is_supported_extension("Flac"));
    assert!(is_supported_extension("m4a"));
    assert!(is_supported_extension("WAV"));
    assert!(!is_supported_extension("ogg"));
    assert!(!is_supported_extension(""));
    assert!(!is_supported_extension("mp"));
}

#[test]
fn random_degenerate_range_is_fixed() {
    // With min == max the range is 1, so every seed yields min.
    assert_eq!(RandomInt::new(5i32, 5i32), 5);
    assert_eq!(RandomInt::new(0u8, 0u8), 0);
    assert_eq!(RandomInt::new(-3i64, -3i64), -3);
}
