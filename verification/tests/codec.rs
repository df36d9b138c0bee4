use pluma_io::codec::is_utf8;
use pluma_io::decode_path;

#[test]
fn test_c_str_conversion() {
    let result = decode_path(b"test");
    assert_eq!(result, "test");
}

#[test]
fn test_decode_empty() {
    assert_eq!(decode_path(b""), "");
}

#[test]
fn test_decode_ascii_path() {
    assert_eq!(decode_path(b"/data/in.txt"), "/data/in.txt");
}

#[test]
fn test_decode_multibyte_round_trip() {
    let original = "p\u{e4}th/\u{4e2d}\u{6587}/\u{1f980}.txt";
    assert_eq!(decode_path(original.as_bytes()), original);
}

#[test]
fn test_decode_invalid_bytes_give_empty() {
    assert_eq!(decode_path(&[0xff, 0xfe, 0xfd]), "");
}

#[test]
fn test_decode_truncated_sequence_gives_empty() {
    // first two bytes of a three-byte scalar
    assert_eq!(decode_path(&[0xe2, 0x82]), "");
}

#[test]
fn test_decode_stray_continuation_gives_empty() {
    assert_eq!(decode_path(&[b'a', 0x80, b'b']), "");
}

#[test]
fn test_decode_overlong_encoding_gives_empty() {
    // two-byte encoding of '/' is overlong
    assert_eq!(decode_path(&[0xc0, 0xaf]), "");
}

#[test]
fn test_decode_surrogate_gives_empty() {
    // three-byte encoding of a high surrogate
    assert_eq!(decode_path(&[0xed, 0xa0, 0x80]), "");
}

#[test]
fn test_decode_out_of_range_scalar_gives_empty() {
    // four-byte pattern above the last Unicode scalar
    assert_eq!(decode_path(&[0xf4, 0x90, 0x80, 0x80]), "");
}

#[test]
fn test_is_utf8_accepts_valid() {
    assert!(is_utf8(b"plain ascii"));
    assert!(is_utf8("\u{7f}\u{80}\u{7ff}\u{800}\u{ffff}\u{10000}\u{10ffff}".as_bytes()));
}

#[test]
fn test_is_utf8_rejects_invalid() {
    assert!(!is_utf8(&[0x80]));
    assert!(!is_utf8(&[0xc2]));
    assert!(!is_utf8(&[0xf8, 0x80, 0x80, 0x80, 0x80]));
}
