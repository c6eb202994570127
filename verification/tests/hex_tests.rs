use tss_core::hexutil::{decode_message, hex_compact};
use tss_core::numeric::{parse_u16, u16_to_dec};

#[test]
fn hex_rendering_is_lowercase_in_byte_order() {
    assert_eq!(hex_compact(&[0x12, 0xab, 0xff]), String::from("12abff"));
    assert_eq!(hex_compact(&[0xde, 0xad, 0xbe, 0xef]), String::from("deadbeef"));
}

#[test]
fn hex_compact_strips_leading_zeros() {
    assert_eq!(hex_compact(&[0x00, 0xab]), String::from("ab"));
    assert_eq!(hex_compact(&[0x00, 0x0b]), String::from("b"));
    assert_eq!(hex_compact(&[0x1a, 0x2b]), String::from("1a2b"));
    assert_eq!(hex_compact(&[0x00, 0x00]), String::from("0"));
    assert_eq!(hex_compact(&[]), String::from("0"));
}

#[test]
fn message_decoding_prefers_hex() {
    // hex("hello") — the concrete keygen-then-sign scenario's message form.
    assert_eq!(decode_message("68656c6c6f"), b"hello".to_vec());
    assert_eq!(decode_message("00AbfF"), vec![0x00u8, 0xab, 0xff]);
    assert_eq!(decode_message(""), Vec::<u8>::new());
}

#[test]
fn message_decoding_falls_back_to_raw_bytes() {
    // Odd length or a non-hex digit: not decodable, taken as UTF-8 bytes.
    assert_eq!(decode_message("abc"), b"abc".to_vec());
    assert_eq!(decode_message("zz"), b"zz".to_vec());
    assert_eq!(decode_message("hello"), b"hello".to_vec());
    assert_eq!(decode_message("hi!"), b"hi!".to_vec());
}

#[test]
fn hex_round_trip() {
    // First byte at least 0x10, so the compact rendering keeps even length.
    let bytes: Vec<u8> = (0x10u8..=255).collect();
    let text = hex_compact(bytes.as_slice());
    assert_eq!(decode_message(text.as_str()), bytes);
}

#[test]
fn decimal_rendering_and_parsing() {
    assert_eq!(u16_to_dec(0), String::from("0"));
    assert_eq!(u16_to_dec(7), String::from("7"));
    assert_eq!(u16_to_dec(65535), String::from("65535"));
    assert_eq!(parse_u16("0"), Some(0));
    assert_eq!(parse_u16("12"), Some(12));
    assert_eq!(parse_u16("65535"), Some(65535));
    assert_eq!(parse_u16("65536"), None);
    assert_eq!(parse_u16(""), None);
    assert_eq!(parse_u16("1a"), None);
    assert_eq!(parse_u16("-1"), None);
}
