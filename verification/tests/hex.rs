use vmath::functions::hexadecimal::{decode_hex_rgb, decode_hex_str, encode_hex};

#[test]
fn encode_simple_bytes() {
    assert_eq!(encode_hex(&[0x00, 0xff, 0x10]), "00ff10");
    assert_eq!(encode_hex(&[]), "");
    assert_eq!(encode_hex(&[0xab]), "ab");
    assert_eq!(encode_hex(&[1, 2, 3, 4]), "01020304");
}

#[test]
fn encode_all_nibbles() {
    assert_eq!(
        encode_hex(&[0x01, 0x23, 0x45, 0x67, 0x89, 0xab, 0xcd, 0xef]),
        "0123456789abcdef"
    );
}

#[test]
fn decode_simple_string() {
    assert_eq!(decode_hex_str("00ff10").unwrap(), vec![0x00, 0xff, 0x10]);
    assert_eq!(decode_hex_str("").unwrap(), Vec::<u8>::new());
    assert_eq!(decode_hex_str("AbCd").unwrap(), vec![0xab, 0xcd]);
}

#[test]
fn decode_odd_length_is_an_error() {
    let err = decode_hex_str("abc").unwrap_err();
    assert_eq!(
        err,
        "DECODE HEXADECIMAL ERROR: Input hex string should have even number length!"
    );
}

#[test]
fn decode_bad_digit_is_an_error() {
    let err = decode_hex_str("zz").unwrap_err();
    assert_eq!(err, "invalid digit found in string");
    assert!(decode_hex_str("0g").is_err());
}

#[test]
fn decode_encode_round_trip() {
    let bytes: Vec<u8> = (0u16..=255).map(|b| b as u8).collect();
    let encoded = encode_hex(&bytes);
    assert_eq!(decode_hex_str(&encoded).unwrap(), bytes);
}

#[test]
fn decode_rgb_with_hash_mark() {
    assert_eq!(decode_hex_rgb("#aabbcc").unwrap(), [0xaa, 0xbb, 0xcc]);
    assert_eq!(decode_hex_rgb("aabbcc").unwrap(), [0xaa, 0xbb, 0xcc]);
    assert_eq!(decode_hex_rgb("##ff0001").unwrap(), [0xff, 0x00, 0x01]);
}

#[test]
fn decode_rgb_wrong_length_is_an_error() {
    let err = decode_hex_rgb("#aabb").unwrap_err();
    assert_eq!(
        err,
        "DECODE HEXADECIMAL ERROR: Input hex string formatted incorrectly!"
    );
    assert!(decode_hex_rgb("aabbccdd").is_err());
}

#[test]
fn decode_rgb_bad_digit_is_an_error() {
    let err = decode_hex_rgb("aabbcq").unwrap_err();
    assert_eq!(err, "invalid digit found in string");
}

#[test]
fn crate_root_codec_matches() {
    assert_eq!(vmath::hexadecimal::encode_hex(&[0xde, 0xad]), "dead");
    assert_eq!(
        vmath::hexadecimal::decode_hex_str("beef").unwrap(),
        vec![0xbe, 0xef]
    );
    assert!(vmath::hexadecimal::decode_hex_str("bee").is_err());
}
