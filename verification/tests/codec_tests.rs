use shm_store::codec::{BytePair, CharPair, FixedBytes};

#[test]
fn u8_round_trip_zero() {
    let v: u8 = 0;
    let bytes = v.to_bytes();
    assert_eq!(bytes, vec![0u8]);
    assert_eq!(u8::from_bytes(&bytes), 0u8);
}

#[test]
fn u8_round_trip_max() {
    let v: u8 = 255;
    let bytes = v.to_bytes();
    assert_eq!(bytes, vec![255u8]);
    assert_eq!(u8::from_bytes(&bytes), 255u8);
}

#[test]
fn u8_round_trip_mid() {
    let v: u8 = 200;
    assert_eq!(u8::from_bytes(&v.to_bytes()), 200u8);
}

#[test]
fn u8_size_and_default() {
    assert_eq!(u8::size(), 1);
    assert_eq!(u8::default_value(), 0u8);
}

#[test]
fn byte_pair_round_trip() {
    let v = BytePair { first: 7, second: 250 };
    let bytes = v.to_bytes();
    assert_eq!(bytes, vec![7u8, 250u8]);
    assert_eq!(BytePair::from_bytes(&bytes), v);
}

#[test]
fn byte_pair_size_and_default() {
    assert_eq!(BytePair::size(), 2);
    assert_eq!(
        BytePair::default_value(),
        BytePair { first: 0, second: 0 }
    );
}

#[test]
fn char_pair_round_trip_ascii() {
    let v = CharPair { first: 'a', second: 'Z' };
    let bytes = v.to_bytes();
    assert_eq!(bytes.len(), 8);
    assert_eq!(CharPair::from_bytes(&bytes), v);
}

#[test]
fn char_pair_round_trip_wide() {
    let v = CharPair {
        first: 'é',
        second: '\u{10FFFF}',
    };
    assert_eq!(CharPair::from_bytes(&v.to_bytes()), v);
}

#[test]
fn char_pair_encoding_is_little_endian_codes() {
    let v = CharPair { first: 'A', second: 'B' };
    assert_eq!(v.to_bytes(), vec![0x41, 0, 0, 0, 0x42, 0, 0, 0]);
}

#[test]
fn char_pair_decode_invalid_code_falls_back_to_nul() {
    // 0xD800 is a surrogate, no char carries it.
    let bytes = vec![0x00, 0xD8, 0, 0, 0x41, 0, 0, 0];
    let v = CharPair::from_bytes(&bytes);
    assert_eq!(v.first, '\0');
    assert_eq!(v.second, 'A');
}

#[test]
fn char_pair_size_and_default() {
    assert_eq!(CharPair::size(), 8);
    let d = CharPair::default_value();
    assert_eq!(d.first, '\0');
    assert_eq!(d.second, '\0');
}
