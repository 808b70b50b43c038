use hex::{FromHex, FromHexError, ToHex, decode, decode_to_slice, encode, encode_to_slice, encode_to_slice_upper};

#[test]
fn test_encode_to_slice() {
    let mut output_1 = [0u8; 4 * 2];
    encode_to_slice(b"kiwi", &mut output_1).unwrap();
    assert_eq!(std::str::from_utf8(&output_1).unwrap(), "6b697769");
    assert_eq!(&output_1, b"6b697769");
    encode_to_slice_upper(b"kiwi", &mut output_1).unwrap();
    assert_eq!(&output_1, b"6B697769");

    let mut output_2 = [0u8; 5 * 2];
    encode_to_slice(b"kiwis", &mut output_2).unwrap();
    assert_eq!(std::str::from_utf8(&output_2).unwrap(), "6b69776973");
    assert_eq!(&output_2, b"6b69776973");
    encode_to_slice_upper(b"kiwis", &mut output_2).unwrap();
    assert_eq!(&output_2, b"6B69776973");

    let mut output_3 = [0u8; 100];

    assert_eq!(
        encode_to_slice(b"kiwis", &mut output_3),
        Err(FromHexError::InvalidStringLength)
    );
    assert_eq!(
        encode_to_slice_upper(b"kiwis", &mut output_3),
        Err(FromHexError::InvalidStringLength)
    );
}

#[test]
fn test_decode_to_slice() {
    let mut output_1 = [0u8; 4];
    decode_to_slice(b"6b697769", &mut output_1).unwrap();
    assert_eq!(&output_1, b"kiwi");

    let mut output_2 = [0u8; 5];
    decode_to_slice(b"6b69776973", &mut output_2).unwrap();
    assert_eq!(&output_2, b"kiwis");

    let mut output_3 = [0u8; 4];

    assert_eq!(
        decode_to_slice(b"6", &mut output_3),
        Err(FromHexError::OddLength)
    );
}

#[test]
fn test_encode() {
    assert_eq!(encode("foobar".as_bytes()), "666f6f626172");
}

#[test]
fn test_decode() {
    assert_eq!(
        decode("666f6f626172".as_bytes()),
        Ok(String::from("foobar").into_bytes())
    );
}

#[test]
fn test_from_hex_okay_str() {
    assert_eq!(Vec::<u8>::from_hex("666f6f626172".as_bytes()).unwrap(), b"foobar");
    assert_eq!(Vec::<u8>::from_hex("666F6F626172".as_bytes()).unwrap(), b"foobar");
}

#[test]
fn test_from_hex_okay_bytes() {
    assert_eq!(Vec::<u8>::from_hex(b"666f6f626172").unwrap(), b"foobar");
    assert_eq!(Vec::<u8>::from_hex(b"666F6F626172").unwrap(), b"foobar");
}

#[test]
fn test_invalid_length() {
    assert_eq!(Vec::<u8>::from_hex("1".as_bytes()).unwrap_err(), FromHexError::OddLength);
    assert_eq!(
        Vec::<u8>::from_hex("666f6f6261721".as_bytes()).unwrap_err(),
        FromHexError::OddLength
    );
}

#[test]
fn test_invalid_char() {
    assert_eq!(
        Vec::<u8>::from_hex("66ag".as_bytes()).unwrap_err(),
        FromHexError::InvalidHexCharacter { c: 'g', index: 3 }
    );
}

#[test]
fn test_empty() {
    assert_eq!(Vec::<u8>::from_hex("".as_bytes()).unwrap(), b"");
}

#[test]
fn test_from_hex_whitespace() {
    assert_eq!(
        Vec::<u8>::from_hex("666f 6f62617".as_bytes()).unwrap_err(),
        FromHexError::InvalidHexCharacter { c: ' ', index: 4 }
    );
}

#[test]
fn test_from_hex_array() {
    assert_eq!(
        <[u8; 6] as FromHex>::from_hex("666f6f626172".as_bytes()),
        Ok([0x66, 0x6f, 0x6f, 0x62, 0x61, 0x72])
    );

    assert_eq!(
        <[u8; 5] as FromHex>::from_hex("666f6f626172".as_bytes()),
        Err(FromHexError::InvalidStringLength)
    );
}

#[test]
fn test_to_hex() {
    assert_eq!(
        [0x66u8, 0x6f, 0x6f, 0x62, 0x61, 0x72].encode_hex(),
        "666f6f626172".to_string(),
    );

    assert_eq!(
        [0x66u8, 0x6f, 0x6f, 0x62, 0x61, 0x72].encode_hex_upper(),
        "666F6F626172".to_string(),
    );
}
