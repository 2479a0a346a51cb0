use akriveia::address::{MacAddress8, ParseError, ShortAddress};

#[test]
fn short_address_parses_delimited_form() {
    let a = ShortAddress::parse_str("12:ab").unwrap();
    assert_eq!(a.to_array(), [0x12, 0xab]);
    let b = ShortAddress::parse_str("12-AB").unwrap();
    assert_eq!(b.to_array(), [0x12, 0xab]);
    let c = ShortAddress::parse_str("01.ff").unwrap();
    assert_eq!(c.to_array(), [0x01, 0xff]);
}

#[test]
fn short_address_parses_hex_form() {
    let a = ShortAddress::parse_str("0x12ab").unwrap();
    assert_eq!(a.to_array(), [0x12, 0xab]);
}

#[test]
fn short_address_rejects_bad_length() {
    assert_eq!(ShortAddress::parse_str("12:a"), Err(ParseError::InvalidLength(4)));
    assert_eq!(ShortAddress::parse_str(""), Err(ParseError::InvalidLength(0)));
    assert_eq!(ShortAddress::parse_str("12:ab:cd"), Err(ParseError::InvalidLength(8)));
}

#[test]
fn short_address_rejects_bad_character() {
    assert_eq!(ShortAddress::parse_str("1g:ab"), Err(ParseError::InvalidCharacter('g', 1)));
    assert_eq!(ShortAddress::parse_str("12:a!"), Err(ParseError::InvalidCharacter('!', 4)));
}

#[test]
fn short_address_text_is_lower_case_pairs() {
    let a = ShortAddress::new([0x0a, 0xbc]);
    assert_eq!(a.to_string(), "0a:bc");
    assert_eq!(ShortAddress::nil().to_string(), "00:00");
    assert_eq!(ShortAddress::default().to_array(), [0, 0]);
}

#[test]
fn short_address_text_round_trip() {
    for bytes in [[0u8, 0u8], [0x12, 0x34], [0xff, 0x01], [0xab, 0xcd]] {
        let a = ShortAddress::new(bytes);
        let back = ShortAddress::parse_str(&a.to_string()).unwrap();
        assert_eq!(back, a);
    }
}

#[test]
fn short_address_from_bytes_needs_two() {
    assert_eq!(ShortAddress::from_bytes(&[1, 2]).unwrap().as_bytes(), &[1, 2]);
    assert!(ShortAddress::from_bytes(&[1]).is_err());
    assert!(ShortAddress::from_bytes(&[1, 2, 3]).is_err());
}

#[test]
fn short_address_database_value_round_trip() {
    let a = ShortAddress::new([0x34, 0x12]);
    assert_eq!(a.as_pg(), 0x1234);
    assert_eq!(ShortAddress::from_pg(0x1234), a);
    let b = ShortAddress::new([0xff, 0xff]);
    assert_eq!(b.as_pg(), -1);
    assert_eq!(ShortAddress::from_pg(b.as_pg()), b);
}

#[test]
fn mac_address_parses_and_prints() {
    let m = MacAddress8::parse_str("01:23:45:67:89:ab:cd:ef").unwrap();
    assert_eq!(m.as_bytes(), &[0x01, 0x23, 0x45, 0x67, 0x89, 0xab, 0xcd, 0xef]);
    assert_eq!(m.to_hex_string(), "01:23:45:67:89:ab:cd:ef");
    let h = MacAddress8::parse_str("0x0123456789ABCDEF").unwrap();
    assert_eq!(h, m);
}

#[test]
fn mac_address_errors() {
    assert_eq!(MacAddress8::parse_str("01:23"), Err(ParseError::InvalidLength(5)));
    assert_eq!(
        MacAddress8::parse_str("01:23:45:67:89:ab:cd:eg"),
        Err(ParseError::InvalidCharacter('g', 22))
    );
}

#[test]
fn mac_address_key_is_big_endian() {
    let m = MacAddress8::new([0, 0, 0, 0, 0, 0, 0x01, 0x02]);
    assert_eq!(m.key(), 0x0102);
    let n = MacAddress8::new([0xff; 8]);
    assert_eq!(n.key(), u64::MAX);
    assert_eq!(MacAddress8::nil().key(), 0);
}

#[test]
fn parse_error_descriptions() {
    assert_eq!(ParseError::InvalidLength(12).to_string(), "Invalid length; expecting 5 or 6 chars, found 12");
    assert_eq!(ParseError::InvalidLength(0).to_string(), "Invalid length; expecting 5 or 6 chars, found 0");
    assert_eq!(
        ParseError::InvalidCharacter('z', 3).to_string(),
        "Invalid character; found `z` at offset 3"
    );
    assert_eq!(ParseError::InvalidCharacter('é', 10).to_string(), "Invalid character; found `é` at offset 10");
}

#[test]
fn short_address_from_str() {
    let a: ShortAddress = "ab:cd".parse().unwrap();
    assert_eq!(a.to_array(), [0xab, 0xcd]);
    assert!("abcd".parse::<ShortAddress>().is_err());
}

#[test]
fn mac_address_text_round_trip() {
    for bytes in [[0u8; 8], [0xff; 8], [1, 2, 3, 4, 5, 6, 7, 8], [0xde, 0xad, 0xbe, 0xef, 0, 1, 2, 3]] {
        let m = MacAddress8::new(bytes);
        assert_eq!(MacAddress8::parse_str(&m.to_hex_string()), Ok(m));
    }
}

#[test]
fn a_misplaced_x_is_no_character_error() {
    assert_eq!(ShortAddress::parse_str("12x34"), Err(ParseError::InvalidLength(5)));
    assert_eq!(ShortAddress::parse_str("0X12ab").unwrap().to_array(), [0x12, 0xab]);
    assert_eq!(ShortAddress::parse_str("12ab3x"), Err(ParseError::InvalidLength(6)));
    assert_eq!(ShortAddress::parse_str("12#34"), Err(ParseError::InvalidCharacter('#', 2)));
}
