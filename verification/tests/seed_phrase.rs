use rapid_fuzz::SeedPhrase;

#[test]
fn test_parse() {
    let seed = SeedPhrase::parse(
        "deadbeef-deadbeef-deadbeef-deadbeef-deadbeef-deadbeef-deadbeef-deadbeef",
    )
    .unwrap();
    let deadbeef_8 = [
        0xde, 0xad, 0xbe, 0xef, //
        0xde, 0xad, 0xbe, 0xef, //
        0xde, 0xad, 0xbe, 0xef, //
        0xde, 0xad, 0xbe, 0xef, //
        0xde, 0xad, 0xbe, 0xef, //
        0xde, 0xad, 0xbe, 0xef, //
        0xde, 0xad, 0xbe, 0xef, //
        0xde, 0xad, 0xbe, 0xef, //
    ];
    assert_eq!(
        &seed.into_bytes(),
        &deadbeef_8,
        "{}\n{}",
        seed.to_string(),
        deadbeef_8.map(|b| format!("{:02x}", b)).join(""),
    );
    let seed = SeedPhrase::from_bytes(&deadbeef_8).unwrap();
    assert_eq!(&seed.into_bytes(), &deadbeef_8);
}

#[test]
fn hex_round_trip() {
    let mut bytes = [0u8; 32];
    for (i, b) in bytes.iter_mut().enumerate() {
        *b = (i as u8).wrapping_mul(37).wrapping_add(11);
    }
    let seed = SeedPhrase::from_bytes(&bytes).unwrap();
    let text = seed.to_string();
    assert_eq!(text.len(), 64);
    let parsed = SeedPhrase::parse(&text).unwrap();
    assert_eq!(parsed.into_bytes(), bytes);
}

#[test]
fn to_string_of_zero_seed() {
    let seed = SeedPhrase::from_bytes(&[0u8; 32]).unwrap();
    assert_eq!(
        seed.to_string(),
        "0000000000000000000000000000000000000000000000000000000000000000"
    );
}

#[test]
fn to_string_is_lower_case_hex() {
    let mut bytes = [0u8; 32];
    bytes[0] = 0xAB;
    bytes[31] = 0x0F;
    let text = SeedPhrase::from_bytes(&bytes).unwrap().to_string();
    assert!(text.starts_with("ab"));
    assert!(text.ends_with("0f"));
}

#[test]
fn parse_ignores_separators() {
    let plain = "00112233445566778899aabbccddeeff00112233445566778899AABBCCDDEEFF";
    let spaced = "0011 2233-4455_6677:8899aabb/ccddeeff*00112233445566778899AABBCCDDEEFF";
    let a = SeedPhrase::parse(plain).unwrap();
    let b = SeedPhrase::parse(spaced).unwrap();
    assert_eq!(a.into_bytes(), b.into_bytes());
    assert_eq!(a.into_bytes()[0], 0x00);
    assert_eq!(a.into_bytes()[1], 0x11);
    assert_eq!(a.into_bytes()[31], 0xFF);
}

#[test]
fn parse_rejects_wrong_digit_count() {
    let sixty_three = "0".repeat(63);
    let sixty_five = "0".repeat(65);
    assert_eq!(
        SeedPhrase::parse(&sixty_three).unwrap_err(),
        "Seed data must be 64 hex digits"
    );
    assert_eq!(
        SeedPhrase::parse(&sixty_five).unwrap_err(),
        "Seed data must be 64 hex digits"
    );
    assert_eq!(
        SeedPhrase::parse("").unwrap_err(),
        "Seed data must be 64 hex digits"
    );
    // Separators alone do not make up for missing digits.
    let only_separators = "----------------------------------------------------------------";
    assert_eq!(
        SeedPhrase::parse(only_separators).unwrap_err(),
        "Seed data must be 64 hex digits"
    );
}

#[test]
fn from_bytes_rejects_wrong_length() {
    assert_eq!(
        SeedPhrase::from_bytes([0u8; 31].as_slice()).unwrap_err(),
        "Seed data must be 32 bytes"
    );
    assert_eq!(
        SeedPhrase::from_bytes([0u8; 33].as_slice()).unwrap_err(),
        "Seed data must be 32 bytes"
    );
}
