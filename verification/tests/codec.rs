use alpha_sync::codec::{SecurityIdentifier, SecurityType};

#[test]
fn test_security_type_classification() {
    assert_eq!(SecurityType::from_string("equity"), SecurityType::Equity);
    assert_eq!(SecurityType::from_string("ETF"), SecurityType::Etf);
    assert_eq!(SecurityType::from_string("unknown"), SecurityType::Other);
}

#[test]
fn test_detailed_classification() {
    let (sec_type, type_str) = SecurityType::classify_detailed("Equity", "Apple Inc");
    assert_eq!(sec_type, SecurityType::Equity);
    assert_eq!(type_str, "Equity");

    let (sec_type, type_str) = SecurityType::classify_detailed("Equity", "Tesla ADR");
    assert_eq!(sec_type, SecurityType::Adr);
    assert_eq!(type_str, "ADR");
}

#[test]
fn test_encoding_decoding() {
    let identifier = SecurityIdentifier::new(SecurityType::Equity, 12345);
    let encoded = identifier.encode();
    let decoded = SecurityIdentifier::decode(encoded).unwrap();

    assert_eq!(decoded, identifier);
}

#[test]
fn test_all_security_types_encode_decode() {
    let test_cases = [
        SecurityType::Equity,
        SecurityType::Bond,
        SecurityType::Option,
        SecurityType::Future,
        SecurityType::Etf,
        SecurityType::MutualFund,
        SecurityType::Crypto,
        SecurityType::Fx,
        SecurityType::Swap,
        SecurityType::Warrant,
        SecurityType::Adr,
        SecurityType::Preferred,
        SecurityType::Other,
    ];

    for &sec_type in &test_cases {
        let encoded = SecurityType::encode(sec_type, 12345);
        let decoded_type = SecurityType::decode_type(encoded);
        assert_eq!(decoded_type, sec_type);

        let identifier = SecurityIdentifier::new(sec_type, 12345);
        let decoded_identifier = SecurityIdentifier::decode(identifier.encode()).unwrap();
        assert_eq!(decoded_identifier, identifier);
    }
}

#[test]
fn test_max_id_values() {
    let max_id = u32::MAX >> 1;
    let identifier = SecurityIdentifier::new(SecurityType::Equity, max_id);
    let decoded = SecurityIdentifier::decode(identifier.encode()).unwrap();
    assert_eq!(decoded.raw_id, max_id);
}

#[test]
fn test_invalid_decode() {
    assert_eq!(
        SecurityIdentifier::decode(0x8100_0000_0000_00FFu64 as i64),
        None
    );

    assert_eq!(
        SecurityIdentifier::decode(0x9000_0000_0000_0001u64 as i64),
        None
    );

    assert_eq!(
        SecurityIdentifier::decode(0x1100_0000_0000_0001u64 as i64),
        None
    );
}

#[test]
fn codec_round_trip_every_category_and_edge_sequences() {
    let all = [
        SecurityType::Equity,
        SecurityType::Bond,
        SecurityType::Option,
        SecurityType::Future,
        SecurityType::Etf,
        SecurityType::MutualFund,
        SecurityType::Crypto,
        SecurityType::Fx,
        SecurityType::Swap,
        SecurityType::Warrant,
        SecurityType::Adr,
        SecurityType::Preferred,
        SecurityType::Other,
    ];
    for &t in &all {
        for &id in &[0u32, 1, 0x7FFF_FFFE, 0x7FFF_FFFF] {
            let decoded = SecurityIdentifier::decode(SecurityType::encode(t, id)).unwrap();
            assert_eq!(decoded.security_type, t);
            assert_eq!(decoded.raw_id, id);
        }
    }
}

#[test]
fn codec_keys_are_distinct_across_categories() {
    let a = SecurityType::encode(SecurityType::Equity, 7);
    let b = SecurityType::encode(SecurityType::Bond, 7);
    assert_ne!(a, b);
    assert_eq!(a, 7);
    assert_eq!(b, 0x10 * 0x1_0000_0000_0000 + 7);
}

#[test]
fn display_name_matches_directory_spelling() {
    assert_eq!(SecurityType::Etf.display_name(), "ETF");
    assert_eq!(SecurityType::MutualFund.display_name(), "Mutual Fund");
    assert_eq!(SecurityType::Fx.display_name(), "FX");
}
