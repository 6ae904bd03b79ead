use svc_assets::error::{RegistryError, StoreError};
use svc_assets::identifier::{
    fresh_identifier, identifier_from_parsed, is_uuid, parse_identifier, parse_identifiers,
    Identifier,
};

#[test]
fn parse_accepts_canonical_version4_text() {
    let id = parse_identifier("550e8400-e29b-41d4-a716-446655440000").unwrap();
    assert_eq!(id, Identifier { value: 0x550e8400_e29b_41d4_a716_446655440000 });
    assert!(is_uuid("550e8400-e29b-41d4-a716-446655440000"));
}

#[test]
fn parse_rejects_empty_and_malformed_text() {
    assert_eq!(parse_identifier(""), Err(RegistryError::InvalidFormat));
    assert_eq!(parse_identifier("not-an-identifier"), Err(RegistryError::InvalidFormat));
    assert_eq!(
        parse_identifier("550e8400-e29b-41d4-a716-44665544000"),
        Err(RegistryError::InvalidFormat)
    );
    assert_eq!(
        parse_identifier("550e8400-e29b-41d4-a716-44665544000g"),
        Err(RegistryError::InvalidFormat)
    );
    assert!(!is_uuid(""));
}

#[test]
fn parse_rejects_other_spellings_of_a_valid_value() {
    assert_eq!(
        parse_identifier("550E8400-E29B-41D4-A716-446655440000"),
        Err(RegistryError::InvalidFormat)
    );
    assert_eq!(
        parse_identifier("550e8400e29b41d4a716446655440000"),
        Err(RegistryError::InvalidFormat)
    );
    assert_eq!(
        parse_identifier("{550e8400-e29b-41d4-a716-446655440000}"),
        Err(RegistryError::InvalidFormat)
    );
    assert_eq!(
        parse_identifier("urn:uuid:550e8400-e29b-41d4-a716-446655440000"),
        Err(RegistryError::InvalidFormat)
    );
}

#[test]
fn parse_rejects_wrong_version_and_wrong_variant() {
    // version 3
    assert_eq!(
        parse_identifier("02f09a3f-1624-3b1d-8409-44eff7708208"),
        Err(RegistryError::InvalidFormat)
    );
    // variant bits 11
    assert_eq!(
        parse_identifier("550e8400-e29b-41d4-c716-446655440000"),
        Err(RegistryError::InvalidFormat)
    );
    // variant bits 0x
    assert_eq!(
        parse_identifier("550e8400-e29b-41d4-7716-446655440000"),
        Err(RegistryError::InvalidFormat)
    );
    // the nil identifier
    assert_eq!(
        parse_identifier("00000000-0000-0000-0000-000000000000"),
        Err(RegistryError::InvalidFormat)
    );
}

#[test]
fn the_parsers_value_is_what_the_identifier_holds() {
    // Handing the text back in place of the parsed value would not give this number.
    let id = parse_identifier("00000000-0000-4000-8000-0000000000ff").unwrap();
    assert_eq!(id.value, 0x0000_0000_0000_4000_8000_0000_0000_00ffu128);
}

#[test]
fn identifier_from_parsed_decides_on_the_parsed_value() {
    let text = "550e8400-e29b-41d4-a716-446655440000";
    let value = 0x550e8400_e29b_41d4_a716_446655440000u128;
    assert_eq!(identifier_from_parsed(text, Some(value)), Ok(Identifier { value }));
    assert_eq!(identifier_from_parsed(text, None), Err(RegistryError::InvalidFormat));
    // a value whose canonical text is another one
    assert_eq!(
        identifier_from_parsed(text, Some(value + 1)),
        Err(RegistryError::InvalidFormat)
    );
    // a value of version 1
    assert_eq!(
        identifier_from_parsed(
            "550e8400-e29b-11d4-a716-446655440000",
            Some(0x550e8400_e29b_11d4_a716_446655440000u128)
        ),
        Err(RegistryError::InvalidFormat)
    );
}

#[test]
fn canonical_text_is_lowercase_and_hyphenated() {
    let id = Identifier { value: 0x0123_4567_89ab_4def_8fed_cba9_8765_4321 };
    assert_eq!(id.to_canonical_string(), "01234567-89ab-4def-8fed-cba987654321");
    let zero = Identifier { value: 0 };
    assert_eq!(zero.to_canonical_string(), "00000000-0000-0000-0000-000000000000");
    let all = Identifier { value: u128::MAX };
    assert_eq!(all.to_canonical_string(), "ffffffff-ffff-ffff-ffff-ffffffffffff");
}

#[test]
fn version4_shape_is_read_from_two_digits() {
    assert!(Identifier { value: 0x550e8400_e29b_41d4_a716_446655440000 }.is_version4());
    assert!(Identifier { value: 0x550e8400_e29b_41d4_b716_446655440000 }.is_version4());
    assert!(Identifier { value: 0x550e8400_e29b_41d4_8716_446655440000 }.is_version4());
    assert!(Identifier { value: 0x550e8400_e29b_41d4_9716_446655440000 }.is_version4());
    assert!(!Identifier { value: 0x550e8400_e29b_51d4_a716_446655440000 }.is_version4());
    assert!(!Identifier { value: 0x550e8400_e29b_41d4_c716_446655440000 }.is_version4());
    assert!(!Identifier { value: 0 }.is_version4());
}

#[test]
fn rendering_and_parsing_are_inverse_on_version4_values() {
    let id = Identifier { value: 0xdeadbeef_0000_4abc_9def_0123456789ab };
    assert_eq!(parse_identifier(&id.to_canonical_string()), Ok(id));
}

#[test]
fn fresh_identifiers_have_the_version4_shape_and_differ() {
    let a = fresh_identifier();
    let b = fresh_identifier();
    assert!(a.is_version4());
    assert!(b.is_version4());
    assert_ne!(a, b);
    assert_eq!(parse_identifier(&a.to_canonical_string()), Ok(a));
}

#[test]
fn a_list_of_identifiers_is_read_as_a_whole() {
    let good = vec![
        "550e8400-e29b-41d4-a716-446655440000".to_string(),
        "00000000-0000-4000-8000-000000000001".to_string(),
    ];
    assert_eq!(
        parse_identifiers(&good),
        Some(vec![
            Identifier { value: 0x550e8400_e29b_41d4_a716_446655440000 },
            Identifier { value: 0x00000000_0000_4000_8000_000000000001 },
        ])
    );
    let bad = vec!["550e8400-e29b-41d4-a716-446655440000".to_string(), "x".to_string()];
    assert_eq!(parse_identifiers(&bad), None);
    assert_eq!(parse_identifiers(&Vec::new()), Some(Vec::new()));
}

#[test]
fn store_outcomes_keep_their_kind() {
    assert_eq!(RegistryError::from_store(StoreError::NotFound), RegistryError::NotFound);
    assert_eq!(RegistryError::from_store(StoreError::Unavailable), RegistryError::Unavailable);
    assert_eq!(RegistryError::from_store(StoreError::Conflict), RegistryError::Conflict);
}

#[test]
fn each_error_has_its_status_code() {
    assert_eq!(RegistryError::InvalidFormat.status_code(), 400);
    assert_eq!(RegistryError::InvalidPayload.status_code(), 422);
    assert_eq!(RegistryError::InvalidMask.status_code(), 422);
    assert_eq!(RegistryError::NotFound.status_code(), 404);
    assert_eq!(RegistryError::Forbidden.status_code(), 403);
    assert_eq!(RegistryError::Conflict.status_code(), 409);
    assert_eq!(RegistryError::Unavailable.status_code(), 503);
}

#[test]
fn only_an_unreachable_store_is_transient() {
    assert!(RegistryError::Unavailable.is_transient());
    assert!(!RegistryError::Conflict.is_transient());
    assert!(!RegistryError::NotFound.is_transient());
    assert!(!RegistryError::InvalidFormat.is_transient());
    assert!(!RegistryError::InvalidPayload.is_transient());
    assert!(!RegistryError::InvalidMask.is_transient());
    assert!(!RegistryError::Forbidden.is_transient());
}

#[test]
fn canonical_text_is_the_text_that_the_uuid_crate_writes() {
    for value in [
        0u128,
        1,
        0x0123_4567_89ab_4def_8fed_cba9_8765_4321,
        0x550e8400_e29b_41d4_a716_446655440000,
        u128::MAX,
    ] {
        assert_eq!(
            Identifier { value }.to_canonical_string(),
            uuid::Uuid::from_u128(value).hyphenated().to_string()
        );
    }
    for _ in 0..200 {
        let id = fresh_identifier();
        assert_eq!(
            id.to_canonical_string(),
            uuid::Uuid::from_u128(id.value).hyphenated().to_string()
        );
    }
}

#[test]
fn every_fresh_identifier_is_read_back_from_its_text() {
    for _ in 0..200 {
        let id = fresh_identifier();
        let text = id.to_canonical_string();
        assert_eq!(text.len(), 36);
        assert_eq!(parse_identifier(&text), Ok(id));
        assert_eq!(identifier_from_parsed(&text, Some(id.value)), Ok(id));
        assert_eq!(parse_identifier(&text.to_uppercase()).is_ok(), text == text.to_uppercase());
    }
}
