use demobase::error::ErrorCode;
use demobase::kinds::{field_width, AccountKind, AttributeKind, AttributeKindModifier, MarkAttribute};
use demobase::name::{decode_name, name_slice, parse_string};

#[test]
fn parse_string_pads_with_zeros() {
    let slot = parse_string("Blog".to_string()).unwrap();
    assert_eq!(&slot[..4], b"Blog");
    assert!(slot[4..].iter().all(|b| *b == 0));
}

#[test]
fn parse_string_accepts_exactly_32_bytes() {
    let name = "a".repeat(32);
    let slot = parse_string(name.clone()).unwrap();
    assert_eq!(&slot[..], name.as_bytes());
}

#[test]
fn parse_string_rejects_33_bytes() {
    assert_eq!(parse_string("a".repeat(33)), Err(ErrorCode::InvalidNameLength));
}

#[test]
fn parse_string_counts_bytes_not_characters() {
    // 11 characters of 3 bytes each: 33 bytes
    let name = "\u{20ac}".repeat(11);
    assert_eq!(parse_string(name), Err(ErrorCode::InvalidNameLength));
    let name = "\u{20ac}".repeat(10);
    assert!(parse_string(name).is_ok());
}

#[test]
fn parse_string_empty_name_is_all_zeros() {
    assert_eq!(parse_string(String::new()), Ok([0u8; 32]));
}

#[test]
fn name_round_trip() {
    for name in ["Blog", "Posts", "", "\u{00e9}t\u{00e9}", "\u{1f600} smile", "x"] {
        let slot = parse_string(name.to_string()).unwrap();
        assert_eq!(decode_name(&slot), Some(name.to_string()));
    }
    let full = "z".repeat(32);
    let slot = parse_string(full.clone()).unwrap();
    assert_eq!(decode_name(&slot), Some(full));
}

#[test]
fn name_round_trip_trims_trailing_nul() {
    let slot = parse_string("ab\0\0".to_string()).unwrap();
    assert_eq!(decode_name(&slot), Some("ab".to_string()));
    let slot = parse_string("a\0b".to_string()).unwrap();
    assert_eq!(decode_name(&slot), Some("a\0b".to_string()));
}

#[test]
fn name_slice_trims_zero_bytes() {
    let mut slot = [0u8; 32];
    slot[0] = 7;
    slot[2] = 9;
    assert_eq!(name_slice(&slot), vec![7, 0, 9]);
    assert_eq!(name_slice(&[0u8; 32]), Vec::<u8>::new());
}

#[test]
fn decode_name_rejects_invalid_utf8() {
    let mut slot = [0u8; 32];
    slot[0] = 0xff;
    assert_eq!(decode_name(&slot), None);
}

#[test]
fn attribute_kind_tags() {
    let expected = [
        (AttributeKind::U8, 1u8),
        (AttributeKind::U16, 2),
        (AttributeKind::U32, 4),
        (AttributeKind::U64, 8),
        (AttributeKind::U128, 16),
        (AttributeKind::Pubkey, 32),
    ];
    for (tag, (kind, size)) in expected.iter().enumerate() {
        let k = AttributeKind::from(tag as u8).unwrap();
        assert_eq!(k, *kind);
        assert_eq!(k.size(), *size);
        assert_eq!(k.id(), tag as u8);
    }
    for tag in 6..=255u8 {
        assert_eq!(AttributeKind::from(tag), Err(ErrorCode::InvalidAttributeKind));
    }
}

#[test]
fn attribute_kind_modifier_tags() {
    assert_eq!(AttributeKindModifier::from(0, 9), Ok(AttributeKindModifier::Scalar));
    assert_eq!(AttributeKindModifier::from(1, 9), Ok(AttributeKindModifier::Array { size: 9 }));
    assert_eq!(AttributeKindModifier::from(2, 9), Ok(AttributeKindModifier::Vector));
    assert_eq!(AttributeKindModifier::from(0, 9).unwrap().size(), 1);
    assert_eq!(AttributeKindModifier::from(1, 9).unwrap().size(), 9);
    assert_eq!(AttributeKindModifier::from(2, 9).unwrap().size(), 1);
    for tag in 3..=255u8 {
        assert_eq!(
            AttributeKindModifier::from(tag, 1),
            Err(ErrorCode::InvalidAttributeKindModifier)
        );
    }
}

#[test]
fn account_kind_tags() {
    assert_eq!(AccountKind::from(0), Ok(AccountKind::Account));
    assert_eq!(AccountKind::from(1), Ok(AccountKind::Signer));
    assert_eq!(AccountKind::from(2), Ok(AccountKind::Program));
    for tag in 0..=2u8 {
        assert_eq!(AccountKind::from(tag).unwrap().id(), tag);
    }
    for tag in 3..=255u8 {
        assert_eq!(AccountKind::from(tag), Err(ErrorCode::InvalidAccountKind));
    }
}

#[test]
fn mark_attribute_tags() {
    assert_eq!(MarkAttribute::from(0), Ok(MarkAttribute::Plain));
    assert_eq!(MarkAttribute::from(1), Ok(MarkAttribute::Init));
    assert_eq!(MarkAttribute::from(2), Ok(MarkAttribute::Mut));
    assert_eq!(MarkAttribute::from(3), Ok(MarkAttribute::Zero));
    for tag in 0..=3u8 {
        assert_eq!(MarkAttribute::from(tag).unwrap().id(), tag);
    }
    for tag in 4..=255u8 {
        assert_eq!(MarkAttribute::from(tag), Err(ErrorCode::InvalidMarkAttribute));
    }
}

#[test]
fn field_widths() {
    let u8_array = AttributeKindModifier::Array { size: 64 };
    assert_eq!(field_width(&AttributeKind::U8, &u8_array), 64);
    assert_eq!(field_width(&AttributeKind::Pubkey, &AttributeKindModifier::Scalar), 32);
    assert_eq!(field_width(&AttributeKind::U64, &AttributeKindModifier::Vector), 8);
    let largest = AttributeKindModifier::Array { size: 255 };
    assert_eq!(field_width(&AttributeKind::Pubkey, &largest), 8160);
}

#[test]
fn error_messages() {
    assert_eq!(ErrorCode::InvalidAttributeKind.message(), "Invalid attribute kind");
    assert_eq!(ErrorCode::InvalidMarkAttribute.message(), "Invalid mark attribute");
}
