use deflect::debug_info::{
    DiscriminantValue, Entry, LocationExpression, Store, VariantEntry,
};
use deflect::error::{Attribute, Error, Tag};
use deflect::schema;
use deflect::value::enumeration::Enum;

fn variant(name: &[u8], discriminant: Option<DiscriminantValue>) -> VariantEntry {
    VariantEntry { name: Some(name.to_vec()), discriminant, members: vec![] }
}

fn enum_entry(size: u64, discr_offset: u64, variants: Vec<VariantEntry>) -> Entry {
    Entry {
        tag: Tag::EnumerationType,
        name: Some(b"Choice".to_vec()),
        byte_size: Some(size),
        alignment: None,
        members: vec![],
        element_type: None,
        element_count: None,
        variants,
        discriminant_location: Some(LocationExpression { offset: discr_offset }),
    }
}

fn selected_name(store: &Store, window: &[u8]) -> Result<Vec<u8>, Error> {
    let schema = schema::enumeration::Enum::from_dw_tag_enumeration_type(store, 0)?;
    let value = Enum::with_schema(window, schema)?;
    let variant = value.variant()?;
    Ok(variant.schema.name().unwrap().to_slice().to_vec())
}

#[test]
fn matching_constant_selects_its_variant() {
    let store = Store {
        entries: vec![enum_entry(1, 0, vec![
            variant(b"A", Some(DiscriminantValue::U8(1))),
            variant(b"B", Some(DiscriminantValue::U8(2))),
            variant(b"C", None),
        ])],
    };
    assert_eq!(selected_name(&store, &[1]).unwrap(), b"A".to_vec());
    assert_eq!(selected_name(&store, &[2]).unwrap(), b"B".to_vec());
}

#[test]
fn unmatched_constants_fall_back_to_the_default_variant() {
    let store = Store {
        entries: vec![enum_entry(1, 0, vec![
            variant(b"A", Some(DiscriminantValue::U8(1))),
            variant(b"B", Some(DiscriminantValue::U8(2))),
            variant(b"C", None),
        ])],
    };
    assert_eq!(selected_name(&store, &[9]).unwrap(), b"C".to_vec());
}

#[test]
fn no_match_and_no_default_is_no_matching_variant() {
    let store = Store {
        entries: vec![enum_entry(1, 0, vec![
            variant(b"A", Some(DiscriminantValue::U8(1))),
            variant(b"B", Some(DiscriminantValue::U8(2))),
        ])],
    };
    assert_eq!(selected_name(&store, &[9]), Err(Error::NoMatchingVariant));
}

#[test]
fn later_variant_wins_a_shared_discriminant() {
    // Two variants declare the same constant: the later one in declaration
    // order is selected, a preserved consequence of not stopping at the
    // first match.
    let store = Store {
        entries: vec![enum_entry(1, 0, vec![
            variant(b"First", Some(DiscriminantValue::U8(7))),
            variant(b"Second", Some(DiscriminantValue::U8(7))),
        ])],
    };
    assert_eq!(selected_name(&store, &[7]).unwrap(), b"Second".to_vec());
}

#[test]
fn discriminants_read_little_endian_at_their_declared_width() {
    let store = Store {
        entries: vec![enum_entry(8, 0, vec![
            variant(b"W16", Some(DiscriminantValue::U16(0x0102))),
            variant(b"W32", Some(DiscriminantValue::U32(0x01020304))),
            variant(b"W64", Some(DiscriminantValue::U64(0x0102030405060708))),
        ])],
    };
    assert_eq!(
        selected_name(&store, &[0x02, 0x01, 0, 0, 0, 0, 0, 0]).unwrap(),
        b"W16".to_vec()
    );
    assert_eq!(
        selected_name(&store, &[0x04, 0x03, 0x02, 0x01, 0, 0, 0, 0]).unwrap(),
        b"W32".to_vec()
    );
    assert_eq!(
        selected_name(&store, &[0x08, 0x07, 0x06, 0x05, 0x04, 0x03, 0x02, 0x01]).unwrap(),
        b"W64".to_vec()
    );
}

#[test]
fn discriminant_offset_is_evaluated_against_the_window() {
    let store = Store {
        entries: vec![enum_entry(4, 2, vec![
            variant(b"A", Some(DiscriminantValue::U8(5))),
            variant(b"B", None),
        ])],
    };
    assert_eq!(selected_name(&store, &[5, 5, 9, 9]).unwrap(), b"B".to_vec());
    assert_eq!(selected_name(&store, &[0, 0, 5, 0]).unwrap(), b"A".to_vec());
}

#[test]
fn enum_value_truncates_to_declared_size_and_rejects_short_windows() {
    let store = Store {
        entries: vec![enum_entry(2, 0, vec![variant(b"A", None)])],
    };
    let schema = schema::enumeration::Enum::from_dw_tag_enumeration_type(&store, 0).unwrap();
    let window: Vec<u8> = vec![1, 2, 3, 4];
    let value = Enum::with_schema(&window, schema).unwrap();
    assert_eq!(value.value, &[1, 2]);

    let short: Vec<u8> = vec![1];
    assert!(matches!(
        Enum::with_schema(&short, schema),
        Err(Error::WindowTooShort)
    ));
}

#[test]
fn missing_discriminant_location_is_missing_attribute() {
    let mut entry = enum_entry(1, 0, vec![variant(b"A", None)]);
    entry.discriminant_location = None;
    let store = Store { entries: vec![entry] };
    assert_eq!(
        selected_name(&store, &[0]),
        Err(Error::MissingAttribute { attr: Attribute::Location })
    );
}

#[test]
fn enum_constructor_rejects_other_tags() {
    let store = Store {
        entries: vec![Entry {
            tag: Tag::StructureType,
            name: None,
            byte_size: None,
            alignment: None,
            members: vec![],
            element_type: None,
            element_count: None,
            variants: vec![],
            discriminant_location: None,
        }],
    };
    assert!(matches!(
        schema::enumeration::Enum::from_dw_tag_enumeration_type(&store, 0),
        Err(Error::TagMismatch { expected: Tag::EnumerationType, actual: Tag::StructureType })
    ));
}
