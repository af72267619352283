use deflect::debug_info::{
    DiscriminantValue, Entry, LocationExpression, MemberEntry, Store, VariantEntry,
};
use deflect::error::Tag;
use deflect::render::{hex_bytes, push_all};
use deflect::schema;
use deflect::schema::name::{bytes_end_with, bytes_eq, bytes_start_with};
use deflect::value::array::Array;
use deflect::value::enumeration::Enum;
use deflect::value::field::Field;

fn blank(tag: Tag) -> Entry {
    Entry {
        tag,
        name: None,
        byte_size: None,
        alignment: None,
        members: vec![],
        element_type: None,
        element_count: None,
        variants: vec![],
        discriminant_location: None,
    }
}

#[test]
fn hex_rendering_is_two_digits_per_byte() {
    assert_eq!(hex_bytes(&[]), b"".to_vec());
    assert_eq!(hex_bytes(&[0x00, 0x1f, 0xab]), b"001fab".to_vec());
}

#[test]
fn push_all_appends_in_order() {
    let mut v: Vec<u8> = b"ab".to_vec();
    push_all(&mut v, b"cd");
    assert_eq!(v, b"abcd".to_vec());
}

#[test]
fn field_renders_name_and_hex_value() {
    let mut structure = blank(Tag::StructureType);
    structure.name = Some(b"Reading".to_vec());
    structure.members = vec![MemberEntry {
        name: Some(b"x".to_vec()),
        declared_type: Some(1),
        location: Some(LocationExpression { offset: 1 }),
    }];
    let mut scalar = blank(Tag::BaseType);
    scalar.byte_size = Some(2);
    let store = Store { entries: vec![structure, scalar] };

    let window: Vec<u8> = vec![0x00, 0xab, 0xcd];
    let field_schema = schema::field::Field {
        store: &store,
        member: &store.entries[0].members[0],
    };
    let field = Field::new(field_schema, &window);
    assert_eq!(field.render(), b"x : 0xabcd".to_vec());
}

#[test]
fn field_render_surfaces_failures_as_a_marker() {
    let mut structure = blank(Tag::StructureType);
    structure.members = vec![MemberEntry {
        name: Some(b"x".to_vec()),
        declared_type: None,
        location: Some(LocationExpression { offset: 0 }),
    }];
    let store = Store { entries: vec![structure] };
    let window: Vec<u8> = vec![];
    let field_schema = schema::field::Field {
        store: &store,
        member: &store.entries[0].members[0],
    };
    let field = Field::new(field_schema, &window);
    assert_eq!(field.render(), b"x : <error>".to_vec());
}

#[test]
fn array_renders_a_bracketed_comma_list() {
    let mut array = blank(Tag::ArrayType);
    array.element_type = Some(1);
    array.element_count = Some(3);
    let mut elt = blank(Tag::BaseType);
    elt.byte_size = Some(1);
    let store = Store { entries: vec![array, elt] };

    let schema = schema::array::Array::from_dw_tag_array_type(&store, 0).unwrap();
    let window: Vec<u8> = vec![0x0a, 0xff, 0x00];
    let value = Array::with_schema(&window, schema).unwrap();
    assert_eq!(value.render(), b"[0x0a, 0xff, 0x00]".to_vec());
}

#[test]
fn empty_array_renders_empty_brackets() {
    let mut array = blank(Tag::ArrayType);
    array.element_type = Some(1);
    array.element_count = Some(0);
    let mut elt = blank(Tag::BaseType);
    elt.byte_size = Some(4);
    let store = Store { entries: vec![array, elt] };

    let schema = schema::array::Array::from_dw_tag_array_type(&store, 0).unwrap();
    let window: Vec<u8> = vec![];
    let value = Array::with_schema(&window, schema).unwrap();
    assert_eq!(value.render(), b"[]".to_vec());
}

#[test]
fn enum_renders_type_and_variant_names() {
    let entry = Entry {
        tag: Tag::EnumerationType,
        name: Some(b"Choice".to_vec()),
        byte_size: Some(1),
        alignment: None,
        members: vec![],
        element_type: None,
        element_count: None,
        variants: vec![
            VariantEntry {
                name: Some(b"Off".to_vec()),
                discriminant: Some(DiscriminantValue::U8(0)),
                members: vec![],
            },
            VariantEntry {
                name: Some(b"On".to_vec()),
                discriminant: Some(DiscriminantValue::U8(1)),
                members: vec![],
            },
        ],
        discriminant_location: Some(LocationExpression { offset: 0 }),
    };
    let store = Store { entries: vec![entry] };
    let schema = schema::enumeration::Enum::from_dw_tag_enumeration_type(&store, 0).unwrap();
    let window: Vec<u8> = vec![1];
    let value = Enum::with_schema(&window, schema).unwrap();
    assert_eq!(value.render(), b"Choice::On(..)".to_vec());
}

#[test]
fn byte_string_comparisons_are_byte_for_byte() {
    assert!(bytes_eq(b"&str", b"&str"));
    assert!(!bytes_eq(b"&str", b"&Str"));
    assert!(!bytes_eq(b"&str", b"&st"));
    assert!(bytes_start_with(b"&[u32]", b"&["));
    assert!(!bytes_start_with(b"&", b"&["));
    assert!(bytes_end_with(b"&[u32]", b"]"));
    assert!(!bytes_end_with(b"&[u32", b"]"));
}
