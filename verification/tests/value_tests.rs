use deflect::debug_info::{Entry, LocationExpression, MemberEntry, Store};
use deflect::error::{Attribute, Error, Tag};
use deflect::schema;
use deflect::value::array::Array;
use deflect::value::cursed_slice_impl::SlicePointer;
use deflect::value::structure::Struct;
use deflect::value::Value;

fn blank(tag: Tag) -> Entry {
    Entry {
        tag,
        name: None,
        byte_size: None,
        alignment: None,
        members: vec![],
        element_type: None,
        element_count: None,
        variants: vec![],
        discriminant_location: None,
    }
}

/// A store holding an array of three u16 at 0, the element type at 1.
fn array_store() -> Store {
    let mut array = blank(Tag::ArrayType);
    array.element_type = Some(1);
    array.element_count = Some(3);
    let mut elt = blank(Tag::BaseType);
    elt.byte_size = Some(2);
    Store { entries: vec![array, elt] }
}

#[test]
fn array_iterator_yields_count_chunks_of_element_size() {
    let store = array_store();
    let schema = schema::array::Array::from_dw_tag_array_type(&store, 0).unwrap();
    let window: Vec<u8> = vec![1, 2, 3, 4, 5, 6, 7, 8];
    let value = Array::with_schema(&window, schema).unwrap();
    let mut iter = value.iter().unwrap();
    let mut seen: Vec<u8> = vec![];
    let mut count = 0usize;
    while let Some(elt) = iter.next() {
        let elt = elt.unwrap();
        let bytes = elt.window_bytes();
        assert_eq!(bytes.len(), 2);
        seen.extend_from_slice(bytes);
        count += 1;
    }
    assert_eq!(count, 3);
    assert_eq!(seen, vec![1, 2, 3, 4, 5, 6]);
    // The walk is restartable: a fresh iterator starts over.
    let mut again = value.iter().unwrap();
    assert_eq!(again.next().unwrap().unwrap().window_bytes(), &[1, 2]);
}

#[test]
fn array_value_rejects_short_window() {
    let store = array_store();
    let schema = schema::array::Array::from_dw_tag_array_type(&store, 0).unwrap();
    let window: Vec<u8> = vec![1, 2, 3, 4, 5];
    assert!(matches!(
        Array::with_schema(&window, schema),
        Err(Error::WindowTooShort)
    ));
}

#[test]
fn array_value_rejects_size_overflow() {
    let mut store = array_store();
    store.entries[0].element_count = Some(u64::MAX);
    let schema = schema::array::Array::from_dw_tag_array_type(&store, 0).unwrap();
    let window: Vec<u8> = vec![0; 16];
    assert!(matches!(
        Array::with_schema(&window, schema),
        Err(Error::SizeOverflow)
    ));
}

#[test]
fn array_value_requires_the_count_attribute() {
    let mut store = array_store();
    store.entries[0].element_count = None;
    let schema = schema::array::Array::from_dw_tag_array_type(&store, 0).unwrap();
    let window: Vec<u8> = vec![0; 16];
    assert!(matches!(
        Array::with_schema(&window, schema),
        Err(Error::MissingAttribute { attr: Attribute::ElementCount })
    ));
}

/// A store holding a two-field structure at 0 and a four-byte scalar at 1.
fn struct_store() -> Store {
    let mut structure = blank(Tag::StructureType);
    structure.name = Some(b"Pair".to_vec());
    structure.byte_size = Some(8);
    structure.members = vec![
        MemberEntry {
            name: Some(b"a".to_vec()),
            declared_type: Some(1),
            location: Some(LocationExpression { offset: 0 }),
        },
        MemberEntry {
            name: Some(b"b".to_vec()),
            declared_type: Some(1),
            location: Some(LocationExpression { offset: 4 }),
        },
    ];
    let mut scalar = blank(Tag::BaseType);
    scalar.byte_size = Some(4);
    Store { entries: vec![structure, scalar] }
}

#[test]
fn field_values_reproduce_subwindows_byte_for_byte() {
    let store = struct_store();
    let schema = schema::structure::Struct::from_dw_tag_structure_type(&store, 0).unwrap();
    let window: Vec<u8> = vec![10, 11, 12, 13, 20, 21, 22, 23];
    let value = Struct::with_schema(&window, schema);
    let mut fields = value.fields();

    let a = fields.next().unwrap().value().unwrap();
    assert_eq!(a.window_bytes(), &window[0..]);

    let b = fields.next().unwrap().value().unwrap();
    assert_eq!(b.window_bytes(), &window[4..]);

    assert!(fields.next().is_none());
}

#[test]
fn field_without_declared_type_is_missing_attribute() {
    let mut store = struct_store();
    store.entries[0].members[0].declared_type = None;
    let schema = schema::structure::Struct::from_dw_tag_structure_type(&store, 0).unwrap();
    let window: Vec<u8> = vec![0; 8];
    let value = Struct::with_schema(&window, schema);
    let mut fields = value.fields();
    assert!(matches!(
        fields.next().unwrap().value(),
        Err(Error::MissingAttribute { attr: Attribute::DeclaredType })
    ));
}

#[test]
fn field_without_offset_is_missing_attribute() {
    let mut store = struct_store();
    store.entries[0].members[0].location = None;
    let schema = schema::structure::Struct::from_dw_tag_structure_type(&store, 0).unwrap();
    let window: Vec<u8> = vec![0; 8];
    let value = Struct::with_schema(&window, schema);
    let mut fields = value.fields();
    assert!(matches!(
        fields.next().unwrap().value(),
        Err(Error::MissingAttribute { attr: Attribute::Location })
    ));
}

/// A store holding a pointer to a four-byte scalar at 0.
fn pointer_store() -> Store {
    let mut pointer = blank(Tag::PointerType);
    pointer.element_type = Some(1);
    pointer.byte_size = Some(8);
    let mut scalar = blank(Tag::BaseType);
    scalar.byte_size = Some(4);
    Store { entries: vec![pointer, scalar] }
}

#[test]
fn slice_pointer_exposes_data_ptr_and_length() {
    let store = pointer_store();
    let schema = schema::Pointer { store: &store, entry: 0 };
    let ptr_bytes: Vec<u8> = vec![0x10, 0, 0, 0, 0, 0, 0, 0];
    let sp = SlicePointer::new(schema, &ptr_bytes, 3);
    assert_eq!(sp.data_ptr(), &ptr_bytes[..]);
    assert_eq!(sp.length(), 3);
    assert_eq!(sp.address(), Ok(0x10));
    assert_eq!(sp.byte_len(), Ok(12));
}

#[test]
fn slice_pointer_walks_a_fetched_region_of_exactly_its_length() {
    let store = pointer_store();
    let schema = schema::Pointer { store: &store, entry: 0 };
    let ptr_bytes: Vec<u8> = vec![0; 8];
    let sp = SlicePointer::new(schema, &ptr_bytes, 2);

    let short: Vec<u8> = vec![0; 7];
    assert!(matches!(sp.iter_in(&short), Err(Error::WindowTooShort)));

    let region: Vec<u8> = vec![1, 2, 3, 4, 5, 6, 7, 8];
    let mut iter = sp.iter_in(&region).unwrap();
    assert_eq!(iter.next().unwrap().unwrap().window_bytes(), &[1, 2, 3, 4]);
    assert_eq!(iter.next().unwrap().unwrap().window_bytes(), &[5, 6, 7, 8]);
    assert!(iter.next().is_none());
}

#[test]
fn array_value_requires_the_element_size_attribute() {
    let mut store = array_store();
    store.entries[1].byte_size = None;
    let schema = schema::array::Array::from_dw_tag_array_type(&store, 0).unwrap();
    let window: Vec<u8> = vec![0; 16];
    assert!(matches!(
        Array::with_schema(&window, schema),
        Err(Error::MissingAttribute { attr: Attribute::ByteSize })
    ));
}

#[test]
fn with_type_truncates_only_sized_shapes() {
    let store = struct_store();
    let t = schema::Type::from_entry(&store, 0).unwrap();
    let window: Vec<u8> = vec![0; 12];
    let v = Value::with_type(t, &window).unwrap();
    // A plain structure value keeps the whole window; fields bound themselves.
    assert_eq!(v.window_bytes().len(), 12);
}
