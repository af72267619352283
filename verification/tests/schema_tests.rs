use deflect::debug_info::{Entry, LocationExpression, MemberEntry, Store};
use deflect::error::{Attribute, Error, Tag};
use deflect::schema::slice::Slice;
use deflect::schema::str_impl;
use deflect::schema::structure::Struct;
use deflect::schema::Type;

fn blank(tag: Tag) -> Entry {
    Entry {
        tag,
        name: None,
        byte_size: None,
        alignment: None,
        members: vec![],
        element_type: None,
        element_count: None,
        variants: vec![],
        discriminant_location: None,
    }
}

fn member(ty: Option<usize>, offset: Option<u64>) -> MemberEntry {
    MemberEntry {
        name: None,
        declared_type: ty,
        location: offset.map(|o| LocationExpression { offset: o }),
    }
}

/// A store holding a slice-shaped structure at 0: (data_ptr: *u32, length: usize).
fn slice_store() -> Store {
    let mut structure = blank(Tag::StructureType);
    structure.name = Some(b"&[u32]".to_vec());
    structure.byte_size = Some(16);
    structure.alignment = Some(8);
    structure.members = vec![member(Some(1), Some(0)), member(Some(2), Some(8))];
    let mut pointer = blank(Tag::PointerType);
    pointer.element_type = Some(3);
    pointer.byte_size = Some(8);
    let mut length_ty = blank(Tag::BaseType);
    length_ty.byte_size = Some(8);
    let mut elt_ty = blank(Tag::BaseType);
    elt_ty.byte_size = Some(4);
    Store { entries: vec![structure, pointer, length_ty, elt_ty] }
}

#[test]
fn struct_constructor_rejects_other_tags() {
    let store = Store { entries: vec![blank(Tag::BaseType)] };
    let r = Struct::from_dw_tag_structure_type(&store, 0);
    assert!(matches!(
        r,
        Err(Error::TagMismatch { expected: Tag::StructureType, actual: Tag::BaseType })
    ));
}

#[test]
fn slice_constructor_rejects_other_tags() {
    let store = Store { entries: vec![blank(Tag::EnumerationType)] };
    let r = Slice::from_dw_tag_structure_type(&store, 0);
    assert!(matches!(
        r,
        Err(Error::TagMismatch { expected: Tag::StructureType, actual: Tag::EnumerationType })
    ));
}

#[test]
fn str_constructor_rejects_other_tags() {
    let store = Store { entries: vec![blank(Tag::ArrayType)] };
    let r = str_impl::str::from_dw_tag_structure_type(&store, 0);
    assert!(matches!(
        r,
        Err(Error::TagMismatch { expected: Tag::StructureType, actual: Tag::ArrayType })
    ));
}

#[test]
fn dangling_entry_is_a_reader_error() {
    let store = Store { entries: vec![] };
    assert!(matches!(
        Struct::from_dw_tag_structure_type(&store, 7),
        Err(Error::UnderlyingReaderError)
    ));
}

#[test]
fn slice_schema_exposes_element_type_size_and_alignment() {
    let store = slice_store();
    let s = Slice::from_dw_tag_structure_type(&store, 0).unwrap();
    assert_eq!(s.size(), Ok(16));
    assert_eq!(s.align(), Ok(Some(8)));
    let elt = s.elt().unwrap();
    match elt {
        Type::Base(b) => assert_eq!(b.entry, 3),
        _ => panic!("expected the pointee base type"),
    }
}

#[test]
fn slice_name_mismatch_carries_pattern_and_actual_text() {
    let mut store = slice_store();
    store.entries[0].name = Some(b"Vec<u32>".to_vec());
    match Slice::from_dw_tag_structure_type(&store, 0) {
        Err(Error::NameMismatch { expected, actual }) => {
            assert_eq!(expected, b"&[T]".to_vec());
            assert_eq!(actual, b"Vec<u32>".to_vec());
        }
        _ => panic!("expected a name mismatch"),
    }
}

#[test]
fn str_name_mismatch_carries_literal_and_actual_text() {
    let mut store = slice_store();
    store.entries[0].name = Some(b"&[u8]".to_vec());
    match str_impl::str::from_dw_tag_structure_type(&store, 0) {
        Err(Error::NameMismatch { expected, actual }) => {
            assert_eq!(expected, b"&str".to_vec());
            assert_eq!(actual, b"&[u8]".to_vec());
        }
        _ => panic!("expected a name mismatch"),
    }
}

#[test]
fn str_schema_accepts_the_reserved_literal() {
    let mut store = slice_store();
    store.entries[0].name = Some(b"&str".to_vec());
    store.entries[3].byte_size = Some(1);
    let s = str_impl::str::from_dw_tag_structure_type(&store, 0).unwrap();
    assert_eq!(s.size(), Ok(16));
    match s.elt().unwrap() {
        Type::Base(b) => assert_eq!(b.entry, 3),
        _ => panic!("expected the pointee base type"),
    }
}

#[test]
fn slice_with_too_few_fields_is_missing_field() {
    let mut store = slice_store();
    store.entries[0].members.pop();
    assert!(matches!(
        Slice::from_dw_tag_structure_type(&store, 0),
        Err(Error::MissingField)
    ));
}

#[test]
fn structure_without_name_is_missing_attribute() {
    let mut store = slice_store();
    store.entries[0].name = None;
    assert!(matches!(
        Slice::from_dw_tag_structure_type(&store, 0),
        Err(Error::MissingAttribute { attr: Attribute::Name })
    ));
}

#[test]
fn fields_walk_is_ordered_and_restartable() {
    let store = slice_store();
    let s = Struct::from_dw_tag_structure_type(&store, 0).unwrap();
    let mut fields = s.fields();
    let first = fields.next().unwrap();
    let second = fields.next().unwrap();
    assert_eq!(first.member.declared_type, Some(1));
    assert_eq!(second.member.declared_type, Some(2));
    assert!(fields.next().is_none());
    let mut again = s.fields();
    assert_eq!(again.next().unwrap().member.declared_type, Some(1));
}

#[test]
fn classification_dispatches_on_tag_and_name() {
    let store = slice_store();
    assert!(matches!(Type::from_entry(&store, 0), Ok(Type::Slice(_))));
    assert!(matches!(Type::from_entry(&store, 1), Ok(Type::MutPtr(_))));
    assert!(matches!(Type::from_entry(&store, 2), Ok(Type::Base(_))));

    let mut named = slice_store();
    named.entries[0].name = Some(b"Point".to_vec());
    assert!(matches!(Type::from_entry(&named, 0), Ok(Type::Structure(_))));
    named.entries[0].name = Some(b"&str".to_vec());
    assert!(matches!(Type::from_entry(&named, 0), Ok(Type::Str(_))));

    let other = Store { entries: vec![blank(Tag::Other)] };
    assert!(matches!(
        Type::from_entry(&other, 0),
        Err(Error::TagMismatch { expected: Tag::StructureType, actual: Tag::Other })
    ));
}

#[test]
fn location_expression_addresses_are_checked() {
    let loc = LocationExpression { offset: 5 };
    assert_eq!(loc.address(3), Some(8));
    assert_eq!(loc.address(u64::MAX), None);
}
