//! The selected variant of a sum-type value: its variant schema over the
//! same byte window, ready for field-level access.

use vstd::prelude::*;
use crate::schema;
use crate::value::structure::FieldsValues;

verus! {

/// A reflected variant of a sum-type value. Wraps the same byte window as
/// the sum-type value it was selected from; no copy is made.
#[derive(Clone, Copy)]
pub struct Variant<'value, 'dwarf> {
    pub schema: schema::enumeration::Variant<'dwarf>,
    pub value: &'value [u8],
}

impl<'value, 'dwarf> Variant<'value, 'dwarf> {
    /// Pairs a variant schema with the byte window it was selected over.
    pub fn new(schema: schema::enumeration::Variant<'dwarf>, value: &'value [u8]) -> (r: Self)
        ensures
            r.schema == schema,
            r.value == value,
    {
        Variant { schema, value }
    }

    /// The fields of this variant, as a restartable walk using the same
    /// field-value mechanism as composite values.
    pub fn fields(&self) -> (r: FieldsValues<'value, 'dwarf>)
        ensures
            r.fields.store == self.schema.store,
            r.fields.members == self.schema.variant.members,
            r.fields.cursor == 0,
            r.value == self.value,
    {
        FieldsValues { fields: self.schema.fields(), value: self.value }
    }
}

} // verus!
