//! A composite value: a structure schema paired with a byte window, whose
//! fields are reached lazily through the field-value mechanism.

use vstd::prelude::*;
use crate::schema;
use crate::value::field::Field;

verus! {

/// A reflected composite value.
#[derive(Clone, Copy)]
pub struct Struct<'value, 'dwarf> {
    pub schema: schema::structure::Struct<'dwarf>,
    pub value: &'value [u8],
}

/// A restartable, pull-based walk over a composite value's fields: each
/// field value pairs one member schema with the parent's whole window.
#[derive(Clone, Copy)]
pub struct FieldsValues<'value, 'dwarf> {
    pub fields: schema::structure::Fields<'dwarf>,
    pub value: &'value [u8],
}

impl<'value, 'dwarf> FieldsValues<'value, 'dwarf> {
    /// The next field value, or `None` once every member has been handed
    /// out.
    pub fn next(&mut self) -> (r: Option<Field<'value, 'dwarf>>)
        ensures
            final(self).fields.store == old(self).fields.store,
            final(self).fields.members == old(self).fields.members,
            final(self).value == old(self).value,
            old(self).fields.cursor < old(self).fields.members@.len() ==> {
                &&& r matches Some(f)
                &&& f.schema.store == old(self).fields.store
                &&& f.schema.member == old(self).fields.members@[old(self).fields.cursor as int]
                &&& f.value == old(self).value
                &&& final(self).fields.cursor == old(self).fields.cursor + 1
            },
            old(self).fields.cursor >= old(self).fields.members@.len() ==> {
                &&& r is None
                &&& final(self).fields.cursor == old(self).fields.cursor
            },
    {
        match self.fields.next() {
            Some(schema) => Some(Field { schema, value: self.value }),
            None => None,
        }
    }
}

impl<'value, 'dwarf> Struct<'value, 'dwarf> {
    /// Pairs a structure schema with a byte window. No truncation is
    /// applied here: each field's own type determines how much it consumes.
    pub fn with_schema(value: &'value [u8], schema: schema::structure::Struct<'dwarf>) -> (r:
        Self)
        ensures
            r.schema == schema,
            r.value == value,
    {
        Struct { schema, value }
    }

    /// The fields of this value, as a restartable walk.
    pub fn fields(&self) -> (r: FieldsValues<'value, 'dwarf>)
        requires
            self.schema.wf(),
        ensures
            r.fields.store == self.schema.store,
            r.fields.members == self.schema.store.at(self.schema.entry as int).members,
            r.fields.cursor == 0,
            r.value == self.value,
    {
        FieldsValues { fields: self.schema.fields(), value: self.value }
    }
}

} // verus!
