//! A field of a composite or variant value: resolves the member's declared
//! type, evaluates its offset expression against base address zero, and
//! hands back a typed value over the parent window from that offset on.

use vstd::prelude::*;
use crate::error::{Attribute, Error};
use crate::schema;
use crate::schema::classify_result;
use crate::value::{with_type_outcome, Value};

verus! {

/// What interpreting a member over its parent window `w` must yield: the
/// typed sub-window starting at the member's offset, or the exact error
/// met while resolving the declared type or the offset.
pub open spec fn field_value_outcome(
    store: crate::debug_info::Store,
    m: crate::debug_info::MemberEntry,
    w: Seq<u8>,
) -> Result<Seq<u8>, Error> {
    match m.declared_type {
        None => Err(Error::MissingAttribute { attr: Attribute::DeclaredType }),
        Some(t) => match classify_result(store, t as int) {
            Err(e) => Err(e),
            Ok(shape) => match m.location {
                None => Err(Error::MissingAttribute { attr: Attribute::Location }),
                Some(loc) => with_type_outcome(store, t as int, shape, w.skip(loc.offset as int)),
            },
        },
    }
}

/// Law (round trip): whenever interpreting a member over its parent window
/// succeeds, the window it yields begins exactly at the member's declared
/// offset and is an initial run of the parent window from there on —
/// byte-identical to the sub-window direct structural knowledge of the
/// layout would cut. Shapes that do not truncate yield that whole tail.
pub proof fn lemma_field_window_round_trip(
    store: crate::debug_info::Store,
    m: crate::debug_info::MemberEntry,
    w: Seq<u8>,
)
    requires
        field_value_outcome(store, m, w) is Ok,
    ensures
        field_value_outcome(store, m, w) matches Ok(win) && m.location matches Some(loc)
            && win.is_prefix_of(w.skip(loc.offset as int)),
        ({
            &&& field_value_outcome(store, m, w) matches Ok(win)
            &&& m.location matches Some(loc)
            &&& m.declared_type matches Some(t)
            &&& (classify_result(store, t as int) matches Ok(shape) && shape !is Array && shape
                !is Enumeration) ==> win == w.skip(loc.offset as int)
        }),
{
    let loc = m.location.unwrap();
    let tail = w.skip(loc.offset as int);
    let win = field_value_outcome(store, m, w).unwrap();
    assert(win.is_prefix_of(tail)) by {
        assert(win.len() <= tail.len());
        assert(win =~= tail.subrange(0, win.len() as int));
    }
}

/// A reflected field of a composite or variant value. Holds the member's
/// schema and the parent's whole byte window.
#[derive(Clone, Copy)]
pub struct Field<'value, 'dwarf> {
    pub schema: schema::field::Field<'dwarf>,
    pub value: &'value [u8],
}

impl<'value, 'dwarf> Field<'value, 'dwarf> {
    /// Pairs a member schema with its parent's byte window.
    pub fn new(schema: schema::field::Field<'dwarf>, value: &'value [u8]) -> (r: Self)
        ensures
            r.schema == schema,
            r.value == value,
    {
        Field { schema, value }
    }

    /// An offset is never validated against the parent's total size at this
    /// layer, so one beyond the window is a layout contract broken upstream,
    /// not a recoverable condition here.
    pub open spec fn offset_in_window(self) -> bool {
        match self.schema.member.location {
            Some(l) => l.offset <= self.value@.len(),
            None => true,
        }
    }

    /// The value of this field: the parent window from the field's offset
    /// on, typed by the field's declared type. The sub-window is
    /// byte-identical to the one direct structural knowledge of the layout
    /// would give.
    pub fn value(&self) -> (r: Result<Value<'value, 'dwarf>, Error>)
        requires
            self.offset_in_window(),
        ensures
            ({
                let m = self.schema.member;
                match field_value_outcome(*self.schema.store, *m, self.value@) {
                    Ok(win) => {
                        &&& r matches Ok(v)
                        &&& v.wf()
                        &&& v.store_of() == *self.schema.store
                        &&& m.declared_type matches Some(t) && v.entry_of() == t as int
                        &&& m.declared_type matches Some(t) && classify_result(
                            *self.schema.store,
                            t as int,
                        ) == Ok::<crate::schema::Shape, Error>(v.shape())
                        &&& v.window() == win
                    },
                    Err(e) => r == Err::<Value<'value, 'dwarf>, Error>(e),
                }
            }),
    {
        let ty = self.schema.ty()?;
        let loc = match self.schema.offset() {
            Some(l) => l,
            None => return Err(Error::MissingAttribute { attr: Attribute::Location }),
        };
        let offset = match loc.address(0) {
            Some(a) => a,
            None => {
                proof {
                    assert(false);
                }
                vstd::pervasive::unreached()
            },
        };
        let window = vstd::slice::slice_subrange(self.value, offset as usize, self.value.len());
        Value::with_type(ty, window)
    }
}

} // verus!
