//! A sum-type value and its variant selection: reading the discriminant
//! from the byte window and choosing which declared variant the bytes
//! represent.
//!
//! Selection walks every declared variant and keeps overwriting the
//! current match on every value that matches, so when two variants declare
//! equal discriminant constants, the one later in declaration order wins.
//! That behaviour is preserved deliberately; the laws below state it
//! exactly.

use vstd::prelude::*;
use vstd::bytes::{
    spec_u16_from_le_bytes, spec_u32_from_le_bytes, spec_u64_from_le_bytes, u16_from_le_bytes,
    u32_from_le_bytes, u64_from_le_bytes,
};
use crate::debug_info::{DiscriminantValue, VariantEntry};
use crate::error::{Attribute, Error};
use crate::schema;
use crate::value::enum_value_outcome;
use crate::value::variant::Variant;

verus! {

/// Whether a discriminant constant equals the unsigned integer read from
/// the window at `off`, little-endian, at the width the constant declares.
/// A read that would pass the window's end matches nothing.
pub open spec fn constant_matches(d: DiscriminantValue, w: Seq<u8>, off: int) -> bool {
    match d {
        DiscriminantValue::U8(c) => off + 1 <= w.len() && w[off] == c,
        DiscriminantValue::U16(c) => off + 2 <= w.len() && spec_u16_from_le_bytes(
            w.subrange(off, off + 2),
        ) == c,
        DiscriminantValue::U32(c) => off + 4 <= w.len() && spec_u32_from_le_bytes(
            w.subrange(off, off + 4),
        ) == c,
        DiscriminantValue::U64(c) => off + 8 <= w.len() && spec_u64_from_le_bytes(
            w.subrange(off, off + 8),
        ) == c,
    }
}

/// Whether a variant carries an explicit discriminant constant that the
/// window's bytes at `off` equal. The default variant (no constant)
/// never matches explicitly.
pub open spec fn discr_matches(v: VariantEntry, w: Seq<u8>, off: int) -> bool {
    match v.discriminant {
        Some(d) => constant_matches(d, w, off),
        None => false,
    }
}

/// The last index below `n` whose variant explicitly matches, if any.
pub open spec fn last_explicit_match(vs: Seq<VariantEntry>, w: Seq<u8>, off: int, n: int) -> Option<
    int,
>
    decreases n,
{
    if n <= 0 {
        None
    } else if discr_matches(vs[n - 1], w, off) {
        Some(n - 1)
    } else {
        last_explicit_match(vs, w, off, n - 1)
    }
}

/// The last index below `n` whose variant has no discriminant constant,
/// if any.
pub open spec fn last_default(vs: Seq<VariantEntry>, n: int) -> Option<int>
    decreases n,
{
    if n <= 0 {
        None
    } else if vs[n - 1].discriminant is None {
        Some(n - 1)
    } else {
        last_default(vs, n - 1)
    }
}

/// The variant a window selects: the last explicitly matching variant in
/// declaration order; failing that, the default variant; failing that,
/// nothing.
pub open spec fn selected_variant(vs: Seq<VariantEntry>, w: Seq<u8>, off: int) -> Option<int> {
    match last_explicit_match(vs, w, off, vs.len() as int) {
        Some(i) => Some(i),
        None => last_default(vs, vs.len() as int),
    }
}

proof fn lemma_last_match_from(vs: Seq<VariantEntry>, w: Seq<u8>, off: int, j: int, n: int)
    requires
        0 <= j < n <= vs.len(),
        discr_matches(vs[j], w, off),
        forall|k: int| j < k < n ==> !discr_matches(vs[k], w, off),
    ensures
        last_explicit_match(vs, w, off, n) == Some(j),
    decreases n,
{
    if n > j + 1 {
        lemma_last_match_from(vs, w, off, j, n - 1);
    }
}

proof fn lemma_last_match_none(vs: Seq<VariantEntry>, w: Seq<u8>, off: int, n: int)
    requires
        n <= vs.len(),
        forall|k: int| 0 <= k < n ==> !discr_matches(vs[k], w, off),
    ensures
        last_explicit_match(vs, w, off, n) is None,
    decreases n,
{
    if n > 0 {
        lemma_last_match_none(vs, w, off, n - 1);
    }
}

proof fn lemma_last_default_from(vs: Seq<VariantEntry>, d: int, n: int)
    requires
        0 <= d < n <= vs.len(),
        vs[d].discriminant is None,
        forall|k: int| d < k < n ==> (#[trigger] vs[k].discriminant) is Some,
    ensures
        last_default(vs, n) == Some(d),
    decreases n,
{
    if n > d + 1 {
        lemma_last_default_from(vs, d, n - 1);
    }
}

proof fn lemma_last_default_none(vs: Seq<VariantEntry>, n: int)
    requires
        n <= vs.len(),
        forall|k: int| 0 <= k < n ==> (#[trigger] vs[k].discriminant) is Some,
    ensures
        last_default(vs, n) is None,
    decreases n,
{
    if n > 0 {
        lemma_last_default_none(vs, n - 1);
    }
}

/// Law: when exactly one variant's constant equals the discriminant bytes,
/// that variant is selected, whatever its position.
pub proof fn lemma_selects_unique_explicit_match(
    vs: Seq<VariantEntry>,
    w: Seq<u8>,
    off: int,
    i: int,
)
    requires
        0 <= i < vs.len(),
        discr_matches(vs[i], w, off),
        forall|k: int| 0 <= k < vs.len() && k != i ==> !discr_matches(vs[k], w, off),
    ensures
        selected_variant(vs, w, off) == Some(i),
{
    lemma_last_match_from(vs, w, off, i, vs.len() as int);
}

/// Law: when no variant's constant equals the discriminant bytes and
/// exactly the variant at `d` has no constant, the default is selected.
pub proof fn lemma_selects_default(vs: Seq<VariantEntry>, w: Seq<u8>, off: int, d: int)
    requires
        0 <= d < vs.len(),
        vs[d].discriminant is None,
        forall|k: int| 0 <= k < vs.len() && k != d ==> (#[trigger] vs[k].discriminant) is Some,
        forall|k: int| 0 <= k < vs.len() ==> !discr_matches(vs[k], w, off),
    ensures
        selected_variant(vs, w, off) == Some(d),
{
    lemma_last_match_none(vs, w, off, vs.len() as int);
    lemma_last_default_from(vs, d, vs.len() as int);
}

/// Law: when no variant's constant equals the discriminant bytes and no
/// variant lacks a constant, nothing is selected, and variant resolution
/// reports that no variant matched.
pub proof fn lemma_selects_nothing(vs: Seq<VariantEntry>, w: Seq<u8>, off: int)
    requires
        forall|k: int| 0 <= k < vs.len() ==> !discr_matches(vs[k], w, off),
        forall|k: int| 0 <= k < vs.len() ==> (#[trigger] vs[k].discriminant) is Some,
    ensures
        selected_variant(vs, w, off) is None,
{
    lemma_last_match_none(vs, w, off, vs.len() as int);
    lemma_last_default_none(vs, vs.len() as int);
}

/// Law: when two variants declare the same discriminant constant and it
/// equals the discriminant bytes, the one later in declaration order is
/// selected — a preserved consequence of not stopping at the first match.
pub proof fn lemma_later_duplicate_wins(
    vs: Seq<VariantEntry>,
    w: Seq<u8>,
    off: int,
    i: int,
    j: int,
)
    requires
        0 <= i < j < vs.len(),
        vs[i].discriminant == vs[j].discriminant,
        discr_matches(vs[j], w, off),
        forall|k: int| j < k < vs.len() ==> !discr_matches(vs[k], w, off),
    ensures
        selected_variant(vs, w, off) == Some(j),
{
    lemma_last_match_from(vs, w, off, j, vs.len() as int);
}

/// Whether the unsigned integer of `d`'s width, read little-endian from
/// `w` at `addr`, equals `d`'s constant; false also when the read would
/// pass the window's end.
fn discriminant_constant_matches(w: &[u8], addr: u64, d: DiscriminantValue) -> (r: bool)
    ensures
        r == constant_matches(d, w@, addr as int),
{
    let len_u64 = w.len() as u64;
    match d {
        DiscriminantValue::U8(c) => {
            if addr < len_u64 {
                *vstd::slice::slice_index_get(w, addr as usize) == c
            } else {
                false
            }
        },
        DiscriminantValue::U16(c) => {
            if 2 <= len_u64 && addr <= len_u64 - 2 {
                let s = vstd::slice::slice_subrange(w, addr as usize, addr as usize + 2);
                u16_from_le_bytes(s) == c
            } else {
                false
            }
        },
        DiscriminantValue::U32(c) => {
            if 4 <= len_u64 && addr <= len_u64 - 4 {
                let s = vstd::slice::slice_subrange(w, addr as usize, addr as usize + 4);
                u32_from_le_bytes(s) == c
            } else {
                false
            }
        },
        DiscriminantValue::U64(c) => {
            if 8 <= len_u64 && addr <= len_u64 - 8 {
                let s = vstd::slice::slice_subrange(w, addr as usize, addr as usize + 8);
                u64_from_le_bytes(s) == c
            } else {
                false
            }
        },
    }
}

/// A reflected sum-type value.
#[derive(Clone, Copy)]
pub struct Enum<'value, 'dwarf> {
    pub schema: schema::enumeration::Enum<'dwarf>,
    pub value: &'value [u8],
}

impl<'value, 'dwarf> Enum<'value, 'dwarf> {
    /// Pairs a sum-type schema with a byte window, truncated to the
    /// declared total size; a shorter window is rejected.
    pub fn with_schema(value: &'value [u8], schema: schema::enumeration::Enum<'dwarf>) -> (r:
        Result<Self, Error>)
        requires
            schema.wf(),
        ensures
            match enum_value_outcome(*schema.store, schema.entry as int, value@) {
                Ok(win) => {
                    &&& r matches Ok(v)
                    &&& v.schema == schema
                    &&& v.value@ == win
                },
                Err(e) => r == Err::<Self, Error>(e),
            },
    {
        let size = crate::get_size(schema.entry())?;
        if size > value.len() as u64 {
            return Err(Error::WindowTooShort);
        }
        let value = vstd::slice::slice_subrange(value, 0, size as usize);
        Ok(Enum { schema, value })
    }

    /// The variant of this sum-type value: every declared variant is
    /// enumerated, each explicit constant is compared against the bytes at
    /// the discriminant's offset (evaluated against the value's own base),
    /// the last match in declaration order wins, the default variant backs
    /// a miss, and a miss without a default reports that no variant
    /// matched. The selected variant wraps the same window; no copy.
    pub fn variant(&self) -> (r: Result<Variant<'value, 'dwarf>, Error>)
        requires
            self.schema.wf(),
        ensures
            ({
                let e = self.schema.store.at(self.schema.entry as int);
                match e.discriminant_location {
                    None => r == Err::<Variant<'value, 'dwarf>, Error>(
                        Error::MissingAttribute { attr: Attribute::Location },
                    ),
                    Some(loc) => match selected_variant(
                        e.variants@,
                        self.value@,
                        loc.offset as int,
                    ) {
                        None => r == Err::<Variant<'value, 'dwarf>, Error>(
                            Error::NoMatchingVariant,
                        ),
                        Some(i) => {
                            &&& r matches Ok(v)
                            &&& v.schema.store == self.schema.store
                            &&& v.schema.variant == e.variants@[i]
                            &&& v.value == self.value
                        },
                    },
                }
            }),
    {
        let discr_loc = match self.schema.discriminant_location() {
            Some(l) => l,
            None => return Err(Error::MissingAttribute { attr: Attribute::Location }),
        };
        let discr_addr = match discr_loc.address(0) {
            Some(a) => a,
            None => {
                proof {
                    assert(false);
                }
                vstd::pervasive::unreached()
            },
        };

        let mut variants = self.schema.variants();
        let n = variants.variants.len();
        let mut matched: Option<schema::enumeration::Variant<'dwarf>> = None;
        let mut default: Option<schema::enumeration::Variant<'dwarf>> = None;
        let mut idx: usize = 0;

        while idx < n
            invariant
                self.schema.wf(),
                variants.store == self.schema.store,
                variants.variants == self.schema.store.at(self.schema.entry as int).variants,
                variants.cursor == idx,
                idx <= n,
                n == self.schema.store.at(self.schema.entry as int).variants@.len(),
                match last_explicit_match(
                    self.schema.store.at(self.schema.entry as int).variants@,
                    self.value@,
                    discr_addr as int,
                    idx as int,
                ) {
                    Some(i) => matched matches Some(v) && v.store == self.schema.store
                        && v.variant == self.schema.store.at(
                        self.schema.entry as int,
                    ).variants@[i],
                    None => matched is None,
                },
                match last_default(
                    self.schema.store.at(self.schema.entry as int).variants@,
                    idx as int,
                ) {
                    Some(i) => default matches Some(v) && v.store == self.schema.store
                        && v.variant == self.schema.store.at(
                        self.schema.entry as int,
                    ).variants@[i],
                    None => default is None,
                },
            decreases n - idx,
        {
            let variant = match variants.next() {
                Some(v) => v,
                None => {
                    proof {
                        assert(false);
                    }
                    vstd::pervasive::unreached()
                },
            };
            match variant.discriminant_value() {
                Some(d) => {
                    if discriminant_constant_matches(self.value, discr_addr, d) {
                        matched = Some(variant);
                    }
                },
                None => {
                    default = Some(variant);
                },
            }
            idx = idx + 1;
        }

        let selected = match matched {
            Some(v) => Some(v),
            None => default,
        };
        match selected {
            Some(v) => Ok(Variant::new(v, self.value)),
            None => Err(Error::NoMatchingVariant),
        }
    }
}

} // verus!
