//! A fixed-size array value: a byte window truncated to exactly count
//! times element size, iterated as per-element chunks of fixed width.

use vstd::prelude::*;
use vstd::arithmetic::mul::lemma_mul_inequality;
use crate::error::Error;
use crate::schema;
use crate::schema::Type;
use crate::value::{array_value_outcome, value_result_matches, Value};

verus! {

/// One chunk of an evenly tiled window: bytes `i*e .. (i+1)*e`.
pub open spec fn chunk_of(w: Seq<u8>, e: nat, i: int) -> Seq<u8> {
    w.subrange(i * e, i * e + e)
}

/// Law: a window of exactly `n * e` bytes tiles into `n` chunks of `e`
/// bytes each, chunk `i` starting at byte `i * e`; iterating an array value
/// therefore yields exactly `n` elements covering `e * n` bytes in all.
pub proof fn lemma_array_value_tiling(w: Seq<u8>, e: nat, n: nat)
    requires
        w.len() == n * e,
    ensures
        forall|i: int| 0 <= i < n ==> (#[trigger] chunk_of(w, e, i)).len() == e,
        forall|i: int| 0 <= i < n ==> (#[trigger] chunk_of(w, e, i)) == w.subrange(
            i * e,
            i * e + e,
        ),
{
    assert forall|i: int| 0 <= i < n implies (#[trigger] chunk_of(w, e, i)).len() == e by {
        lemma_mul_inequality(i + 1, n as int, e as int);
        assert((i + 1) * e == i * e + e) by (nonlinear_arith);
    }
}

/// A reflected fixed-size array value.
#[derive(Clone, Copy)]
pub struct Array<'value, 'dwarf> {
    pub schema: schema::array::Array<'dwarf>,
    pub value: &'value [u8],
}

/// A lazy, finite walk over an array value's per-element byte chunks. The
/// walk is restartable: the owning value recomputes a fresh one on each
/// request, and no shared cursor is retained between requests.
#[derive(Clone, Copy)]
pub struct ArrayIter<'value, 'dwarf> {
    pub elt: Type<'dwarf>,
    pub elt_size: u64,
    pub count: u64,
    pub value: &'value [u8],
    pub cursor: u64,
}

impl<'value, 'dwarf> ArrayIter<'value, 'dwarf> {
    /// The window holds exactly `count` chunks of `elt_size` bytes, and the
    /// cursor never passes the count.
    pub open spec fn wf(self) -> bool {
        &&& self.elt.wf()
        &&& self.value@.len() == self.count * self.elt_size
        &&& self.cursor <= self.count
    }

    /// The next element, typed by the element type, over the next chunk of
    /// `elt_size` bytes; `None` once `count` elements have been handed out.
    pub fn next(&mut self) -> (r: Option<Result<Value<'value, 'dwarf>, Error>>)
        requires
            old(self).wf(),
        ensures
            final(self).wf(),
            final(self).elt == old(self).elt,
            final(self).elt_size == old(self).elt_size,
            final(self).count == old(self).count,
            final(self).value == old(self).value,
            old(self).cursor == old(self).count ==> {
                &&& r is None
                &&& final(self).cursor == old(self).cursor
            },
            old(self).cursor < old(self).count ==> {
                &&& final(self).cursor == old(self).cursor + 1
                &&& r matches Some(res)
                &&& value_result_matches(
                    res,
                    old(self).elt,
                    chunk_of(old(self).value@, old(self).elt_size as nat, old(self).cursor as int),
                )
            },
    {
        if self.cursor == self.count {
            return None;
        }
        let total = self.value.len();
        proof {
            lemma_mul_inequality(self.cursor as int + 1, self.count as int, self.elt_size as int);
            assert((self.cursor + 1) * self.elt_size == self.cursor * self.elt_size
                + self.elt_size) by (nonlinear_arith);
            assert(self.cursor * self.elt_size + self.elt_size <= total);
        }
        let start = self.cursor * self.elt_size;
        let end = start + self.elt_size;
        let chunk = vstd::slice::slice_subrange(self.value, start as usize, end as usize);
        self.cursor = self.cursor + 1;
        Some(Value::with_type(self.elt, chunk))
    }
}

impl<'value, 'dwarf> Array<'value, 'dwarf> {
    /// The element count is present, the element type resolves, its size is
    /// present, and the window holds exactly their product in bytes.
    pub open spec fn wf(self) -> bool {
        let e = self.schema.store.at(self.schema.entry as int);
        &&& self.schema.wf()
        &&& e.element_count matches Some(n)
        &&& e.element_type matches Some(t)
        &&& schema::classify_result(*self.schema.store, t as int) is Ok
        &&& self.schema.store.at(t as int).byte_size matches Some(es)
        &&& self.value@.len() == n * es
    }

    /// Pairs an array schema with a byte window: multiplies count by
    /// element size with explicit overflow checking, rejects a window
    /// shorter than the product, and truncates the window to exactly that
    /// many bytes.
    pub fn with_schema(value: &'value [u8], schema: schema::array::Array<'dwarf>) -> (r: Result<
        Self,
        Error,
    >)
        requires
            schema.wf(),
        ensures
            match array_value_outcome(*schema.store, schema.entry as int, value@) {
                Ok(win) => {
                    &&& r matches Ok(v)
                    &&& v.schema == schema
                    &&& v.value@ == win
                    &&& v.wf()
                },
                Err(e) => r == Err::<Self, Error>(e),
            },
    {
        let len = schema.count()?;
        let ty = schema.elt()?;
        let elt_size = ty.size()?;
        let bytes = match len.checked_mul(elt_size) {
            Some(b) => b,
            None => return Err(Error::SizeOverflow),
        };
        if bytes > value.len() as u64 {
            return Err(Error::WindowTooShort);
        }
        let value = vstd::slice::slice_subrange(value, 0, bytes as usize);
        Ok(Array { schema, value })
    }

    /// A fresh walk over this value's elements. Iteration is recomputed
    /// from the stored window on each call, so it always restarts from the
    /// first element.
    pub fn iter(&self) -> (r: Result<ArrayIter<'value, 'dwarf>, Error>)
        requires
            self.wf(),
        ensures
            ({
                let e = self.schema.store.at(self.schema.entry as int);
                &&& r matches Ok(it)
                &&& it.wf()
                &&& it.cursor == 0
                &&& it.value == self.value
                &&& e.element_count matches Some(n) && it.count == n
                &&& e.element_type matches Some(t) && it.elt.entry_of() == t as int && it.elt.wf()
                    && it.elt.store_of() == *self.schema.store
                &&& e.element_type matches Some(t)
                    && self.schema.store.at(t as int).byte_size matches Some(es) && it.elt_size
                    == es
            }),
    {
        let count = self.schema.count()?;
        let ty = self.schema.elt()?;
        let elt_size = ty.size()?;
        Ok(ArrayIter { elt: ty, elt_size, count, value: self.value, cursor: 0 })
    }
}

} // verus!
