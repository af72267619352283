//! Minimal debug-style rendering, as ASCII byte strings: `name : value`
//! pairs for fields, bracketed comma lists for arrays, and
//! `TypeName::VariantName(..)` for sum types. Rendering is a best-effort
//! diagnostic path: a failure met while interpreting a field surfaces as a
//! rendered error marker rather than propagating.

use vstd::prelude::*;
use crate::value::array::{chunk_of, Array};
use crate::value::enumeration::{selected_variant, Enum};
use crate::value::field::{field_value_outcome, Field};

verus! {

/// The ASCII hex digit of a nibble.
pub open spec fn hex_digit(n: int) -> u8 {
    if n < 10 {
        (48 + n) as u8
    } else {
        (87 + n) as u8
    }
}

/// The bytes of a window, each written as two ASCII hex digits.
pub open spec fn hex_of(b: Seq<u8>) -> Seq<u8>
    decreases b.len(),
{
    if b.len() == 0 {
        Seq::empty()
    } else {
        seq![hex_digit(b[0] as int / 16), hex_digit(b[0] as int % 16)] + hex_of(b.skip(1))
    }
}

proof fn lemma_hex_of_app(a: Seq<u8>, b: Seq<u8>)
    ensures
        hex_of(a + b) == hex_of(a) + hex_of(b),
    decreases a.len(),
{
    if a.len() == 0 {
        assert(a + b =~= b);
        assert(hex_of(a) + hex_of(b) =~= hex_of(b));
    } else {
        assert((a + b).skip(1) =~= a.skip(1) + b);
        lemma_hex_of_app(a.skip(1), b);
        assert(hex_of(a + b) =~= hex_of(a) + hex_of(b));
    }
}

/// Appends every byte of `s` to `v`.
pub fn push_all(v: &mut Vec<u8>, s: &[u8])
    ensures
        final(v)@ == old(v)@ + s@,
{
    let mut i: usize = 0;
    while i < s.len()
        invariant
            i <= s@.len(),
            v@ == old(v)@ + s@.take(i as int),
        decreases s@.len() - i,
    {
        v.push(*vstd::slice::slice_index_get(s, i));
        proof {
            assert(old(v)@ + s@.take(i as int) + seq![s@[i as int]] =~= old(v)@ + s@.take(
                i as int + 1,
            ));
        }
        i = i + 1;
    }
    proof {
        assert(old(v)@ + s@.take(s@.len() as int) =~= old(v)@ + s@);
    }
}

/// Writes the window's bytes as ASCII hex digits.
pub fn hex_bytes(b: &[u8]) -> (v: Vec<u8>)
    ensures
        v@ == hex_of(b@),
{
    let mut v: Vec<u8> = Vec::new();
    let mut i: usize = 0;
    while i < b.len()
        invariant
            i <= b@.len(),
            v@ == hex_of(b@.take(i as int)),
        decreases b@.len() - i,
    {
        let byte = *vstd::slice::slice_index_get(b, i);
        v.push(byte / 16 + (if byte / 16 < 10 { 48 } else { 87 }));
        v.push(byte % 16 + (if byte % 16 < 10 { 48 } else { 87 }));
        proof {
            reveal_with_fuel(hex_of, 3);
            let x = b@[i as int];
            let single = seq![x];
            assert(b@.take(i as int + 1) =~= b@.take(i as int) + single);
            lemma_hex_of_app(b@.take(i as int), single);
            assert(single.skip(1) =~= Seq::<u8>::empty());
            assert(hex_of(single) =~= seq![hex_digit(x as int / 16), hex_digit(x as int % 16)]);
            assert(v@ =~= hex_of(b@.take(i as int)) + hex_of(single));
        }
        i = i + 1;
    }
    proof {
        assert(b@.take(b@.len() as int) =~= b@);
    }
    v
}

/// The marker a failed best-effort interpretation renders as.
pub open spec fn error_marker() -> Seq<u8> {
    seq![60u8, 101u8, 114u8, 114u8, 111u8, 114u8, 62u8]
}

/// The `0x` prefix of a rendered window.
pub open spec fn hex_prefix() -> Seq<u8> {
    seq![48u8, 120u8]
}

/// How one typed window renders: its bytes in hex, behind the prefix.
pub open spec fn window_rendered(w: Seq<u8>) -> Seq<u8> {
    hex_prefix() + hex_of(w)
}

/// How a field renders: its name, a separating colon, then its value's
/// window — or the error marker where interpretation fails.
pub open spec fn field_rendered(
    store: crate::debug_info::Store,
    m: crate::debug_info::MemberEntry,
    w: Seq<u8>,
) -> Seq<u8>
    recommends
        m.name is Some,
{
    let label = m.name->0;
    label@ + seq![32u8, 58u8, 32u8] + (match field_value_outcome(store, m, w) {
        Ok(win) => window_rendered(win),
        Err(_) => error_marker(),
    })
}

impl<'value, 'dwarf> Field<'value, 'dwarf> {
    /// Renders `name : value`. A nameless field is a layout contract broken
    /// upstream, not a recoverable condition here.
    pub fn render(&self) -> (r: Vec<u8>)
        requires
            self.offset_in_window(),
            self.schema.member.name is Some,
        ensures
            r@ == field_rendered(*self.schema.store, *self.schema.member, self.value@),
    {
        let name = match self.schema.name() {
            Some(n) => n,
            None => {
                proof {
                    assert(false);
                }
                vstd::pervasive::unreached()
            },
        };
        let mut out: Vec<u8> = Vec::new();
        push_all(&mut out, name.to_slice());
        let sep: [u8; 3] = [32, 58, 32];
        push_all(&mut out, sep.as_slice());
        proof {
            assert(sep@ =~= seq![32u8, 58u8, 32u8]);
        }
        match self.value() {
            Ok(v) => {
                let pre: [u8; 2] = [48, 120];
                push_all(&mut out, pre.as_slice());
                let hex = hex_bytes(v.window_bytes());
                push_all(&mut out, hex.as_slice());
                proof {
                    assert(pre@ =~= hex_prefix());
                }
            },
            Err(_) => {
                let marker: [u8; 7] = [60, 101, 114, 114, 111, 114, 62];
                push_all(&mut out, marker.as_slice());
                proof {
                    assert(marker@ =~= error_marker());
                }
            },
        }
        out
    }
}

/// How the first `n` element chunks of an array window render: each chunk
/// in hex, separated by comma and space.
pub open spec fn elements_rendered(w: Seq<u8>, e: nat, n: int) -> Seq<u8>
    decreases n,
{
    if n <= 0 {
        Seq::empty()
    } else if n == 1 {
        window_rendered(chunk_of(w, e, 0))
    } else {
        elements_rendered(w, e, n - 1) + seq![44u8, 32u8] + window_rendered(chunk_of(w, e, n - 1))
    }
}

/// How an array value renders: its element chunks between brackets.
pub open spec fn array_rendered(w: Seq<u8>, e: nat, n: int) -> Seq<u8> {
    seq![91u8] + elements_rendered(w, e, n) + seq![93u8]
}

impl<'value, 'dwarf> Array<'value, 'dwarf> {
    /// Renders the bracketed, comma-separated list of this array's element
    /// chunks, each chunk's bytes in hex.
    pub fn render(&self) -> (r: Vec<u8>)
        requires
            self.wf(),
        ensures
            ({
                let entry = self.schema.store.at(self.schema.entry as int);
                entry.element_count matches Some(n) && entry.element_type matches Some(t)
                    && self.schema.store.at(t as int).byte_size matches Some(es) && r@
                    == array_rendered(self.value@, es as nat, n as int)
            }),
    {
        let count = match self.schema.count() {
            Ok(n) => n,
            Err(_) => {
                proof {
                    assert(false);
                }
                vstd::pervasive::unreached()
            },
        };
        let ty = match self.schema.elt() {
            Ok(t) => t,
            Err(_) => {
                proof {
                    assert(false);
                }
                vstd::pervasive::unreached()
            },
        };
        let elt_size = match ty.size() {
            Ok(s) => s,
            Err(_) => {
                proof {
                    assert(false);
                }
                vstd::pervasive::unreached()
            },
        };
        let mut out: Vec<u8> = Vec::new();
        out.push(91);
        let total = self.value.len();
        let mut i: u64 = 0;
        while i < count
            invariant
                i <= count,
                total == self.value@.len(),
                total == count * elt_size,
                out@ == seq![91u8] + elements_rendered(self.value@, elt_size as nat, i as int),
            decreases count - i,
        {
            proof {
                vstd::arithmetic::mul::lemma_mul_inequality(
                    i as int + 1,
                    count as int,
                    elt_size as int,
                );
                assert((i + 1) * elt_size == i * elt_size + elt_size) by (nonlinear_arith);
                assert(i * elt_size + elt_size <= total);
            }
            if i > 0 {
                let comma: [u8; 2] = [44, 32];
                push_all(&mut out, comma.as_slice());
                proof {
                    assert(comma@ =~= seq![44u8, 32u8]);
                }
            }
            let pre: [u8; 2] = [48, 120];
            push_all(&mut out, pre.as_slice());
            let start = i * elt_size;
            let end = start + elt_size;
            let chunk = vstd::slice::slice_subrange(self.value, start as usize, end as usize);
            let hex = hex_bytes(chunk);
            push_all(&mut out, hex.as_slice());
            proof {
                assert(pre@ =~= hex_prefix());
                assert(chunk@ =~= chunk_of(self.value@, elt_size as nat, i as int));
                assert(out@ =~= seq![91u8] + elements_rendered(
                    self.value@,
                    elt_size as nat,
                    i as int + 1,
                ));
            }
            i = i + 1;
        }
        out.push(93);
        proof {
            assert(out@ =~= seq![91u8] + elements_rendered(
                self.value@,
                elt_size as nat,
                count as int,
            ) + seq![93u8]);
        }
        out
    }
}

/// How a sum-type value renders: `TypeName::VariantName(..)`, the
/// variant's own fields elided.
pub open spec fn enum_rendered(name: Seq<u8>, vname: Seq<u8>) -> Seq<u8> {
    name + seq![58u8, 58u8] + vname + seq![40u8, 46u8, 46u8, 41u8]
}

impl<'value, 'dwarf> Enum<'value, 'dwarf> {
    /// Renders the sum type's name and the selected variant's name. A sum
    /// type or selected variant without a name, or a window selecting no
    /// variant, is a diagnostic dead end this best-effort path does not
    /// enter.
    pub fn render(&self) -> (r: Vec<u8>)
        requires
            self.schema.wf(),
            ({
                let e = self.schema.store.at(self.schema.entry as int);
                &&& e.name is Some
                &&& e.discriminant_location matches Some(loc)
                &&& selected_variant(e.variants@, self.value@, loc.offset as int) matches Some(i)
                    && e.variants@[i].name is Some
            }),
        ensures
            ({
                let e = self.schema.store.at(self.schema.entry as int);
                &&& e.name matches Some(nm)
                &&& e.discriminant_location matches Some(loc)
                &&& selected_variant(e.variants@, self.value@, loc.offset as int) matches Some(i)
                    && e.variants@[i].name matches Some(vn) && r@ == enum_rendered(nm@, vn@)
            }),
    {
        let name = match self.schema.name() {
            Ok(n) => n,
            Err(_) => {
                proof {
                    assert(false);
                }
                vstd::pervasive::unreached()
            },
        };
        let selected = match self.variant() {
            Ok(v) => v,
            Err(_) => {
                proof {
                    assert(false);
                }
                vstd::pervasive::unreached()
            },
        };
        let vname = match selected.schema.name() {
            Some(n) => n,
            None => {
                proof {
                    assert(false);
                }
                vstd::pervasive::unreached()
            },
        };
        let mut out: Vec<u8> = Vec::new();
        push_all(&mut out, name.to_slice());
        let sep: [u8; 2] = [58, 58];
        push_all(&mut out, sep.as_slice());
        push_all(&mut out, vname.to_slice());
        let fields_elided: [u8; 4] = [40, 46, 46, 41];
        push_all(&mut out, fields_elided.as_slice());
        proof {
            assert(sep@ =~= seq![58u8, 58u8]);
            assert(fields_elided@ =~= seq![40u8, 46u8, 46u8, 41u8]);
        }
        out
    }
}

} // verus!
