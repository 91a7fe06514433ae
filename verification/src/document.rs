//! Decoded tables: the values of the header fields and of each record.

use crate::bytes::{lemma_pow256_values, pow256};
use crate::layout::{DescriptorView, Field, FieldKind, FormatDescriptor};
use crate::pool::has_no_nul;
use vstd::prelude::*;

verus! {

/// What a document holds for one field.
///
/// Numbers are kept as the unsigned number that their bytes spell, whatever the field's
/// kind reads into them (a sign, a fraction). A pointer field is held as the string it
/// leads to, empty where there is none; the pointer itself never shows.
#[derive(Clone, Debug, PartialEq, Eq)]
pub enum Value {
    Int(u64),
    Bytes(Vec<u8>),
}

/// A value as mathematics sees it.
pub enum ValueView {
    Int(u64),
    Bytes(Seq<u8>),
}

impl View for Value {
    type V = ValueView;

    open spec fn view(&self) -> ValueView {
        match self {
            Value::Int(x) => ValueView::Int(*x),
            Value::Bytes(b) => ValueView::Bytes(b@),
        }
    }
}

impl DeepView for Value {
    type V = ValueView;

    open spec fn deep_view(&self) -> ValueView {
        self@
    }
}

/// A decoded table: one value for each header field, and for each record one value for
/// each record field.
#[derive(Clone, Debug, PartialEq, Eq)]
pub struct Document {
    pub header: Vec<Value>,
    pub records: Vec<Vec<Value>>,
}

/// A document as mathematics sees it.
pub struct DocumentView {
    pub header: Seq<ValueView>,
    pub records: Seq<Seq<ValueView>>,
}

impl View for Document {
    type V = DocumentView;

    open spec fn view(&self) -> DocumentView {
        DocumentView { header: self.header.deep_view(), records: self.records.deep_view() }
    }
}

/// True when `b` is empty or ends in a byte other than NUL.
pub open spec fn is_trimmed(b: Seq<u8>) -> bool {
    b.len() > 0 ==> b.last() != 0
}

/// True when a field of this kind can hold the value.
///
/// A plain number must fit the field's width. A field that the codec works out itself
/// takes any number: it is not read when the table is written. Raw bytes fill their slot
/// exactly; text fits its slot and does not end in NUL; a pooled string holds no NUL.
pub open spec fn value_fits(kind: FieldKind, v: ValueView) -> bool {
    match v {
        ValueView::Int(x) => kind.is_computed() || (kind.is_plain() && x < pow256(
            kind.spec_width(),
        )),
        ValueView::Bytes(b) => match kind {
            FieldKind::Bytes(n) => b.len() == n,
            FieldKind::Text(n) => b.len() <= n && is_trimmed(b),
            FieldKind::Pointer32 | FieldKind::Pointer64 => has_no_nul(b),
            _ => false,
        },
    }
}

/// True when there is one fitting value for each field.
pub open spec fn values_fit(fields: Seq<Field>, values: Seq<ValueView>) -> bool {
    &&& values.len() == fields.len()
    &&& forall|j: int| 0 <= j < fields.len() ==> value_fits(fields[j].kind, #[trigger] values[j])
}

/// True when the document has the shape that the descriptor declares.
pub open spec fn document_fits(d: DescriptorView, doc: DocumentView) -> bool {
    &&& values_fit(d.header, doc.header)
    &&& forall|r: int|
        0 <= r < doc.records.len() ==> values_fit(d.record, #[trigger] doc.records[r])
}

/// Tests `has_no_nul`.
pub fn check_no_nul(text: &[u8]) -> (ok: bool)
    ensures
        ok == has_no_nul(text@),
{
    let mut i: usize = 0;
    while i < text.len()
        invariant
            i <= text.len(),
            forall|k: int| 0 <= k < i ==> text@[k] != 0,
        decreases text.len() - i,
    {
        if text[i] == 0 {
            return false;
        }
        i += 1;
    }
    true
}

/// Tests `value_fits`.
pub fn check_value(kind: FieldKind, v: &Value) -> (ok: bool)
    ensures
        ok == value_fits(kind, v@),
{
    proof {
        lemma_pow256_values();
    }
    match v {
        Value::Int(x) => match kind {
            FieldKind::U8 => *x < 0x100,
            FieldKind::U16 | FieldKind::I16 => *x < 0x1_0000,
            FieldKind::U32 | FieldKind::I32 | FieldKind::F32 => *x < 0x1_0000_0000,
            FieldKind::U64 => true,
            FieldKind::Size | FieldKind::Constant32(_) | FieldKind::Constant64(_)
            | FieldKind::Count16 | FieldKind::Count32 | FieldKind::Index => true,
            _ => false,
        },
        Value::Bytes(b) => match kind {
            FieldKind::Bytes(n) => b.len() == n,
            FieldKind::Text(n) => b.len() <= n && (b.len() == 0 || b[b.len() - 1] != 0),
            FieldKind::Pointer32 | FieldKind::Pointer64 => check_no_nul(b.as_slice()),
            _ => false,
        },
    }
}

/// Tests `values_fit`.
pub fn check_values(fields: &Vec<Field>, values: &Vec<Value>) -> (ok: bool)
    ensures
        ok == values_fit(fields@, values.deep_view()),
{
    if values.len() != fields.len() {
        return false;
    }
    let mut j: usize = 0;
    while j < fields.len()
        invariant
            j <= fields.len(),
            values.len() == fields.len(),
            forall|k: int|
                0 <= k < j ==> value_fits(fields@[k].kind, #[trigger] values.deep_view()[k]),
        decreases fields.len() - j,
    {
        if !check_value(fields[j].kind, &values[j]) {
            proof {
                assert(!value_fits(fields@[j as int].kind, values.deep_view()[j as int]));
            }
            return false;
        }
        j += 1;
    }
    true
}

impl Document {
    /// Tests whether the document has the shape that the descriptor declares.
    pub fn fits(&self, descriptor: &FormatDescriptor) -> (ok: bool)
        ensures
            ok == document_fits(descriptor@, self@),
    {
        if !check_values(&descriptor.header, &self.header) {
            return false;
        }
        let mut r: usize = 0;
        while r < self.records.len()
            invariant
                r <= self.records.len(),
                forall|k: int|
                    0 <= k < r ==> values_fit(descriptor@.record, #[trigger] self@.records[k]),
            decreases self.records.len() - r,
        {
            if !check_values(&descriptor.record, &self.records[r]) {
                proof {
                    assert(!values_fit(descriptor@.record, self@.records[r as int]));
                }
                return false;
            }
            r += 1;
        }
        true
    }
}

} // verus!
