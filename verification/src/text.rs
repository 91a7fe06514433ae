//! The editable form of a table: what of a document is shown as text, and how a
//! document is made of what was edited.
//!
//! The editable form has one item for each field, in the layout's order. Every number
//! and every string of the table appears in it, the number of records and the index
//! columns too, though writing works those out anew. Hidden are the size, the version
//! and the start of the records, which are the same for every table of a format or
//! follow from its length; pointers never appear, only their strings.

use crate::bytes::{lemma_pow256_values, pow256};
use crate::codec::{
    announced_count, decode_spec, encode_spec, field_address, first_count, raw_number,
    representable, tells_count,
};
use crate::document::{
    check_no_nul, document_fits, is_trimmed, value_fits, values_fit, Document, DocumentView,
    Value, ValueView,
};
use crate::error::CodecError;
use crate::hex::{bytes_of, from_hex, hex_of, is_hex, lemma_bytes_of_hex, to_hex};
use crate::layout::{DescriptorView, Field, FieldKind, FormatDescriptor};
use crate::pool::has_no_nul;
use crate::roundtrip::{
    lemma_encode_decode_encode, lemma_encode_same_content, lemma_first_count, same_content,
    same_documents,
};
use vstd::prelude::*;
use vstd::slice::slice_to_vec;

verus! {

/// What the editable form holds for one field.
#[derive(Clone, Debug, PartialEq, Eq)]
pub enum TextValue {
    /// Nothing: the field is not shown.
    Hidden,
    Unsigned(u64),
    Signed(i64),
    /// A single-precision number, as its bit pattern.
    Float(u32),
    /// A string, or raw bytes as hexadecimal digits.
    Text(Vec<u8>),
}

/// An item of the editable form as mathematics sees it.
pub enum TextValueView {
    Hidden,
    Unsigned(u64),
    Signed(i64),
    Float(u32),
    Text(Seq<u8>),
}

impl View for TextValue {
    type V = TextValueView;

    open spec fn view(&self) -> TextValueView {
        match self {
            TextValue::Hidden => TextValueView::Hidden,
            TextValue::Unsigned(x) => TextValueView::Unsigned(*x),
            TextValue::Signed(x) => TextValueView::Signed(*x),
            TextValue::Float(x) => TextValueView::Float(*x),
            TextValue::Text(t) => TextValueView::Text(t@),
        }
    }
}

impl DeepView for TextValue {
    type V = TextValueView;

    open spec fn deep_view(&self) -> TextValueView {
        self@
    }
}

/// The editable form of a table: the items of the header, and for each record its items.
#[derive(Clone, Debug, PartialEq, Eq)]
pub struct TextDocument {
    pub header: Vec<TextValue>,
    pub entries: Vec<Vec<TextValue>>,
}

/// The editable form as mathematics sees it.
pub struct TextDocumentView {
    pub header: Seq<TextValueView>,
    pub entries: Seq<Seq<TextValueView>>,
}

impl View for TextDocument {
    type V = TextDocumentView;

    open spec fn view(&self) -> TextDocumentView {
        TextDocumentView { header: self.header.deep_view(), entries: self.entries.deep_view() }
    }
}

/// True when a field of this kind appears in the editable form: every field but the
/// size, the version and the start of the records. The number of records and an index
/// column appear.
pub open spec fn shown(kind: FieldKind) -> bool {
    !(kind is Size || kind is Constant32 || kind is Constant64)
}

impl FieldKind {
    /// True when a field of this kind appears in the editable form.
    pub fn is_shown(&self) -> (yes: bool)
        ensures
            yes == shown(*self),
    {
        match self {
            FieldKind::Size | FieldKind::Constant32(_) | FieldKind::Constant64(_) => false,
            _ => true,
        }
    }
}

/// What stands for a header field that the editable text does not name: 0 for a number,
/// the hidden item for a hidden field; nothing for a text, which must be named.
pub open spec fn unnamed(kind: FieldKind) -> Option<TextValueView> {
    match kind {
        FieldKind::U8 | FieldKind::U16 | FieldKind::U32 | FieldKind::U64 | FieldKind::Index
        | FieldKind::Count16 | FieldKind::Count32 => Some(TextValueView::Unsigned(0)),
        FieldKind::I16 | FieldKind::I32 => Some(TextValueView::Signed(0)),
        FieldKind::F32 => Some(TextValueView::Float(0)),
        FieldKind::Size | FieldKind::Constant32(_) | FieldKind::Constant64(_) => Some(
            TextValueView::Hidden,
        ),
        _ => None,
    }
}

/// Half of what a field of `width` bytes can count: the first number that reads as
/// negative.
pub open spec fn sign_limit(width: nat) -> int {
    (pow256(width) / 2) as int
}

/// The signed number that the bit pattern `x` of `width` bytes stands for.
pub open spec fn signed_of(x: int, width: nat) -> int {
    if x >= sign_limit(width) {
        x - pow256(width)
    } else {
        x
    }
}

/// The bit pattern of `width` bytes that stands for the signed number `i`.
pub open spec fn pattern_of(i: int, width: nat) -> int {
    if i < 0 {
        i + pow256(width)
    } else {
        i
    }
}

/// What the editable form shows for a value in a field of this kind.
pub open spec fn shown_value(kind: FieldKind, v: ValueView) -> TextValueView {
    match kind {
        FieldKind::U8 | FieldKind::U16 | FieldKind::U32 | FieldKind::U64 | FieldKind::Index
        | FieldKind::Count16 | FieldKind::Count32 => TextValueView::Unsigned(v->Int_0),
        FieldKind::I16 | FieldKind::I32 => TextValueView::Signed(
            signed_of(v->Int_0 as int, kind.spec_width()) as i64,
        ),
        FieldKind::F32 => TextValueView::Float(v->Int_0 as u32),
        FieldKind::Bytes(_) => TextValueView::Text(hex_of(v->Bytes_0)),
        FieldKind::Text(_) | FieldKind::Pointer32 | FieldKind::Pointer64 => TextValueView::Text(
            v->Bytes_0,
        ),
        _ => TextValueView::Hidden,
    }
}

/// The value that an item of the editable form gives to a field of this kind; `None`
/// when the item is not one that such a field can take.
///
/// A hidden field takes only the hidden item and gets 0. The number of records and an
/// index column take any unsigned number: writing does not read it. Any other number
/// must be of the field's signedness and within its range. Raw bytes are twice as many
/// hexadecimal digits as the field has bytes. Text fits its slot and does not end in NUL; a pooled
/// string holds no NUL.
pub open spec fn edited_value(kind: FieldKind, t: TextValueView) -> Option<ValueView> {
    match kind {
        FieldKind::U8 | FieldKind::U16 | FieldKind::U32 | FieldKind::U64 => if t is Unsigned
            && t->Unsigned_0 < pow256(kind.spec_width()) {
            Some(ValueView::Int(t->Unsigned_0))
        } else {
            None
        },
        FieldKind::Index | FieldKind::Count16 | FieldKind::Count32 => if t is Unsigned {
            Some(ValueView::Int(t->Unsigned_0))
        } else {
            None
        },
        FieldKind::I16 | FieldKind::I32 => if t is Signed && -sign_limit(kind.spec_width())
            <= t->Signed_0 < sign_limit(kind.spec_width()) {
            Some(ValueView::Int(pattern_of(t->Signed_0 as int, kind.spec_width()) as u64))
        } else {
            None
        },
        FieldKind::F32 => if t is Float {
            Some(ValueView::Int(t->Float_0 as u64))
        } else {
            None
        },
        FieldKind::Bytes(n) => if t is Text && is_hex(t->Text_0) && t->Text_0.len() == 2 * n {
            Some(ValueView::Bytes(bytes_of(t->Text_0)))
        } else {
            None
        },
        FieldKind::Text(n) => if t is Text && t->Text_0.len() <= n && is_trimmed(t->Text_0) {
            Some(ValueView::Bytes(t->Text_0))
        } else {
            None
        },
        FieldKind::Pointer32 | FieldKind::Pointer64 => if t is Text && has_no_nul(t->Text_0) {
            Some(ValueView::Bytes(t->Text_0))
        } else {
            None
        },
        _ => if t is Hidden {
            Some(ValueView::Int(0))
        } else {
            None
        },
    }
}

/// The editable form of the values of a list of fields.
pub open spec fn shown_values(fields: Seq<Field>, values: Seq<ValueView>) -> Seq<TextValueView> {
    Seq::new(fields.len(), |j: int| shown_value(fields[j].kind, values[j]))
}

/// True when there is one item for each field, and each is one that its field can take.
pub open spec fn items_fit(fields: Seq<Field>, items: Seq<TextValueView>) -> bool {
    &&& items.len() == fields.len()
    &&& forall|j: int|
        0 <= j < fields.len() ==> edited_value(fields[j].kind, #[trigger] items[j]) is Some
}

/// The values that the items give to a list of fields.
pub open spec fn edited_values(fields: Seq<Field>, items: Seq<TextValueView>) -> Seq<ValueView> {
    Seq::new(fields.len(), |j: int| edited_value(fields[j].kind, items[j]).unwrap())
}

/// The editable form of a document.
pub open spec fn to_text_spec(d: DescriptorView, doc: DocumentView) -> TextDocumentView {
    TextDocumentView {
        header: shown_values(d.header, doc.header),
        entries: Seq::new(doc.records.len(), |r: int| shown_values(d.record, doc.records[r])),
    }
}

/// True when the editable form has the shape that the layout declares.
pub open spec fn text_fits(d: DescriptorView, text: TextDocumentView) -> bool {
    &&& items_fit(d.header, text.header)
    &&& forall|r: int|
        0 <= r < text.entries.len() ==> items_fit(d.record, #[trigger] text.entries[r])
}

/// The document that an editable form stands for.
pub open spec fn from_text_spec(d: DescriptorView, text: TextDocumentView) -> DocumentView {
    DocumentView {
        header: edited_values(d.header, text.header),
        records: Seq::new(text.entries.len(), |r: int| edited_values(d.record, text.entries[r])),
    }
}

impl FieldKind {
    /// The item that stands for a header field of this kind which the editable text does
    /// not name: 0 for a number, the hidden item for a hidden field, each of which the
    /// field can take; `None` for a text.
    pub fn unnamed_item(&self) -> (item: Option<TextValue>)
        ensures
            match item {
                Some(t) => unnamed(*self) == Some(t@) && edited_value(*self, t@) is Some,
                None => unnamed(*self) is None,
            },
    {
        proof {
            lemma_pow256_values();
        }
        match self {
            FieldKind::U8 | FieldKind::U16 | FieldKind::U32 | FieldKind::U64 | FieldKind::Index
            | FieldKind::Count16 | FieldKind::Count32 => Some(TextValue::Unsigned(0)),
            FieldKind::I16 | FieldKind::I32 => Some(TextValue::Signed(0)),
            FieldKind::F32 => Some(TextValue::Float(0)),
            FieldKind::Size | FieldKind::Constant32(_) | FieldKind::Constant64(_) => Some(
                TextValue::Hidden,
            ),
            _ => None,
        }
    }
}

/// What the editable form shows for a value.
fn show_value(kind: FieldKind, v: &Value) -> (t: TextValue)
    requires
        value_fits(kind, v@),
    ensures
        t@ == shown_value(kind, v@),
{
    proof {
        lemma_pow256_values();
    }
    match v {
        Value::Int(x) => match kind {
            FieldKind::U8 | FieldKind::U16 | FieldKind::U32 | FieldKind::U64
            | FieldKind::Index | FieldKind::Count16 | FieldKind::Count32 => TextValue::Unsigned(
                *x,
            ),
            FieldKind::I16 => if *x >= 0x8000 {
                TextValue::Signed(*x as i64 - 0x1_0000)
            } else {
                TextValue::Signed(*x as i64)
            },
            FieldKind::I32 => if *x >= 0x8000_0000 {
                TextValue::Signed(*x as i64 - 0x1_0000_0000)
            } else {
                TextValue::Signed(*x as i64)
            },
            FieldKind::F32 => TextValue::Float(*x as u32),
            _ => TextValue::Hidden,
        },
        Value::Bytes(b) => match kind {
            FieldKind::Bytes(_) => TextValue::Text(to_hex(b.as_slice())),
            _ => TextValue::Text(slice_to_vec(b.as_slice())),
        },
    }
}

/// The value that an item gives to a field of this kind, if it is one that the field
/// can take.
fn edit_value(kind: FieldKind, t: &TextValue) -> (v: Option<Value>)
    ensures
        v is Some <==> edited_value(kind, t@) is Some,
        v is Some ==> v.unwrap()@ == edited_value(kind, t@).unwrap(),
{
    proof {
        lemma_pow256_values();
    }
    match kind {
        FieldKind::U8 => match t {
            TextValue::Unsigned(x) => if *x < 0x100 {
                Some(Value::Int(*x))
            } else {
                None
            },
            _ => None,
        },
        FieldKind::U16 => match t {
            TextValue::Unsigned(x) => if *x < 0x1_0000 {
                Some(Value::Int(*x))
            } else {
                None
            },
            _ => None,
        },
        FieldKind::U32 => match t {
            TextValue::Unsigned(x) => if *x < 0x1_0000_0000 {
                Some(Value::Int(*x))
            } else {
                None
            },
            _ => None,
        },
        FieldKind::U64 | FieldKind::Index | FieldKind::Count16 | FieldKind::Count32 => match t {
            TextValue::Unsigned(x) => Some(Value::Int(*x)),
            _ => None,
        },
        FieldKind::I16 => match t {
            TextValue::Signed(i) => if -0x8000 <= *i && *i < 0x8000 {
                if *i < 0 {
                    Some(Value::Int((*i + 0x1_0000) as u64))
                } else {
                    Some(Value::Int(*i as u64))
                }
            } else {
                None
            },
            _ => None,
        },
        FieldKind::I32 => match t {
            TextValue::Signed(i) => if -0x8000_0000 <= *i && *i < 0x8000_0000 {
                if *i < 0 {
                    Some(Value::Int((*i + 0x1_0000_0000) as u64))
                } else {
                    Some(Value::Int(*i as u64))
                }
            } else {
                None
            },
            _ => None,
        },
        FieldKind::F32 => match t {
            TextValue::Float(bits) => Some(Value::Int(*bits as u64)),
            _ => None,
        },
        FieldKind::Bytes(n) => match t {
            TextValue::Text(digits) => {
                if digits.len() / 2 != n || digits.len() % 2 != 0 {
                    return None;
                }
                match from_hex(digits.as_slice()) {
                    Some(bytes) => Some(Value::Bytes(bytes)),
                    None => None,
                }
            },
            _ => None,
        },
        FieldKind::Text(n) => match t {
            TextValue::Text(text) => if text.len() <= n && (text.len() == 0 || text[text.len() - 1]
                != 0) {
                Some(Value::Bytes(slice_to_vec(text.as_slice())))
            } else {
                None
            },
            _ => None,
        },
        FieldKind::Pointer32 | FieldKind::Pointer64 => match t {
            TextValue::Text(text) => if check_no_nul(text.as_slice()) {
                Some(Value::Bytes(slice_to_vec(text.as_slice())))
            } else {
                None
            },
            _ => None,
        },
        _ => match t {
            TextValue::Hidden => Some(Value::Int(0)),
            _ => None,
        },
    }
}

/// The editable form of the values of a list of fields.
fn show_values(fields: &Vec<Field>, values: &Vec<Value>) -> (items: Vec<TextValue>)
    requires
        values_fit(fields@, values.deep_view()),
    ensures
        items.deep_view() == shown_values(fields@, values.deep_view()),
{
    let mut items: Vec<TextValue> = Vec::new();
    let mut j: usize = 0;
    while j < fields.len()
        invariant
            j <= fields.len(),
            values_fit(fields@, values.deep_view()),
            items.len() == j,
            forall|k: int|
                0 <= k < j ==> (#[trigger] items@[k])@ == shown_value(
                    fields@[k].kind,
                    values.deep_view()[k],
                ),
        decreases fields.len() - j,
    {
        proof {
            assert(value_fits(fields@[j as int].kind, values.deep_view()[j as int]));
        }
        items.push(show_value(fields[j].kind, &values[j]));
        j += 1;
    }
    proof {
        assert(items.deep_view() =~= shown_values(fields@, values.deep_view()));
    }
    items
}

/// The values that the items give to a list of fields; `None` when there is not one
/// item for each field, or a field cannot take its item.
fn edit_values(fields: &Vec<Field>, items: &Vec<TextValue>) -> (values: Option<Vec<Value>>)
    ensures
        values is Some <==> items_fit(fields@, items.deep_view()),
        values is Some ==> values.unwrap().deep_view() == edited_values(fields@, items.deep_view()),
{
    if items.len() != fields.len() {
        return None;
    }
    let mut values: Vec<Value> = Vec::new();
    let mut j: usize = 0;
    while j < fields.len()
        invariant
            j <= fields.len(),
            items.len() == fields.len(),
            values.len() == j,
            forall|k: int|
                0 <= k < j ==> edited_value(
                    fields@[k].kind,
                    #[trigger] items.deep_view()[k],
                ) is Some,
            forall|k: int|
                0 <= k < j ==> (#[trigger] values@[k])@ == edited_value(
                    fields@[k].kind,
                    items.deep_view()[k],
                ).unwrap(),
        decreases fields.len() - j,
    {
        match edit_value(fields[j].kind, &items[j]) {
            Some(v) => {
                values.push(v);
            },
            None => {
                proof {
                    assert(edited_value(
                        fields@[j as int].kind,
                        items.deep_view()[j as int],
                    ) is None);
                }
                return None;
            },
        }
        j += 1;
    }
    proof {
        assert(values.deep_view() =~= edited_values(fields@, items.deep_view()));
    }
    Some(values)
}

/// Makes the editable form of a document. Fails when the document does not have the
/// shape that the layout declares.
pub fn to_text(descriptor: &FormatDescriptor, doc: &Document) -> (r: Result<
    TextDocument,
    CodecError,
>)
    ensures
        match r {
            Ok(text) => document_fits(descriptor@, doc@) && text@ == to_text_spec(
                descriptor@,
                doc@,
            ),
            Err(e) => e == CodecError::TextParseError && !document_fits(descriptor@, doc@),
        },
{
    if !doc.fits(descriptor) {
        return Err(CodecError::TextParseError);
    }
    let header = show_values(&descriptor.header, &doc.header);
    let mut entries: Vec<Vec<TextValue>> = Vec::new();
    let mut r: usize = 0;
    while r < doc.records.len()
        invariant
            r <= doc.records.len(),
            document_fits(descriptor@, doc@),
            entries.len() == r,
            forall|k: int|
                0 <= k < r ==> (#[trigger] entries@[k]).deep_view() == shown_values(
                    descriptor@.record,
                    doc@.records[k],
                ),
        decreases doc.records.len() - r,
    {
        proof {
            assert(values_fit(descriptor@.record, doc@.records[r as int]));
        }
        entries.push(show_values(&descriptor.record, &doc.records[r]));
        r += 1;
    }
    let text = TextDocument { header, entries };
    proof {
        assert(text@.entries =~= to_text_spec(descriptor@, doc@).entries);
    }
    Ok(text)
}

/// Makes a document of its editable form. Fails with `TextParseError` when the
/// editable form does not have the shape that the layout declares: when the header or
/// an entry has not one item for each field, or a field cannot take its item.
pub fn from_text(descriptor: &FormatDescriptor, text: &TextDocument) -> (r: Result<
    Document,
    CodecError,
>)
    ensures
        match r {
            Ok(doc) => text_fits(descriptor@, text@) && doc@ == from_text_spec(
                descriptor@,
                text@,
            ),
            Err(e) => e == CodecError::TextParseError && !text_fits(descriptor@, text@),
        },
{
    let header = match edit_values(&descriptor.header, &text.header) {
        Some(values) => values,
        None => { return Err(CodecError::TextParseError); },
    };
    let mut records: Vec<Vec<Value>> = Vec::new();
    let mut r: usize = 0;
    while r < text.entries.len()
        invariant
            r <= text.entries.len(),
            records.len() == r,
            forall|k: int|
                0 <= k < r ==> items_fit(descriptor@.record, #[trigger] text@.entries[k]),
            forall|k: int|
                0 <= k < r ==> (#[trigger] records@[k]).deep_view() == edited_values(
                    descriptor@.record,
                    text@.entries[k],
                ),
        decreases text.entries.len() - r,
    {
        match edit_values(&descriptor.record, &text.entries[r]) {
            Some(values) => {
                records.push(values);
            },
            None => {
                proof {
                    assert(!items_fit(descriptor@.record, text@.entries[r as int]));
                }
                return Err(CodecError::TextParseError);
            },
        }
        r += 1;
    }
    let doc = Document { header, records };
    proof {
        assert(doc@.records =~= from_text_spec(descriptor@, text@).records);
    }
    Ok(doc)
}

/// A value that fits its field is shown as an item that the field can take, and the
/// item gives the value back; a hidden field gets some number.
proof fn lemma_edit_shown(kind: FieldKind, v: ValueView)
    requires
        value_fits(kind, v),
    ensures
        edited_value(kind, shown_value(kind, v)) is Some,
        shown(kind) ==> edited_value(kind, shown_value(kind, v)) == Some(v),
        !shown(kind) ==> edited_value(kind, shown_value(kind, v)).unwrap() is Int,
{
    lemma_pow256_values();
    match kind {
        FieldKind::Bytes(n) => {
            lemma_bytes_of_hex(v->Bytes_0);
        },
        _ => {},
    }
}

/// What an item gives to a field fits the field.
proof fn lemma_edited_fits(kind: FieldKind, t: TextValueView)
    requires
        edited_value(kind, t) is Some,
    ensures
        value_fits(kind, edited_value(kind, t).unwrap()),
{
    lemma_pow256_values();
}

proof fn lemma_shown_values(fields: Seq<Field>, values: Seq<ValueView>)
    requires
        values_fit(fields, values),
    ensures
        items_fit(fields, shown_values(fields, values)),
        same_content(fields, values, edited_values(fields, shown_values(fields, values))),
{
    let items = shown_values(fields, values);
    let back = edited_values(fields, items);
    assert forall|j: int| 0 <= j < fields.len() implies edited_value(
        fields[j].kind,
        #[trigger] items[j],
    ) is Some by {
        assert(value_fits(fields[j].kind, values[j]));
        lemma_edit_shown(fields[j].kind, values[j]);
    }
    assert forall|j: int| 0 <= j < fields.len() && j < values.len() implies (if fields[
        j
    ].kind.is_computed() {
        (#[trigger] values[j]) is Int <==> back[j] is Int
    } else {
        values[j] == back[j]
    }) by {
        assert(value_fits(fields[j].kind, values[j]));
        lemma_edit_shown(fields[j].kind, values[j]);
    }
}

proof fn lemma_edited_values_fit(fields: Seq<Field>, items: Seq<TextValueView>)
    requires
        items_fit(fields, items),
    ensures
        values_fit(fields, edited_values(fields, items)),
{
    let values = edited_values(fields, items);
    assert forall|j: int| 0 <= j < fields.len() implies value_fits(
        fields[j].kind,
        #[trigger] values[j],
    ) by {
        assert(edited_value(fields[j].kind, items[j]) is Some);
        lemma_edited_fits(fields[j].kind, items[j]);
    }
}

/// The document that an editable form of the right shape stands for has the shape that
/// the layout declares.
pub proof fn lemma_from_text_fits(d: DescriptorView, text: TextDocumentView)
    requires
        text_fits(d, text),
    ensures
        document_fits(d, from_text_spec(d, text)),
{
    let doc = from_text_spec(d, text);
    lemma_edited_values_fit(d.header, text.header);
    assert forall|r: int| 0 <= r < doc.records.len() implies values_fit(
        d.record,
        #[trigger] doc.records[r],
    ) by {
        assert(items_fit(d.record, text.entries[r]));
        lemma_edited_values_fit(d.record, text.entries[r]);
    }
}

/// The editable form loses nothing that is written: it has the right shape, and the
/// document made of it differs from the document shown only in what the codec works out
/// itself, so both are written to the same bytes.
pub proof fn lemma_from_text_to_text(d: DescriptorView, doc: DocumentView)
    requires
        document_fits(d, doc),
    ensures
        text_fits(d, to_text_spec(d, doc)),
        same_documents(d, doc, from_text_spec(d, to_text_spec(d, doc))),
        document_fits(d, from_text_spec(d, to_text_spec(d, doc))),
        representable(d, from_text_spec(d, to_text_spec(d, doc))) == representable(d, doc),
        encode_spec(d, from_text_spec(d, to_text_spec(d, doc))) == encode_spec(d, doc),
{
    let text = to_text_spec(d, doc);
    let back = from_text_spec(d, text);
    lemma_shown_values(d.header, doc.header);
    assert forall|r: int| 0 <= r < text.entries.len() implies items_fit(
        d.record,
        #[trigger] text.entries[r],
    ) by {
        assert(values_fit(d.record, doc.records[r]));
        lemma_shown_values(d.record, doc.records[r]);
    }
    assert forall|r: int| 0 <= r < doc.records.len() implies same_content(
        d.record,
        #[trigger] doc.records[r],
        back.records[r],
    ) by {
        assert(values_fit(d.record, doc.records[r]));
        lemma_shown_values(d.record, doc.records[r]);
    }
    lemma_encode_same_content(d, doc, back);
}

/// A table that the codec wrote, unpacked to its editable form and packed again with
/// nothing edited, is the same bytes again.
pub proof fn lemma_unedited_text_is_stable(d: DescriptorView, doc: DocumentView)
    requires
        tells_count(d),
        document_fits(d, doc),
        representable(d, doc),
    ensures
        decode_spec(d, encode_spec(d, doc)) is Ok,
        text_fits(d, to_text_spec(d, decode_spec(d, encode_spec(d, doc))->Ok_0)),
        encode_spec(
            d,
            from_text_spec(d, to_text_spec(d, decode_spec(d, encode_spec(d, doc))->Ok_0)),
        ) == encode_spec(d, doc),
{
    lemma_encode_decode_encode(d, doc);
    lemma_from_text_to_text(d, decode_spec(d, encode_spec(d, doc))->Ok_0);
}

/// The editable form of a table that was read shows the number of its records: where
/// the header has a field for it, the item of the first such field is that number.
pub proof fn lemma_text_shows_count(d: DescriptorView, b: Seq<u8>)
    requires
        decode_spec(d, b) is Ok,
        first_count(d.header, 0) is Some,
    ensures
        0 <= first_count(d.header, 0)->Some_0 < d.header.len(),
        shown(d.header[first_count(d.header, 0)->Some_0].kind),
        to_text_spec(d, decode_spec(d, b)->Ok_0).header[first_count(d.header, 0)->Some_0]
            == TextValueView::Unsigned(decode_spec(d, b)->Ok_0.records.len() as u64),
        decode_spec(d, b)->Ok_0.records.len() <= u32::MAX,
{
    let j = first_count(d.header, 0)->Some_0;
    let kind = d.header[j].kind;
    let address = field_address(d.header, j, 0);
    lemma_first_count(d.header, 0);
    lemma_pow256_values();
    crate::layout::lemma_size_upto_monotonic(d.header, (j + 1) as nat, d.header.len());
    crate::bytes::lemma_le_value_bound(
        b.subrange(address as int, address as int + kind.spec_width() as int),
    );
    assert(announced_count(d, b) == raw_number(kind, b, address));
}

} // verus!
