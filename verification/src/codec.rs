//! The record codec: tables to bytes and back, for any format descriptor.
//!
//! A table is its header, then its records one after another, then the string pool.
//! A pointer field holds the distance from its own address to its string in the pool.

use crate::bytes::{
    be_bytes, be_value, le_bytes, le_value, lemma_pow256_values, pow256, push_all, push_be,
    push_le, push_zeros, read_be, read_le, zeros,
};
use crate::document::{
    document_fits, values_fit, value_fits, Document, DocumentView, Value, ValueView,
};
use crate::error::CodecError;
use crate::layout::{
    checked_layout_size, layout_size, lemma_size_upto_monotonic, size_upto,
    DescriptorView, Field, FieldKind, FormatDescriptor,
};
use crate::pool::{
    entry_bytes, lemma_entry_len, resolve, resolved, resolves, PoolView, StringPool,
};
use vstd::prelude::*;

verus! {

/// What the encoding of a list of fields depends on besides the fields and their values.
pub struct Env {
    /// Length of the whole buffer.
    pub total: nat,
    /// Number of records.
    pub count: nat,
    /// Position of the record that the fields belong to; 0 for the header.
    pub index: nat,
    /// Address of the first field.
    pub at: nat,
    /// Address of the first pool entry that these fields make.
    pub pool_at: nat,
}

/// The surroundings of a list of fields that is written at `at` while the pool stands as
/// `pool`: its strings go behind what the pool holds.
pub open spec fn env_at(total: nat, count: nat, index: nat, at: nat, pool: PoolView) -> Env {
    Env { total, count, index, at, pool_at: pool.start + pool.bytes.len() }
}

/// What one field adds to the pool: the entry of its string, for a pointer field.
pub open spec fn field_pool(kind: FieldKind, v: ValueView) -> Seq<u8> {
    if kind.is_pointer() && v is Bytes {
        entry_bytes(v->Bytes_0)
    } else {
        Seq::empty()
    }
}

/// What the first `k` fields add to the pool, in their order.
pub open spec fn pool_upto(fields: Seq<Field>, values: Seq<ValueView>, k: nat) -> Seq<u8>
    decreases k,
{
    if k == 0 || k > fields.len() || k > values.len() {
        Seq::empty()
    } else {
        pool_upto(fields, values, (k - 1) as nat) + field_pool(fields[k - 1].kind, values[k - 1])
    }
}

/// Address of field `j`, behind the padding in front of it.
pub open spec fn field_address(fields: Seq<Field>, j: int, at: nat) -> nat {
    at + size_upto(fields, j as nat) + fields[j].pad_before as nat
}

/// The number that the codec works out for a field of this kind.
pub open spec fn computed(kind: FieldKind, env: Env) -> int {
    match kind {
        FieldKind::Size => env.total - 4,
        FieldKind::Constant32(c) => c as int,
        FieldKind::Constant64(c) => c as int,
        FieldKind::Count16 | FieldKind::Count32 => env.count as int,
        FieldKind::Index => env.index as int,
        _ => 0,
    }
}

/// The offset stored in pointer field `j`: 0 for the empty string, else the address of
/// the string's pool entry less the address of the field.
pub open spec fn pointer_offset(
    fields: Seq<Field>,
    values: Seq<ValueView>,
    j: int,
    env: Env,
) -> int {
    if values[j] is Bytes && values[j]->Bytes_0.len() > 0 {
        env.pool_at + pool_upto(fields, values, j as nat).len() - field_address(fields, j, env.at)
    } else {
        0
    }
}

/// The number that is written into field `j`, for the kinds that hold one.
pub open spec fn stored_number(
    fields: Seq<Field>,
    values: Seq<ValueView>,
    j: int,
    env: Env,
) -> int {
    let kind = fields[j].kind;
    if kind.is_computed() {
        computed(kind, env)
    } else if kind.is_pointer() {
        pointer_offset(fields, values, j, env)
    } else if values[j] is Int {
        values[j]->Int_0 as int
    } else {
        0
    }
}

/// One more than the largest number that a field of this kind can store. An
/// eight-byte pointer is read back as a signed number, so it has one bit less.
pub open spec fn number_limit(kind: FieldKind) -> nat {
    if kind is Pointer64 {
        0x8000_0000_0000_0000
    } else {
        pow256(kind.spec_width())
    }
}

/// True when the number that belongs into field `j` fits it.
pub open spec fn field_encodable(
    fields: Seq<Field>,
    values: Seq<ValueView>,
    j: int,
    env: Env,
) -> bool {
    fields[j].kind.is_computed() || fields[j].kind.is_pointer() ==> 0 <= stored_number(
        fields,
        values,
        j,
        env,
    ) < number_limit(fields[j].kind)
}

/// True when each of the first `k` fields can store its number.
pub open spec fn encodable_upto(
    fields: Seq<Field>,
    values: Seq<ValueView>,
    k: nat,
    env: Env,
) -> bool {
    forall|j: int| 0 <= j < k ==> field_encodable(fields, values, j, env)
}

/// The bytes of field `j` without its padding.
pub open spec fn body_bytes(
    fields: Seq<Field>,
    values: Seq<ValueView>,
    j: int,
    env: Env,
) -> Seq<u8> {
    match fields[j].kind {
        FieldKind::Bytes(n) => values[j]->Bytes_0,
        FieldKind::Text(n) => values[j]->Bytes_0 + zeros((n - values[j]->Bytes_0.len()) as nat),
        FieldKind::Size => be_bytes(stored_number(fields, values, j, env) as nat, 4),
        kind => le_bytes(stored_number(fields, values, j, env) as nat, kind.spec_width()),
    }
}

/// The bytes of field `j` with its padding.
pub open spec fn field_bytes(
    fields: Seq<Field>,
    values: Seq<ValueView>,
    j: int,
    env: Env,
) -> Seq<u8> {
    zeros(fields[j].pad_before as nat) + body_bytes(fields, values, j, env) + zeros(
        fields[j].pad_after as nat,
    )
}

/// The bytes of the first `k` fields.
pub open spec fn bytes_upto(fields: Seq<Field>, values: Seq<ValueView>, k: nat, env: Env) -> Seq<u8>
    decreases k,
{
    if k == 0 || k > fields.len() {
        Seq::empty()
    } else {
        bytes_upto(fields, values, (k - 1) as nat, env) + field_bytes(fields, values, k - 1, env)
    }
}

/// Size of the header.
pub open spec fn header_size(d: DescriptorView) -> nat {
    layout_size(d.header)
}

/// Size of one record.
pub open spec fn stride(d: DescriptorView) -> nat {
    layout_size(d.record)
}

/// Address at which the pool starts: behind the last record.
pub open spec fn pool_start(d: DescriptorView, doc: DocumentView) -> nat {
    header_size(d) + doc.records.len() * stride(d)
}

/// Pool entries of the header's strings.
pub open spec fn header_pool(d: DescriptorView, doc: DocumentView) -> Seq<u8> {
    pool_upto(d.header, doc.header, d.header.len())
}

/// Pool entries of the strings of record `r`.
pub open spec fn record_pool(d: DescriptorView, doc: DocumentView, r: int) -> Seq<u8> {
    pool_upto(d.record, doc.records[r], d.record.len())
}

/// Pool entries of the strings of the first `r` records.
pub open spec fn records_pool_upto(d: DescriptorView, doc: DocumentView, r: nat) -> Seq<u8>
    decreases r,
{
    if r == 0 || r > doc.records.len() {
        Seq::empty()
    } else {
        records_pool_upto(d, doc, (r - 1) as nat) + record_pool(d, doc, r - 1)
    }
}

/// The whole pool: the header's strings, then those of each record, field by field. A
/// string that occurs twice has two entries.
pub open spec fn pool_bytes(d: DescriptorView, doc: DocumentView) -> Seq<u8> {
    header_pool(d, doc) + records_pool_upto(d, doc, doc.records.len())
}

/// Length of the encoded table.
pub open spec fn encoded_len(d: DescriptorView, doc: DocumentView) -> nat {
    pool_start(d, doc) + pool_bytes(d, doc).len()
}

/// What the header's encoding depends on.
pub open spec fn header_env(d: DescriptorView, doc: DocumentView) -> Env {
    Env {
        total: encoded_len(d, doc),
        count: doc.records.len(),
        index: 0,
        at: 0,
        pool_at: pool_start(d, doc),
    }
}

/// What the encoding of record `r` depends on.
pub open spec fn record_env(d: DescriptorView, doc: DocumentView, r: int) -> Env {
    Env {
        total: encoded_len(d, doc),
        count: doc.records.len(),
        index: r as nat,
        at: header_size(d) + r as nat * stride(d),
        pool_at: pool_start(d, doc) + header_pool(d, doc).len() + records_pool_upto(
            d,
            doc,
            r as nat,
        ).len(),
    }
}

/// The header's bytes.
pub open spec fn header_bytes(d: DescriptorView, doc: DocumentView) -> Seq<u8> {
    bytes_upto(d.header, doc.header, d.header.len(), header_env(d, doc))
}

/// The bytes of record `r`.
pub open spec fn record_bytes(d: DescriptorView, doc: DocumentView, r: int) -> Seq<u8> {
    bytes_upto(d.record, doc.records[r], d.record.len(), record_env(d, doc, r))
}

/// The bytes of the first `r` records.
pub open spec fn records_bytes_upto(d: DescriptorView, doc: DocumentView, r: nat) -> Seq<u8>
    decreases r,
{
    if r == 0 || r > doc.records.len() {
        Seq::empty()
    } else {
        records_bytes_upto(d, doc, (r - 1) as nat) + record_bytes(d, doc, r - 1)
    }
}

/// The encoded table: header, records, pool.
pub open spec fn encode_spec(d: DescriptorView, doc: DocumentView) -> Seq<u8> {
    header_bytes(d, doc) + records_bytes_upto(d, doc, doc.records.len()) + pool_bytes(d, doc)
}

/// True when the table can be written: its length is within the machine's range, and
/// every count, size, index and pointer fits its field.
pub open spec fn representable(d: DescriptorView, doc: DocumentView) -> bool {
    &&& encoded_len(d, doc) <= usize::MAX
    &&& encodable_upto(d.header, doc.header, d.header.len(), header_env(d, doc))
    &&& forall|r: int|
        0 <= r < doc.records.len() ==> encodable_upto(
            d.record,
            #[trigger] doc.records[r],
            d.record.len(),
            record_env(d, doc, r),
        )
}

pub proof fn lemma_pool_upto_monotonic(fields: Seq<Field>, values: Seq<ValueView>, a: nat, b: nat)
    requires
        a <= b <= fields.len(),
        b <= values.len(),
    ensures
        pool_upto(fields, values, a).len() <= pool_upto(fields, values, b).len(),
    decreases b,
{
    if a < b {
        lemma_pool_upto_monotonic(fields, values, a, (b - 1) as nat);
    }
}

pub proof fn lemma_records_pool_monotonic(d: DescriptorView, doc: DocumentView, a: nat, b: nat)
    requires
        a <= b <= doc.records.len(),
    ensures
        records_pool_upto(d, doc, a).len() <= records_pool_upto(d, doc, b).len(),
    decreases b,
{
    if a < b {
        lemma_records_pool_monotonic(d, doc, a, (b - 1) as nat);
    }
}

pub proof fn lemma_bytes_upto_len(fields: Seq<Field>, values: Seq<ValueView>, k: nat, env: Env)
    requires
        k <= fields.len(),
        values_fit(fields, values),
    ensures
        bytes_upto(fields, values, k, env).len() == size_upto(fields, k),
    decreases k,
{
    if k > 0 {
        lemma_bytes_upto_len(fields, values, (k - 1) as nat, env);
        let j = k - 1;
        assert(value_fits(fields[j].kind, values[j]));
        crate::bytes::lemma_le_bytes_len(
            stored_number(fields, values, j, env) as nat,
            fields[j].kind.spec_width(),
        );
        crate::bytes::lemma_be_bytes_len(stored_number(fields, values, j, env) as nat, 4);
    }
}

pub proof fn lemma_records_bytes_len(d: DescriptorView, doc: DocumentView, r: nat)
    requires
        r <= doc.records.len(),
        document_fits(d, doc),
    ensures
        records_bytes_upto(d, doc, r).len() == r * stride(d),
    decreases r,
{
    if r > 0 {
        lemma_records_bytes_len(d, doc, (r - 1) as nat);
        assert(values_fit(d.record, doc.records[r - 1]));
        lemma_bytes_upto_len(
            d.record,
            doc.records[r - 1],
            d.record.len(),
            record_env(d, doc, r - 1),
        );
        assert(r * stride(d) == (r - 1) * stride(d) + stride(d)) by (nonlinear_arith);
    } else {
        assert(0 * stride(d) == 0) by (nonlinear_arith);
    }
}

/// Length of the pool entry of a string of `len` bytes, or `None` where it does not fit
/// the machine.
fn entry_size(len: usize) -> (r: Option<usize>)
    ensures
        match r {
            Some(n) => n == crate::pool::entry_len(len as nat),
            None => crate::pool::entry_len(len as nat) > usize::MAX,
        },
{
    if len == 0 {
        return Some(0);
    }
    let used = (len % 8 + 1) % 8;
    let fill = (8 - used) % 8;
    assert(fill == crate::pool::padding((len + 1) as nat));
    len.checked_add(1 + fill)
}

/// Length of the pool entry that a field makes, or `None` where it does not fit the
/// machine.
fn field_pool_size(kind: FieldKind, value: &Value) -> (r: Option<usize>)
    ensures
        match r {
            Some(n) => n == field_pool(kind, value@).len(),
            None => field_pool(kind, value@).len()
                > usize::MAX,
        },
{
    match kind {
        FieldKind::Pointer32 | FieldKind::Pointer64 => match value {
            Value::Bytes(text) => {
                proof {
                    lemma_entry_len(text@);
                }
                entry_size(text.len())
            },
            Value::Int(_) => Some(0),
        },
        _ => Some(0),
    }
}

/// Length of the pool entries that the fields make, or `None` where it does not fit the
/// machine.
fn pool_size(fields: &Vec<Field>, values: &Vec<Value>) -> (r: Option<usize>)
    requires
        values.len() == fields.len(),
    ensures
        match r {
            Some(n) => n == pool_upto(fields@, values.deep_view(), fields@.len()).len(),
            None => pool_upto(fields@, values.deep_view(), fields@.len()).len() > usize::MAX,
        },
{
    let ghost vals = values.deep_view();
    let mut total: usize = 0;
    let mut j: usize = 0;
    while j < fields.len()
        invariant
            j <= fields.len(),
            values.len() == fields.len(),
            vals == values.deep_view(),
            total == pool_upto(fields@, vals, j as nat).len(),
        decreases fields.len() - j,
    {
        let ghost entry = field_pool(fields@[j as int].kind, vals[j as int]);
        proof {
            lemma_pool_upto_monotonic(fields@, vals, (j + 1) as nat, fields@.len());
            assert(vals[j as int] == values@[j as int]@);
            assert(pool_upto(fields@, vals, (j + 1) as nat).len() == total + entry.len());
        }
        let more = match field_pool_size(fields[j].kind, &values[j]) {
            Some(n) => n,
            None => { return None; },
        };
        assert(more == entry.len());
        total = match total.checked_add(more) {
            Some(n) => n,
            None => { return None; },
        };
        j += 1;
    }
    Some(total)
}

/// Appends the encoding of the fields to `out` and their strings to `pool`. Returns
/// false, with `out` and `pool` in no particular state, when a number does not fit its
/// field.
#[verifier::rlimit(40)]
fn encode_fields(
    fields: &Vec<Field>,
    values: &Vec<Value>,
    total: usize,
    count: usize,
    index: usize,
    at: usize,
    out: &mut Vec<u8>,
    pool: &mut StringPool,
) -> (ok: bool)
    requires
        values_fit(fields@, values.deep_view()),
        at + layout_size(fields@) <= usize::MAX,
        old(pool)@.start + old(pool)@.bytes.len() + pool_upto(
            fields@,
            values.deep_view(),
            fields@.len(),
        ).len() <= usize::MAX,
    ensures
        final(pool)@.start == old(pool)@.start,
        ok == encodable_upto(
            fields@,
            values.deep_view(),
            fields@.len(),
            env_at(total as nat, count as nat, index as nat, at as nat, old(pool)@),
        ),
        ok ==> final(out)@ == old(out)@ + bytes_upto(
            fields@,
            values.deep_view(),
            fields@.len(),
            env_at(total as nat, count as nat, index as nat, at as nat, old(pool)@),
        ),
        ok ==> final(pool)@.bytes == old(pool)@.bytes + pool_upto(
            fields@,
            values.deep_view(),
            fields@.len(),
        ),
{
    let ghost env = env_at(total as nat, count as nat, index as nat, at as nat, pool@);
    let ghost vals = values.deep_view();
    let ghost out0 = out@;
    let ghost pool0 = pool@.bytes;
    let mut pos: usize = at;
    let mut j: usize = 0;
    proof {
        assert(out@ =~= out0 + bytes_upto(fields@, vals, 0, env));
        assert(pool@.bytes =~= pool0 + pool_upto(fields@, vals, 0));
    }
    while j < fields.len()
        invariant
            j <= fields.len(),
            vals == values.deep_view(),
            values_fit(fields@, vals),
            at + layout_size(fields@) <= usize::MAX,
            pool@.start + pool0.len() + pool_upto(fields@, vals, fields@.len()).len() <= usize::MAX,
            env == env_at(total as nat, count as nat, index as nat, at as nat, old(pool)@),
            pos == at + size_upto(fields@, j as nat),
            out@ == out0 + bytes_upto(fields@, vals, j as nat, env),
            pool@.bytes == pool0 + pool_upto(fields@, vals, j as nat),
            pool@.start == old(pool)@.start,
            pool0 == old(pool)@.bytes,
            encodable_upto(fields@, vals, j as nat, env),
        decreases fields.len() - j,
    {
        let f = fields[j];
        let ghost ji = j as int;
        let ghost out_before = out@;
        let ghost pool_before = pool@.bytes;
        proof {
            lemma_size_upto_monotonic(fields@, (j + 1) as nat, fields@.len());
            lemma_pool_upto_monotonic(fields@, vals, j as nat, fields@.len());
            lemma_pow256_values();
            assert(value_fits(fields@[ji].kind, vals[ji]));
            assert(vals[ji] == values@[ji]@);
        }
        push_zeros(out, f.pad_before);
        let address = pos + f.pad_before;
        let ghost out_padded = out@;
        match f.kind {
            FieldKind::Bytes(n) => match &values[j] {
                Value::Bytes(b) => {
                    push_all(out, b.as_slice());
                },
                Value::Int(_) => {
                    return false;
                },
            },
            FieldKind::Text(n) => match &values[j] {
                Value::Bytes(b) => {
                    push_all(out, b.as_slice());
                    push_zeros(out, n - b.len());
                    proof {
                        assert(out@ =~= out_padded + body_bytes(fields@, vals, ji, env));
                    }
                },
                Value::Int(_) => {
                    return false;
                },
            },
            FieldKind::Pointer32 | FieldKind::Pointer64 => match &values[j] {
                Value::Bytes(text) => {
                    let limit: u64 = match f.kind {
                        FieldKind::Pointer32 => 0x1_0000_0000u64,
                        _ => 0x8000_0000_0000_0000u64,
                    };
                    match pool.place(text.as_slice(), address) {
                        Some(offset) => {
                            proof {
                                assert(offset as int == pointer_offset(fields@, vals, ji, env));
                            }
                            if offset >= limit {
                                proof {
                                    assert(!field_encodable(fields@, vals, ji, env));
                                }
                                return false;
                            }
                            push_le(out, offset, f.kind.width());
                        },
                        None => {
                            proof {
                                assert(!field_encodable(fields@, vals, ji, env));
                            }
                            return false;
                        },
                    }
                },
                Value::Int(_) => {
                    return false;
                },
            },
            FieldKind::Size => {
                if total < 4 || (total - 4) as u128 >= 0x1_0000_0000u128 {
                    proof {
                        assert(!field_encodable(fields@, vals, ji, env));
                    }
                    return false;
                }
                push_be(out, (total - 4) as u64, 4);
            },
            FieldKind::Constant32(c) => {
                push_le(out, c as u64, 4);
            },
            FieldKind::Constant64(c) => {
                push_le(out, c, 8);
            },
            FieldKind::Count16 => {
                if count >= 0x1_0000 {
                    proof {
                        assert(!field_encodable(fields@, vals, ji, env));
                    }
                    return false;
                }
                push_le(out, count as u64, 2);
            },
            FieldKind::Count32 => {
                if count as u128 >= 0x1_0000_0000u128 {
                    proof {
                        assert(!field_encodable(fields@, vals, ji, env));
                    }
                    return false;
                }
                push_le(out, count as u64, 4);
            },
            FieldKind::Index => {
                if index as u128 >= 0x1_0000_0000u128 {
                    proof {
                        assert(!field_encodable(fields@, vals, ji, env));
                    }
                    return false;
                }
                push_le(out, index as u64, 4);
            },
            kind => match &values[j] {
                Value::Int(x) => {
                    push_le(out, *x, kind.width());
                },
                Value::Bytes(_) => {
                    return false;
                },
            },
        }
        proof {
            assert(out@ == out_padded + body_bytes(fields@, vals, ji, env));
            assert(field_encodable(fields@, vals, ji, env));
            assert(pool@.bytes =~= pool_before + field_pool(fields@[ji].kind, vals[ji]));
        }
        push_zeros(out, f.pad_after);
        pos = address + f.kind.width() + f.pad_after;
        j += 1;
        proof {
            assert(out@ =~= out0 + bytes_upto(fields@, vals, j as nat, env));
            assert(pool@.bytes =~= pool0 + pool_upto(fields@, vals, j as nat));
        }
    }
    true
}

/// Length of the pool that the document's strings make, or `None` where it does not fit
/// the machine.
fn document_pool_size(descriptor: &FormatDescriptor, doc: &Document) -> (r: Option<usize>)
    requires
        document_fits(descriptor@, doc@),
    ensures
        match r {
            Some(n) => n == pool_bytes(descriptor@, doc@).len(),
            None => pool_bytes(descriptor@, doc@).len() > usize::MAX,
        },
{
    let ghost d = descriptor@;
    let ghost dv = doc@;
    let mut total = match pool_size(&descriptor.header, &doc.header) {
        Some(n) => n,
        None => { return None; },
    };
    let mut r: usize = 0;
    while r < doc.records.len()
        invariant
            r <= doc.records.len(),
            d == descriptor@,
            dv == doc@,
            document_fits(d, dv),
            total == header_pool(d, dv).len() + records_pool_upto(d, dv, r as nat).len(),
        decreases doc.records.len() - r,
    {
        proof {
            lemma_records_pool_monotonic(d, dv, (r + 1) as nat, dv.records.len());
            assert(values_fit(d.record, dv.records[r as int]));
        }
        let more = match pool_size(&descriptor.record, &doc.records[r]) {
            Some(n) => n,
            None => { return None; },
        };
        total = match total.checked_add(more) {
            Some(n) => n,
            None => { return None; },
        };
        r += 1;
    }
    Some(total)
}

/// Writes the table.
///
/// The number of records, the index columns, the size field and every pointer are worked
/// out anew from the records as they stand; what the document holds for them is not
/// read. Strings go to the pool in the order of their fields, record by record, each
/// with an entry of its own. Fails when the document does not have the descriptor's
/// shape, or holds more than its fields can express.
#[verifier::rlimit(40)]
#[verifier::spinoff_prover]
pub fn encode(descriptor: &FormatDescriptor, doc: &Document) -> (r: Result<Vec<u8>, CodecError>)
    ensures
        match r {
            Ok(bytes) => {
                &&& document_fits(descriptor@, doc@)
                &&& representable(descriptor@, doc@)
                &&& bytes@ == encode_spec(descriptor@, doc@)
            },
            Err(e) => {
                &&& e == CodecError::TextParseError
                &&& !(document_fits(descriptor@, doc@) && representable(descriptor@, doc@))
            },
        },
{
    let ghost d = descriptor@;
    let ghost dv = doc@;
    if !doc.fits(descriptor) {
        return Err(CodecError::TextParseError);
    }
    let count = doc.records.len();
    let head = match checked_layout_size(&descriptor.header) {
        Some(n) => n,
        None => { return Err(CodecError::TextParseError); },
    };
    let step: usize = if count == 0 {
        proof {
            assert(0 * stride(d) == 0) by (nonlinear_arith);
        }
        0
    } else {
        match checked_layout_size(&descriptor.record) {
            Some(n) => n,
            None => {
                proof {
                    assert(count * stride(d) >= stride(d)) by (nonlinear_arith)
                        requires
                            count >= 1,
                    ;
                }
                return Err(CodecError::TextParseError);
            },
        }
    };
    proof {
        assert(count * step == count * stride(d)) by (nonlinear_arith)
            requires
                count == 0 || step == stride(d),
        ;
    }
    let body = match count.checked_mul(step) {
        Some(n) => n,
        None => { return Err(CodecError::TextParseError); },
    };
    let pool_at = match head.checked_add(body) {
        Some(n) => n,
        None => { return Err(CodecError::TextParseError); },
    };
    let pool_len = match document_pool_size(descriptor, doc) {
        Some(n) => n,
        None => { return Err(CodecError::TextParseError); },
    };
    let total = match pool_at.checked_add(pool_len) {
        Some(n) => n,
        None => { return Err(CodecError::TextParseError); },
    };
    proof {
        assert(pool_at == pool_start(d, dv));
        assert(total == encoded_len(d, dv));
        lemma_records_pool_monotonic(d, dv, 0, dv.records.len());
    }
    let mut out: Vec<u8> = Vec::new();
    let mut pool = StringPool::new(pool_at);
    if !encode_fields(&descriptor.header, &doc.header, total, count, 0, 0, &mut out, &mut pool) {
        return Err(CodecError::TextParseError);
    }
    let mut at: usize = head;
    let mut r: usize = 0;
    proof {
        assert(out@ =~= header_bytes(d, dv) + records_bytes_upto(d, dv, 0));
        assert(pool@.bytes =~= header_pool(d, dv) + records_pool_upto(d, dv, 0));
        assert(0 * stride(d) == 0) by (nonlinear_arith);
    }
    while r < count
        invariant
            r <= count,
            count == doc.records.len(),
            d == descriptor@,
            dv == doc@,
            document_fits(d, dv),
            count > 0 ==> step == stride(d),
            head == header_size(d),
            total == encoded_len(d, dv),
            total <= usize::MAX,
            at == head + r * stride(d),
            out@ == header_bytes(d, dv) + records_bytes_upto(d, dv, r as nat),
            pool@.start == pool_start(d, dv),
            pool@.bytes == header_pool(d, dv) + records_pool_upto(d, dv, r as nat),
            forall|k: int|
                0 <= k < r ==> encodable_upto(
                    d.record,
                    #[trigger] dv.records[k],
                    d.record.len(),
                    record_env(d, dv, k),
                ),
        decreases count - r,
    {
        let ghost before = pool@;
        proof {
            lemma_record_step(d, dv, r as int, before);
            assert(dv.records[r as int] == doc.records@[r as int].deep_view());
        }
        let ok = encode_fields(
            &descriptor.record,
            &doc.records[r],
            total,
            count,
            r,
            at,
            &mut out,
            &mut pool,
        );
        if !ok {
            return Err(CodecError::TextParseError);
        }
        proof {
            lemma_concat(
                header_bytes(d, dv),
                records_bytes_upto(d, dv, r as nat),
                record_bytes(d, dv, r as int),
            );
            lemma_concat(
                header_pool(d, dv),
                records_pool_upto(d, dv, r as nat),
                record_pool(d, dv, r as int),
            );
        }
        at = at + step;
        r += 1;
    }
    push_all(&mut out, pool.as_bytes());
    proof {
        assert(out@ =~= encode_spec(d, dv));
    }
    Ok(out)
}

proof fn lemma_concat(a: Seq<u8>, b: Seq<u8>, c: Seq<u8>)
    ensures
        (a + b) + c == a + (b + c),
{
    assert((a + b) + c =~= a + (b + c));
}

/// What writing record `r` starts from, and what it adds.
proof fn lemma_record_step(d: DescriptorView, doc: DocumentView, r: int, pool: PoolView)
    requires
        document_fits(d, doc),
        0 <= r < doc.records.len(),
        pool.start == pool_start(d, doc),
        pool.bytes == header_pool(d, doc) + records_pool_upto(d, doc, r as nat),
    ensures
        values_fit(d.record, doc.records[r]),
        header_size(d) + r * stride(d) >= 0,
        env_at(
            encoded_len(d, doc),
            doc.records.len(),
            r as nat,
            (header_size(d) + r * stride(d)) as nat,
            pool,
        ) == record_env(d, doc, r),
        header_size(d) + r * stride(d) + stride(d) <= pool_start(d, doc),
        header_size(d) + (r + 1) * stride(d) == header_size(d) + r * stride(d) + stride(d),
        pool.start + pool.bytes.len() + record_pool(d, doc, r).len() <= encoded_len(d, doc),
        records_bytes_upto(d, doc, (r + 1) as nat) == records_bytes_upto(d, doc, r as nat)
            + record_bytes(d, doc, r),
        records_pool_upto(d, doc, (r + 1) as nat) == records_pool_upto(d, doc, r as nat)
            + record_pool(d, doc, r),
{
    let n = doc.records.len();
    let s = stride(d);
    lemma_records_pool_monotonic(d, doc, (r + 1) as nat, n);
    assert((r + 1) * s == r * s + s) by (nonlinear_arith);
    assert((r + 1) * s <= n * s) by (nonlinear_arith)
        requires
            r + 1 <= n,
            s >= 0,
    ;
    assert(r * s >= 0) by (nonlinear_arith)
        requires
            r >= 0,
            s >= 0,
    ;
}

/// The number that the bytes of a field of this kind spell.
pub open spec fn raw_number(kind: FieldKind, bytes: Seq<u8>, address: nat) -> nat {
    if kind is Size {
        be_value(bytes.subrange(address as int, address as int + 4))
    } else {
        le_value(bytes.subrange(address as int, address as int + kind.spec_width() as int))
    }
}

/// `b` without the NUL bytes at its end.
pub open spec fn trim(b: Seq<u8>) -> Seq<u8>
    decreases b.len(),
{
    if b.len() > 0 && b.last() == 0 {
        trim(b.drop_last())
    } else {
        b
    }
}

/// True unless the field is a pointer whose string starts or ends outside the buffer.
pub open spec fn field_resolves(kind: FieldKind, bytes: Seq<u8>, address: nat) -> bool {
    kind.is_pointer() ==> resolves(
        bytes,
        address,
        raw_number(kind, bytes, address),
        kind.spec_width(),
    )
}

/// What a field of this kind at this address reads as.
pub open spec fn read_value(kind: FieldKind, bytes: Seq<u8>, address: nat) -> ValueView {
    match kind {
        FieldKind::Bytes(n) => ValueView::Bytes(
            bytes.subrange(address as int, address as int + n as int),
        ),
        FieldKind::Text(n) => ValueView::Bytes(
            trim(bytes.subrange(address as int, address as int + n as int)),
        ),
        FieldKind::Pointer32 | FieldKind::Pointer64 => ValueView::Bytes(
            resolved(bytes, address, raw_number(kind, bytes, address), kind.spec_width()),
        ),
        _ => ValueView::Int(raw_number(kind, bytes, address) as u64),
    }
}

/// What the fields read as, the first of them at `at`.
pub open spec fn read_values(fields: Seq<Field>, bytes: Seq<u8>, at: nat) -> Seq<ValueView> {
    Seq::new(
        fields.len(),
        |j: int| read_value(fields[j].kind, bytes, field_address(fields, j, at)),
    )
}

/// True when every pointer among the fields leads to a string inside the buffer.
pub open spec fn all_resolve(fields: Seq<Field>, bytes: Seq<u8>, at: nat) -> bool {
    forall|j: int|
        0 <= j < fields.len() ==> field_resolves(
            fields[j].kind,
            bytes,
            #[trigger] field_address(fields, j, at),
        )
}

/// Position among the header's fields of the first one from `from` on that holds the
/// number of records.
pub open spec fn first_count(header: Seq<Field>, from: nat) -> Option<int>
    decreases header.len() - from,
{
    if from >= header.len() {
        None
    } else if header[from as int].kind.is_count() {
        Some(from as int)
    } else {
        first_count(header, from + 1)
    }
}

/// The number of records in the buffer: what the header's first count field says, or,
/// where the header has none, as many whole records as follow the header.
pub open spec fn announced_count(d: DescriptorView, bytes: Seq<u8>) -> nat {
    match first_count(d.header, 0) {
        Some(j) => raw_number(d.header[j].kind, bytes, field_address(d.header, j, 0)),
        None => if stride(d) > 0 {
            ((bytes.len() - header_size(d)) / stride(d) as int) as nat
        } else {
            0
        },
    }
}

/// True when no field is a pointer.
pub open spec fn pointer_free(fields: Seq<Field>) -> bool {
    forall|j: int| 0 <= j < fields.len() ==> !(#[trigger] fields[j]).kind.is_pointer()
}

/// True when a table of this layout tells how many records it has: its header holds
/// their number, or it has no pool, so that the records fill the buffer behind the header.
pub open spec fn tells_count(d: DescriptorView) -> bool {
    first_count(d.header, 0) is Some || (stride(d) > 0 && pointer_free(d.header) && pointer_free(
        d.record,
    ))
}

/// Tests `pointer_free`.
fn check_pointer_free(fields: &Vec<Field>) -> (ok: bool)
    ensures
        ok == pointer_free(fields@),
{
    let mut j: usize = 0;
    while j < fields.len()
        invariant
            j <= fields.len(),
            forall|k: int| 0 <= k < j ==> !(#[trigger] fields@[k]).kind.is_pointer(),
        decreases fields.len() - j,
    {
        match fields[j].kind {
            FieldKind::Pointer32 | FieldKind::Pointer64 => {
                return false;
            },
            _ => {},
        }
        j += 1;
    }
    true
}

/// Tests whether the header has a field that holds the number of records.
fn has_count(header: &Vec<Field>) -> (ok: bool)
    ensures
        ok == first_count(header@, 0) is Some,
{
    let mut j: usize = 0;
    while j < header.len()
        invariant
            j <= header.len(),
            first_count(header@, 0) == first_count(header@, j as nat),
        decreases header.len() - j,
    {
        match header[j].kind {
            FieldKind::Count16 | FieldKind::Count32 => {
                return true;
            },
            _ => {},
        }
        j += 1;
    }
    false
}

impl FormatDescriptor {
    /// Tests whether a table of this layout tells how many records it has. Where it
    /// does, what is written is read back as it was.
    pub fn tells_count(&self) -> (ok: bool)
        ensures
            ok == tells_count(self@),
    {
        if has_count(&self.header) {
            return true;
        }
        let positive = match checked_layout_size(&self.record) {
            Some(n) => n > 0,
            None => true,
        };
        positive && check_pointer_free(&self.header) && check_pointer_free(&self.record)
    }
}

/// Address of record `r`.
pub open spec fn record_address(d: DescriptorView, r: int) -> nat {
    (header_size(d) + r * stride(d)) as nat
}

/// What the buffer decodes to.
///
/// `MalformedInput` when the buffer is shorter than the header, or than the header and
/// the records that it announces; else `OutOfBounds` when some pointer does not lead to a
/// string inside the buffer; else the document, with each pointer field replaced by its
/// string.
pub open spec fn decode_spec(
    d: DescriptorView,
    bytes: Seq<u8>,
) -> Result<DocumentView, CodecError> {
    let n = announced_count(d, bytes);
    if bytes.len() < header_size(d) || bytes.len() < header_size(d) + n * stride(d) {
        Err(CodecError::MalformedInput)
    } else if !all_resolve(d.header, bytes, 0) || !(forall|r: int|
        0 <= r < n ==> all_resolve(d.record, bytes, #[trigger] record_address(d, r))) {
        Err(CodecError::OutOfBounds)
    } else {
        Ok(
            DocumentView {
                header: read_values(d.header, bytes, 0),
                records: Seq::new(
                    n,
                    |r: int| read_values(d.record, bytes, record_address(d, r)),
                ),
            },
        )
    }
}

/// Reads the values of the fields, the first of which lies at `at`. `None` when a
/// pointer does not lead to a string inside the buffer.
#[verifier::rlimit(40)]
fn decode_fields(fields: &Vec<Field>, bytes: &[u8], at: usize) -> (r: Option<Vec<Value>>)
    requires
        at + layout_size(fields@) <= bytes.len(),
    ensures
        r is Some <==> all_resolve(fields@, bytes@, at as nat),
        r is Some ==> r.unwrap().deep_view() == read_values(fields@, bytes@, at as nat),
{
    let mut out: Vec<Value> = Vec::new();
    let mut pos: usize = at;
    let mut j: usize = 0;
    while j < fields.len()
        invariant
            j <= fields.len(),
            at + layout_size(fields@) <= bytes.len(),
            pos == at + size_upto(fields@, j as nat),
            out.len() == j,
            forall|k: int|
                0 <= k < j ==> (#[trigger] out@[k])@ == read_value(
                    fields@[k].kind,
                    bytes@,
                    field_address(fields@, k, at as nat),
                ),
            forall|k: int|
                0 <= k < j ==> field_resolves(
                    fields@[k].kind,
                    bytes@,
                    #[trigger] field_address(fields@, k, at as nat),
                ),
        decreases fields.len() - j,
    {
        let f = fields[j];
        let ghost ji = j as int;
        proof {
            lemma_size_upto_monotonic(fields@, (j + 1) as nat, fields@.len());
        }
        let address = pos + f.pad_before;
        let width = f.kind.width();
        let value = match f.kind {
            FieldKind::Bytes(n) => Value::Bytes(
                vstd::slice::slice_to_vec(vstd::slice::slice_subrange(bytes, address, address + n)),
            ),
            FieldKind::Text(n) => {
                let mut end: usize = n;
                while end > 0 && bytes[address + end - 1] == 0
                    invariant
                        end <= n,
                        address + n <= bytes.len(),
                        trim(bytes@.subrange(address as int, address + n)) == trim(
                            bytes@.subrange(address as int, address + end),
                        ),
                    decreases end,
                {
                    proof {
                        assert(bytes@.subrange(address as int, address + end).drop_last()
                            =~= bytes@.subrange(address as int, address + end - 1));
                    }
                    end -= 1;
                }
                Value::Bytes(
                    vstd::slice::slice_to_vec(
                        vstd::slice::slice_subrange(bytes, address, address + end),
                    ),
                )
            },
            FieldKind::Pointer32 | FieldKind::Pointer64 => {
                let raw = read_le(bytes, address, width);
                match resolve(bytes, address, raw, width) {
                    Some(text) => Value::Bytes(text),
                    None => {
                        proof {
                            assert(!field_resolves(
                                fields@[ji].kind,
                                bytes@,
                                field_address(fields@, ji, at as nat),
                            ));
                        }
                        return None;
                    },
                }
            },
            FieldKind::Size => Value::Int(read_be(bytes, address, 4)),
            _ => Value::Int(read_le(bytes, address, width)),
        };
        proof {
            assert(value@ == read_value(
                fields@[ji].kind,
                bytes@,
                field_address(fields@, ji, at as nat),
            ));
        }
        out.push(value);
        pos = address + width + f.pad_after;
        j += 1;
    }
    proof {
        assert(out.deep_view() =~= read_values(fields@, bytes@, at as nat));
    }
    Some(out)
}

/// Address and width of the header's first count field, if it has one.
fn count_field(header: &Vec<Field>) -> (r: Option<(usize, usize)>)
    requires
        layout_size(header@) <= usize::MAX,
    ensures
        match r {
            Some((address, width)) => {
                &&& first_count(header@, 0) is Some
                &&& 0 <= first_count(header@, 0).unwrap() < header@.len()
                &&& address == field_address(header@, first_count(header@, 0).unwrap(), 0)
                &&& width == header@[first_count(header@, 0).unwrap()].kind.spec_width()
                &&& header@[first_count(header@, 0).unwrap()].kind.is_count()
                &&& address + width <= layout_size(header@)
            },
            None => first_count(header@, 0) is None,
        },
{
    let mut pos: usize = 0;
    let mut j: usize = 0;
    while j < header.len()
        invariant
            j <= header.len(),
            layout_size(header@) <= usize::MAX,
            pos == size_upto(header@, j as nat),
            first_count(header@, 0) == first_count(header@, j as nat),
        decreases header.len() - j,
    {
        let f = header[j];
        proof {
            lemma_size_upto_monotonic(header@, (j + 1) as nat, header@.len());
        }
        match f.kind {
            FieldKind::Count16 | FieldKind::Count32 => {
                return Some((pos + f.pad_before, f.kind.width()));
            },
            _ => {},
        }
        pos = pos + f.pad_before + f.kind.width() + f.pad_after;
        j += 1;
    }
    None
}

/// Reads a table.
///
/// The result is what `decode_spec` says of the buffer: the document, or the reason why
/// there is none.
#[verifier::rlimit(40)]
pub fn decode(bytes: &[u8], descriptor: &FormatDescriptor) -> (r: Result<Document, CodecError>)
    ensures
        match decode_spec(descriptor@, bytes@) {
            Ok(v) => r is Ok && r.unwrap()@ == v,
            Err(e) => r == Err::<Document, CodecError>(e),
        },
        r is Ok ==> document_fits(descriptor@, r.unwrap()@),
{
    let ghost d = descriptor@;
    let len = bytes.len();
    let head = match checked_layout_size(&descriptor.header) {
        Some(n) => n,
        None => { return Err(CodecError::MalformedInput); },
    };
    if len < head {
        return Err(CodecError::MalformedInput);
    }
    let stride_opt = checked_layout_size(&descriptor.record);
    let count: usize = match count_field(&descriptor.header) {
        Some((address, width)) => {
            proof {
                lemma_pow256_values();
                crate::bytes::lemma_le_value_bound(
                    bytes@.subrange(address as int, address + width),
                );
            }
            read_le(bytes, address, width) as usize
        },
        None => match stride_opt {
            Some(step) => if step > 0 {
                (bytes.len() - head) / step
            } else {
                0
            },
            None => {
                proof {
                    let room = bytes@.len() - header_size(d);
                    let s = stride(d) as int;
                    assert(room / s == 0) by (nonlinear_arith)
                        requires
                            0 <= room < s,
                    ;
                }
                0
            },
        },
    };
    proof {
        assert(count == announced_count(d, bytes@));
    }
    if count == 0 {
        proof {
            assert(0 * stride(d) == 0) by (nonlinear_arith);
        }
    }
    let step: usize = match stride_opt {
        Some(step) => step,
        None => {
            if count > 0 {
                proof {
                    assert(count * stride(d) >= stride(d)) by (nonlinear_arith)
                        requires
                            count >= 1,
                    ;
                }
                return Err(CodecError::MalformedInput);
            }
            0
        },
    };
    proof {
        assert(count * step == count * stride(d)) by (nonlinear_arith)
            requires
                count == 0 || step == stride(d),
        ;
    }
    let body = match count.checked_mul(step) {
        Some(n) => n,
        None => { return Err(CodecError::MalformedInput); },
    };
    let need = match head.checked_add(body) {
        Some(n) => n,
        None => { return Err(CodecError::MalformedInput); },
    };
    if bytes.len() < need {
        return Err(CodecError::MalformedInput);
    }
    let header = match decode_fields(&descriptor.header, bytes, 0) {
        Some(values) => values,
        None => { return Err(CodecError::OutOfBounds); },
    };
    let mut records: Vec<Vec<Value>> = Vec::new();
    let mut at: usize = head;
    let mut r: usize = 0;
    proof {
        assert(0 * stride(d) == 0) by (nonlinear_arith);
    }
    while r < count
        invariant
            r <= count,
            d == descriptor@,
            count == announced_count(d, bytes@),
            count > 0 ==> step == stride(d),
            head == header_size(d),
            head + count * stride(d) <= bytes.len(),
            at == head + r * stride(d),
            records.len() == r,
            forall|k: int|
                0 <= k < r ==> (#[trigger] records@[k]).deep_view() == read_values(
                    d.record,
                    bytes@,
                    record_address(d, k),
                ),
            forall|k: int|
                0 <= k < r ==> all_resolve(d.record, bytes@, #[trigger] record_address(d, k)),
        decreases count - r,
    {
        proof {
            assert((r + 1) * stride(d) == r * stride(d) + stride(d)) by (nonlinear_arith);
            assert((r + 1) * stride(d) <= count * stride(d)) by (nonlinear_arith)
                requires
                    r + 1 <= count,
            ;
            assert(at == record_address(d, r as int));
        }
        match decode_fields(&descriptor.record, bytes, at) {
            Some(values) => {
                records.push(values);
            },
            None => {
                return Err(CodecError::OutOfBounds);
            },
        }
        at = at + step;
        r += 1;
    }
    let doc = Document { header, records };
    proof {
        let v = decode_spec(d, bytes@);
        assert(v is Ok);
        assert(doc@.records =~= v.unwrap().records);
        crate::roundtrip::lemma_decoded_fits(d, bytes@);
    }
    Ok(doc)
}

} // verus!
