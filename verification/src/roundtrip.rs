//! What reading gives back of what was written.

use crate::bytes::{
    le_bytes, lemma_be_bytes_len, lemma_be_value_of_bytes, lemma_le_bytes_len,
    lemma_le_value_of_bytes, lemma_pow256_values, zeros,
};
use crate::codec::{
    all_resolve, announced_count, body_bytes, bytes_upto, computed, decode_spec, encodable_upto,
    encode_spec, encoded_len, field_address, field_bytes, field_encodable, field_pool,
    field_resolves, first_count, header_bytes, header_env, header_pool, header_size,
    lemma_bytes_upto_len, lemma_records_bytes_len, pointer_free, pool_bytes, pool_start,
    pool_upto, raw_number, read_value, read_values, record_address, record_bytes, record_env,
    record_pool, records_bytes_upto, records_pool_upto, representable, stored_number, stride,
    tells_count, trim, Env,
};
use crate::document::{document_fits, is_trimmed, value_fits, values_fit, DocumentView, ValueView};
use crate::error::CodecError;
use crate::layout::{
    field_size, layout_size, lemma_size_upto_monotonic, size_upto, DescriptorView, Field,
    FieldKind,
};
use crate::pool::{
    displacement, entry_bytes, lemma_entry_len, lemma_resolve_entry, resolves, target,
};
use vstd::prelude::*;

verus! {

/// True when `part` lies in `whole` at position `at`.
pub open spec fn located(whole: Seq<u8>, at: int, part: Seq<u8>) -> bool {
    &&& 0 <= at
    &&& at + part.len() <= whole.len()
    &&& whole.subrange(at, at + part.len()) == part
}

proof fn lemma_located_in_located(whole: Seq<u8>, at: int, middle: Seq<u8>, off: int, part: Seq<u8>)
    requires
        located(whole, at, middle),
        located(middle, off, part),
    ensures
        located(whole, at + off, part),
{
    assert(whole.subrange(at + off, at + off + part.len()) =~= part) by {
        assert forall|i: int| 0 <= i < part.len() implies whole[at + off + i] == part[i] by {
            assert(whole.subrange(at, at + middle.len())[off + i] == middle[off + i]);
            assert(middle.subrange(off, off + part.len())[i] == part[i]);
        }
    }
}

proof fn lemma_located_halves(left: Seq<u8>, right: Seq<u8>)
    ensures
        located(left + right, 0, left),
        located(left + right, left.len() as int, right),
{
    assert((left + right).subrange(0, left.len() as int) =~= left);
    assert((left + right).subrange(left.len() as int, (left.len() + right.len()) as int) =~= right);
}

proof fn lemma_located_grows(whole: Seq<u8>, more: Seq<u8>, at: int, part: Seq<u8>)
    requires
        located(whole, at, part),
    ensures
        located(whole + more, at, part),
{
    assert((whole + more).subrange(at, at + part.len()) =~= part) by {
        assert forall|i: int| 0 <= i < part.len() implies (whole + more)[at + i] == part[i] by {
            assert(whole.subrange(at, at + part.len())[i] == part[i]);
        }
    }
}

/// The bytes of a field lie in the bytes of its list at the field's offset.
proof fn lemma_field_located(fields: Seq<Field>, values: Seq<ValueView>, m: nat, j: int, env: Env)
    requires
        values_fit(fields, values),
        0 <= j < m <= fields.len(),
    ensures
        located(
            bytes_upto(fields, values, m, env),
            size_upto(fields, j as nat) as int,
            field_bytes(fields, values, j, env),
        ),
        field_bytes(fields, values, j, env).len() == field_size(fields[j]),
    decreases m,
{
    let before = bytes_upto(fields, values, (m - 1) as nat, env);
    let last = field_bytes(fields, values, m - 1, env);
    lemma_bytes_upto_len(fields, values, (m - 1) as nat, env);
    lemma_bytes_upto_len(fields, values, m, env);
    lemma_located_halves(before, last);
    if j < m - 1 {
        lemma_field_located(fields, values, (m - 1) as nat, j, env);
        lemma_located_grows(
            before,
            last,
            size_upto(fields, j as nat) as int,
            field_bytes(fields, values, j, env),
        );
    }
}

/// The pool entry of a field lies in the pool entries of its list behind those of the
/// fields in front of it.
proof fn lemma_entry_located(fields: Seq<Field>, values: Seq<ValueView>, m: nat, j: int)
    requires
        values.len() == fields.len(),
        0 <= j < m <= fields.len(),
    ensures
        located(
            pool_upto(fields, values, m),
            pool_upto(fields, values, j as nat).len() as int,
            field_pool(fields[j].kind, values[j]),
        ),
    decreases m,
{
    let before = pool_upto(fields, values, (m - 1) as nat);
    let last = field_pool(fields[m - 1].kind, values[m - 1]);
    lemma_located_halves(before, last);
    if j < m - 1 {
        lemma_entry_located(fields, values, (m - 1) as nat, j);
        lemma_located_grows(
            before,
            last,
            pool_upto(fields, values, j as nat).len() as int,
            field_pool(fields[j].kind, values[j]),
        );
    }
}

/// The bytes of a record lie in the bytes of the records at the record's offset.
proof fn lemma_record_located(d: DescriptorView, doc: DocumentView, m: nat, r: int)
    requires
        document_fits(d, doc),
        0 <= r < m <= doc.records.len(),
    ensures
        located(records_bytes_upto(d, doc, m), r * stride(d), record_bytes(d, doc, r)),
        record_bytes(d, doc, r).len() == stride(d),
    decreases m,
{
    let before = records_bytes_upto(d, doc, (m - 1) as nat);
    let last = record_bytes(d, doc, m - 1);
    lemma_records_bytes_len(d, doc, (m - 1) as nat);
    lemma_records_bytes_len(d, doc, m);
    assert(values_fit(d.record, doc.records[m - 1]));
    lemma_bytes_upto_len(d.record, doc.records[m - 1], d.record.len(), record_env(d, doc, m - 1));
    lemma_located_halves(before, last);
    if r < m - 1 {
        lemma_record_located(d, doc, (m - 1) as nat, r);
        lemma_located_grows(before, last, r * stride(d), record_bytes(d, doc, r));
    }
}

/// The pool entries of a record lie in those of the records behind the entries of the
/// records in front of it.
proof fn lemma_record_pool_located(d: DescriptorView, doc: DocumentView, m: nat, r: int)
    requires
        0 <= r < m <= doc.records.len(),
    ensures
        located(
            records_pool_upto(d, doc, m),
            records_pool_upto(d, doc, r as nat).len() as int,
            record_pool(d, doc, r),
        ),
    decreases m,
{
    let before = records_pool_upto(d, doc, (m - 1) as nat);
    let last = record_pool(d, doc, m - 1);
    lemma_located_halves(before, last);
    if r < m - 1 {
        lemma_record_pool_located(d, doc, (m - 1) as nat, r);
        lemma_located_grows(
            before,
            last,
            records_pool_upto(d, doc, r as nat).len() as int,
            record_pool(d, doc, r),
        );
    }
}

/// What reading gives for field `j` after writing: the number that the codec worked out,
/// for a field that it works out; else the value as it was.
pub open spec fn canonical_value(
    fields: Seq<Field>,
    values: Seq<ValueView>,
    j: int,
    env: Env,
) -> ValueView {
    if fields[j].kind.is_computed() {
        ValueView::Int(computed(fields[j].kind, env) as u64)
    } else {
        values[j]
    }
}

/// The values of a list of fields as reading gives them after writing.
pub open spec fn canonical_values(
    fields: Seq<Field>,
    values: Seq<ValueView>,
    env: Env,
) -> Seq<ValueView> {
    Seq::new(fields.len(), |j: int| canonical_value(fields, values, j, env))
}

/// The document as reading gives it after writing: the same strings and numbers, with
/// the size, the version, the number of records, the start of the records and the index
/// columns set to what the codec wrote for them.
pub open spec fn canonical(d: DescriptorView, doc: DocumentView) -> DocumentView {
    DocumentView {
        header: canonical_values(d.header, doc.header, header_env(d, doc)),
        records: Seq::new(
            doc.records.len(),
            |r: int| canonical_values(d.record, doc.records[r], record_env(d, doc, r)),
        ),
    }
}

proof fn lemma_trim_padded(text: Seq<u8>, k: nat)
    requires
        is_trimmed(text),
    ensures
        trim(text + zeros(k)) == text,
    decreases k,
{
    if k == 0 {
        assert(text + zeros(0) =~= text);
    } else {
        let padded = text + zeros(k);
        assert(padded.last() == 0);
        assert(padded.drop_last() =~= text + zeros((k - 1) as nat));
        lemma_trim_padded(text, (k - 1) as nat);
    }
}

proof fn lemma_body_len(fields: Seq<Field>, values: Seq<ValueView>, j: int, env: Env)
    requires
        values_fit(fields, values),
        0 <= j < fields.len(),
    ensures
        body_bytes(fields, values, j, env).len() == fields[j].kind.spec_width(),
        located(
            field_bytes(fields, values, j, env),
            fields[j].pad_before as int,
            body_bytes(fields, values, j, env),
        ),
{
    assert(value_fits(fields[j].kind, values[j]));
    lemma_le_bytes_len(stored_number(fields, values, j, env) as nat, fields[j].kind.spec_width());
    lemma_be_bytes_len(stored_number(fields, values, j, env) as nat, 4);
    let body = body_bytes(fields, values, j, env);
    let front = zeros(fields[j].pad_before as nat);
    let back = zeros(fields[j].pad_after as nat);
    lemma_located_halves(front, body);
    lemma_located_grows(front + body, back, front.len() as int, body);
}

proof fn lemma_pointer_free_pool(fields: Seq<Field>, values: Seq<ValueView>, k: nat)
    requires
        pointer_free(fields),
    ensures
        pool_upto(fields, values, k).len() == 0,
    decreases k,
{
    if k > 0 && k <= fields.len() && k <= values.len() {
        lemma_pointer_free_pool(fields, values, (k - 1) as nat);
        assert(!fields[k - 1].kind.is_pointer());
    }
}

/// A field that was written where the buffer has it reads back as its canonical value.
proof fn lemma_field_reads_back(
    b: Seq<u8>,
    fields: Seq<Field>,
    values: Seq<ValueView>,
    j: int,
    env: Env,
)
    requires
        values_fit(fields, values),
        0 <= j < fields.len(),
        field_encodable(fields, values, j, env),
        located(b, field_address(fields, j, env.at) as int, body_bytes(fields, values, j, env)),
        located(
            b,
            (env.pool_at + pool_upto(fields, values, j as nat).len()) as int,
            field_pool(fields[j].kind, values[j]),
        ),
        field_address(fields, j, env.at) + fields[j].kind.spec_width() <= env.pool_at,
    ensures
        read_value(fields[j].kind, b, field_address(fields, j, env.at)) == canonical_value(
            fields,
            values,
            j,
            env,
        ),
        field_resolves(fields[j].kind, b, field_address(fields, j, env.at)),
        fields[j].kind.is_count() ==> raw_number(
            fields[j].kind,
            b,
            field_address(fields, j, env.at),
        ) == env.count,
{
    let kind = fields[j].kind;
    let v = values[j];
    let a = field_address(fields, j, env.at);
    let w = kind.spec_width();
    let body = body_bytes(fields, values, j, env);
    let number = stored_number(fields, values, j, env);
    assert(value_fits(kind, v));
    lemma_body_len(fields, values, j, env);
    lemma_pow256_values();
    assert(b.subrange(a as int, a as int + w as int) == body);
    match kind {
        FieldKind::Bytes(n) => {
            assert(v is Bytes);
            assert(v == ValueView::Bytes(body));
        },
        FieldKind::Text(n) => {
            assert(v is Bytes);
            lemma_trim_padded(v->Bytes_0, (n - v->Bytes_0.len()) as nat);
        },
        FieldKind::Size => {
            lemma_be_value_of_bytes(number as nat, 4);
        },
        FieldKind::Pointer32 | FieldKind::Pointer64 => {
            let text = v->Bytes_0;
            assert(v is Bytes);
            lemma_le_value_of_bytes(number as nat, w);
            assert(raw_number(kind, b, a) == number);
            if text.len() > 0 {
                let at = env.pool_at + pool_upto(fields, values, j as nat).len();
                lemma_entry_len(text);
                assert(number == at - a);
                assert(displacement(number as nat, w) == number);
                assert(target(a, number as nat, w) == at);
                lemma_resolve_entry(b, at as int, text);
            } else {
                assert(text =~= Seq::<u8>::empty());
            }
        },
        FieldKind::Constant32(_) | FieldKind::Constant64(_) | FieldKind::Count16
        | FieldKind::Count32 | FieldKind::Index => {
            lemma_le_value_of_bytes(number as nat, w);
        },
        _ => {
            assert(kind.is_plain());
            assert(v is Int);
            lemma_le_value_of_bytes(number as nat, w);
        },
    }
}

/// A list of fields that was written where the buffer has it, with its strings where the
/// buffer has them, reads back as its canonical values.
proof fn lemma_values_read_back(b: Seq<u8>, fields: Seq<Field>, values: Seq<ValueView>, env: Env)
    requires
        values_fit(fields, values),
        encodable_upto(fields, values, fields.len(), env),
        located(b, env.at as int, bytes_upto(fields, values, fields.len(), env)),
        located(b, env.pool_at as int, pool_upto(fields, values, fields.len())),
        env.at + layout_size(fields) <= env.pool_at,
    ensures
        read_values(fields, b, env.at) == canonical_values(fields, values, env),
        all_resolve(fields, b, env.at),
        forall|j: int|
            0 <= j < fields.len() && fields[j].kind.is_count() ==> raw_number(
                fields[j].kind,
                b,
                #[trigger] field_address(fields, j, env.at),
            ) == env.count,
{
    let whole = bytes_upto(fields, values, fields.len(), env);
    let pool = pool_upto(fields, values, fields.len());
    assert forall|j: int| 0 <= j < fields.len() implies read_value(
        fields[j].kind,
        b,
        field_address(fields, j, env.at),
    ) == canonical_value(fields, values, j, env) && field_resolves(
        fields[j].kind,
        b,
        #[trigger] field_address(fields, j, env.at),
    ) && (fields[j].kind.is_count() ==> raw_number(
        fields[j].kind,
        b,
        field_address(fields, j, env.at),
    ) == env.count) by {
        lemma_field_located(fields, values, fields.len(), j, env);
        lemma_body_len(fields, values, j, env);
        let fb = field_bytes(fields, values, j, env);
        let body = body_bytes(fields, values, j, env);
        lemma_located_in_located(
            whole,
            size_upto(fields, j as nat) as int,
            fb,
            fields[j].pad_before as int,
            body,
        );
        lemma_located_in_located(
            b,
            env.at as int,
            whole,
            (size_upto(fields, j as nat) + fields[j].pad_before) as int,
            body,
        );
        lemma_entry_located(fields, values, fields.len(), j);
        lemma_located_in_located(
            b,
            env.pool_at as int,
            pool,
            pool_upto(fields, values, j as nat).len() as int,
            field_pool(fields[j].kind, values[j]),
        );
        lemma_size_upto_monotonic(fields, (j + 1) as nat, fields.len());
        lemma_field_reads_back(b, fields, values, j, env);
    }
    assert(read_values(fields, b, env.at) =~= canonical_values(fields, values, env));
}

/// `first_count` gives a position in the header at which a count field stands.
pub proof fn lemma_first_count(header: Seq<Field>, from: nat)
    ensures
        match first_count(header, from) {
            Some(j) => from <= j < header.len() && header[j].kind.is_count(),
            None => true,
        },
    decreases header.len() - from,
{
    if from < header.len() && !header[from as int].kind.is_count() {
        lemma_first_count(header, from + 1);
    }
}

proof fn lemma_pointer_free_records(d: DescriptorView, doc: DocumentView, k: nat)
    requires
        pointer_free(d.record),
    ensures
        records_pool_upto(d, doc, k).len() == 0,
    decreases k,
{
    if k > 0 && k <= doc.records.len() {
        lemma_pointer_free_records(d, doc, (k - 1) as nat);
        lemma_pointer_free_pool(d.record, doc.records[k - 1], d.record.len());
    }
}

/// Reading what was written gives the document back.
///
/// For every layout that tells how many records a table has, and every document that
/// fits the layout and can be written: decoding the encoded table succeeds, and gives
/// the document in its canonical form. Pointers play no part in the comparison: a
/// document holds none.
#[verifier::rlimit(40)]
pub proof fn lemma_decode_encode(d: DescriptorView, doc: DocumentView)
    requires
        tells_count(d),
        document_fits(d, doc),
        representable(d, doc),
    ensures
        decode_spec(d, encode_spec(d, doc)) == Ok::<DocumentView, CodecError>(canonical(d, doc)),
{
    let b = encode_spec(d, doc);
    let n = doc.records.len();
    let h = header_size(d);
    let s = stride(d);
    let hb = header_bytes(d, doc);
    let rb = records_bytes_upto(d, doc, n);
    let hp = header_pool(d, doc);
    let rp = records_pool_upto(d, doc, n);
    let p = pool_bytes(d, doc);
    let start = pool_start(d, doc);
    let henv = header_env(d, doc);

    lemma_bytes_upto_len(d.header, doc.header, d.header.len(), henv);
    lemma_records_bytes_len(d, doc, n);
    assert(b.len() == encoded_len(d, doc));
    assert(n * s >= 0) by (nonlinear_arith);

    lemma_located_halves(hb, rb);
    lemma_located_grows(hb + rb, p, 0, hb);
    lemma_located_grows(hb + rb, p, h as int, rb);
    lemma_located_halves(hb + rb, p);
    lemma_located_halves(hp, rp);
    lemma_located_in_located(b, start as int, p, 0, hp);
    lemma_located_in_located(b, start as int, p, hp.len() as int, rp);

    lemma_values_read_back(b, d.header, doc.header, henv);

    assert forall|r: int| 0 <= r < n implies read_values(d.record, b, record_address(d, r))
        == canonical_values(d.record, doc.records[r], record_env(d, doc, r)) && all_resolve(
        d.record,
        b,
        #[trigger] record_address(d, r),
    ) by {
        let env = record_env(d, doc, r);
        assert(values_fit(d.record, doc.records[r]));
        assert(encodable_upto(d.record, doc.records[r], d.record.len(), env));
        lemma_record_located(d, doc, n, r);
        lemma_located_in_located(b, h as int, rb, r * s, record_bytes(d, doc, r));
        lemma_record_pool_located(d, doc, n, r);
        lemma_located_in_located(
            b,
            (start + hp.len()) as int,
            rp,
            records_pool_upto(d, doc, r as nat).len() as int,
            record_pool(d, doc, r),
        );
        assert((r + 1) * s <= n * s) by (nonlinear_arith)
            requires
                r + 1 <= n,
                s >= 0,
        ;
        assert((r + 1) * s == r * s + s) by (nonlinear_arith);
        assert(r * s >= 0) by (nonlinear_arith)
            requires
                r >= 0,
                s >= 0,
        ;
        assert(env.at == record_address(d, r));
        lemma_values_read_back(b, d.record, doc.records[r], env);
    }

    assert(announced_count(d, b) == n) by {
        lemma_first_count(d.header, 0);
        match first_count(d.header, 0) {
            Some(j) => {
                assert(raw_number(d.header[j].kind, b, field_address(d.header, j, 0)) == n);
            },
            None => {
                lemma_pointer_free_pool(d.header, doc.header, d.header.len());
                lemma_pointer_free_records(d, doc, n);
                assert(((n * s) as int) / (s as int) == n) by (nonlinear_arith)
                    requires
                        s > 0,
                        n >= 0,
                ;
            },
        }
    }

    let back = decode_spec(d, b);
    assert(back is Ok);
    assert(back->Ok_0.records =~= canonical(d, doc).records);
}

/// True when two lists of values differ at most in what they hold for the fields that
/// the codec works out itself.
pub open spec fn same_content(fields: Seq<Field>, a: Seq<ValueView>, b: Seq<ValueView>) -> bool {
    &&& a.len() == b.len()
    &&& forall|j: int|
        0 <= j < fields.len() && j < a.len() ==> if fields[j].kind.is_computed() {
            (#[trigger] a[j]) is Int <==> b[j] is Int
        } else {
            a[j] == b[j]
        }
}

/// True when two documents differ at most in what they hold for the fields that the
/// codec works out itself.
pub open spec fn same_documents(d: DescriptorView, a: DocumentView, b: DocumentView) -> bool {
    &&& same_content(d.header, a.header, b.header)
    &&& a.records.len() == b.records.len()
    &&& forall|r: int|
        0 <= r < a.records.len() ==> same_content(d.record, #[trigger] a.records[r], b.records[r])
}

proof fn lemma_same_fits(fields: Seq<Field>, a: Seq<ValueView>, b: Seq<ValueView>)
    requires
        values_fit(fields, a),
        same_content(fields, a, b),
    ensures
        values_fit(fields, b),
{
    assert forall|j: int| 0 <= j < fields.len() implies value_fits(
        fields[j].kind,
        #[trigger] b[j],
    ) by {
        assert(value_fits(fields[j].kind, a[j]));
    }
}

proof fn lemma_same_pool(fields: Seq<Field>, a: Seq<ValueView>, b: Seq<ValueView>, k: nat)
    requires
        values_fit(fields, a),
        same_content(fields, a, b),
        k <= fields.len(),
    ensures
        pool_upto(fields, b, k) == pool_upto(fields, a, k),
    decreases k,
{
    if k > 0 {
        lemma_same_pool(fields, a, b, (k - 1) as nat);
        assert(value_fits(fields[k - 1].kind, a[k - 1]));
    }
}

proof fn lemma_same_field(
    fields: Seq<Field>,
    a: Seq<ValueView>,
    b: Seq<ValueView>,
    env: Env,
    j: int,
)
    requires
        values_fit(fields, a),
        same_content(fields, a, b),
        0 <= j < fields.len(),
    ensures
        stored_number(fields, b, j, env) == stored_number(fields, a, j, env),
        body_bytes(fields, b, j, env) == body_bytes(fields, a, j, env),
        field_encodable(fields, b, j, env) == field_encodable(fields, a, j, env),
{
    lemma_same_pool(fields, a, b, j as nat);
    assert(value_fits(fields[j].kind, a[j]));
}

proof fn lemma_same_bytes(
    fields: Seq<Field>,
    a: Seq<ValueView>,
    b: Seq<ValueView>,
    env: Env,
    k: nat,
)
    requires
        values_fit(fields, a),
        same_content(fields, a, b),
        k <= fields.len(),
    ensures
        bytes_upto(fields, b, k, env) == bytes_upto(fields, a, k, env),
    decreases k,
{
    if k > 0 {
        lemma_same_bytes(fields, a, b, env, (k - 1) as nat);
        lemma_same_field(fields, a, b, env, k - 1);
    }
}

proof fn lemma_same_encodable(fields: Seq<Field>, a: Seq<ValueView>, b: Seq<ValueView>, env: Env)
    requires
        values_fit(fields, a),
        same_content(fields, a, b),
    ensures
        encodable_upto(fields, b, fields.len(), env) == encodable_upto(
            fields,
            a,
            fields.len(),
            env,
        ),
{
    if encodable_upto(fields, a, fields.len(), env) {
        assert forall|j: int| 0 <= j < fields.len() implies field_encodable(fields, b, j, env) by {
            lemma_same_field(fields, a, b, env, j);
        }
    }
    if encodable_upto(fields, b, fields.len(), env) {
        assert forall|j: int| 0 <= j < fields.len() implies field_encodable(fields, a, j, env) by {
            lemma_same_field(fields, a, b, env, j);
        }
    }
}

proof fn lemma_same_records_pool(d: DescriptorView, a: DocumentView, b: DocumentView, k: nat)
    requires
        document_fits(d, a),
        same_documents(d, a, b),
        k <= a.records.len(),
    ensures
        records_pool_upto(d, b, k) == records_pool_upto(d, a, k),
    decreases k,
{
    if k > 0 {
        lemma_same_records_pool(d, a, b, (k - 1) as nat);
        assert(values_fit(d.record, a.records[k - 1]));
        lemma_same_pool(d.record, a.records[k - 1], b.records[k - 1], d.record.len());
    }
}

proof fn lemma_same_envs(d: DescriptorView, a: DocumentView, b: DocumentView)
    requires
        document_fits(d, a),
        same_documents(d, a, b),
    ensures
        encoded_len(d, b) == encoded_len(d, a),
        pool_bytes(d, b) == pool_bytes(d, a),
        header_env(d, b) == header_env(d, a),
        forall|r: int|
            0 <= r < a.records.len() ==> #[trigger] record_env(d, b, r) == record_env(d, a, r),
{
    lemma_same_pool(d.header, a.header, b.header, d.header.len());
    lemma_same_records_pool(d, a, b, a.records.len());
    assert forall|r: int| 0 <= r < a.records.len() implies #[trigger] record_env(d, b, r)
        == record_env(d, a, r) by {
        lemma_same_records_pool(d, a, b, r as nat);
    }
}

proof fn lemma_same_records_bytes(d: DescriptorView, a: DocumentView, b: DocumentView, k: nat)
    requires
        document_fits(d, a),
        same_documents(d, a, b),
        k <= a.records.len(),
    ensures
        records_bytes_upto(d, b, k) == records_bytes_upto(d, a, k),
    decreases k,
{
    if k > 0 {
        let r = k - 1;
        lemma_same_records_bytes(d, a, b, (k - 1) as nat);
        lemma_same_envs(d, a, b);
        assert(values_fit(d.record, a.records[r]));
        assert(record_env(d, b, r) == record_env(d, a, r));
        lemma_same_bytes(d.record, a.records[r], b.records[r], record_env(d, a, r), d.record.len());
    }
}

proof fn lemma_same_document_fits(d: DescriptorView, a: DocumentView, b: DocumentView)
    requires
        document_fits(d, a),
        same_documents(d, a, b),
    ensures
        document_fits(d, b),
{
    lemma_same_fits(d.header, a.header, b.header);
    assert forall|r: int| 0 <= r < b.records.len() implies values_fit(
        d.record,
        #[trigger] b.records[r],
    ) by {
        assert(values_fit(d.record, a.records[r]));
        lemma_same_fits(d.record, a.records[r], b.records[r]);
    }
}

proof fn lemma_same_encoding(d: DescriptorView, a: DocumentView, b: DocumentView)
    requires
        document_fits(d, a),
        same_documents(d, a, b),
    ensures
        encode_spec(d, b) == encode_spec(d, a),
{
    lemma_same_envs(d, a, b);
    lemma_same_bytes(d.header, a.header, b.header, header_env(d, a), d.header.len());
    lemma_same_records_bytes(d, a, b, a.records.len());
}

proof fn lemma_same_record_encodable(d: DescriptorView, a: DocumentView, b: DocumentView, r: int)
    requires
        document_fits(d, a),
        same_documents(d, a, b),
        0 <= r < a.records.len(),
    ensures
        encodable_upto(d.record, b.records[r], d.record.len(), record_env(d, b, r))
            == encodable_upto(d.record, a.records[r], d.record.len(), record_env(d, a, r)),
{
    lemma_same_envs(d, a, b);
    assert(values_fit(d.record, a.records[r]));
    assert(record_env(d, b, r) == record_env(d, a, r));
    lemma_same_encodable(d.record, a.records[r], b.records[r], record_env(d, a, r));
}

proof fn lemma_same_representable(d: DescriptorView, a: DocumentView, b: DocumentView)
    requires
        document_fits(d, a),
        same_documents(d, a, b),
    ensures
        representable(d, b) == representable(d, a),
{
    lemma_same_envs(d, a, b);
    lemma_same_encodable(d.header, a.header, b.header, header_env(d, a));
    if representable(d, a) {
        assert forall|r: int| 0 <= r < b.records.len() implies encodable_upto(
            d.record,
            #[trigger] b.records[r],
            d.record.len(),
            record_env(d, b, r),
        ) by {
            lemma_same_record_encodable(d, a, b, r);
            assert(encodable_upto(d.record, a.records[r], d.record.len(), record_env(d, a, r)));
        }
    }
    if representable(d, b) {
        assert forall|r: int| 0 <= r < a.records.len() implies encodable_upto(
            d.record,
            #[trigger] a.records[r],
            d.record.len(),
            record_env(d, a, r),
        ) by {
            lemma_same_record_encodable(d, a, b, r);
            assert(encodable_upto(d.record, b.records[r], d.record.len(), record_env(d, b, r)));
        }
    }
}

/// Writing does not read what the codec works out itself.
///
/// Two documents that differ at most in what they hold for the size, the version, the
/// number of records, the start of the records and the index columns fit the layout
/// alike, can be written alike, and are written to the same bytes.
pub proof fn lemma_encode_same_content(d: DescriptorView, a: DocumentView, b: DocumentView)
    requires
        document_fits(d, a),
        same_documents(d, a, b),
    ensures
        document_fits(d, b),
        representable(d, b) == representable(d, a),
        encode_spec(d, b) == encode_spec(d, a),
{
    lemma_same_document_fits(d, a, b);
    lemma_same_encoding(d, a, b);
    lemma_same_representable(d, a, b);
}

/// A document and its canonical form differ only in what the codec works out itself.
pub proof fn lemma_canonical_same_content(d: DescriptorView, doc: DocumentView)
    requires
        document_fits(d, doc),
    ensures
        same_documents(d, doc, canonical(d, doc)),
{
    let c = canonical(d, doc);
    assert forall|j: int| 0 <= j < d.header.len() implies (if d.header[j].kind.is_computed() {
        (#[trigger] doc.header[j]) is Int <==> c.header[j] is Int
    } else {
        doc.header[j] == c.header[j]
    }) by {
        assert(value_fits(d.header[j].kind, doc.header[j]));
    }
    assert forall|r: int| 0 <= r < doc.records.len() implies same_content(
        d.record,
        #[trigger] doc.records[r],
        c.records[r],
    ) by {
        let a = doc.records[r];
        let b = c.records[r];
        assert(values_fit(d.record, a));
        assert forall|j: int| 0 <= j < d.record.len() implies (if d.record[j].kind.is_computed() {
            (#[trigger] a[j]) is Int <==> b[j] is Int
        } else {
            a[j] == b[j]
        }) by {
            assert(value_fits(d.record[j].kind, a[j]));
        }
    }
}

/// A table that the codec wrote is stable: reading it and writing what was read gives
/// the same bytes again.
pub proof fn lemma_encode_decode_encode(d: DescriptorView, doc: DocumentView)
    requires
        tells_count(d),
        document_fits(d, doc),
        representable(d, doc),
    ensures
        decode_spec(d, encode_spec(d, doc)) is Ok,
        document_fits(d, decode_spec(d, encode_spec(d, doc))->Ok_0),
        representable(d, decode_spec(d, encode_spec(d, doc))->Ok_0),
        encode_spec(d, decode_spec(d, encode_spec(d, doc))->Ok_0) == encode_spec(d, doc),
{
    lemma_decode_encode(d, doc);
    lemma_canonical_same_content(d, doc);
    lemma_encode_same_content(d, doc, canonical(d, doc));
}

/// A document in canonical form, one that holds for each computed field what the codec
/// writes there, comes back from writing and reading as it is.
pub proof fn lemma_decode_encode_canonical(d: DescriptorView, doc: DocumentView)
    requires
        tells_count(d),
        document_fits(d, doc),
        representable(d, doc),
        canonical(d, doc) == doc,
    ensures
        decode_spec(d, encode_spec(d, doc)) == Ok::<DocumentView, CodecError>(doc),
{
    lemma_decode_encode(d, doc);
}

/// The pool is made of whole entries: its length is a multiple of 8, and so is the
/// length of what the headers' strings and the strings of the first `r` records take.
/// Every string therefore starts on a multiple of 8 from the pool's start.
pub proof fn lemma_pool_aligned(d: DescriptorView, doc: DocumentView, r: nat)
    ensures
        header_pool(d, doc).len() % 8 == 0,
        records_pool_upto(d, doc, r).len() % 8 == 0,
        pool_bytes(d, doc).len() % 8 == 0,
{
    lemma_records_pool_aligned(d, doc, r);
    lemma_records_pool_aligned(d, doc, doc.records.len());
    lemma_fields_pool_aligned(d.header, doc.header, d.header.len());
}

/// After each field of a list the strings so far take a multiple of 8 bytes.
pub proof fn lemma_fields_pool_aligned(fields: Seq<Field>, values: Seq<ValueView>, k: nat)
    ensures
        pool_upto(fields, values, k).len() % 8 == 0,
    decreases k,
{
    if k > 0 && k <= fields.len() && k <= values.len() {
        lemma_fields_pool_aligned(fields, values, (k - 1) as nat);
        if values[k - 1] is Bytes {
            lemma_entry_len(values[k - 1]->Bytes_0);
        }
    }
}

proof fn lemma_records_pool_aligned(d: DescriptorView, doc: DocumentView, r: nat)
    ensures
        records_pool_upto(d, doc, r).len() % 8 == 0,
    decreases r,
{
    if r > 0 && r <= doc.records.len() {
        lemma_records_pool_aligned(d, doc, (r - 1) as nat);
        lemma_fields_pool_aligned(d.record, doc.records[r - 1], d.record.len());
    }
}

/// A pointer field whose string is empty is written as 0 and adds nothing to the pool.
pub proof fn lemma_empty_string(fields: Seq<Field>, values: Seq<ValueView>, j: int, env: Env)
    requires
        0 <= j < fields.len(),
        j < values.len(),
        fields[j].kind.is_pointer(),
        values[j] == ValueView::Bytes(Seq::<u8>::empty()),
    ensures
        stored_number(fields, values, j, env) == 0,
        body_bytes(fields, values, j, env) == zeros(fields[j].kind.spec_width()),
        pool_upto(fields, values, (j + 1) as nat) == pool_upto(fields, values, j as nat),
{
    lemma_zero_bytes(fields[j].kind.spec_width());
    assert(pool_upto(fields, values, (j + 1) as nat) =~= pool_upto(fields, values, j as nat));
}

/// A pointer field whose string is not empty is written as the distance from the field
/// to the string's pool entry, which is not 0 where the field lies in front of the
/// pool, and adds exactly that entry to the pool.
pub proof fn lemma_nonempty_string(
    fields: Seq<Field>,
    values: Seq<ValueView>,
    j: int,
    env: Env,
)
    requires
        0 <= j < fields.len(),
        j < values.len(),
        fields[j].kind.is_pointer(),
        values[j] is Bytes,
        values[j]->Bytes_0.len() > 0,
        field_address(fields, j, env.at) < env.pool_at,
    ensures
        stored_number(fields, values, j, env) == env.pool_at + pool_upto(
            fields,
            values,
            j as nat,
        ).len() - field_address(fields, j, env.at),
        stored_number(fields, values, j, env) > 0,
        pool_upto(fields, values, (j + 1) as nat) == pool_upto(fields, values, j as nat)
            + entry_bytes(values[j]->Bytes_0),
        entry_bytes(values[j]->Bytes_0).len() > 0,
{
    lemma_entry_len(values[j]->Bytes_0);
}

proof fn lemma_zero_bytes(width: nat)
    ensures
        le_bytes(0, width) == zeros(width),
    decreases width,
{
    if width > 0 {
        lemma_zero_bytes((width - 1) as nat);
        lemma_le_bytes_len(0, (width - 1) as nat);
    }
    assert(le_bytes(0, width) =~= zeros(width));
}

proof fn lemma_trim_is_trimmed(b: Seq<u8>)
    ensures
        is_trimmed(trim(b)),
        trim(b).len() <= b.len(),
    decreases b.len(),
{
    if b.len() > 0 && b.last() == 0 {
        lemma_trim_is_trimmed(b.drop_last());
    }
}

proof fn lemma_read_value_fits(kind: FieldKind, b: Seq<u8>, address: nat)
    requires
        address + kind.spec_width() <= b.len(),
    ensures
        value_fits(kind, read_value(kind, b, address)),
{
    let w = kind.spec_width();
    lemma_pow256_values();
    match kind {
        FieldKind::Bytes(n) => {},
        FieldKind::Text(n) => {
            lemma_trim_is_trimmed(b.subrange(address as int, address as int + n as int));
        },
        FieldKind::Pointer32 | FieldKind::Pointer64 => {
            let raw = raw_number(kind, b, address);
            if raw != 0 && resolves(b, address, raw, w) {
                crate::pool::lemma_scan_bounds(b, target(address, raw, w));
            }
        },
        FieldKind::Size => {
            crate::bytes::lemma_be_value_bound(b.subrange(address as int, address as int + 4));
        },
        _ => {
            crate::bytes::lemma_le_value_bound(
                b.subrange(address as int, address as int + w as int),
            );
        },
    }
}

proof fn lemma_read_values_fit(fields: Seq<Field>, b: Seq<u8>, at: nat)
    requires
        at + layout_size(fields) <= b.len(),
    ensures
        values_fit(fields, read_values(fields, b, at)),
{
    let values = read_values(fields, b, at);
    assert forall|j: int| 0 <= j < fields.len() implies value_fits(
        fields[j].kind,
        #[trigger] values[j],
    ) by {
        lemma_size_upto_monotonic(fields, (j + 1) as nat, fields.len());
        lemma_read_value_fits(fields[j].kind, b, field_address(fields, j, at));
    }
}

/// What is read has the shape that the layout declares: every document that decoding
/// gives fits its layout.
pub proof fn lemma_decoded_fits(d: DescriptorView, b: Seq<u8>)
    requires
        decode_spec(d, b) is Ok,
    ensures
        document_fits(d, decode_spec(d, b)->Ok_0),
{
    let doc = decode_spec(d, b)->Ok_0;
    let n = announced_count(d, b);
    lemma_read_values_fit(d.header, b, 0);
    assert forall|r: int| 0 <= r < doc.records.len() implies values_fit(
        d.record,
        #[trigger] doc.records[r],
    ) by {
        assert((r + 1) * stride(d) <= n * stride(d)) by (nonlinear_arith)
            requires
                r + 1 <= n,
        ;
        assert((r + 1) * stride(d) == r * stride(d) + stride(d)) by (nonlinear_arith);
        assert(r * stride(d) >= 0) by (nonlinear_arith)
            requires
                r >= 0,
        ;
        lemma_read_values_fit(d.record, b, record_address(d, r));
    }
}

} // verus!
