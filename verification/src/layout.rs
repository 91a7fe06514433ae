//! Format descriptors: what the header and one record of a table are made of.

use vstd::prelude::*;

verus! {

/// What one field holds on the wire.
#[derive(Clone, Copy, Debug, PartialEq, Eq, Structural)]
pub enum FieldKind {
    /// Unsigned integer of one byte.
    U8,
    /// Unsigned integer of two bytes, little-endian.
    U16,
    /// Signed integer of two bytes, little-endian, kept as its bit pattern.
    I16,
    /// Unsigned integer of four bytes, little-endian.
    U32,
    /// Signed integer of four bytes, little-endian, kept as its bit pattern.
    I32,
    /// Unsigned integer of eight bytes, little-endian.
    U64,
    /// Single-precision number of four bytes, little-endian, kept as its bit pattern.
    F32,
    /// That many raw bytes.
    Bytes(usize),
    /// Text in a slot of that many bytes, filled up with NUL bytes.
    Text(usize),
    /// Four-byte offset from this field to a NUL-terminated string in the pool; 0 for no string.
    Pointer32,
    /// Eight-byte offset from this field to a NUL-terminated string in the pool; 0 for no string.
    Pointer64,
    /// Four bytes, big-endian: the length of the whole buffer less these four bytes.
    Size,
    /// Four bytes, little-endian, always this number (a version).
    Constant32(u32),
    /// Eight bytes, little-endian, always this number (where the records start).
    Constant64(u64),
    /// Number of records, two bytes, little-endian.
    Count16,
    /// Number of records, four bytes, little-endian.
    Count32,
    /// Position of the record in the table, four bytes, little-endian.
    Index,
}

/// One field of a header or of a record, with the padding around it.
#[derive(Clone, Copy, Debug, PartialEq, Eq)]
pub struct Field {
    /// The key under which the field appears in the editable text.
    pub name: &'static str,
    pub kind: FieldKind,
    /// Zero bytes in front of the field.
    pub pad_before: usize,
    /// Zero bytes behind the field.
    pub pad_after: usize,
}

/// A field without padding.
pub open spec fn spec_field(name: &'static str, kind: FieldKind) -> Field {
    Field { name, kind, pad_before: 0, pad_after: 0 }
}

/// A field without padding.
#[verifier::when_used_as_spec(spec_field)]
pub fn field(name: &'static str, kind: FieldKind) -> (f: Field)
    ensures
        f == spec_field(name, kind),
{
    Field { name, kind, pad_before: 0, pad_after: 0 }
}

/// A field with `before` zero bytes in front of it and `after` behind it.
pub open spec fn spec_padded(
    name: &'static str,
    kind: FieldKind,
    before: usize,
    after: usize,
) -> Field {
    Field { name, kind, pad_before: before, pad_after: after }
}

/// A field with `before` zero bytes in front of it and `after` behind it.
#[verifier::when_used_as_spec(spec_padded)]
pub fn padded(name: &'static str, kind: FieldKind, before: usize, after: usize) -> (f: Field)
    ensures
        f == spec_padded(name, kind, before, after),
{
    Field { name, kind, pad_before: before, pad_after: after }
}

/// The layout of one format: the fields of its header and the fields of each record.
#[derive(Clone, Debug, PartialEq, Eq)]
pub struct FormatDescriptor {
    pub header: Vec<Field>,
    pub record: Vec<Field>,
}

/// A descriptor as two sequences of fields.
pub struct DescriptorView {
    pub header: Seq<Field>,
    pub record: Seq<Field>,
}

impl View for FormatDescriptor {
    type V = DescriptorView;

    open spec fn view(&self) -> DescriptorView {
        DescriptorView { header: self.header@, record: self.record@ }
    }
}

impl FieldKind {
    /// Bytes that the field itself takes, padding aside.
    pub open spec fn spec_width(self) -> nat {
        match self {
            FieldKind::U8 => 1,
            FieldKind::U16 | FieldKind::I16 | FieldKind::Count16 => 2,
            FieldKind::U32 | FieldKind::I32 | FieldKind::F32 | FieldKind::Pointer32
            | FieldKind::Size | FieldKind::Constant32(_) | FieldKind::Count32
            | FieldKind::Index => 4,
            FieldKind::U64 | FieldKind::Pointer64 | FieldKind::Constant64(_) => 8,
            FieldKind::Bytes(n) => n as nat,
            FieldKind::Text(n) => n as nat,
        }
    }

    /// A number that the document holds and the codec writes as it is.
    pub open spec fn is_plain(self) -> bool {
        self is U8 || self is U16 || self is I16 || self is U32 || self is I32 || self is U64
            || self is F32
    }

    /// A number that the codec works out itself when it writes.
    pub open spec fn is_computed(self) -> bool {
        self is Size || self is Constant32 || self is Constant64 || self is Count16
            || self is Count32 || self is Index
    }

    /// An offset to a string in the pool.
    pub open spec fn is_pointer(self) -> bool {
        self is Pointer32 || self is Pointer64
    }

    /// The number of records.
    pub open spec fn is_count(self) -> bool {
        self is Count16 || self is Count32
    }

    /// Bytes that the field itself takes, padding aside.
    pub fn width(self) -> (w: usize)
        ensures
            w == self.spec_width(),
    {
        match self {
            FieldKind::U8 => 1,
            FieldKind::U16 | FieldKind::I16 | FieldKind::Count16 => 2,
            FieldKind::U32 | FieldKind::I32 | FieldKind::F32 | FieldKind::Pointer32
            | FieldKind::Size | FieldKind::Constant32(_) | FieldKind::Count32
            | FieldKind::Index => 4,
            FieldKind::U64 | FieldKind::Pointer64 | FieldKind::Constant64(_) => 8,
            FieldKind::Bytes(n) => n,
            FieldKind::Text(n) => n,
        }
    }
}

/// Bytes that a field takes with its padding.
pub open spec fn field_size(f: Field) -> nat {
    f.pad_before as nat + f.kind.spec_width() + f.pad_after as nat
}

/// Bytes that the first `k` fields take.
pub open spec fn size_upto(fields: Seq<Field>, k: nat) -> nat
    decreases k,
{
    if k == 0 || k > fields.len() {
        0
    } else {
        size_upto(fields, (k - 1) as nat) + field_size(fields[k - 1])
    }
}

/// Bytes that all the fields take: the header's size, or a record's stride.
pub open spec fn layout_size(fields: Seq<Field>) -> nat {
    size_upto(fields, fields.len())
}

pub proof fn lemma_size_upto_monotonic(fields: Seq<Field>, a: nat, b: nat)
    requires
        a <= b <= fields.len(),
    ensures
        size_upto(fields, a) <= size_upto(fields, b),
    decreases b,
{
    if a < b {
        lemma_size_upto_monotonic(fields, a, (b - 1) as nat);
    }
}

/// Bytes that all the fields take, or `None` where that number does not fit the machine.
pub fn checked_layout_size(fields: &Vec<Field>) -> (r: Option<usize>)
    ensures
        match r {
            Some(n) => n == layout_size(fields@),
            None => layout_size(fields@) > usize::MAX,
        },
{
    let mut total: usize = 0;
    let mut k: usize = 0;
    while k < fields.len()
        invariant
            k <= fields.len(),
            total == size_upto(fields@, k as nat),
        decreases fields.len() - k,
    {
        let f = fields[k];
        proof {
            lemma_size_upto_monotonic(fields@, (k + 1) as nat, fields@.len());
        }
        let a = match total.checked_add(f.pad_before) {
            Some(a) => a,
            None => { return None; },
        };
        let b = match a.checked_add(f.kind.width()) {
            Some(b) => b,
            None => { return None; },
        };
        let c = match b.checked_add(f.pad_after) {
            Some(c) => c,
            None => { return None; },
        };
        total = c;
        k += 1;
    }
    Some(total)
}

} // verus!
