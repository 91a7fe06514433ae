//! The string pool: the tail of a table, where the strings that its records point to lie.

use crate::bytes::{push_all, push_zeros, zeros};
use vstd::prelude::*;
use vstd::slice::{slice_subrange, slice_to_vec};

verus! {

/// Zero bytes that bring `n` bytes up to the next multiple of 8.
pub open spec fn padding(n: nat) -> nat {
    ((8 - n % 8) % 8) as nat
}

/// True when `text` holds no NUL byte.
pub open spec fn has_no_nul(text: Seq<u8>) -> bool {
    forall|i: int| 0 <= i < text.len() ==> text[i] != 0
}

/// What the pool holds for one string: nothing for the empty string; else the text, a
/// NUL byte, and zero bytes up to a multiple of 8.
pub open spec fn entry_bytes(text: Seq<u8>) -> Seq<u8> {
    if text.len() == 0 {
        Seq::empty()
    } else {
        text + seq![0u8] + zeros(padding(text.len() + 1))
    }
}

/// The first position at or after `from` that holds a NUL byte; the length of `bytes`
/// where there is none.
pub open spec fn scan(bytes: Seq<u8>, from: int) -> int
    decreases bytes.len() - from,
{
    if from < 0 || from >= bytes.len() {
        bytes.len() as int
    } else if bytes[from] == 0 {
        from
    } else {
        scan(bytes, from + 1)
    }
}

/// The offset that a pointer field of `width` bytes spells: signed where it has eight
/// bytes, unsigned where it has four.
pub open spec fn displacement(raw: nat, width: nat) -> int {
    if width == 8 && raw >= 0x8000_0000_0000_0000 {
        raw - 0x1_0000_0000_0000_0000
    } else {
        raw as int
    }
}

/// Where the string of a pointer field starts: the field's own address plus its offset.
pub open spec fn target(field_address: nat, raw: nat, width: nat) -> int {
    field_address + displacement(raw, width)
}

/// True when the pointer leads to a string that ends inside the buffer.
pub open spec fn resolves(bytes: Seq<u8>, field_address: nat, raw: nat, width: nat) -> bool {
    raw == 0 || {
        let t = target(field_address, raw, width);
        0 <= t < bytes.len() && scan(bytes, t) < bytes.len()
    }
}

/// The string that the pointer leads to, without its NUL byte; empty for pointer 0.
pub open spec fn resolved(bytes: Seq<u8>, field_address: nat, raw: nat, width: nat) -> Seq<u8> {
    if raw == 0 || !resolves(bytes, field_address, raw, width) {
        Seq::empty()
    } else {
        let t = target(field_address, raw, width);
        bytes.subrange(t, scan(bytes, t))
    }
}

/// Length of the pool entry of a string of `len` bytes.
pub open spec fn entry_len(len: nat) -> nat {
    if len == 0 {
        0
    } else {
        len + 1 + padding(len + 1)
    }
}

pub proof fn lemma_entry_len(text: Seq<u8>)
    ensures
        entry_bytes(text).len() == entry_len(text.len()),
        entry_bytes(text).len() % 8 == 0,
        text.len() == 0 ==> entry_bytes(text).len() == 0,
        text.len() > 0 ==> entry_bytes(text).len() == text.len() + 1 + padding(text.len() + 1),
        text.len() > 0 ==> entry_bytes(text).len() > text.len(),
{
}

pub proof fn lemma_scan_bounds(bytes: Seq<u8>, from: int)
    requires
        0 <= from,
    ensures
        from <= scan(bytes, from) || scan(bytes, from) == bytes.len(),
        scan(bytes, from) <= bytes.len(),
        scan(bytes, from) < bytes.len() ==> bytes[scan(bytes, from)] == 0,
        forall|i: int| from <= i < scan(bytes, from) ==> bytes[i] != 0,
    decreases bytes.len() - from,
{
    if from < bytes.len() && bytes[from] != 0 {
        lemma_scan_bounds(bytes, from + 1);
    }
}

/// A run without NUL bytes that a NUL byte follows ends the scan at that NUL byte.
pub proof fn lemma_scan_finds(bytes: Seq<u8>, from: int, end: int)
    requires
        0 <= from <= end < bytes.len(),
        forall|i: int| from <= i < end ==> bytes[i] != 0,
        bytes[end] == 0,
    ensures
        scan(bytes, from) == end,
    decreases end - from,
{
    if from < end {
        lemma_scan_finds(bytes, from + 1, end);
    }
}

/// A string that lies in the buffer as a pool entry is what a pointer to its start
/// resolves to.
pub proof fn lemma_resolve_entry(bytes: Seq<u8>, at: int, text: Seq<u8>)
    requires
        0 <= at,
        text.len() > 0,
        has_no_nul(text),
        at + entry_bytes(text).len() <= bytes.len(),
        bytes.subrange(at, at + entry_bytes(text).len()) == entry_bytes(text),
    ensures
        scan(bytes, at) == at + text.len(),
        scan(bytes, at) < bytes.len(),
        bytes.subrange(at, scan(bytes, at)) == text,
{
    let e = entry_bytes(text);
    let end = at + text.len();
    assert forall|i: int| at <= i < end implies bytes[i] != 0 by {
        assert(bytes[i] == bytes.subrange(at, at + e.len())[i - at]);
        assert(e[i - at] == text[i - at]);
    }
    assert(bytes[end] == bytes.subrange(at, at + e.len())[end - at]);
    assert(e[end - at] == 0);
    lemma_scan_finds(bytes, at, end);
    assert(bytes.subrange(at, end) =~= text) by {
        assert forall|i: int| 0 <= i < text.len() implies bytes.subrange(at, end)[i] == text[i] by {
            assert(bytes[at + i] == bytes.subrange(at, at + e.len())[i]);
            assert(e[i] == text[i]);
        }
    }
}

/// The pool while a table is written: where it will start in the buffer, and what it
/// holds so far. Its write cursor, counted from the pool's start, always stands on a
/// multiple of 8.
pub struct StringPool {
    start: usize,
    bytes: Vec<u8>,
}

/// A pool as mathematics sees it.
pub struct PoolView {
    /// Position in the finished buffer of the pool's first byte.
    pub start: nat,
    /// The entries so far.
    pub bytes: Seq<u8>,
}

impl View for StringPool {
    type V = PoolView;

    closed spec fn view(&self) -> PoolView {
        PoolView { start: self.start as nat, bytes: self.bytes@ }
    }
}

impl StringPool {
    #[verifier::type_invariant]
    spec fn aligned(self) -> bool {
        self.bytes@.len() % 8 == 0
    }

    /// An empty pool that will start at `start`.
    pub fn new(start: usize) -> (pool: StringPool)
        ensures
            pool@.start == start,
            pool@.bytes == Seq::<u8>::empty(),
    {
        StringPool { start, bytes: Vec::new() }
    }

    /// Position in the finished buffer of the pool's first byte.
    pub fn start(&self) -> (at: usize)
        ensures
            at == self@.start,
    {
        self.start
    }

    /// The write cursor, counted from the pool's start: a multiple of 8, whatever was
    /// written before.
    pub fn cursor(&self) -> (at: usize)
        ensures
            at == self@.bytes.len(),
            at % 8 == 0,
    {
        proof {
            use_type_invariant(self);
        }
        self.bytes.len()
    }

    /// The entries so far.
    pub fn as_bytes(&self) -> (bytes: &[u8])
        ensures
            bytes@ == self@.bytes,
    {
        self.bytes.as_slice()
    }

    /// Gives `text` its place in the pool and returns the offset to store in the pointer
    /// field at `field_address`.
    ///
    /// The empty string takes no place: the offset is 0 and the pool is left as it was.
    /// Any other string is appended with its NUL byte and padded, so that the cursor
    /// stands on a multiple of 8 again; equal strings are not shared. The offset is the
    /// entry's position in the buffer less the field's address. `None`, with the pool
    /// unchanged, where that position is beyond the machine's range or lies in front of
    /// the field.
    pub fn place(&mut self, text: &[u8], field_address: usize) -> (offset: Option<u64>)
        ensures
            final(self)@.start == old(self)@.start,
            final(self)@.bytes.len() % 8 == 0,
            text@.len() == 0 ==> offset == Some(0u64) && final(self)@.bytes == old(self)@.bytes,
            text@.len() > 0 ==> (offset is Some <==> field_address <= old(self)@.start + old(
                self,
            )@.bytes.len() <= u64::MAX && old(self)@.start + old(self)@.bytes.len()
                <= usize::MAX),
            text@.len() > 0 && offset is Some ==> {
                &&& offset.unwrap() == old(self)@.start + old(self)@.bytes.len() - field_address
                &&& final(self)@.bytes == old(self)@.bytes + entry_bytes(text@)
            },
            offset is None ==> final(self)@.bytes == old(self)@.bytes,
    {
        proof {
            use_type_invariant(&*self);
        }
        if text.len() == 0 {
            return Some(0u64);
        }
        let position = match self.start.checked_add(self.bytes.len()) {
            Some(p) => p,
            None => { return None; },
        };
        if field_address > position || position as u128 > u64::MAX as u128 {
            return None;
        }
        let ghost before = self.bytes@;
        let mut bytes: Vec<u8> = Vec::new();
        core::mem::swap(&mut self.bytes, &mut bytes);
        push_all(&mut bytes, text);
        bytes.push(0u8);
        let used = (text.len() % 8 + 1) % 8;
        let fill = (8 - used) % 8;
        push_zeros(&mut bytes, fill);
        proof {
            assert(fill == padding((text@.len() + 1) as nat));
            assert(bytes@ =~= before + entry_bytes(text@));
            lemma_entry_len(text@);
        }
        self.bytes = bytes;
        Some((position - field_address) as u64)
    }
}

/// Follows the pointer `raw`, read from a field of `width` bytes at `field_address`, to
/// its string. `None` where the string would start or end outside the buffer.
pub fn resolve(bytes: &[u8], field_address: usize, raw: u64, width: usize) -> (text: Option<
    Vec<u8>,
>)
    requires
        width == 4 || width == 8,
    ensures
        text is Some <==> resolves(bytes@, field_address as nat, raw as nat, width as nat),
        text is Some ==> text.unwrap()@ == resolved(
            bytes@,
            field_address as nat,
            raw as nat,
            width as nat,
        ),
{
    if raw == 0 {
        return Some(Vec::new());
    }
    let wide: i128 = if width == 8 && raw >= 0x8000_0000_0000_0000u64 {
        raw as i128 - 0x1_0000_0000_0000_0000i128
    } else {
        raw as i128
    };
    let aim: i128 = field_address as i128 + wide;
    if aim < 0 || aim >= bytes.len() as i128 {
        return None;
    }
    let start: usize = aim as usize;
    let mut end: usize = start;
    while end < bytes.len() && bytes[end] != 0
        invariant
            start <= end <= bytes.len(),
            scan(bytes@, start as int) == scan(bytes@, end as int),
        decreases bytes.len() - end,
    {
        end += 1;
    }
    if end >= bytes.len() {
        return None;
    }
    let text = slice_to_vec(slice_subrange(bytes, start, end));
    Some(text)
}

} // verus!
