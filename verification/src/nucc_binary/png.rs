//! An image: kept as the bytes it came with.

use crate::binary_type::NuccBinaryType;
use vstd::prelude::*;
use vstd::slice::slice_to_vec;

verus! {

/// The chunk, byte for byte as the archive holds it.
#[derive(Debug, Clone, PartialEq, Eq)]
pub struct Png {
    pub file: Vec<u8>,
}

impl Png {
    pub fn binary_type(&self) -> (tag: NuccBinaryType)
        ensures
            tag == NuccBinaryType::Png,
    {
        NuccBinaryType::Png
    }

    /// The extension of the file that the chunk is unpacked to.
    pub fn extension(&self) -> (ext: String)
        ensures
            ext@ == ".png"@,
    {
        ".png".to_owned()
    }

    /// The editable form: the bytes themselves.
    pub fn serialize(&self) -> (text: Vec<u8>)
        ensures
            text@ == self.file@,
    {
        slice_to_vec(self.file.as_slice())
    }

    /// From the editable form: the bytes themselves.
    pub fn deserialize(data: &[u8]) -> (parsed: Png)
        ensures
            parsed.file@ == data@,
    {
        Png { file: slice_to_vec(data) }
    }

    /// From the chunk's bytes.
    pub fn from(data: &[u8]) -> (parsed: Png)
        ensures
            parsed.file@ == data@,
    {
        Png { file: slice_to_vec(data) }
    }
}

impl From<Png> for Vec<u8> {
    /// The chunk's bytes.
    fn from(parsed: Png) -> (bytes: Vec<u8>) {
        parsed.file
    }
}

impl vstd::std_specs::convert::FromSpecImpl<Png> for Vec<u8> {
    open spec fn obeys_from_spec() -> bool {
        true
    }

    open spec fn from_spec(parsed: Png) -> Vec<u8> {
        parsed.file
    }
}

} // verus!
