//! What unpacking and repacking do with one chunk.
//!
//! Unpacking leads from a chunk's file name and bytes to its editable form; repacking
//! leads from the file name and the edited form back to bytes.

use crate::error::CodecError;
use crate::nucc_binary::{
    deserialize_spec, extension_of, lemma_deserialize_serialize, lemma_parse_write,
    lemma_write_parse_write, parse_spec, serialize_spec, tag_of, well_tagged,
    writable, write_spec, NuccBinaryParsedDeserializer, NuccBinaryParsedReader,
    NuccBinaryParsedSerializer, NuccBinaryParsedWriter, ParsedView, Serialized, SerializedView,
};
use crate::registry::{find_nucc_binary_type, resolve_spec};
use vstd::prelude::*;
use vstd::string::StringExecFns;

verus! {

/// What unpacking gives for a chunk: the extension of the file to write and the
/// editable form to write into it. `UnrecognizedFormat` when no pattern of the catalog
/// matches the name; else the error of parsing, if there is one.
pub open spec fn unpack_spec(filepath: Seq<char>, data: Seq<u8>) -> Result<
    (Seq<char>, SerializedView),
    CodecError,
> {
    match resolve_spec(filepath) {
        None => Err(CodecError::UnrecognizedFormat),
        Some(tag) => match parse_spec(tag, data) {
            Err(e) => Err(e),
            Ok(parsed) => Ok((extension_of(parsed), serialize_spec(parsed))),
        },
    }
}

/// What repacking gives for a chunk: its new bytes. `UnrecognizedFormat` when no
/// pattern of the catalog matches the name; `TextParseError` when the edited form is
/// not of the format's shape, or stands for a table that cannot be written.
pub open spec fn repack_spec(filepath: Seq<char>, edited: SerializedView) -> Result<
    Seq<u8>,
    CodecError,
> {
    match resolve_spec(filepath) {
        None => Err(CodecError::UnrecognizedFormat),
        Some(tag) => match deserialize_spec(tag, edited) {
            Err(e) => Err(e),
            Ok(parsed) => if writable(parsed) {
                Ok(write_spec(parsed))
            } else {
                Err(CodecError::TextParseError)
            },
        },
    }
}

/// The name of the file that a chunk is unpacked to: the chunk's name, then the
/// extension of its kind.
pub fn unpacked_file_name(chunk_name: &str, extension: &str) -> (name: String)
    ensures
        name@ == chunk_name@ + extension@,
{
    let mut name = chunk_name.to_owned();
    name.append(extension);
    name
}

/// Unpacks one chunk: finds its format from its file name, parses it, and makes its
/// editable form.
pub fn unpack_chunk(filepath: &str, data: &[u8]) -> (r: Result<(String, Serialized), CodecError>)
    ensures
        match unpack_spec(filepath@, data@) {
            Ok((ext, edited)) => r is Ok && r.unwrap().0@ == ext && r.unwrap().1@ == edited,
            Err(e) => r == Err::<(String, Serialized), CodecError>(e),
        },
{
    let tag = match find_nucc_binary_type(filepath) {
        Some(tag) => tag,
        None => { return Err(CodecError::UnrecognizedFormat); },
    };
    let parsed = match NuccBinaryParsedReader(tag, data).parse() {
        Ok(parsed) => parsed,
        Err(e) => { return Err(e); },
    };
    let ext = parsed.extension();
    match NuccBinaryParsedSerializer(parsed).serialize() {
        Ok(edited) => Ok((ext, edited)),
        Err(e) => Err(e),
    }
}

/// Repacks one chunk: finds its format from its file name, makes the chunk that the
/// edited form stands for, and writes it.
pub fn repack_chunk(filepath: &str, edited: Serialized) -> (r: Result<Vec<u8>, CodecError>)
    ensures
        match repack_spec(filepath@, edited@) {
            Ok(bytes) => r is Ok && r.unwrap()@ == bytes,
            Err(e) => r == Err::<Vec<u8>, CodecError>(e),
        },
{
    let tag = match find_nucc_binary_type(filepath) {
        Some(tag) => tag,
        None => { return Err(CodecError::UnrecognizedFormat); },
    };
    let parsed = match NuccBinaryParsedDeserializer(tag, edited).deserialize() {
        Ok(parsed) => parsed,
        Err(e) => { return Err(e); },
    };
    NuccBinaryParsedWriter(parsed).write()
}

/// A chunk that the library wrote survives unpacking and repacking unedited: under a
/// file name that leads to its format, its editable form is repacked to the same bytes.
pub proof fn lemma_repack_unpacked(filepath: Seq<char>, parsed: ParsedView)
    requires
        resolve_spec(filepath) == Some(tag_of(parsed)),
        well_tagged(parsed),
        writable(parsed),
    ensures
        unpack_spec(filepath, write_spec(parsed)) is Ok,
        repack_spec(filepath, unpack_spec(filepath, write_spec(parsed))->Ok_0.1) == Ok::<
            Seq<u8>,
            CodecError,
        >(write_spec(parsed)),
{
    lemma_parse_write(parsed);
    lemma_write_parse_write(parsed);
    let back = parse_spec(tag_of(parsed), write_spec(parsed))->Ok_0;
    lemma_deserialize_serialize(back);
}

} // verus!
