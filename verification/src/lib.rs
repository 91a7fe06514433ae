//! Codec for the fixed-layout binary tables that a game archive stores as named chunks.
//!
//! Every table is a header, an array of records of one stride, and a trailing pool of
//! NUL-terminated strings that the records address by offsets relative to the field
//! that holds them. One generic codec, driven by a format descriptor, reads and writes
//! all of them, and what it writes it reads back as it was.
//!
//! - [`binary_type`] and [`registry`]: the format tags, and the catalog that leads from
//!   a chunk's file name to its tag.
//! - [`layout`]: format descriptors. [`nucc_binary`] holds one for each format, and the
//!   parsed chunks.
//! - [`document`]: decoded tables. [`codec`] reads and writes them; [`pool`] and
//!   [`bytes`] are its parts; [`roundtrip`] proves what reading gives back.
//! - [`text`] and [`hex`]: the editable form of a table.
//! - [`chunk`]: what unpacking and repacking do with one chunk; [`archive`]: where the
//!   repacked chunks go.

pub mod archive;
pub mod binary_type;
pub mod bytes;
pub mod chunk;
pub mod codec;
pub mod document;
pub mod error;
pub mod hex;
pub mod layout;
pub mod nucc_binary;
pub mod pool;
pub mod registry;
pub mod roundtrip;
pub mod text;

pub use binary_type::NuccBinaryType;
pub use registry::find_nucc_binary_type;
