//! The chunks of an archive as repacking sees them: what identifies each, and its data.
//!
//! Reading and writing archives is not done here; this is what happens in between.

use vstd::prelude::*;
use vstd::slice::slice_to_vec;

verus! {

/// What identifies a chunk in its archive: its name, the file name that tells its
/// format, and its type.
#[derive(Clone, Debug, PartialEq, Eq)]
pub struct ChunkInfo {
    pub chunk_name: String,
    pub filepath: String,
    pub chunk_type: String,
}

/// What identifies a chunk, as mathematics sees it.
pub struct ChunkInfoView {
    pub chunk_name: Seq<char>,
    pub filepath: Seq<char>,
    pub chunk_type: Seq<char>,
}

impl View for ChunkInfo {
    type V = ChunkInfoView;

    open spec fn view(&self) -> ChunkInfoView {
        ChunkInfoView {
            chunk_name: self.chunk_name@,
            filepath: self.filepath@,
            chunk_type: self.chunk_type@,
        }
    }
}

/// A chunk: what identifies it, and its data.
#[derive(Clone, Debug, PartialEq, Eq)]
pub struct Chunk {
    pub info: ChunkInfo,
    pub data: Vec<u8>,
}

/// A chunk as mathematics sees it.
pub struct ChunkView {
    pub info: ChunkInfoView,
    pub data: Seq<u8>,
}

impl View for Chunk {
    type V = ChunkView;

    open spec fn view(&self) -> ChunkView {
        ChunkView { info: self.info@, data: self.data@ }
    }
}

impl DeepView for Chunk {
    type V = ChunkView;

    open spec fn deep_view(&self) -> ChunkView {
        self@
    }
}

/// Position of the last among the first `upto` replacements that is for the chunk which
/// `info` identifies.
pub open spec fn last_for(replacements: Seq<ChunkView>, info: ChunkInfoView, upto: nat) -> Option<
    int,
>
    decreases upto,
{
    if upto == 0 || upto > replacements.len() {
        None
    } else if replacements[upto - 1].info == info {
        Some(upto - 1)
    } else {
        last_for(replacements, info, (upto - 1) as nat)
    }
}

/// The data of a chunk after repacking: that of the last replacement for it; its own
/// where there is none.
pub open spec fn data_after(chunk: ChunkView, replacements: Seq<ChunkView>) -> Seq<u8> {
    match last_for(replacements, chunk.info, replacements.len()) {
        Some(j) => replacements[j].data,
        None => chunk.data,
    }
}

/// The chunks of an archive after repacking: each is the chunk it was, with the data of
/// the last replacement that has all that identifies it.
pub open spec fn replaced(chunks: Seq<ChunkView>, replacements: Seq<ChunkView>) -> Seq<ChunkView> {
    Seq::new(
        chunks.len(),
        |i: int| ChunkView { info: chunks[i].info, data: data_after(chunks[i], replacements) },
    )
}

impl ChunkInfo {
    /// True when both identify the same chunk: by name, file name and type alike.
    pub fn same(&self, other: &ChunkInfo) -> (yes: bool)
        ensures
            yes == (self@ == other@),
    {
        self.chunk_name == other.chunk_name && self.filepath == other.filepath
            && self.chunk_type == other.chunk_type
    }
}

/// Puts the replacements into their places. A chunk for which there is no replacement
/// stays as it is; a replacement that is for no chunk changes nothing.
pub fn replace_chunks(chunks: &Vec<Chunk>, replacements: &Vec<Chunk>) -> (out: Vec<Chunk>)
    ensures
        out.deep_view() == replaced(chunks.deep_view(), replacements.deep_view()),
{
    let mut out: Vec<Chunk> = Vec::new();
    let mut i: usize = 0;
    while i < chunks.len()
        invariant
            i <= chunks.len(),
            out.len() == i,
            forall|k: int|
                0 <= k < i ==> (#[trigger] out@[k])@ == replaced(
                    chunks.deep_view(),
                    replacements.deep_view(),
                )[k],
        decreases chunks.len() - i,
    {
        let chunk = &chunks[i];
        let ghost news = replacements.deep_view();
        let mut j: usize = replacements.len();
        let mut found: Option<usize> = None;
        while j > 0 && found.is_none()
            invariant
                j <= replacements.len(),
                news == replacements.deep_view(),
                match found {
                    Some(at) => last_for(news, chunk@.info, news.len()) == Some(at as int) && at
                        < replacements.len(),
                    None => last_for(news, chunk@.info, news.len()) == last_for(
                        news,
                        chunk@.info,
                        j as nat,
                    ),
                },
            decreases j + (if found is None { 1nat } else { 0nat }),
        {
            j -= 1;
            if replacements[j].info.same(&chunk.info) {
                found = Some(j);
            }
        }
        let data = match found {
            Some(at) => slice_to_vec(replacements[at].data.as_slice()),
            None => slice_to_vec(chunk.data.as_slice()),
        };
        let info = ChunkInfo {
            chunk_name: chunk.info.chunk_name.clone(),
            filepath: chunk.info.filepath.clone(),
            chunk_type: chunk.info.chunk_type.clone(),
        };
        out.push(Chunk { info, data });
        i += 1;
    }
    proof {
        assert(out.deep_view() =~= replaced(chunks.deep_view(), replacements.deep_view()));
    }
    out
}

} // verus!
