use nuccbin::archive::{replace_chunks, Chunk, ChunkInfo};

fn chunk(name: &str, filepath: &str, kind: &str, data: &[u8]) -> Chunk {
    Chunk {
        info: ChunkInfo {
            chunk_name: name.to_string(),
            filepath: filepath.to_string(),
            chunk_type: kind.to_string(),
        },
        data: data.to_vec(),
    }
}

#[test]
fn replacements_go_to_the_chunks_they_are_for() {
    let chunks = vec![
        chunk("a", "x/a.bin", "nuccChunkBinary", &[1]),
        chunk("b", "x/b.bin", "nuccChunkBinary", &[2]),
        chunk("c", "x/c.bin", "nuccChunkBinary", &[3]),
    ];
    let replacements = vec![
        chunk("c", "x/c.bin", "nuccChunkBinary", &[30, 31]),
        chunk("a", "x/a.bin", "nuccChunkBinary", &[10]),
    ];
    let after = replace_chunks(&chunks, &replacements);
    assert_eq!(
        after,
        vec![
            chunk("a", "x/a.bin", "nuccChunkBinary", &[10]),
            chunk("b", "x/b.bin", "nuccChunkBinary", &[2]),
            chunk("c", "x/c.bin", "nuccChunkBinary", &[30, 31]),
        ]
    );
}

#[test]
fn a_chunk_without_replacement_stays_as_it_is() {
    let chunks = vec![chunk("a", "x/a.bin", "t", &[1, 2, 3]), chunk("b", "x/b.bin", "t", &[])];
    assert_eq!(replace_chunks(&chunks, &[].to_vec()), chunks);
    // the same name is not enough: all that identifies the chunk must be the same
    let near = vec![
        chunk("a", "y/a.bin", "t", &[9]),
        chunk("a", "x/a.bin", "u", &[9]),
        chunk("A", "x/a.bin", "t", &[9]),
    ];
    assert_eq!(replace_chunks(&chunks, &near), chunks);
    assert_eq!(replace_chunks(&[].to_vec(), &near), Vec::<Chunk>::new());
}

#[test]
fn the_last_replacement_for_a_chunk_counts() {
    let chunks = vec![chunk("a", "x/a.bin", "t", &[1]), chunk("a", "x/a.bin", "t", &[2])];
    let replacements = vec![chunk("a", "x/a.bin", "t", &[7]), chunk("a", "x/a.bin", "t", &[8])];
    let after = replace_chunks(&chunks, &replacements);
    assert_eq!(after, vec![chunk("a", "x/a.bin", "t", &[8]), chunk("a", "x/a.bin", "t", &[8])]);
}

#[test]
fn same_chunk_by_name_file_name_and_type() {
    let a = chunk("a", "x/a.bin", "t", &[]).info;
    assert!(a.same(&chunk("a", "x/a.bin", "t", &[1]).info));
    assert!(!a.same(&chunk("b", "x/a.bin", "t", &[]).info));
    assert!(!a.same(&chunk("a", "x/b.bin", "t", &[]).info));
    assert!(!a.same(&chunk("a", "x/a.bin", "u", &[]).info));
}
