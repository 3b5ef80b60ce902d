use miku_notes_gateway::chunk::{assemble, ChunkAssembler};

fn bytes(n: usize) -> Vec<u8> {
    (0..n).map(|i| (i % 251) as u8).collect()
}

fn lengths(chunks: &[Vec<u8>]) -> Vec<usize> {
    chunks.iter().map(|c| c.len()).collect()
}

#[test]
fn chunks_join_back_to_the_file() {
    let data = bytes(1000);
    let fragments = vec![data[..10].to_vec(), data[10..700].to_vec(), data[700..].to_vec()];
    let chunks = assemble(&fragments, 64);
    assert_eq!(chunks.concat(), data);
    assert_eq!(chunks.len(), 16);
    for chunk in &chunks[..15] {
        assert_eq!(chunk.len(), 64);
    }
    assert_eq!(chunks[15].len(), (1000 - 1) % 64 + 1);
    assert_eq!(chunks[15].len(), 40);
}

#[test]
fn chunk_count_is_length_over_size_rounded_up() {
    for (n, c, count, last) in [(1usize, 1usize, 1usize, 1usize), (7, 3, 3, 1), (9, 3, 3, 3), (10, 4, 3, 2), (5, 8, 1, 5)] {
        let chunks = assemble(&vec![bytes(n)], c);
        assert_eq!(chunks.len(), count);
        assert_eq!(chunks.len(), (n + c - 1) / c);
        assert_eq!(chunks.last().unwrap().len(), last);
        assert_eq!(chunks.concat(), bytes(n));
    }
}

#[test]
fn empty_file_has_no_chunks() {
    assert!(assemble(&Vec::new(), 4).is_empty());
    assert!(assemble(&vec![Vec::new(), Vec::new()], 4).is_empty());
}

#[test]
fn exact_multiple_has_no_short_chunk() {
    let chunks = assemble(&vec![bytes(12)], 4);
    assert_eq!(lengths(&chunks), vec![4, 4, 4]);
}

#[test]
fn fragmentation_does_not_change_the_chunks() {
    let data = bytes(333);
    let one = vec![data.clone()];
    let singles: Vec<Vec<u8>> = data.iter().map(|b| vec![*b]).collect();
    let uneven = vec![
        data[..1].to_vec(),
        Vec::new(),
        data[1..100].to_vec(),
        data[100..101].to_vec(),
        data[101..].to_vec(),
    ];
    for c in [1usize, 2, 7, 100, 333, 334, 1000] {
        let expected = assemble(&one, c);
        assert_eq!(assemble(&singles, c), expected);
        assert_eq!(assemble(&uneven, c), expected);
        assert_eq!(expected.concat(), data);
    }
}

#[test]
fn fragment_larger_than_chunk_is_split() {
    let mut assembler = ChunkAssembler::new(4);
    let out = assembler.push(&[1, 2, 3, 4, 5, 6, 7, 8, 9, 10]);
    assert_eq!(out, vec![vec![1, 2, 3, 4], vec![5, 6, 7, 8]]);
    assert_eq!(assembler.pending_len(), 2);
    assert_eq!(assembler.finish(), Some(vec![9, 10]));
    assert_eq!(assembler.pending_len(), 0);
    assert_eq!(assembler.finish(), None);
}

#[test]
fn small_fragments_are_coalesced() {
    let mut assembler = ChunkAssembler::new(5);
    assert_eq!(assembler.chunk_size(), 5);
    assert!(assembler.push(&[1, 2]).is_empty());
    assert!(assembler.push(&[]).is_empty());
    assert!(assembler.push(&[3, 4]).is_empty());
    assert_eq!(assembler.pending_len(), 4);
    assert_eq!(assembler.push(&[5, 6]), vec![vec![1, 2, 3, 4, 5]]);
    assert_eq!(assembler.pending_len(), 1);
    assert_eq!(assembler.push(&[7, 8, 9, 10]), vec![vec![6, 7, 8, 9, 10]]);
    assert_eq!(assembler.finish(), None);
}

#[test]
fn cursor_is_carried_across_fragments() {
    let mut assembler = ChunkAssembler::new(3);
    assert_eq!(assembler.push(&[1, 2, 3, 4]), vec![vec![1, 2, 3]]);
    assert_eq!(assembler.push(&[5, 6, 7, 8, 9]), vec![vec![4, 5, 6], vec![7, 8, 9]]);
    assert_eq!(assembler.finish(), None);
}
