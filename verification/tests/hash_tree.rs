//! End-to-end checks of path extraction and slice verification against
//! outboard buffers produced by the `bao` encoder.

use por_oracle::outboard::extract_path;
use por_oracle::shape::{chunk_length, count_chunks, CHUNK_SIZE};
use por_oracle::slice_verifier::verify;

/// Deterministic pseudo-random content of the given size.
fn content_of(size: usize) -> Vec<u8> {
    let mut v = Vec::with_capacity(size);
    let mut x: u32 = 0x12345678;
    for _ in 0..size {
        x = x.wrapping_mul(1664525).wrapping_add(1013904223);
        v.push((x >> 24) as u8);
    }
    v
}

/// Encodes `content` with bao and returns the bare outboard node entries
/// (the 8-byte length header stripped) and the committed root digest.
fn encode_outboard(content: &[u8]) -> (Vec<u8>, [u8; 32]) {
    let (full, hash) = bao::encode::outboard(content);
    (full[8..].to_vec(), *hash.as_bytes())
}

fn chunk_of(content: &[u8], index: u64) -> &[u8] {
    let start = (index * CHUNK_SIZE) as usize;
    let end = std::cmp::min(start + CHUNK_SIZE as usize, content.len());
    &content[start..end]
}

#[test]
fn honest_chunks_verify() {
    for size in [1usize, 100, 1023, 1024, 1025, 2048, 2500, 3072, 5000, 10000, 33792, 70000] {
        let content = content_of(size);
        let (outboard, root) = encode_outboard(&content);
        let total = count_chunks(size as u64);
        for i in 0..total {
            let path = extract_path(&outboard, i, total).expect("extraction failed");
            let result = verify(chunk_of(&content, i), i, size as u64, &path, &root)
                .expect("length was right");
            assert!(result.valid, "size {} chunk {}", size, i);
        }
    }
}

#[test]
fn root_matches_whole_file_digest() {
    // The committed root is the plain BLAKE3 digest of the whole content.
    for size in [1usize, 1024, 2500, 10000] {
        let content = content_of(size);
        let (_, root) = encode_outboard(&content);
        assert_eq!(&root, blake3::hash(&content).as_bytes());
    }
}

#[test]
fn wrong_root_rejected() {
    let content = content_of(2500);
    let (outboard, mut root) = encode_outboard(&content);
    root[0] ^= 1;
    let path = extract_path(&outboard, 1, 3).unwrap();
    let result = verify(chunk_of(&content, 1), 1, 2500, &path, &root).unwrap();
    assert!(!result.valid);
}

#[test]
fn tampered_chunk_bits_rejected() {
    // Flipping any single bit of the retrieved chunk flips the verdict.
    let size = 300usize;
    let content = content_of(size);
    let (outboard, root) = encode_outboard(&content);
    let path = extract_path(&outboard, 0, 1).unwrap();
    for bit in 0..size * 8 {
        let mut tampered = content.clone();
        tampered[bit / 8] ^= 1 << (bit % 8);
        let result = verify(&tampered, 0, size as u64, &path, &root).unwrap();
        assert!(!result.valid, "bit {} went unnoticed", bit);
    }
}

#[test]
fn tampered_chunk_bits_rejected_multichunk() {
    let size = 2500usize;
    let content = content_of(size);
    let (outboard, root) = encode_outboard(&content);
    for i in 0..3u64 {
        let path = extract_path(&outboard, i, 3).unwrap();
        let chunk = chunk_of(&content, i);
        for bit in [0usize, 7, 1000, chunk.len() * 8 - 1] {
            let mut tampered = chunk.to_vec();
            tampered[bit / 8] ^= 1 << (bit % 8);
            let result = verify(&tampered, i, size as u64, &path, &root).unwrap();
            assert!(!result.valid, "chunk {} bit {} went unnoticed", i, bit);
        }
    }
}

#[test]
fn tampered_path_sibling_rejected() {
    // Substituting any single sibling hash of the path flips the verdict.
    let size = 5000usize;
    let content = content_of(size);
    let (outboard, root) = encode_outboard(&content);
    let total = count_chunks(size as u64);
    for i in 0..total {
        let clean = extract_path(&outboard, i, total).unwrap();
        let steps = clean.steps.len();
        for s in 0..steps {
            let mut path = extract_path(&outboard, i, total).unwrap();
            path.steps[s].sibling[5] ^= 0xff;
            let result = verify(chunk_of(&content, i), i, size as u64, &path, &root).unwrap();
            assert!(!result.valid, "chunk {} step {} went unnoticed", i, s);
        }
    }
}

#[test]
fn identical_content_identical_root() {
    // Determinism: the same bytes and size always commit to the same root.
    let content_a = content_of(4321);
    let content_b = content_of(4321);
    let (outboard_a, root_a) = encode_outboard(&content_a);
    let (outboard_b, root_b) = encode_outboard(&content_b);
    assert_eq!(root_a, root_b);
    assert_eq!(outboard_a, outboard_b);
}

#[test]
fn exact_multiple_all_chunks_full() {
    // size = CHUNK_SIZE * k: every chunk is exactly CHUNK_SIZE long.
    let size = (CHUNK_SIZE * 4) as usize;
    let content = content_of(size);
    let (outboard, root) = encode_outboard(&content);
    for i in 0..4u64 {
        assert_eq!(chunk_length(size as u64, i), CHUNK_SIZE);
        let chunk = chunk_of(&content, i);
        assert_eq!(chunk.len() as u64, CHUNK_SIZE);
        let path = extract_path(&outboard, i, 4).unwrap();
        assert!(verify(chunk, i, size as u64, &path, &root).unwrap().valid);
    }
}

#[test]
fn remainder_final_chunk_short() {
    // size = CHUNK_SIZE * k + r: the final chunk is exactly r bytes long and
    // is verified with its true short length.
    let size = (CHUNK_SIZE * 2 + 1) as usize;
    let content = content_of(size);
    let (outboard, root) = encode_outboard(&content);
    assert_eq!(chunk_length(size as u64, 2), 1);
    let chunk = chunk_of(&content, 2);
    assert_eq!(chunk.len(), 1);
    let path = extract_path(&outboard, 2, 3).unwrap();
    assert!(verify(chunk, 2, size as u64, &path, &root).unwrap().valid);
}

#[test]
fn single_chunk_empty_path() {
    // size <= CHUNK_SIZE: one chunk, an empty path, and the root-flagged
    // leaf digest must equal the committed root directly.
    for size in [1usize, 500, 1024] {
        let content = content_of(size);
        let (outboard, root) = encode_outboard(&content);
        assert_eq!(count_chunks(size as u64), 1);
        assert_eq!(outboard.len(), 0);
        let path = extract_path(&outboard, 0, 1).unwrap();
        assert_eq!(path.len(), 0);
        assert!(verify(&content, 0, size as u64, &path, &root).unwrap().valid);
    }
}

#[test]
fn oversized_chunk_is_size_mismatch() {
    // A chunk longer than CHUNK_SIZE can never be expected.
    let content = content_of(2500);
    let (outboard, root) = encode_outboard(&content);
    let path = extract_path(&outboard, 0, 3).unwrap();
    let too_long = content_of(1500);
    let err = verify(&too_long, 0, 2500, &path, &root).unwrap_err();
    assert_eq!(err, por_oracle::errors::OracleError::SizeMismatch);
}
