//! Checks of challenge selection and of whole-audit orchestration.

use por_oracle::coordinator::{begin_audit, complete_audit, Commitment, MetaData};
use por_oracle::errors::{FetchError, OracleError};
use por_oracle::outboard::extract_path;
use por_oracle::selector::{select, select_random};
use por_oracle::shape::CHUNK_SIZE;

fn content_of(size: usize) -> Vec<u8> {
    let mut v = Vec::with_capacity(size);
    let mut x: u32 = 0x9e3779b9;
    for _ in 0..size {
        x = x.wrapping_mul(1664525).wrapping_add(1013904223);
        v.push((x >> 24) as u8);
    }
    v
}

fn encode_outboard(content: &[u8]) -> (Vec<u8>, [u8; 32]) {
    let (full, hash) = bao::encode::outboard(content);
    (full[8..].to_vec(), *hash.as_bytes())
}

fn slice_for(content: &[u8], offset: u64, length: u64) -> Vec<u8> {
    content[offset as usize..(offset + length) as usize].to_vec()
}

#[test]
fn select_scenario_offsets() {
    // size 2500: three chunks, offsets only {0, 1024, 2048}, and the final
    // offset carries the short length 452.
    for draw in 0..12u64 {
        let c = select(2500, draw).unwrap();
        assert!(c.offset == 0 || c.offset == 1024 || c.offset == 2048);
        if c.offset == 2048 {
            assert_eq!(c.length, 452);
        } else {
            assert_eq!(c.length, CHUNK_SIZE);
        }
    }
}

#[test]
fn select_exact_draws() {
    let c = select(2500, 5).unwrap();
    assert_eq!(c.offset, 2048);
    assert_eq!(c.length, 452);
    let c = select(2500, 3).unwrap();
    assert_eq!(c.offset, 0);
    assert_eq!(c.length, 1024);
}

#[test]
fn select_zero_size_invalid() {
    // size = 0 fails before any fetch could be issued.
    assert_eq!(select(0, 0).unwrap_err(), OracleError::InvalidInput);
    assert_eq!(select_random(0).unwrap_err(), OracleError::InvalidInput);
}

#[test]
fn select_random_stays_aligned() {
    for _ in 0..50 {
        let c = select_random(2500).unwrap();
        assert!(c.offset == 0 || c.offset == 1024 || c.offset == 2048);
        assert_eq!(
            c.length,
            if c.offset == 2048 { 452 } else { 1024 }
        );
    }
}

#[test]
fn begin_audit_zero_size_invalid() {
    let commitment = Commitment { root_hash: vec![0u8; 32], size: 0 };
    assert_eq!(begin_audit(&commitment, 9).unwrap_err(), OracleError::InvalidInput);
}

#[test]
fn audit_accepts_honest_holder() {
    let content = content_of(2500);
    let (outboard, root) = encode_outboard(&content);
    let commitment = Commitment { root_hash: root.to_vec(), size: 2500 };
    for draw in 0..3u64 {
        let challenge = begin_audit(&commitment, draw).unwrap();
        let chunk = slice_for(&content, challenge.offset, challenge.length);
        let verdict = complete_audit(
            &commitment,
            &challenge,
            Ok(chunk),
            Ok(outboard.clone()),
        )
        .unwrap();
        assert!(verdict.valid);
    }
}

#[test]
fn audit_rejects_wrong_bytes() {
    let content = content_of(2500);
    let (outboard, root) = encode_outboard(&content);
    let commitment = Commitment { root_hash: root.to_vec(), size: 2500 };
    let challenge = begin_audit(&commitment, 1).unwrap();
    let mut chunk = slice_for(&content, challenge.offset, challenge.length);
    chunk[17] ^= 0x40;
    let verdict = complete_audit(&commitment, &challenge, Ok(chunk), Ok(outboard)).unwrap();
    assert!(!verdict.valid);
}

#[test]
fn content_failure_is_retrieval_failure() {
    let content = content_of(2500);
    let (outboard, root) = encode_outboard(&content);
    let commitment = Commitment { root_hash: root.to_vec(), size: 2500 };
    let challenge = begin_audit(&commitment, 0).unwrap();
    let err = complete_audit(
        &commitment,
        &challenge,
        Err(FetchError::NotFound),
        Ok(outboard),
    )
    .unwrap_err();
    assert_eq!(err, OracleError::RetrievalFailure);
}

#[test]
fn outboard_failure_is_proof_storage_failure() {
    let content = content_of(2500);
    let (_, root) = encode_outboard(&content);
    let commitment = Commitment { root_hash: root.to_vec(), size: 2500 };
    let challenge = begin_audit(&commitment, 0).unwrap();
    let chunk = slice_for(&content, challenge.offset, challenge.length);
    let err = complete_audit(
        &commitment,
        &challenge,
        Ok(chunk),
        Err(FetchError::IoFailure),
    )
    .unwrap_err();
    assert_eq!(err, OracleError::ProofStorageFailure);
}

#[test]
fn truncated_outboard_is_proof_storage_failure() {
    // Declared size 10000 implies nine node entries; anything shorter is a
    // corrupt proof, answered as a metadata problem.
    let content = content_of(10000);
    let (outboard, root) = encode_outboard(&content);
    let commitment = Commitment { root_hash: root.to_vec(), size: 10000 };
    let challenge = begin_audit(&commitment, 4).unwrap();
    let chunk = slice_for(&content, challenge.offset, challenge.length);
    let truncated = outboard[..outboard.len() - 64].to_vec();
    let err = complete_audit(&commitment, &challenge, Ok(chunk), Ok(truncated)).unwrap_err();
    assert_eq!(err, OracleError::ProofStorageFailure);
}

#[test]
fn truncated_outboard_fails_extraction() {
    let content = content_of(10000);
    let (outboard, _) = encode_outboard(&content);
    assert_eq!(outboard.len(), 64 * 9);
    let truncated = &outboard[..outboard.len() - 1];
    assert_eq!(
        extract_path(truncated, 0, 10).unwrap_err(),
        por_oracle::errors::CodecError::CorruptOutboard
    );
}

#[test]
fn error_kinds_describe_themselves() {
    assert_eq!(OracleError::InvalidInput.describe(), "invalid input");
    assert_eq!(OracleError::RetrievalFailure.describe(), "content retrieval failed");
    assert_eq!(OracleError::ProofStorageFailure.describe(), "proof storage failed");
    assert_eq!(OracleError::SizeMismatch.describe(), "chunk size mismatch");
    assert_eq!(OracleError::InternalOverflow.describe(), "internal overflow");
}

#[test]
fn short_chunk_is_size_mismatch() {
    // The collaborator hands back 500 bytes for a requested 1024-byte
    // non-final chunk: a contract violation, not a verdict.
    let content = content_of(2500);
    let (outboard, root) = encode_outboard(&content);
    let commitment = Commitment { root_hash: root.to_vec(), size: 2500 };
    let challenge = begin_audit(&commitment, 0).unwrap();
    assert_eq!(challenge.length, 1024);
    let short = slice_for(&content, challenge.offset, 500);
    let err = complete_audit(&commitment, &challenge, Ok(short), Ok(outboard)).unwrap_err();
    assert_eq!(err, OracleError::SizeMismatch);
}

#[test]
fn commitment_new_rejects_bad_width() {
    assert_eq!(
        Commitment::new(vec![0u8; 31], 10).unwrap_err(),
        OracleError::InvalidInput
    );
    let c = Commitment::new(vec![7u8; 32], 10).unwrap();
    assert_eq!(c.root_hash, vec![7u8; 32]);
    assert_eq!(c.size, 10);
}

#[test]
fn metadata_parses_to_commitment() {
    let content = content_of(2500);
    let (_, root) = encode_outboard(&content);
    let meta = MetaData {
        cid: String::from("bafybeigiysh5xsklm4hailn25bl6ezshkzmtsewo6vbdwjvrpg7lqhz4ae"),
        hash: hex::encode(root),
        size: 2500,
    };
    let commitment = meta.to_commitment().unwrap();
    assert_eq!(commitment.root_hash, root.to_vec());
    assert_eq!(commitment.size, 2500);
}

#[test]
fn metadata_rejects_malformed_hash() {
    for bad in [
        String::from(""),
        String::from("abcd"),
        "g".repeat(64),
        "a".repeat(63),
        "a".repeat(65),
        format!("{}\u{00e9}", "a".repeat(62)),
    ] {
        let meta = MetaData { cid: String::new(), hash: bad, size: 5 };
        assert_eq!(meta.to_commitment().unwrap_err(), OracleError::InvalidInput);
    }
}

#[test]
fn metadata_hash_case_insensitive() {
    let meta_lower = MetaData { cid: String::new(), hash: String::from("0f".repeat(32)), size: 1 };
    let meta_upper = MetaData { cid: String::new(), hash: String::from("0F".repeat(32)), size: 1 };
    assert_eq!(
        meta_lower.to_commitment().unwrap().root_hash,
        meta_upper.to_commitment().unwrap().root_hash
    );
    assert_eq!(meta_lower.to_commitment().unwrap().root_hash, vec![0x0fu8; 32]);
}
