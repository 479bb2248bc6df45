//! Orchestration of one audit: validate the commitment, select the
//! challenge, and — once the caller has fetched the chunk bytes and the
//! outboard buffer from its collaborators — extract the verification path
//! and answer the audit question.
//!
//! The fetches themselves are the caller's: they are issued between
//! `begin_audit` and `complete_audit`, independently of each other, and
//! their outcomes are handed in as plain results. Collaborator failures map
//! to `RetrievalFailure` (content) and `ProofStorageFailure` (outboard or a
//! buffer that does not fit the declared size); a cryptographic mismatch is
//! not an error but a successful answer carrying `valid = false`.

use vstd::prelude::*;
use crate::errors::{CodecError, FetchError, OracleError, VerificationResult};
use crate::hashing::leaf_digest;
use crate::hexstr::{decode_hex_digest, hex_decoded, is_hex_digest};
use crate::outboard::extract_path;
use crate::selector::{select, Challenge};
use crate::shape::{chunk_len, count_chunks, num_chunks, CHUNK_SIZE};
use crate::slice_verifier::verify;
use crate::tree::{fold_path, outboard_len, span_path};

verus! {

/// The commitment record as collaborators store it: a content key, the
/// committed root digest in hexadecimal, and the declared byte size.
pub struct MetaData {
    pub cid: String,
    pub hash: String,
    pub size: usize,
}

impl MetaData {
    /// Parses the stored record into a commitment: the hexadecimal hash
    /// becomes the 32-byte root digest. Fails with `InvalidInput` exactly
    /// when the hash is not the hexadecimal spelling of a 32-byte digest (a
    /// malformed commitment).
    pub fn to_commitment(&self) -> (r: Result<Commitment, OracleError>)
        ensures
            match r {
                Ok(c) => {
                    &&& is_hex_digest(self.hash@)
                    &&& c.root_hash@ == hex_decoded(self.hash@)
                    &&& c.size == self.size
                    &&& c.wf()
                },
                Err(e) => {
                    &&& e == OracleError::InvalidInput
                    &&& !is_hex_digest(self.hash@)
                },
            },
    {
        match decode_hex_digest(self.hash.as_str()) {
            Ok(root_hash) => Ok(Commitment { root_hash, size: self.size as u64 }),
            Err(e) => Err(e),
        }
    }
}

/// A content commitment: the committed root digest and the declared size.
/// Immutable once created; this core only reads it.
#[derive(Debug)]
pub struct Commitment {
    /// The committed 32-byte root digest.
    pub root_hash: Vec<u8>,
    /// Declared byte size of the content object.
    pub size: u64,
}

impl Commitment {
    /// The root digest is a whole 32-byte digest.
    pub open spec fn wf(&self) -> bool {
        self.root_hash@.len() == 32
    }

    /// Builds a commitment, rejecting a digest of the wrong width with
    /// `InvalidInput` (a malformed commitment), and nothing else.
    pub fn new(root_hash: Vec<u8>, size: u64) -> (r: Result<Commitment, OracleError>)
        ensures
            match r {
                Ok(c) => {
                    &&& root_hash@.len() == 32
                    &&& c.root_hash@ == root_hash@
                    &&& c.size == size
                    &&& c.wf()
                },
                Err(e) => {
                    &&& e == OracleError::InvalidInput
                    &&& root_hash@.len() != 32
                },
            },
    {
        if root_hash.len() != 32 {
            return Err(OracleError::InvalidInput);
        }
        Ok(Commitment { root_hash, size })
    }
}

/// First phase of an audit: validate the commitment's size and select the
/// chunk-aligned challenge from the supplied random draw. Fails with
/// `InvalidInput` exactly when the declared size is zero, before any fetch
/// is issued.
pub fn begin_audit(commitment: &Commitment, draw: u64) -> (r: Result<Challenge, OracleError>)
    ensures
        match r {
            Ok(c) => {
                &&& 1 <= commitment.size
                &&& c.audits(
                    commitment.size as nat,
                    (draw as nat) % num_chunks(commitment.size as nat),
                )
            },
            Err(e) => {
                &&& e == OracleError::InvalidInput
                &&& commitment.size == 0
            },
        },
{
    select(commitment.size, draw)
}

/// Second phase of an audit, after both fetches have resolved: map fetch
/// failures to their own error kinds, extract the chunk's verification path
/// from the outboard buffer, and recompute the root from the fetched chunk.
///
/// For every combination of fetch outcomes the result is pinned down: a
/// failed content fetch answers `RetrievalFailure`; a failed outboard fetch,
/// or a buffer whose length does not fit the declared size, answers
/// `ProofStorageFailure`; a chunk of the wrong length answers
/// `SizeMismatch`; otherwise the audit succeeds and is `valid` exactly when
/// folding the extracted path over the chunk's leaf digest reproduces the
/// committed root.
pub fn complete_audit(
    commitment: &Commitment,
    challenge: &Challenge,
    content: Result<Vec<u8>, FetchError>,
    outboard: Result<Vec<u8>, FetchError>,
) -> (r: Result<VerificationResult, OracleError>)
    requires
        commitment.wf(),
        1 <= commitment.size,
        exists|i: nat|
            i < num_chunks(commitment.size as nat) && challenge.audits(
                commitment.size as nat,
                i,
            ),
    ensures
        ({
            let size = commitment.size as nat;
            let n = num_chunks(size);
            let i = challenge.chunk_index();
            match (content, outboard) {
                (Err(_), _) => r == Err::<VerificationResult, OracleError>(
                    OracleError::RetrievalFailure,
                ),
                (Ok(_), Err(_)) => r == Err::<VerificationResult, OracleError>(
                    OracleError::ProofStorageFailure,
                ),
                (Ok(chunk), Ok(buf)) => {
                    if buf@.len() != outboard_len(n) {
                        r == Err::<VerificationResult, OracleError>(
                            OracleError::ProofStorageFailure,
                        )
                    } else if chunk@.len() != chunk_len(size, i) {
                        r == Err::<VerificationResult, OracleError>(OracleError::SizeMismatch)
                    } else {
                        match r {
                            Ok(v) => v.valid == (fold_path(
                                leaf_digest(chunk@, i as u64, n == 1),
                                span_path(buf@, 0, 0, n, i),
                                true,
                            ) == commitment.root_hash@),
                            Err(_) => false,
                        }
                    }
                },
            }
        }),
{
    let chunk = match content {
        Ok(c) => c,
        Err(_) => {
            return Err(OracleError::RetrievalFailure);
        },
    };
    let buf = match outboard {
        Ok(o) => o,
        Err(_) => {
            return Err(OracleError::ProofStorageFailure);
        },
    };
    let total = count_chunks(commitment.size);
    let index = challenge.offset / CHUNK_SIZE;
    proof {
        let size = commitment.size as nat;
        let i = choose|i: nat|
            i < num_chunks(size) && challenge.audits(size, i);
        assert(challenge.offset == (i as int) * (CHUNK_SIZE as int));
        vstd::arithmetic::div_mod::lemma_div_multiples_vanish(
            i as int,
            CHUNK_SIZE as int,
        );
        assert((CHUNK_SIZE as int) * (i as int) == (i as int) * (CHUNK_SIZE as int))
            by (nonlinear_arith);
        assert(challenge.chunk_index() == i);
    }
    let path = match extract_path(buf.as_slice(), index, total) {
        Ok(p) => p,
        Err(CodecError::CorruptOutboard) => {
            return Err(OracleError::ProofStorageFailure);
        },
    };
    verify(
        chunk.as_slice(),
        index,
        commitment.size,
        &path,
        commitment.root_hash.as_slice(),
    )
}

} // verus!
