//! Recomputing the committed root digest from one retrieved chunk and its
//! verification path.

use vstd::prelude::*;
use crate::bytes::bytes_eq;
use crate::errors::{OracleError, VerificationResult};
use crate::hashing::{hash_leaf, hash_parent, leaf_digest};
use crate::outboard::VerificationPath;
use crate::shape::{chunk_len, chunk_length, count_chunks, num_chunks};
use crate::tree::{combine, fold_path, StepModel};

verus! {

/// Recomputes a root digest from the retrieved chunk bytes and the chunk's
/// verification path, and compares it to the claimed commitment.
///
/// Returns `SizeMismatch` exactly when the chunk's length is not the
/// expected length for `chunk_index` under the declared `size`. Otherwise
/// the answer is `valid` exactly when folding the path bottom-up over the
/// chunk's leaf digest — the root flag used only on the leaf of single-chunk
/// content and on the final fold — reproduces `root_hash`.
pub fn verify(
    chunk: &[u8],
    chunk_index: u64,
    size: u64,
    path: &VerificationPath,
    root_hash: &[u8],
) -> (r: Result<VerificationResult, OracleError>)
    requires
        1 <= size,
        (chunk_index as nat) < num_chunks(size as nat),
        path.wf(),
    ensures
        match r {
            Ok(v) => {
                &&& chunk@.len() == chunk_len(size as nat, chunk_index as nat)
                &&& v.valid == (fold_path(
                    leaf_digest(chunk@, chunk_index, num_chunks(size as nat) == 1),
                    path@,
                    true,
                ) == root_hash@)
            },
            Err(e) => {
                &&& e == OracleError::SizeMismatch
                &&& chunk@.len() != chunk_len(size as nat, chunk_index as nat)
            },
        },
{
    let total = count_chunks(size);
    let expected = chunk_length(size, chunk_index);
    if chunk.len() as u64 != expected {
        return Err(OracleError::SizeMismatch);
    }
    let ghost start = leaf_digest(chunk@, chunk_index, num_chunks(size as nat) == 1);
    let mut h = hash_leaf(chunk, chunk_index, total == 1);
    let n = path.steps.len();
    proof {
        assert(path@.subrange(0, n as int) =~= path@);
    }
    let mut j: usize = 0;
    while j < n
        invariant
            n == path@.len(),
            j <= n,
            path.wf(),
            h@.len() == 32,
            fold_path(start, path@, true) == fold_path(
                h@,
                path@.subrange(j as int, n as int),
                true,
            ),
        decreases n - j,
    {
        let step = &path.steps[j];
        let last = j + 1 == n;
        let ghost rem = path@.subrange(j as int, n as int);
        let h2 = if step.take_left {
            hash_parent(h.as_slice(), step.sibling.as_slice(), last)
        } else {
            hash_parent(step.sibling.as_slice(), h.as_slice(), last)
        };
        proof {
            assert(rem[0] == path@[j as int]);
            assert(h2@ == combine(h@, path@[j as int], last));
            assert(rem.drop_first() =~= path@.subrange((j + 1) as int, n as int));
        }
        h = h2;
        j = j + 1;
    }
    proof {
        assert(path@.subrange(n as int, n as int) =~= Seq::<StepModel>::empty());
    }
    let valid = bytes_eq(h.as_slice(), root_hash);
    Ok(VerificationResult { valid })
}

} // verus!
