//! Locating and extracting a chunk's verification path from a flat outboard
//! buffer.
//!
//! The buffer is a pre-order traversal of the tree's internal nodes, each
//! entry holding the 32-byte digests of its two children; leaves store
//! nothing. The walk starts at the root entry, descends towards the audited
//! chunk and collects the digest of the child it does not descend into.

use vstd::prelude::*;
use crate::bytes::copy_range;
use crate::errors::CodecError;
use crate::shape::MAX_SPAN;
use crate::tree::{outboard_len, span_path, StepModel};

verus! {

/// One step of a verification path.
#[derive(Debug)]
pub struct PathStep {
    /// Digest of the subtree the audited chunk does not lie in.
    pub sibling: Vec<u8>,
    /// True when the audited chunk lies in the left child, so the sibling
    /// stands on the right when the parent digest is recomputed.
    pub take_left: bool,
}

impl View for PathStep {
    type V = StepModel;

    open spec fn view(&self) -> StepModel {
        StepModel { sibling: self.sibling@, take_left: self.take_left }
    }
}

/// The models of a sequence of path steps.
pub open spec fn path_view(steps: Seq<PathStep>) -> Seq<StepModel> {
    steps.map_values(|s: PathStep| s@)
}

/// The sibling digests and directions needed to recompute the root from one
/// chunk's leaf digest, ordered from the leaf up to the root.
#[derive(Debug)]
pub struct VerificationPath {
    pub steps: Vec<PathStep>,
}

impl View for VerificationPath {
    type V = Seq<StepModel>;

    open spec fn view(&self) -> Seq<StepModel> {
        path_view(self.steps@)
    }
}

impl VerificationPath {
    /// Every sibling is a whole 32-byte digest.
    pub open spec fn wf(&self) -> bool {
        forall|j: int| 0 <= j < self@.len() ==> (#[trigger] self@[j].sibling).len() == 32
    }

    /// Number of steps in the path.
    pub fn len(&self) -> (n: usize)
        ensures
            n == self@.len(),
    {
        self.steps.len()
    }
}

/// Exact byte length an outboard buffer must have for `total_chunks` chunks:
/// one 64-byte entry per internal node.
pub fn expected_outboard_len(total_chunks: u64) -> (r: u64)
    requires
        total_chunks <= MAX_SPAN,
    ensures
        r == outboard_len(total_chunks as nat),
{
    if total_chunks == 0 {
        0
    } else {
        64 * (total_chunks - 1)
    }
}

/// Walks the outboard buffer from the root entry down to the leaf of
/// `chunk_index` and collects the verification path: at each node the digest
/// of the child not descended into, and the direction taken.
///
/// Returns `CorruptOutboard` exactly when the buffer's length is not the
/// length implied by `total_chunks`, in which case some node access implied
/// by the walk could fall outside it.
pub fn extract_path(buffer: &[u8], chunk_index: u64, total_chunks: u64) -> (r: Result<
    VerificationPath,
    CodecError,
>)
    requires
        1 <= total_chunks <= MAX_SPAN,
        chunk_index < total_chunks,
    ensures
        match r {
            Ok(path) => {
                &&& buffer@.len() == outboard_len(total_chunks as nat)
                &&& path@ == span_path(
                    buffer@,
                    0,
                    0,
                    total_chunks as nat,
                    chunk_index as nat,
                )
                &&& path.wf()
            },
            Err(e) => {
                &&& e == CodecError::CorruptOutboard
                &&& buffer@.len() != outboard_len(total_chunks as nat)
            },
        },
{
    let expected = expected_outboard_len(total_chunks);
    if buffer.len() as u64 != expected {
        return Err(CodecError::CorruptOutboard);
    }
    let ghost full_path = span_path(buffer@, 0, 0, total_chunks as nat, chunk_index as nat);
    let mut steps: Vec<PathStep> = Vec::new();
    let mut off: u64 = 0;
    let mut first: u64 = 0;
    let mut k: u64 = total_chunks;
    while k > 1
        invariant
            1 <= k <= total_chunks <= MAX_SPAN,
            chunk_index < total_chunks,
            first <= chunk_index < first + k,
            off + 64 * (k - 1) <= buffer@.len(),
            buffer@.len() <= usize::MAX,
            full_path == span_path(
                buffer@,
                off as nat,
                first as nat,
                k as nat,
                chunk_index as nat,
            ) + path_view(steps@),
            forall|j: int|
                0 <= j < steps@.len() ==> (#[trigger] steps@[j]).sibling@.len() == 32,
        decreases k,
    {
        let ghost prev_steps = steps@;
        let ghost prev_off = off as nat;
        let ghost prev_first = first as nat;
        let ghost prev_k = k as nat;
        let kl = crate::shape::split_left(k);
        if chunk_index < first + kl {
            let sibling = copy_range(buffer, (off + 32) as usize, (off + 64) as usize);
            steps.insert(0, PathStep { sibling, take_left: true });
            off = off + 64;
            k = kl;
        } else {
            let sibling = copy_range(buffer, off as usize, (off + 32) as usize);
            steps.insert(0, PathStep { sibling, take_left: false });
            off = off + 64 * kl;
            first = first + kl;
            k = k - kl;
        }
        proof {
            let ci = chunk_index as nat;
            let step_model = steps@[0]@;
            assert(path_view(steps@) =~= seq![step_model] + path_view(prev_steps));
            assert(span_path(buffer@, prev_off, prev_first, prev_k, ci) == span_path(
                buffer@,
                off as nat,
                first as nat,
                k as nat,
                ci,
            ) + seq![step_model]);
            assert(span_path(buffer@, prev_off, prev_first, prev_k, ci) + path_view(prev_steps)
                =~= span_path(buffer@, off as nat, first as nat, k as nat, ci) + path_view(
                steps@,
            ));
        }
    }
    proof {
        assert(span_path(buffer@, off as nat, first as nat, k as nat, chunk_index as nat)
            =~= Seq::<StepModel>::empty());
        assert(full_path =~= path_view(steps@));
    }
    Ok(VerificationPath { steps })
}

} // verus!
