//! The mathematical model of the hash tree: subtree digests, the pre-order
//! outboard layout, verification paths read out of an outboard buffer, and
//! the bottom-up fold that recomputes the root digest from one leaf.

use vstd::prelude::*;
use crate::shape::{
    CHUNK_SIZE, num_chunks, chunk_start, chunk_len, left_span, lemma_left_span_bounds,
    lemma_chunk_bounds,
};
use crate::hashing::{leaf_digest, parent_digest};

verus! {

/// Byte length of one stored node entry: two 32-byte child digests.
pub const NODE_SIZE: u64 = 64;

/// One step of a verification path, as specifications see it.
pub struct StepModel {
    /// Digest of the child that the audited chunk's subtree does not lie in.
    pub sibling: Seq<u8>,
    /// True when the audited chunk lies in the left child, so the sibling
    /// digest stands on the right when the parent digest is recomputed.
    pub take_left: bool,
}

/// The bytes of chunk `i` of `content`.
pub open spec fn chunk_bytes(content: Seq<u8>, i: nat) -> Seq<u8> {
    content.subrange(
        chunk_start(i) as int,
        chunk_start(i) + chunk_len(content.len(), i) as int,
    )
}

/// Digest of the subtree covering the `k` chunks starting at chunk `first`,
/// hashed with the root flag `is_root`.
pub open spec fn span_digest(content: Seq<u8>, first: nat, k: nat, is_root: bool) -> Seq<u8>
    decreases k,
{
    if k <= 1 {
        leaf_digest(chunk_bytes(content, first), first as u64, is_root)
    } else {
        proof {
            lemma_left_span_bounds(k);
        }
        let kl = left_span(k);
        parent_digest(
            span_digest(content, first, kl, false),
            span_digest(content, (first + kl) as nat, (k - kl) as nat, false),
            is_root,
        )
    }
}

/// The committed root digest of a content object.
pub open spec fn root_digest(content: Seq<u8>) -> Seq<u8> {
    span_digest(content, 0, num_chunks(content.len()), true)
}

/// Number of stored node entries for a span of `k` chunks: one per internal
/// node, so `k - 1`; leaves store nothing.
pub open spec fn node_count(k: nat) -> nat {
    if k == 0 {
        0
    } else {
        (k - 1) as nat
    }
}

/// Exact byte length of an outboard buffer describing `k` chunks.
pub open spec fn outboard_len(k: nat) -> nat {
    (NODE_SIZE as nat) * node_count(k)
}

/// The buffer region starting at byte `off` holds, in pre-order, the node
/// entries of the subtree covering the `k` chunks starting at chunk `first`
/// of `content`: the entry of each internal node stores its left child's
/// digest followed by its right child's digest.
pub open spec fn span_encoded(buf: Seq<u8>, off: nat, content: Seq<u8>, first: nat, k: nat) -> bool
    decreases k,
{
    if k <= 1 {
        true
    } else {
        proof {
            lemma_left_span_bounds(k);
        }
        let kl = left_span(k);
        let kr = (k - kl) as nat;
        &&& buf.subrange(off as int, off as int + 32) == span_digest(content, first, kl, false)
        &&& buf.subrange(off as int + 32, off as int + 64) == span_digest(
            content,
            (first + kl) as nat,
            kr,
            false,
        )
        &&& span_encoded(buf, (off + 64) as nat, content, first, kl)
        &&& span_encoded(buf, (off + 64 * kl) as nat, content, (first + kl) as nat, kr)
    }
}

/// The buffer is exactly the outboard encoding of `content`: the right
/// length, holding the node entries of the whole tree.
pub open spec fn outboard_encodes(buf: Seq<u8>, content: Seq<u8>) -> bool {
    let n = num_chunks(content.len());
    &&& buf.len() == outboard_len(n)
    &&& span_encoded(buf, 0, content, 0, n)
}

/// The verification path for chunk `i`, read out of the buffer region that
/// starts at byte `off` and describes the `k` chunks starting at chunk
/// `first`. Ordered from the leaf up to the root: the step contributed by
/// the deepest node comes first.
pub open spec fn span_path(buf: Seq<u8>, off: nat, first: nat, k: nat, i: nat) -> Seq<StepModel>
    decreases k,
{
    if k <= 1 {
        Seq::empty()
    } else {
        proof {
            lemma_left_span_bounds(k);
        }
        let kl = left_span(k);
        if i < first + kl {
            span_path(buf, (off + 64) as nat, first, kl, i) + seq![
                StepModel { sibling: buf.subrange(off as int + 32, off as int + 64), take_left: true },
            ]
        } else {
            span_path(buf, (off + 64 * kl) as nat, (first + kl) as nat, (k - kl) as nat, i)
                + seq![
                StepModel { sibling: buf.subrange(off as int, off as int + 32), take_left: false },
            ]
        }
    }
}

/// One fold step: recompute the parent digest from the running digest and
/// the sibling, each on the side it occupied in the tree.
pub open spec fn combine(h: Seq<u8>, step: StepModel, is_root: bool) -> Seq<u8> {
    if step.take_left {
        parent_digest(h, step.sibling, is_root)
    } else {
        parent_digest(step.sibling, h, is_root)
    }
}

/// Folds a verification path bottom-up over a starting digest. When
/// `root_at_end` is set the final fold uses the root flag; every other fold
/// does not.
pub open spec fn fold_path(h: Seq<u8>, path: Seq<StepModel>, root_at_end: bool) -> Seq<u8>
    decreases path.len(),
{
    if path.len() == 0 {
        h
    } else {
        fold_path(
            combine(h, path[0], root_at_end && path.len() == 1),
            path.drop_first(),
            root_at_end,
        )
    }
}

/// Folding a path extended by one final step is folding the path without the
/// root flag and then combining once with it.
proof fn lemma_fold_snoc(h: Seq<u8>, path: Seq<StepModel>, step: StepModel, root_at_end: bool)
    ensures
        fold_path(h, path.push(step), root_at_end) == combine(
            fold_path(h, path, false),
            step,
            root_at_end,
        ),
    decreases path.len(),
{
    let p2 = path.push(step);
    if path.len() == 0 {
        assert(p2.drop_first() =~= Seq::<StepModel>::empty());
        assert(p2[0] == step);
        assert(fold_path(h, p2, root_at_end) == fold_path(
            combine(h, step, root_at_end),
            p2.drop_first(),
            root_at_end,
        ));
        assert(fold_path(combine(h, step, root_at_end), p2.drop_first(), root_at_end) == combine(
            h,
            step,
            root_at_end,
        ));
    } else {
        assert(p2[0] == path[0]);
        assert(p2.drop_first() =~= path.drop_first().push(step));
        lemma_fold_snoc(combine(h, path[0], false), path.drop_first(), step, root_at_end);
    }
}

/// Folding the genuine path of chunk `i` over the genuine leaf digest
/// reproduces the subtree's digest, for any subtree of a correctly encoded
/// outboard buffer.
proof fn lemma_span_fold(
    buf: Seq<u8>,
    off: nat,
    content: Seq<u8>,
    first: nat,
    k: nat,
    i: nat,
    is_root: bool,
)
    requires
        1 <= k,
        first <= i < first + k,
        span_encoded(buf, off, content, first, k),
    ensures
        fold_path(
            leaf_digest(chunk_bytes(content, i), i as u64, is_root && k == 1),
            span_path(buf, off, first, k, i),
            is_root,
        ) == span_digest(content, first, k, is_root),
    decreases k,
{
    if k > 1 {
        lemma_left_span_bounds(k);
        let kl = left_span(k);
        let kr = (k - kl) as nat;
        let leaf = leaf_digest(chunk_bytes(content, i), i as u64, false);
        if i < first + kl {
            lemma_span_fold(buf, (off + 64) as nat, content, first, kl, i, false);
            let sub = span_path(buf, (off + 64) as nat, first, kl, i);
            let step = StepModel {
                sibling: buf.subrange(off as int + 32, off as int + 64),
                take_left: true,
            };
            assert(sub + seq![step] =~= sub.push(step));
            lemma_fold_snoc(leaf, sub, step, is_root);
        } else {
            lemma_span_fold(buf, (off + 64 * kl) as nat, content, (first + kl) as nat, kr, i, false);
            let sub = span_path(buf, (off + 64 * kl) as nat, (first + kl) as nat, kr, i);
            let step = StepModel {
                sibling: buf.subrange(off as int, off as int + 32),
                take_left: false,
            };
            assert(sub + seq![step] =~= sub.push(step));
            lemma_fold_snoc(leaf, sub, step, is_root);
        }
    }
}

/// For any content and any chunk index `i` below the chunk count: if the
/// outboard buffer encodes the content's tree and the chunk bytes are the
/// content's own, folding the extracted verification path over the chunk's
/// leaf digest yields exactly the committed root digest.
pub proof fn lemma_honest_chunk_folds_to_root(buf: Seq<u8>, content: Seq<u8>, i: nat)
    requires
        1 <= content.len(),
        i < num_chunks(content.len()),
        outboard_encodes(buf, content),
    ensures
        fold_path(
            leaf_digest(chunk_bytes(content, i), i as u64, num_chunks(content.len()) == 1),
            span_path(buf, 0, 0, num_chunks(content.len()), i),
            true,
        ) == root_digest(content),
{
    lemma_span_fold(buf, 0, content, 0, num_chunks(content.len()), i, true);
}

/// Single-chunk content: there is exactly one chunk, the outboard buffer is
/// empty, the verification path is empty, and the committed root is the
/// root-flagged leaf digest of the whole content.
pub proof fn lemma_single_chunk(buf: Seq<u8>, content: Seq<u8>)
    requires
        1 <= content.len() <= CHUNK_SIZE,
        outboard_encodes(buf, content),
    ensures
        num_chunks(content.len()) == 1,
        buf.len() == 0,
        span_path(buf, 0, 0, num_chunks(content.len()), 0) == Seq::<StepModel>::empty(),
        chunk_bytes(content, 0) == content,
        root_digest(content) == leaf_digest(content, 0, true),
{
    let size = content.len();
    assert((size - 1) / (CHUNK_SIZE as int) == 0) by {
        vstd::arithmetic::div_mod::lemma_basic_div(size - 1, CHUNK_SIZE as int);
    }
    lemma_chunk_bounds(size, 0);
    assert(chunk_bytes(content, 0) =~= content);
}

/// The committed root digest and the tree shape are functions of the content
/// and its size alone: identical content always yields an identical root and
/// identical chunking.
pub proof fn lemma_root_deterministic(c1: Seq<u8>, c2: Seq<u8>)
    requires
        c1 == c2,
    ensures
        root_digest(c1) == root_digest(c2),
        num_chunks(c1.len()) == num_chunks(c2.len()),
        forall|i: nat| chunk_bytes(c1, i) == chunk_bytes(c2, i),
{
}

} // verus!
