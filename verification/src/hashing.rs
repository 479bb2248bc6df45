//! Domain-separated hashing of leaves and internal nodes.
//!
//! The digests themselves come from the BLAKE3 tree-hashing primitives; this
//! module names their results and states only what the primitive's
//! documentation gives: a digest is a function of the hashed bytes, the
//! domain-separation inputs (chunk index, root flag), and nothing else, and
//! is always 32 bytes long.

use vstd::prelude::*;
use crate::shape::CHUNK_SIZE;

verus! {

/// Number of bytes in a digest.
pub const HASH_SIZE: u64 = 32;

/// Digest of one leaf: the chunk's exact bytes, domain-separated by the
/// chunk's index and by whether this leaf is itself the tree root.
pub uninterp spec fn leaf_digest(chunk: Seq<u8>, chunk_index: u64, is_root: bool) -> Seq<u8>;

/// Digest of one internal node: the concatenated child digests,
/// domain-separated by whether this node is the tree root.
pub uninterp spec fn parent_digest(left: Seq<u8>, right: Seq<u8>, is_root: bool) -> Seq<u8>;

/// Relies on `blake3::guts::ChunkState`: `new(chunk_index)` starts a chunk
/// whose counter is the chunk's index, `update` absorbs at most one chunk of
/// bytes, and `finalize(is_root)` yields a 32-byte digest that depends on
/// those inputs alone. Root finalization is only defined for the chunk at
/// counter zero (the single-chunk tree), so the root flag is only admitted
/// there.
#[allow(deprecated)]
#[verifier::external_body]
pub(crate) fn hash_leaf(chunk: &[u8], chunk_index: u64, is_root: bool) -> (r: Vec<u8>)
    requires
        chunk@.len() <= CHUNK_SIZE,
        is_root ==> chunk_index == 0,
    ensures
        r@ == leaf_digest(chunk@, chunk_index, is_root),
        r@.len() == HASH_SIZE,
{
    let mut state = blake3::guts::ChunkState::new(chunk_index);
    state.update(chunk);
    state.finalize(is_root).as_bytes().to_vec()
}

/// Relies on `blake3::guts::parent_cv`: the 32-byte digest of an internal
/// node depends on the two 32-byte child digests and the root flag alone.
#[allow(deprecated)]
#[verifier::external_body]
pub(crate) fn hash_parent(left: &[u8], right: &[u8], is_root: bool) -> (r: Vec<u8>)
    requires
        left@.len() == HASH_SIZE,
        right@.len() == HASH_SIZE,
    ensures
        r@ == parent_digest(left@, right@, is_root),
        r@.len() == HASH_SIZE,
{
    let left_hash = blake3::Hash::from_bytes(left.try_into().unwrap());
    let right_hash = blake3::Hash::from_bytes(right.try_into().unwrap());
    blake3::guts::parent_cv(&left_hash, &right_hash, is_root)
        .as_bytes()
        .to_vec()
}

} // verus!
