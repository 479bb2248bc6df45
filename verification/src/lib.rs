//! A proof-of-retrievability oracle core: a binary hash tree over fixed-size
//! content chunks, extraction of per-chunk verification paths from a flat
//! outboard buffer, recomputation of the committed root from one chunk, and
//! the random challenge-selection policy.
//!
//! Given a commitment (a 32-byte root digest and a declared byte size) and
//! the bytes a holder hands back for one randomly chosen chunk, the core
//! answers whether that chunk is consistent with the commitment, paying
//! bandwidth proportional to one chunk rather than the whole object. The
//! transport that fetches byte ranges and the store that serves outboard
//! buffers are the caller's collaborators; their outcomes are handed in as
//! plain values.

use vstd::prelude::*;

pub mod bytes;
pub mod coordinator;
pub mod errors;
pub mod hashing;
pub mod hexstr;
pub mod outboard;
pub mod selector;
pub mod shape;
pub mod slice_verifier;
pub mod tree;

pub use shape::CHUNK_SIZE;

verus! {

} // verus!
