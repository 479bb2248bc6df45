//! Random, chunk-aligned challenge selection.
//!
//! The randomness is an explicit input: `select` takes a draw and is a pure
//! function of it, so callers (and tests) can supply deterministic values;
//! `select_random` draws one fresh value and hands it to `select`.

use vstd::prelude::*;
use crate::errors::OracleError;
use crate::shape::{
    CHUNK_SIZE, chunk_len, chunk_start, chunk_length, count_chunks, lemma_chunk_bounds,
    num_chunks,
};

verus! {

/// A chunk-aligned byte range to audit: one whole chunk of the content.
#[derive(Clone, Copy, Debug, PartialEq, Eq, Structural)]
pub struct Challenge {
    /// Byte offset of the audited chunk: its index times `CHUNK_SIZE`.
    pub offset: u64,
    /// Byte length of the audited chunk: `CHUNK_SIZE`, or the remainder for
    /// the final chunk.
    pub length: u64,
}

impl Challenge {
    /// Index of the audited chunk.
    pub open spec fn chunk_index(&self) -> nat {
        (self.offset as nat) / (CHUNK_SIZE as nat)
    }

    /// The challenge audits chunk `i` of a content object of `size` bytes.
    pub open spec fn audits(&self, size: nat, i: nat) -> bool {
        &&& self.offset == chunk_start(i)
        &&& self.length == chunk_len(size, i)
    }
}

/// Picks the byte range to audit for a content object of `size` bytes: the
/// chunk whose index is `draw` reduced modulo the chunk count, with its
/// exact offset and length.
///
/// Fails with `InvalidInput` exactly when `size` is zero. Pure in its
/// explicit inputs; it cannot fail transiently.
pub fn select(size: u64, draw: u64) -> (r: Result<Challenge, OracleError>)
    ensures
        match r {
            Ok(c) => {
                &&& 1 <= size
                &&& c.audits(size as nat, (draw as nat) % num_chunks(size as nat))
            },
            Err(e) => {
                &&& e == OracleError::InvalidInput
                &&& size == 0
            },
        },
{
    if size == 0 {
        return Err(OracleError::InvalidInput);
    }
    let n = count_chunks(size);
    let i = draw % n;
    proof {
        lemma_chunk_bounds(size as nat, i as nat);
    }
    let offset = i * CHUNK_SIZE;
    let length = chunk_length(size, i);
    Ok(Challenge { offset, length })
}

/// Relies on `rand::random_range`: a value below `n`, uniformly distributed,
/// from the thread-local generator. Nothing more is assumed of it; callers
/// hold for every value below `n`.
#[verifier::external_body]
fn random_below(n: u64) -> (r: u64)
    requires
        1 <= n,
    ensures
        r < n,
{
    rand::random_range(0..n)
}

/// Picks a uniformly random chunk-aligned challenge for a content object of
/// `size` bytes. Fails with `InvalidInput` exactly when `size` is zero;
/// whichever chunk the draw lands on, the challenge carries that chunk's
/// exact offset and length.
pub fn select_random(size: u64) -> (r: Result<Challenge, OracleError>)
    ensures
        match r {
            Ok(c) => {
                &&& 1 <= size
                &&& exists|i: nat|
                    i < num_chunks(size as nat) && c.audits(size as nat, i)
            },
            Err(e) => {
                &&& e == OracleError::InvalidInput
                &&& size == 0
            },
        },
{
    if size == 0 {
        return Err(OracleError::InvalidInput);
    }
    let n = count_chunks(size);
    let draw = random_below(n);
    let r = select(size, draw);
    proof {
        let i = (draw as nat) % num_chunks(size as nat);
        assert(i < num_chunks(size as nat));
    }
    r
}

} // verus!
