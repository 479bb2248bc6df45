//! Chunking arithmetic and the shape of the binary hash tree.
//!
//! A content object of `size` bytes is split into `ceil(size / CHUNK_SIZE)`
//! chunks; every chunk is `CHUNK_SIZE` bytes long except possibly the last,
//! which holds the remainder. A span of `k > 1` chunks is split into a left
//! subtree covering the largest power of two strictly below `k` and a right
//! subtree covering the rest; a span of one chunk is a leaf.

use vstd::prelude::*;
use vstd::arithmetic::div_mod::lemma_fundamental_div_mod;

verus! {

/// Size in bytes of every content chunk except possibly the last one.
pub const CHUNK_SIZE: u64 = 1024;

/// Chunk counts stay at or below this bound (`2^54`): even a content size of
/// `u64::MAX` bytes yields no more chunks than this.
pub const MAX_SPAN: u64 = 0x40_0000_0000_0000;

/// Number of chunks a content object of `size` bytes is split into:
/// `ceil(size / CHUNK_SIZE)`.
pub open spec fn num_chunks(size: nat) -> nat {
    if size == 0 {
        0
    } else {
        ((size - 1) / (CHUNK_SIZE as int) + 1) as nat
    }
}

/// Byte offset at which chunk `i` starts.
pub open spec fn chunk_start(i: nat) -> nat {
    i * (CHUNK_SIZE as nat)
}

/// Length in bytes of chunk `i` of a content object of `size` bytes:
/// `CHUNK_SIZE` for every chunk but the last, which holds what remains.
pub open spec fn chunk_len(size: nat, i: nat) -> nat {
    if i + 1 == num_chunks(size) {
        (size - chunk_start(i)) as nat
    } else {
        CHUNK_SIZE as nat
    }
}

/// Number of chunks covered by the left subtree of a span of `k` chunks:
/// the largest power of two strictly below `k` (equivalently `k/2` when `k`
/// is itself a power of two). Meaningful for `k >= 2`.
pub open spec fn left_span(k: nat) -> nat
    decreases k,
{
    if k <= 2 {
        1
    } else {
        2 * left_span((k + 1) / 2)
    }
}

/// The number is a power of two.
pub open spec fn is_pow2(k: nat) -> bool
    decreases k,
{
    if k == 0 {
        false
    } else if k == 1 {
        true
    } else {
        k % 2 == 0 && is_pow2(k / 2)
    }
}

/// A left span is a power of two. Together with `lemma_left_span_bounds`
/// this pins the halving rule down: among powers of two strictly below `k`,
/// any other is at most half of `2 * left_span(k)` and so no larger.
pub proof fn lemma_left_span_pow2(k: nat)
    requires
        2 <= k,
    ensures
        is_pow2(left_span(k)),
    decreases k,
{
    if k > 2 {
        lemma_left_span_pow2((k + 1) / 2);
    }
}

/// A left span is at least one chunk, strictly smaller than the whole span,
/// and at least half of it.
pub proof fn lemma_left_span_bounds(k: nat)
    requires
        2 <= k,
    ensures
        1 <= left_span(k) < k,
        k <= 2 * left_span(k),
    decreases k,
{
    if k > 2 {
        let m = (k + 1) / 2;
        lemma_left_span_bounds(m);
    }
}

/// Every chunk index below the chunk count names a non-empty byte range that
/// lies inside the content, and only the final chunk may fall short of
/// `CHUNK_SIZE`.
pub proof fn lemma_chunk_bounds(size: nat, i: nat)
    requires
        1 <= size,
        i < num_chunks(size),
    ensures
        1 <= chunk_len(size, i) <= CHUNK_SIZE,
        chunk_start(i) + chunk_len(size, i) <= size,
        i + 1 < num_chunks(size) ==> chunk_len(size, i) == CHUNK_SIZE,
        i + 1 == num_chunks(size) ==> chunk_start(i) + chunk_len(size, i) == size,
{
    let c = CHUNK_SIZE as int;
    let s = size as int;
    let j = i as int;
    let q = (s - 1) / c;
    lemma_fundamental_div_mod(s - 1, c);
    assert(j <= q);
    assert(j * c <= q * c) by (nonlinear_arith)
        requires j <= q && c > 0,
    ;
    if i + 1 < num_chunks(size) {
        assert(j + 1 <= q);
        assert((j + 1) * c <= q * c) by (nonlinear_arith)
            requires j + 1 <= q && c > 0,
        ;
        assert((j + 1) * c == j * c + c) by (nonlinear_arith);
    }
}

/// Boundary rule for chunk lengths: when `size` is an exact multiple of
/// `CHUNK_SIZE` every chunk is exactly `CHUNK_SIZE` bytes long, and when it
/// leaves a remainder `r` the final chunk is exactly `r` bytes long, never
/// padded.
pub proof fn lemma_chunk_lengths(size: nat, i: nat)
    requires
        1 <= size,
        i < num_chunks(size),
    ensures
        size % (CHUNK_SIZE as nat) == 0 ==> chunk_len(size, i) == CHUNK_SIZE,
        size % (CHUNK_SIZE as nat) != 0 && i + 1 == num_chunks(size)
            ==> chunk_len(size, i) == size % (CHUNK_SIZE as nat),
{
    let c = CHUNK_SIZE as int;
    let s = size as int;
    let j = i as int;
    lemma_chunk_bounds(size, i);
    lemma_fundamental_div_mod(s - 1, c);
    lemma_fundamental_div_mod(s, c);
    if i + 1 == num_chunks(size) {
        let q = (s - 1) / c;
        assert(j == q);
        assert(q * c == chunk_start(i));
        if size % (CHUNK_SIZE as nat) == 0 {
            assert(s % c == 0);
            assert(s / c == q + 1) by (nonlinear_arith)
                requires
                    s == (s / c) * c + s % c,
                    s % c == 0,
                    s - 1 == q * c + (s - 1) % c,
                    0 <= (s - 1) % c < c,
                    c == 1024,
                    s >= 1,
            ;
            assert(s - q * c == c) by (nonlinear_arith)
                requires s == (s / c) * c && s / c == q + 1 && c == 1024,
            ;
        } else {
            assert(s - q * c == s % c) by (nonlinear_arith)
                requires
                    s == (s / c) * c + s % c,
                    0 < s % c < c,
                    s - 1 == q * c + (s - 1) % c,
                    0 <= (s - 1) % c < c,
                    c == 1024,
            ;
        }
    }
}

/// Computes `num_chunks(size)` executably.
pub fn count_chunks(size: u64) -> (n: u64)
    ensures
        n == num_chunks(size as nat),
        n <= MAX_SPAN,
{
    if size == 0 {
        0
    } else {
        (size - 1) / CHUNK_SIZE + 1
    }
}

/// Computes `chunk_len(size, i)` executably.
pub fn chunk_length(size: u64, i: u64) -> (r: u64)
    requires
        1 <= size,
        (i as nat) < num_chunks(size as nat),
    ensures
        r == chunk_len(size as nat, i as nat),
        1 <= r <= CHUNK_SIZE,
{
    proof {
        lemma_chunk_bounds(size as nat, i as nat);
    }
    let n = count_chunks(size);
    if i + 1 == n {
        size - i * CHUNK_SIZE
    } else {
        CHUNK_SIZE
    }
}

/// Computes `left_span(k)` executably.
pub fn split_left(k: u64) -> (r: u64)
    requires
        2 <= k <= MAX_SPAN,
    ensures
        r == left_span(k as nat),
        1 <= r < k,
        k <= 2 * r,
    decreases k,
{
    proof {
        lemma_left_span_bounds(k as nat);
    }
    if k <= 2 {
        1
    } else {
        2 * split_left((k + 1) / 2)
    }
}

} // verus!
