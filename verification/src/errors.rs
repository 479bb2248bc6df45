//! Error taxonomy of the oracle core and the result of one audit.
//!
//! A cryptographic mismatch is not an error: it is a successful answer to
//! the audit question, carried as `VerificationResult { valid: false }`.

use vstd::prelude::*;

verus! {

/// Why an audit could not be answered. Every kind propagates to the caller;
/// nothing is retried or silently recovered inside the core.
#[derive(Clone, Copy, Debug, PartialEq, Eq, Structural)]
pub enum OracleError {
    /// The request is unusable before any fetch: a declared size of zero or
    /// a malformed commitment.
    InvalidInput,
    /// The content collaborator could not hand back the requested range.
    RetrievalFailure,
    /// The outboard collaborator failed, or the buffer it handed back does
    /// not fit the declared size.
    ProofStorageFailure,
    /// The fetched chunk's length is not the expected length for its index.
    SizeMismatch,
    /// Offset or length arithmetic would overflow its machine type.
    InternalOverflow,
}

impl OracleError {
    /// The short name of each error kind, as responses spell it.
    pub open spec fn spec_describe(&self) -> Seq<char> {
        match self {
            OracleError::InvalidInput => "invalid input"@,
            OracleError::RetrievalFailure => "content retrieval failed"@,
            OracleError::ProofStorageFailure => "proof storage failed"@,
            OracleError::SizeMismatch => "chunk size mismatch"@,
            OracleError::InternalOverflow => "internal overflow"@,
        }
    }

    /// Spells the error kind out for a response.
    pub fn describe(&self) -> (s: &'static str)
        ensures
            s@ == self.spec_describe(),
    {
        match self {
            OracleError::InvalidInput => "invalid input",
            OracleError::RetrievalFailure => "content retrieval failed",
            OracleError::ProofStorageFailure => "proof storage failed",
            OracleError::SizeMismatch => "chunk size mismatch",
            OracleError::InternalOverflow => "internal overflow",
        }
    }
}

/// Why a verification path could not be read out of an outboard buffer.
#[derive(Clone, Copy, Debug, PartialEq, Eq, Structural)]
pub enum CodecError {
    /// The buffer's length does not match the length the declared chunk
    /// count implies, so some node access would fall outside it.
    CorruptOutboard,
}

/// How a collaborator fetch failed, as handed to the core by its caller.
#[derive(Clone, Copy, Debug, PartialEq, Eq, Structural)]
pub enum FetchError {
    /// The addressed object does not exist.
    NotFound,
    /// The transport failed.
    IoFailure,
}

/// The answer to one audit: whether the retrieved chunk is consistent with
/// the commitment.
#[derive(Clone, Copy, Debug, PartialEq, Eq, Structural)]
pub struct VerificationResult {
    pub valid: bool,
}

} // verus!
