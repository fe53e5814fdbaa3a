//! The internal failure taxonomy and its total, stable mapping onto the
//! closed error vocabulary that crosses the foreign-function boundary.

use vstd::prelude::*;

verus! {

/// Every failure a library operation can report, one variant per component:
/// connection establishment, address decoding, key derivation / signing,
/// submission before inclusion, finalization (including an exhausted wait),
/// and state queries.
#[derive(Clone, Copy, Debug, PartialEq, Eq, Structural)]
pub enum Failure {
    Connection,
    Decode,
    Signing,
    Submission,
    Finalization,
    Query,
}

/// The closed set of error values safe to hand across the foreign boundary.
/// `Success` reports success on operations that return no other value.
#[derive(Clone, Copy, Debug, PartialEq, Eq, Structural)]
pub enum ErrorCode {
    Success,
    RpcError,
    DecodeError,
    SigningError,
}

/// The error vocabulary of the transfer facade: a failure to decode the
/// destination, or a failure in the node-facing machinery. The string carries
/// the human-readable reason; it never carries secret material.
#[derive(Debug, Clone, PartialEq, Eq)]
pub enum TransferError {
    Decode(String),
    Subxt(String),
}

/// Maps an internal failure, with its reason text, to the transfer facade's
/// vocabulary: a decode failure keeps its identity, everything else is a
/// node-machinery failure. Total and stable, like `error_code_of`.
pub fn transfer_error_of(f: Failure, reason: String) -> (r: TransferError)
    ensures
        (match f {
            Failure::Decode => r == TransferError::Decode(reason),
            _ => r == TransferError::Subxt(reason),
        }),
{
    match f {
        Failure::Decode => TransferError::Decode(reason),
        _ => TransferError::Subxt(reason),
    }
}

/// The boundary value each internal failure maps to: decode and signing
/// failures keep their own codes; every transport-level failure (connection,
/// submission, finalization, query) is reported as an RPC failure.
pub open spec fn spec_error_code(f: Failure) -> ErrorCode {
    match f {
        Failure::Connection => ErrorCode::RpcError,
        Failure::Decode => ErrorCode::DecodeError,
        Failure::Signing => ErrorCode::SigningError,
        Failure::Submission => ErrorCode::RpcError,
        Failure::Finalization => ErrorCode::RpcError,
        Failure::Query => ErrorCode::RpcError,
    }
}

/// Maps an internal failure to its boundary error code. The mapping is total
/// (every variant has a target) and stable (it is a function of the variant
/// alone), which callers in the foreign language rely on for dispatch.
pub fn error_code_of(f: Failure) -> (r: ErrorCode)
    ensures
        r == spec_error_code(f),
{
    match f {
        Failure::Connection => ErrorCode::RpcError,
        Failure::Decode => ErrorCode::DecodeError,
        Failure::Signing => ErrorCode::SigningError,
        Failure::Submission => ErrorCode::RpcError,
        Failure::Finalization => ErrorCode::RpcError,
        Failure::Query => ErrorCode::RpcError,
    }
}

} // verus!
