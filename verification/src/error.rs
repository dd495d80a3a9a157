//! The ways in which a query or a relay attempt fails.

use vstd::prelude::*;
use crate::abi::words::AbiDecodeError;
use crate::text::HexDefect;

verus! {

/// Why the ledger gave no response.
#[derive(Clone, Copy, Debug, PartialEq, Eq)]
pub enum LedgerFailure {
    /// The ledger process did not start.
    NotStarted,
    /// The ledger process ended with a code other than zero, or with none.
    Exited { code: Option<i32> },
}

/// What is wrong with a response of the ledger.
#[derive(Clone, Copy, Debug, PartialEq, Eq)]
pub enum ResponseDefect {
    /// The output is no valid UTF-8.
    InvalidUtf8,
    /// The text does not begin with `0x`.
    MissingHexPrefix,
    /// What follows `0x` is no string of hexadecimal digit pairs.
    InvalidHex(HexDefect),
    /// The bytes are no encoding of the shape that the query answers with.
    Abi(AbiDecodeError),
    /// The text is no JSON document of the shape that the query answers
    /// with.
    Json,
    /// The signature at `index` has a recovery parity other than 0 and 1.
    RecoveryParity { index: usize },
    /// The nonce of the active validator set has no successor in 256 bits.
    NonceExhausted,
}

/// Why a query gave no typed response.
#[derive(Clone, Copy, Debug, PartialEq, Eq)]
pub enum QueryError {
    LedgerUnavailable(LedgerFailure),
    MalformedResponse(ResponseDefect),
}

/// The queries that the ledger answers.
#[derive(Clone, Copy, Debug, PartialEq, Eq)]
pub enum QueryKind {
    ActiveValidatorSet,
    ValidatorSetUpdateProof,
    SignedBridgePool,
    BridgePoolProof,
}

/// What is wrong with the input of a relay attempt.
#[derive(Clone, Copy, Debug, PartialEq, Eq)]
pub enum InputDefect {
    /// The target epoch is zero.
    InvalidEpoch,
    /// No transfer was selected for relaying.
    NoTransfers,
    /// The attempt was handed an event that it was not waiting for.
    UnexpectedEvent,
}

/// Why a relay attempt ended without a confirmed transaction.
#[derive(Clone, Copy, Debug, PartialEq, Eq)]
pub enum RelayError {
    /// The attempt was asked for something that cannot be relayed.
    InvalidInput(InputDefect),
    /// The ledger gave no response to a query.
    LedgerUnavailable { query: QueryKind, failure: LedgerFailure },
    /// The ledger's response to a query could not be used.
    MalformedResponse { query: QueryKind, defect: ResponseDefect },
    /// The transaction was rejected or could not be broadcast.
    SubmissionFailed,
    /// The transaction was broadcast, and its confirmations were not seen.
    ConfirmationTimeout,
}

/// A query's failure as the failure of the relay attempt that made it.
pub open spec fn relay_error_of(query: QueryKind, error: QueryError) -> RelayError {
    match error {
        QueryError::LedgerUnavailable(failure) => RelayError::LedgerUnavailable { query, failure },
        QueryError::MalformedResponse(defect) => RelayError::MalformedResponse { query, defect },
    }
}

impl RelayError {
    /// A query's failure as the failure of the relay attempt that made it.
    pub fn from_query(query: QueryKind, error: QueryError) -> (r: RelayError)
        ensures
            r == relay_error_of(query, error),
    {
        match error {
            QueryError::LedgerUnavailable(failure) => RelayError::LedgerUnavailable {
                query,
                failure,
            },
            QueryError::MalformedResponse(defect) => RelayError::MalformedResponse {
                query,
                defect,
            },
        }
    }
}

} // verus!
