//! Failures a custody request can end in.

use vstd::prelude::*;

verus! {

/// How the key-derivation oracle failed to answer.
#[derive(Debug, Clone, Copy, PartialEq, Eq, Structural)]
pub enum OracleError {
    /// The oracle could not be reached.
    Unavailable,
    /// The oracle was reached and refused the request.
    Rejected,
}

/// Why a custody request was aborted. Every failure is terminal for the
/// request it occurs in.
#[derive(Debug, Clone, Copy, PartialEq, Eq, Structural)]
pub enum CustodyError {
    /// The anonymous identity attempted an operation reserved for
    /// authenticated callers.
    Forbidden,
    /// The oracle could not be reached.
    OracleUnavailable,
    /// The oracle refused the request.
    OracleRejected,
}

/// The custody error that an oracle failure is surfaced as.
pub open spec fn oracle_failure(e: OracleError) -> CustodyError {
    match e {
        OracleError::Unavailable => CustodyError::OracleUnavailable,
        OracleError::Rejected => CustodyError::OracleRejected,
    }
}

/// How a rejection of a call to the oracle is sorted, by the platform's
/// rejection code: a fatal system error (1), a transient system error (2)
/// and an invalid destination (3) mean that the oracle was not reached; with
/// every other code the oracle, or the platform for it, refused.
pub open spec fn rejection_kind(code: i32) -> OracleError {
    if 1 <= code <= 3 {
        OracleError::Unavailable
    } else {
        OracleError::Rejected
    }
}

impl OracleError {
    /// Sorts a rejection of a call to the oracle by its rejection code.
    pub fn from_rejection_code(code: i32) -> (e: OracleError)
        ensures
            e == rejection_kind(code),
    {
        if 1 <= code && code <= 3 {
            OracleError::Unavailable
        } else {
            OracleError::Rejected
        }
    }
}

impl CustodyError {
    /// Carries an oracle failure over unchanged in kind.
    pub fn from_oracle(e: OracleError) -> (r: CustodyError)
        ensures
            r == oracle_failure(e),
    {
        match e {
            OracleError::Unavailable => CustodyError::OracleUnavailable,
            OracleError::Rejected => CustodyError::OracleRejected,
        }
    }

    /// A short description for logs and rejection messages.
    pub fn message(&self) -> (text: &'static str)
        ensures
            text@ == match *self {
                CustodyError::Forbidden => "Anonymous users cannot save keys"@,
                CustodyError::OracleUnavailable => "The key derivation oracle is unavailable"@,
                CustodyError::OracleRejected => "The key derivation oracle rejected the request"@,
            },
    {
        match self {
            CustodyError::Forbidden => "Anonymous users cannot save keys",
            CustodyError::OracleUnavailable => "The key derivation oracle is unavailable",
            CustodyError::OracleRejected => "The key derivation oracle rejected the request",
        }
    }
}

} // verus!
