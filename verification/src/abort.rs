//! The abort signal: an unrecoverable call termination carrying a status
//! code and a stable message, surfaced to the caller as a tagged error
//! value rather than a stack unwind.

use vstd::prelude::*;

verus! {

/// Status code of every call-value violation.
pub const VALUE_ERROR_STATUS: u64 = 10;

/// Status code of a codec failure escalated to an abort.
pub const USER_ERROR_STATUS: u64 = 4;

/// An unrecoverable call termination: status code plus message text.
pub struct TxPanic {
    pub status: u64,
    pub message: &'static str,
}

/// The abort raised when a single-transfer accessor meets more than one
/// token transfer.
pub open spec fn too_many_transfers_panic() -> TxPanic {
    TxPanic { status: 10, message: "incorrect number of DCT transfers" }
}

/// The abort raised when a non-payable entry point receives native-coin
/// payment.
pub open spec fn non_payable_moax_panic() -> TxPanic {
    TxPanic { status: 10, message: "function does not accept MOAX payment" }
}

/// The abort raised when a non-payable entry point receives a token
/// transfer.
pub open spec fn non_payable_dct_panic() -> TxPanic {
    TxPanic { status: 10, message: "function does not accept DCT payment" }
}

/// The abort raised by a transfer accessor on an out-of-range index.
pub open spec fn invalid_token_index_panic() -> TxPanic {
    TxPanic { status: 10, message: "invalid token index" }
}

/// The abort raised when a decode failure is escalated by the abort policy.
pub open spec fn decode_error_panic() -> TxPanic {
    TxPanic { status: 4, message: "serializer decode error: input too short" }
}

impl TxPanic {
    /// The abort raised when a single-transfer accessor meets more than one
    /// token transfer.
    pub fn too_many_transfers() -> (r: TxPanic)
        ensures
            r == too_many_transfers_panic(),
    {
        TxPanic { status: 10, message: "incorrect number of DCT transfers" }
    }

    /// The abort raised when a non-payable entry point receives native-coin
    /// payment.
    pub fn non_payable_moax() -> (r: TxPanic)
        ensures
            r == non_payable_moax_panic(),
    {
        TxPanic { status: 10, message: "function does not accept MOAX payment" }
    }

    /// The abort raised when a non-payable entry point receives a token
    /// transfer.
    pub fn non_payable_dct() -> (r: TxPanic)
        ensures
            r == non_payable_dct_panic(),
    {
        TxPanic { status: 10, message: "function does not accept DCT payment" }
    }

    /// The abort raised by a transfer accessor on an out-of-range index.
    pub fn invalid_token_index() -> (r: TxPanic)
        ensures
            r == invalid_token_index_panic(),
    {
        TxPanic { status: 10, message: "invalid token index" }
    }

    /// The abort raised when a decode failure is escalated by the abort
    /// policy.
    pub fn decode_error() -> (r: TxPanic)
        ensures
            r == decode_error_panic(),
    {
        TxPanic { status: 4, message: "serializer decode error: input too short" }
    }
}

} // verus!
