use vstd::prelude::*;

verus! {

/// An error reported by the host chain (storage, address validation, balance queries).
#[derive(Clone, Debug, PartialEq, Eq)]
pub enum StdError {
    /// Whenever there is no more specific kind.
    GenericErr { msg: String },
    /// A value that was expected in storage is absent.
    NotFound { kind: String },
}

/// The arithmetic operation that left the range of its integer type.
#[derive(Clone, Copy, Debug, PartialEq, Eq, Structural)]
pub enum OverflowOperation {
    Add,
    Sub,
    Mul,
    Pow,
    Shr,
    Shl,
}

/// An amount computation that fell outside `0 ..= u128::MAX`.
#[derive(Clone, Copy, Debug, PartialEq, Eq, Structural)]
pub struct OverflowError {
    pub operation: OverflowOperation,
}

/// Every way in which a request to the aggregator can be refused.
#[derive(Clone, Debug, PartialEq, Eq)]
pub enum ContractError {
    Std(StdError),
    Overflow(OverflowError),
    Unauthorized,
    OfferCoinRequired,
    UnknownVenue,
    SlippageExceeded { received: u128, minimum: u128 },
    ZeroMinimumReceive,
    NothingReceived,
    NoPendingAdmin,
    InvalidExecPayload(String),
}

/// `a - b` on amounts, refused with an overflow error when it would go below zero.
pub fn checked_sub(a: u128, b: u128) -> (r: Result<u128, OverflowError>)
    ensures
        a >= b ==> r == Ok::<u128, OverflowError>((a - b) as u128),
        a < b ==> r == Err::<u128, OverflowError>(OverflowError { operation: OverflowOperation::Sub }),
{
    if a < b {
        Err(OverflowError { operation: OverflowOperation::Sub })
    } else {
        Ok(a - b)
    }
}

} // verus!
