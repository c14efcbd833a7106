//! The errors the contract answers a refused call with.

use vstd::prelude::*;

verus! {

/// Why the contract refused a call.
#[derive(Copy, Clone, Debug, PartialEq, Eq, PartialOrd, Ord, Structural)]
pub enum PoolEscrowError {
    AlreadyInitialized,
    NotInitialized,
    InvalidAmount,
    EscrowAlreadyExists,
    EscrowNotFound,
    InvalidStatus,
    Unauthorized,
}

impl PoolEscrowError {
    /// The number under which the contract's callers see the error.
    pub open spec fn spec_code(self) -> u32 {
        match self {
            PoolEscrowError::AlreadyInitialized => 1,
            PoolEscrowError::NotInitialized => 2,
            PoolEscrowError::InvalidAmount => 3,
            PoolEscrowError::EscrowAlreadyExists => 4,
            PoolEscrowError::EscrowNotFound => 5,
            PoolEscrowError::InvalidStatus => 6,
            PoolEscrowError::Unauthorized => 7,
        }
    }

    /// Returns the error's number.
    pub fn code(&self) -> (code: u32)
        ensures
            code == self.spec_code(),
    {
        match self {
            PoolEscrowError::AlreadyInitialized => 1,
            PoolEscrowError::NotInitialized => 2,
            PoolEscrowError::InvalidAmount => 3,
            PoolEscrowError::EscrowAlreadyExists => 4,
            PoolEscrowError::EscrowNotFound => 5,
            PoolEscrowError::InvalidStatus => 6,
            PoolEscrowError::Unauthorized => 7,
        }
    }
}

} // verus!
