//! Validation of single transfer requests.

use vstd::prelude::*;
use crate::address::Address;

verus! {

/// Why a transfer request is refused.
#[derive(Debug, Clone, Copy, PartialEq, Eq, Structural)]
pub enum ValidationError {
    /// Invalid address
    _InvalidAddress,
    /// The amount to transfer is not positive
    InvalidAmount,
}

/// Validates an address. Every address that can be written down is accepted.
pub fn validate_address(_address: &Address) -> (r: Result<(), ValidationError>)
    ensures
        r == Ok::<(), ValidationError>(()),
{
    Ok(())
}

/// Validates a transfer amount: it must be positive.
pub fn validate_amount(amount: i128) -> (r: Result<(), ValidationError>)
    ensures
        amount > 0 ==> r == Ok::<(), ValidationError>(()),
        amount <= 0 ==> r == Err::<(), ValidationError>(ValidationError::InvalidAmount),
{
    if amount <= 0 {
        return Err(ValidationError::InvalidAmount);
    }
    Ok(())
}

} // verus!
