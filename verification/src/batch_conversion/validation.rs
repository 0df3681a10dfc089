//! Validation of single conversion requests.

use vstd::prelude::*;
use crate::address::Address;

verus! {

/// Why a conversion request is refused.
#[derive(Debug, Clone, Copy, PartialEq, Eq, Structural)]
pub enum ValidationError {
    /// Invalid address
    _InvalidAddress,
    /// The amount to convert is not positive
    InvalidAmount,
    /// The expected output amount is not positive
    InvalidMinOutput,
    /// Both sides of the conversion are the same asset
    SameAsset,
}

/// Validates an address. Every address that can be written down is accepted.
pub fn validate_address(_address: &Address) -> (r: Result<(), ValidationError>)
    ensures
        r == Ok::<(), ValidationError>(()),
{
    Ok(())
}

/// Validates a conversion amount: it must be positive.
pub fn validate_amount(amount: i128) -> (r: Result<(), ValidationError>)
    ensures
        amount > 0 ==> r == Ok::<(), ValidationError>(()),
        amount <= 0 ==> r == Err::<(), ValidationError>(ValidationError::InvalidAmount),
{
    if amount <= 0 {
        return Err(ValidationError::InvalidAmount);
    }
    Ok(())
}

/// Validates the least amount that the user expects: it must be positive.
pub fn validate_min_output(min_amount_out: i128) -> (r: Result<(), ValidationError>)
    ensures
        min_amount_out > 0 ==> r == Ok::<(), ValidationError>(()),
        min_amount_out <= 0 ==> r == Err::<(), ValidationError>(
            ValidationError::InvalidMinOutput,
        ),
{
    if min_amount_out <= 0 {
        return Err(ValidationError::InvalidMinOutput);
    }
    Ok(())
}

/// Validates that a conversion goes from one asset to another one.
pub fn validate_asset_pair(from_asset: &Address, to_asset: &Address) -> (r: Result<
    (),
    ValidationError,
>)
    ensures
        *from_asset != *to_asset ==> r == Ok::<(), ValidationError>(()),
        *from_asset == *to_asset ==> r == Err::<(), ValidationError>(ValidationError::SameAsset),
{
    if *from_asset == *to_asset {
        return Err(ValidationError::SameAsset);
    }
    Ok(())
}

} // verus!
