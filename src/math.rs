use vstd::prelude::*;

use crate::error::EscrowError;

verus! {

/// Multiplies two `u128` values, failing instead of wrapping.
pub fn checked_mul(a: u128, b: u128) -> (r: Result<u128, EscrowError>)
    ensures
        a * b <= u128::MAX ==> r == Ok::<u128, EscrowError>((a * b) as u128),
        a * b > u128::MAX ==> r == Err::<u128, EscrowError>(EscrowError::ArithmeticError),
{
    match a.checked_mul(b) {
        Some(v) => Ok(v),
        None => Err(EscrowError::ArithmeticError),
    }
}

/// Divides two `u128` values (rounding down), failing on a zero divisor.
pub fn checked_div(a: u128, b: u128) -> (r: Result<u128, EscrowError>)
    ensures
        b != 0 ==> r == Ok::<u128, EscrowError>((a / b) as u128),
        b == 0 ==> r == Err::<u128, EscrowError>(EscrowError::ArithmeticError),
{
    match a.checked_div(b) {
        Some(v) => Ok(v),
        None => Err(EscrowError::ArithmeticError),
    }
}

/// Narrows a `u128` to `u64`, failing where the value does not fit.
pub fn checked_as_u64(x: u128) -> (r: Result<u64, EscrowError>)
    ensures
        x <= u64::MAX ==> r == Ok::<u64, EscrowError>(x as u64),
        x > u64::MAX ==> r == Err::<u64, EscrowError>(EscrowError::ArithmeticError),
{
    if x <= u64::MAX as u128 {
        Ok(x as u64)
    } else {
        Err(EscrowError::ArithmeticError)
    }
}

/// Subtracts two `u64` values, failing instead of wrapping below zero.
pub fn checked_sub(a: u64, b: u64) -> (r: Result<u64, EscrowError>)
    ensures
        a >= b ==> r == Ok::<u64, EscrowError>((a - b) as u64),
        a < b ==> r == Err::<u64, EscrowError>(EscrowError::ArithmeticError),
{
    match a.checked_sub(b) {
        Some(v) => Ok(v),
        None => Err(EscrowError::ArithmeticError),
    }
}

/// Basis points in one whole.
pub const BPS_DENOMINATOR: u64 = 10000;

/// The fee on `amount` at `fee_bps` basis points, rounded down.
pub open spec fn fee_of(amount: int, fee_bps: int) -> int {
    amount * fee_bps / (BPS_DENOMINATOR as int)
}

/// Computes `floor(amount * fee_bps / 10000)` through a double-width
/// intermediate, failing where the result does not fit in `u64`.
pub fn compute_fee(amount: u64, fee_bps: u64) -> (r: Result<u64, EscrowError>)
    ensures
        fee_of(amount as int, fee_bps as int) <= u64::MAX ==> r == Ok::<u64, EscrowError>(
            fee_of(amount as int, fee_bps as int) as u64,
        ),
        fee_of(amount as int, fee_bps as int) > u64::MAX ==> r == Err::<u64, EscrowError>(
            EscrowError::ArithmeticError,
        ),
{
    proof {
        assert((amount as int) * (fee_bps as int) <= u64::MAX * u64::MAX) by (nonlinear_arith)
            requires
                amount <= u64::MAX,
                fee_bps <= u64::MAX,
        ;
    }
    let product = checked_mul(amount as u128, fee_bps as u128)?;
    let quotient = checked_div(product, BPS_DENOMINATOR as u128)?;
    checked_as_u64(quotient)
}

} // verus!
