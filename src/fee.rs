use vstd::prelude::*;
use crate::error::ErrorCode;

verus! {

/// The protocol fee rate, in basis points (1%).
pub const SWAP_FEE: u64 = 100;

/// Basis points in a whole.
pub const BPS_DENOMINATOR: u64 = 10000;

/// The fee on `amount` at `rate` basis points, truncated toward zero.
pub open spec fn fee_of(amount: int, rate: int) -> int {
    amount * rate / 10000
}

/// Whether the fee on `amount` at `rate` can be computed in `u64` and leaves
/// a non-negative remainder.
pub open spec fn fee_computable(amount: int, rate: int) -> bool {
    &&& amount * rate <= u64::MAX
    &&& fee_of(amount, rate) <= amount
}

/// The two parts of a settled amount: the fee and what remains.
#[derive(Clone, Copy, Debug, PartialEq, Eq, Structural)]
pub struct FeeSplit {
    pub fee: u64,
    pub net: u64,
}

/// Splits `amount` into the fee at `rate_bps` basis points and the net rest.
pub fn split_fee(amount: u64, rate_bps: u64) -> (r: Result<FeeSplit, ErrorCode>)
    ensures
        r.is_ok() <==> fee_computable(amount as int, rate_bps as int),
        r matches Err(e) ==> e == ErrorCode::ArithmeticOverflow,
        r matches Ok(s) ==> s.fee == fee_of(amount as int, rate_bps as int)
            && s.fee + s.net == amount,
{
    let product = match amount.checked_mul(rate_bps) {
        Some(p) => p,
        None => return Err(ErrorCode::ArithmeticOverflow),
    };
    let fee = product / BPS_DENOMINATOR;
    if fee > amount {
        return Err(ErrorCode::ArithmeticOverflow);
    }
    Ok(FeeSplit { fee, net: amount - fee })
}

} // verus!
