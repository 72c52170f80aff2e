use vstd::prelude::*;
use crate::error::ErrorCode;

verus! {

/// A payment request, as submitted by the payer.
#[derive(Clone, Copy, Debug, PartialEq, Eq, Structural)]
pub struct Payment {
    /// The merchant's order identifier, opaque to settlement.
    pub order_id: u64,
    /// How many units of the source asset the payer pays in.
    pub pay_in_amount: u64,
    /// The output the payer expects; informational only, never enforced.
    pub pay_out_amount: Option<u64>,
    /// The deadline, as a Unix timestamp; the request is valid up to it.
    pub expiry: i64,
}

/// Whether a request is still valid at time `now`.
pub open spec fn is_live(p: Payment, now: i64) -> bool {
    now <= p.expiry
}

/// Rejects a request whose deadline has passed; has no other effect.
pub fn check_not_expired(payment: &Payment, now: i64) -> (r: Result<(), ErrorCode>)
    ensures
        r.is_ok() <==> is_live(*payment, now),
        r matches Err(e) ==> e == ErrorCode::Expired,
{
    if now > payment.expiry {
        Err(ErrorCode::Expired)
    } else {
        Ok(())
    }
}

/// The amount that a swap delivered, read as the growth of the destination
/// balance from `before` (read just before the swap) to `after` (read anew
/// just after it). A balance that did not grow is refused.
pub fn reconcile(before: u64, after: u64) -> (r: Result<u64, ErrorCode>)
    ensures
        r.is_ok() <==> before < after,
        r matches Ok(d) ==> d == after - before,
        r matches Err(e) ==> e == ErrorCode::ReconciliationInvalid,
{
    if after <= before {
        Err(ErrorCode::ReconciliationInvalid)
    } else {
        Ok(after - before)
    }
}

} // verus!
