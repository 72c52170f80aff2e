use vstd::prelude::*;
use crate::error::ErrorCode;
use crate::fee::{fee_computable, fee_of, SWAP_FEE};
use crate::ledger::moved;
use crate::settlement::{settlement, CompletePayment, FeePolicy, PaymentCompleted, SettlementConfig};
use crate::request::Payment;

verus! {

/// An expired request is rejected with `Expired`, whatever the venue would
/// have done; since a rejected settlement leaves every account as it was,
/// no swap and no transfer takes effect.
pub proof fn lemma_expired_rejected(a: CompletePayment, p: Payment, c: SettlementConfig, now: i64, output: Option<u64>)
    requires
        now > p.expiry,
    ensures
        settlement(a, p, c, now, output) == Err::<(CompletePayment, PaymentCompleted), _>(ErrorCode::Expired),
{
}

/// Replaying an expired request, over the unchanged accounts and at the same
/// or a later time, is rejected with `Expired` again.
pub proof fn lemma_expired_replay(a: CompletePayment, p: Payment, c: SettlementConfig, now1: i64, now2: i64, out1: Option<u64>, out2: Option<u64>)
    requires
        now1 > p.expiry,
        now1 <= now2,
    ensures
        settlement(a, p, c, now1, out1) is Err,
        settlement(a, p, c, now1, out1) == settlement(a, p, c, now2, out2),
{
}

/// In a post-swap settlement, the amount that arrived is exactly the growth
/// of the destination balance, split without loss between the treasury and
/// the merchant: the treasury gains `fee_of(delta, rate)`, the merchant the
/// rest, the recorded output is the merchant's share, and the destination
/// account ends where it began.
pub proof fn lemma_post_swap_split(a: CompletePayment, p: Payment, c: SettlementConfig, now: i64, output: Option<u64>)
    requires
        c.policy == FeePolicy::PostSwap,
        settlement(a, p, c, now, output) is Ok,
    ensures
        ({
            let (a2, ev) = settlement(a, p, c, now, output)->Ok_0;
            let delta = output->Some_0 as int;
            let fee = a2.treasury_ata.amount - a.treasury_ata.amount;
            let net = a2.merchant_ata.amount - a.merchant_ata.amount;
            &&& output is Some
            &&& delta > 0
            &&& fee == fee_of(delta, c.fee_rate_bps as int)
            &&& net == ev.pay_out_amount
            &&& fee + net == delta
            &&& a2.to_ata.amount == a.to_ata.amount
            &&& a.from_ata.amount - a2.from_ata.amount == p.pay_in_amount
        }),
{
}

/// In a pre-swap settlement, the fee on the input goes to the treasury, the
/// rest of the input is swapped, and the recorded output is exactly the
/// growth of the payer's destination balance.
pub proof fn lemma_pre_swap_split(a: CompletePayment, p: Payment, c: SettlementConfig, now: i64, output: Option<u64>)
    requires
        c.policy == FeePolicy::PreSwap,
        settlement(a, p, c, now, output) is Ok,
    ensures
        ({
            let (a2, ev) = settlement(a, p, c, now, output)->Ok_0;
            let fee = a2.treasury_ata.amount - a.treasury_ata.amount;
            &&& fee == fee_of(p.pay_in_amount as int, c.fee_rate_bps as int)
            &&& a.from_ata.amount - a2.from_ata.amount == p.pay_in_amount
            &&& output == Some(ev.pay_out_amount)
            &&& ev.pay_out_amount == a2.to_ata.amount - a.to_ata.amount
            &&& a2.merchant_ata == a.merchant_ata
        }),
{
}

/// The output that a request declares it expects has no bearing on the
/// outcome: settlement goes by the measured balances alone.
pub proof fn lemma_declared_output_ignored(a: CompletePayment, p: Payment, q: Payment, c: SettlementConfig, now: i64, output: Option<u64>)
    requires
        p.order_id == q.order_id,
        p.pay_in_amount == q.pay_in_amount,
        p.expiry == q.expiry,
    ensures
        settlement(a, p, c, now, output) == settlement(a, q, c, now, output),
{
}

/// In a post-swap settlement where the swap and the fee transfer go through
/// but the transfer to the merchant cannot be made, the settlement fails with
/// `TransferFailed`; a failed settlement changes no account, so neither the
/// swap nor the fee transfer leaves a trace.
pub proof fn lemma_second_transfer_failure(a: CompletePayment, p: Payment, c: SettlementConfig, now: i64, o: u64)
    requires
        c.policy == FeePolicy::PostSwap,
        now <= p.expiry,
        o > 0,
        fee_computable(o as int, c.fee_rate_bps as int),
        moved(a.from_ata, a.to_ata, p.pay_in_amount as int, o as int) is Some,
        ({
            let to1 = moved(a.from_ata, a.to_ata, p.pay_in_amount as int, o as int)->Some_0.1;
            let fee = fee_of(o as int, c.fee_rate_bps as int);
            &&& moved(to1, a.treasury_ata, fee, fee) is Some
            &&& moved(moved(to1, a.treasury_ata, fee, fee)->Some_0.0, a.merchant_ata, o - fee, o - fee) is None
        }),
    ensures
        settlement(a, p, c, now, Some(o)) == Err::<(CompletePayment, PaymentCompleted), _>(ErrorCode::TransferFailed),
{
}

/// At the protocol rate of 1% the fee is the amount divided by 100, rounded
/// down; it never exceeds the amount, and fails only where the product
/// overflows.
pub proof fn lemma_protocol_rate(amount: u64)
    ensures
        fee_computable(amount as int, SWAP_FEE as int) <==> amount * 100 <= u64::MAX,
        fee_of(amount as int, SWAP_FEE as int) == amount / 100,
        fee_of(amount as int, SWAP_FEE as int) <= amount,
{
    assert(fee_of(amount as int, 100) == amount / 100) by (nonlinear_arith);
}

} // verus!
