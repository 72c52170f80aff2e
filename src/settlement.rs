use vstd::prelude::*;
use solana_program::pubkey::Pubkey;
use crate::error::ErrorCode;
use crate::fee::{fee_computable, fee_of, split_fee};
use crate::ledger::{apply_swap, moved, transfer, TokenAccount};
use crate::request::{check_not_expired, is_live, reconcile, Payment};

verus! {

/// When the protocol fee is taken.
#[derive(Clone, Copy, Debug, PartialEq, Eq, Structural)]
pub enum FeePolicy {
    /// The fee is taken from the input before the swap, and the payer's
    /// destination account keeps the swap's whole output.
    PreSwap,
    /// The whole input is swapped, the fee is taken from the output that
    /// actually arrived, and the rest goes to the merchant.
    PostSwap,
}

/// Settlement parameters that are fixed when the engine is set up.
#[derive(Clone, Copy, Debug, PartialEq, Eq, Structural)]
pub struct SettlementConfig {
    /// The fee rate, in basis points.
    pub fee_rate_bps: u64,
    pub policy: FeePolicy,
}

/// The identities and token accounts that take part in one settlement.
#[derive(Clone, Copy, Debug)]
pub struct CompletePayment {
    pub payer: Pubkey,
    pub merchant: Pubkey,
    pub treasury: Pubkey,
    /// The payer's account of the source asset.
    pub from_ata: TokenAccount,
    /// The payer's account that receives the swap's output.
    pub to_ata: TokenAccount,
    /// The treasury's account that collects the fee.
    pub treasury_ata: TokenAccount,
    /// The merchant's account that receives the net proceeds.
    pub merchant_ata: TokenAccount,
}

/// The record published once for each completed settlement.
#[derive(Clone, Copy, Debug)]
pub struct PaymentCompleted {
    pub order_id: u64,
    pub pay_in_amount: u64,
    /// The output after reconciliation and after the fee.
    pub pay_out_amount: u64,
    pub payer: Pubkey,
    pub merchant: Pubkey,
    pub treasury: Pubkey,
}

/// The record for `p`, settled over `a`, with `out` as its output.
pub open spec fn completed(a: CompletePayment, p: Payment, out: int) -> PaymentCompleted {
    PaymentCompleted {
        order_id: p.order_id,
        pay_in_amount: p.pay_in_amount,
        pay_out_amount: out as u64,
        payer: a.payer,
        merchant: a.merchant,
        treasury: a.treasury_ata.key,
    }
}

/// Post-swap settlement: swap the whole input, measure what arrived, send
/// the fee to the treasury and the rest to the merchant.
pub open spec fn post_swap(a: CompletePayment, p: Payment, rate: int, output: Option<u64>) -> Result<(CompletePayment, PaymentCompleted), ErrorCode> {
    match output {
        None => Err(ErrorCode::SwapFailed),
        Some(o) => match moved(a.from_ata, a.to_ata, p.pay_in_amount as int, o as int) {
            None => Err(ErrorCode::SwapFailed),
            Some((from1, to1)) => {
                let delta = to1.amount - a.to_ata.amount;
                if delta <= 0 {
                    Err(ErrorCode::ReconciliationInvalid)
                } else if !fee_computable(delta, rate) {
                    Err(ErrorCode::ArithmeticOverflow)
                } else {
                    let fee = fee_of(delta, rate);
                    let net = delta - fee;
                    match moved(to1, a.treasury_ata, fee, fee) {
                        None => Err(ErrorCode::TransferFailed),
                        Some((to2, treasury1)) => match moved(to2, a.merchant_ata, net, net) {
                            None => Err(ErrorCode::TransferFailed),
                            Some((to3, merchant1)) => Ok((
                                CompletePayment {
                                    from_ata: from1,
                                    to_ata: to3,
                                    treasury_ata: treasury1,
                                    merchant_ata: merchant1,
                                    ..a
                                },
                                completed(a, p, net),
                            )),
                        },
                    }
                }
            },
        },
    }
}

/// Pre-swap settlement: send the fee on the input to the treasury, swap the
/// rest, and measure what arrived in the payer's destination account.
pub open spec fn pre_swap(a: CompletePayment, p: Payment, rate: int, output: Option<u64>) -> Result<(CompletePayment, PaymentCompleted), ErrorCode> {
    let input = p.pay_in_amount as int;
    if !fee_computable(input, rate) {
        Err(ErrorCode::ArithmeticOverflow)
    } else {
        let fee = fee_of(input, rate);
        match moved(a.from_ata, a.treasury_ata, fee, fee) {
            None => Err(ErrorCode::TransferFailed),
            Some((from1, treasury1)) => match output {
                None => Err(ErrorCode::SwapFailed),
                Some(o) => match moved(from1, a.to_ata, input - fee, o as int) {
                    None => Err(ErrorCode::SwapFailed),
                    Some((from2, to1)) => {
                        let delta = to1.amount - a.to_ata.amount;
                        if delta <= 0 {
                            Err(ErrorCode::ReconciliationInvalid)
                        } else {
                            Ok((
                                CompletePayment {
                                    from_ata: from2,
                                    to_ata: to1,
                                    treasury_ata: treasury1,
                                    ..a
                                },
                                completed(a, p, delta),
                            ))
                        }
                    },
                },
            },
        }
    }
}

/// The outcome of settling `p` over `a` at time `now`, where the venue fills
/// the swap with `output` units (`None`: the venue fails): the accounts
/// afterwards and the published record, or the error that aborts it.
pub open spec fn settlement(a: CompletePayment, p: Payment, c: SettlementConfig, now: i64, output: Option<u64>) -> Result<(CompletePayment, PaymentCompleted), ErrorCode> {
    if !is_live(p, now) {
        Err(ErrorCode::Expired)
    } else {
        match c.policy {
            FeePolicy::PostSwap => post_swap(a, p, c.fee_rate_bps as int, output),
            FeePolicy::PreSwap => pre_swap(a, p, c.fee_rate_bps as int, output),
        }
    }
}

/// The amount of the source asset handed to the venue: the whole input
/// after a post-swap fee, the input less its fee before a pre-swap fee.
pub fn swap_input(payment: &Payment, config: &SettlementConfig) -> (r: Result<u64, ErrorCode>)
    ensures
        match config.policy {
            FeePolicy::PostSwap => r == Ok::<_, ErrorCode>(payment.pay_in_amount),
            FeePolicy::PreSwap => if fee_computable(payment.pay_in_amount as int, config.fee_rate_bps as int) {
                r == Ok::<_, ErrorCode>((payment.pay_in_amount - fee_of(payment.pay_in_amount as int, config.fee_rate_bps as int)) as u64)
            } else {
                r == Err::<u64, _>(ErrorCode::ArithmeticOverflow)
            },
        },
{
    match config.policy {
        FeePolicy::PostSwap => Ok(payment.pay_in_amount),
        FeePolicy::PreSwap => match split_fee(payment.pay_in_amount, config.fee_rate_bps) {
            Ok(s) => Ok(s.net),
            Err(e) => Err(e),
        },
    }
}

fn record(a: &CompletePayment, p: &Payment, out: u64) -> (r: PaymentCompleted)
    ensures
        r == completed(*a, *p, out as int),
{
    PaymentCompleted {
        order_id: p.order_id,
        pay_in_amount: p.pay_in_amount,
        pay_out_amount: out,
        payer: a.payer,
        merchant: a.merchant,
        treasury: a.treasury_ata.key,
    }
}

fn settle_post_swap(a: &mut CompletePayment, p: &Payment, rate: u64, output: Option<u64>) -> (r: Result<PaymentCompleted, ErrorCode>)
    ensures
        match post_swap(*old(a), *p, rate as int, output) {
            Ok((a2, ev)) => r == Ok::<_, ErrorCode>(ev) && *final(a) == a2,
            Err(e) => r == Err::<PaymentCompleted, _>(e),
        },
{
    let before = a.to_ata.amount;
    let (from1, to1) = match apply_swap(a.from_ata, a.to_ata, p.pay_in_amount, output) {
        Ok(pair) => pair,
        Err(e) => return Err(e),
    };
    a.from_ata = from1;
    a.to_ata = to1;
    let after = a.to_ata.amount;
    let delta = match reconcile(before, after) {
        Ok(d) => d,
        Err(e) => return Err(e),
    };
    let split = match split_fee(delta, rate) {
        Ok(s) => s,
        Err(e) => return Err(e),
    };
    let (to2, treasury1) = match transfer(a.to_ata, a.treasury_ata, split.fee) {
        Ok(pair) => pair,
        Err(e) => return Err(e),
    };
    a.to_ata = to2;
    a.treasury_ata = treasury1;
    let (to3, merchant1) = match transfer(a.to_ata, a.merchant_ata, split.net) {
        Ok(pair) => pair,
        Err(e) => return Err(e),
    };
    a.to_ata = to3;
    a.merchant_ata = merchant1;
    Ok(record(a, p, split.net))
}

fn settle_pre_swap(a: &mut CompletePayment, p: &Payment, rate: u64, output: Option<u64>) -> (r: Result<PaymentCompleted, ErrorCode>)
    ensures
        match pre_swap(*old(a), *p, rate as int, output) {
            Ok((a2, ev)) => r == Ok::<_, ErrorCode>(ev) && *final(a) == a2,
            Err(e) => r == Err::<PaymentCompleted, _>(e),
        },
{
    let split = match split_fee(p.pay_in_amount, rate) {
        Ok(s) => s,
        Err(e) => return Err(e),
    };
    let (from1, treasury1) = match transfer(a.from_ata, a.treasury_ata, split.fee) {
        Ok(pair) => pair,
        Err(e) => return Err(e),
    };
    a.from_ata = from1;
    a.treasury_ata = treasury1;
    let before = a.to_ata.amount;
    let (from2, to1) = match apply_swap(a.from_ata, a.to_ata, split.net, output) {
        Ok(pair) => pair,
        Err(e) => return Err(e),
    };
    a.from_ata = from2;
    a.to_ata = to1;
    let after = a.to_ata.amount;
    let delta = match reconcile(before, after) {
        Ok(d) => d,
        Err(e) => return Err(e),
    };
    Ok(record(a, p, delta))
}

/// Settles `payment` over `accounts` at time `now`, the venue filling the
/// swap with `output` units (`None` where it fails). All or nothing: on
/// success the accounts hold the settled balances and the completion record
/// is returned; on any error they are left exactly as they were.
pub fn complete_payment(
    accounts: &mut CompletePayment,
    payment: &Payment,
    config: &SettlementConfig,
    now: i64,
    output: Option<u64>,
) -> (r: Result<PaymentCompleted, ErrorCode>)
    ensures
        match settlement(*old(accounts), *payment, *config, now, output) {
            Ok((a2, ev)) => r == Ok::<_, ErrorCode>(ev) && *final(accounts) == a2,
            Err(e) => r == Err::<PaymentCompleted, _>(e) && *final(accounts) == *old(accounts),
        },
{
    match check_not_expired(payment, now) {
        Ok(()) => {},
        Err(e) => return Err(e),
    }
    let mut work = *accounts;
    let r = match config.policy {
        FeePolicy::PostSwap => settle_post_swap(&mut work, payment, config.fee_rate_bps, output),
        FeePolicy::PreSwap => settle_pre_swap(&mut work, payment, config.fee_rate_bps, output),
    };
    if r.is_ok() {
        *accounts = work;
    }
    r
}

} // verus!
