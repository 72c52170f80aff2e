use pay::error::ErrorCode;
use pay::fee::{split_fee, FeeSplit, SWAP_FEE};
use pay::ledger::{apply_swap, transfer, TokenAccount};
use pay::request::{check_not_expired, reconcile, Payment};
use pay::settlement::{
    complete_payment, swap_input, CompletePayment, FeePolicy, PaymentCompleted, SettlementConfig,
};
use solana_program::pubkey::Pubkey;

fn key(b: u8) -> Pubkey {
    Pubkey::new_from_array([b; 32])
}

fn account(b: u8, amount: u64) -> TokenAccount {
    TokenAccount { key: key(b), amount, frozen: false }
}

fn accounts() -> CompletePayment {
    CompletePayment {
        payer: key(1),
        merchant: key(2),
        treasury: key(3),
        from_ata: account(11, 50_000),
        to_ata: account(12, 700),
        treasury_ata: account(13, 40),
        merchant_ata: account(14, 5),
    }
}

fn payment(pay_in_amount: u64) -> Payment {
    Payment { order_id: 42, pay_in_amount, pay_out_amount: Some(9_999), expiry: 1_000 }
}

fn post_swap() -> SettlementConfig {
    SettlementConfig { fee_rate_bps: SWAP_FEE, policy: FeePolicy::PostSwap }
}

fn pre_swap() -> SettlementConfig {
    SettlementConfig { fee_rate_bps: SWAP_FEE, policy: FeePolicy::PreSwap }
}

fn amounts(a: &CompletePayment) -> [u64; 4] {
    [a.from_ata.amount, a.to_ata.amount, a.treasury_ata.amount, a.merchant_ata.amount]
}

fn settle(a: &mut CompletePayment, p: &Payment, c: &SettlementConfig, now: i64, output: Option<u64>) -> Result<PaymentCompleted, ErrorCode> {
    complete_payment(a, p, c, now, output)
}

#[test]
fn post_swap_end_to_end() {
    let mut a = accounts();
    let ev = settle(&mut a, &payment(10_000), &post_swap(), 900, Some(9_500)).unwrap();
    assert_eq!(ev.pay_out_amount, 9_405);
    assert_eq!(ev.order_id, 42);
    assert_eq!(ev.pay_in_amount, 10_000);
    assert_eq!(ev.payer, key(1));
    assert_eq!(ev.merchant, key(2));
    assert_eq!(ev.treasury, key(13));
    assert_eq!(amounts(&a), [40_000, 700, 40 + 95, 5 + 9_405]);
}

#[test]
fn pre_swap_end_to_end() {
    let mut a = accounts();
    let p = payment(10_000);
    assert_eq!(swap_input(&p, &pre_swap()), Ok(9_900));
    let ev = settle(&mut a, &p, &pre_swap(), 900, Some(9_300)).unwrap();
    assert_eq!(ev.pay_out_amount, 9_300);
    assert_eq!(amounts(&a), [40_000, 700 + 9_300, 40 + 100, 5]);
}

#[test]
fn post_swap_input_is_whole_amount() {
    assert_eq!(swap_input(&payment(10_000), &post_swap()), Ok(10_000));
}

#[test]
fn pre_swap_input_overflow() {
    assert_eq!(swap_input(&payment(u64::MAX), &pre_swap()), Err(ErrorCode::ArithmeticOverflow));
}

#[test]
fn one_unit_pays_no_fee() {
    assert_eq!(split_fee(1, 100), Ok(FeeSplit { fee: 0, net: 1 }));
    let mut a = accounts();
    let ev = settle(&mut a, &payment(10), &post_swap(), 900, Some(1)).unwrap();
    assert_eq!(ev.pay_out_amount, 1);
    assert_eq!(amounts(&a), [49_990, 700, 40, 6]);
}

#[test]
fn fee_split_exact_values() {
    assert_eq!(split_fee(9_500, 100), Ok(FeeSplit { fee: 95, net: 9_405 }));
    assert_eq!(split_fee(10_000, 100), Ok(FeeSplit { fee: 100, net: 9_900 }));
    assert_eq!(split_fee(199, 100), Ok(FeeSplit { fee: 1, net: 198 }));
    assert_eq!(split_fee(12_345, 250), Ok(FeeSplit { fee: 308, net: 12_037 }));
    assert_eq!(split_fee(0, 100), Ok(FeeSplit { fee: 0, net: 0 }));
}

#[test]
fn fee_split_conserves_amount() {
    for amount in [1u64, 99, 100, 101, 9_999, 123_456_789] {
        let s = split_fee(amount, SWAP_FEE).unwrap();
        assert_eq!(s.fee + s.net, amount);
        assert_eq!(s.fee, amount * 100 / 10_000);
    }
}

#[test]
fn fee_split_overflow() {
    assert_eq!(split_fee(u64::MAX, 100), Err(ErrorCode::ArithmeticOverflow));
    assert_eq!(split_fee(10_000, 10_001), Err(ErrorCode::ArithmeticOverflow));
    assert_eq!(split_fee(100, 10_000), Ok(FeeSplit { fee: 100, net: 0 }));
}

#[test]
fn expired_request_changes_nothing() {
    let mut a = accounts();
    let r = settle(&mut a, &payment(10_000), &post_swap(), 1_001, Some(9_500));
    assert!(matches!(r, Err(ErrorCode::Expired)));
    assert_eq!(amounts(&a), amounts(&accounts()));
}

#[test]
fn expired_request_replayed() {
    let mut a = accounts();
    let p = payment(10_000);
    for _ in 0..2 {
        let r = settle(&mut a, &p, &pre_swap(), 2_000, Some(9_500));
        assert!(matches!(r, Err(ErrorCode::Expired)));
        assert_eq!(amounts(&a), amounts(&accounts()));
    }
}

#[test]
fn deadline_itself_is_valid() {
    assert_eq!(check_not_expired(&payment(1), 1_000), Ok(()));
    assert_eq!(check_not_expired(&payment(1), 1_001), Err(ErrorCode::Expired));
}

#[test]
fn merchant_transfer_failure_rolls_back() {
    let mut a = accounts();
    a.merchant_ata.frozen = true;
    let before = amounts(&a);
    let r = settle(&mut a, &payment(10_000), &post_swap(), 900, Some(9_500));
    assert!(matches!(r, Err(ErrorCode::TransferFailed)));
    assert_eq!(amounts(&a), before);
}

#[test]
fn treasury_transfer_failure_rolls_back() {
    let mut a = accounts();
    a.treasury_ata.amount = u64::MAX;
    let before = amounts(&a);
    let r = settle(&mut a, &payment(10_000), &post_swap(), 900, Some(9_500));
    assert!(matches!(r, Err(ErrorCode::TransferFailed)));
    assert_eq!(amounts(&a), before);
}

#[test]
fn venue_failure_is_swap_failed() {
    let mut a = accounts();
    let r = settle(&mut a, &payment(10_000), &post_swap(), 900, None);
    assert!(matches!(r, Err(ErrorCode::SwapFailed)));
    let r = settle(&mut a, &payment(60_000), &post_swap(), 900, Some(1));
    assert!(matches!(r, Err(ErrorCode::SwapFailed)));
    assert_eq!(amounts(&a), amounts(&accounts()));
}

#[test]
fn empty_fill_is_reconciliation_invalid() {
    let mut a = accounts();
    let r = settle(&mut a, &payment(10_000), &post_swap(), 900, Some(0));
    assert!(matches!(r, Err(ErrorCode::ReconciliationInvalid)));
    assert_eq!(amounts(&a), amounts(&accounts()));
}

#[test]
fn large_fill_is_arithmetic_overflow() {
    let mut a = accounts();
    a.to_ata.amount = 0;
    let before = amounts(&a);
    let r = settle(&mut a, &payment(10_000), &post_swap(), 900, Some(u64::MAX / 50));
    assert!(matches!(r, Err(ErrorCode::ArithmeticOverflow)));
    assert_eq!(amounts(&a), before);
}

#[test]
fn declared_output_is_ignored() {
    let mut a = accounts();
    let mut b = accounts();
    let p = payment(10_000);
    let q = Payment { pay_out_amount: None, ..p };
    let e1 = settle(&mut a, &p, &post_swap(), 900, Some(9_500)).unwrap();
    let e2 = settle(&mut b, &q, &post_swap(), 900, Some(9_500)).unwrap();
    assert_eq!(e1.pay_out_amount, e2.pay_out_amount);
    assert_eq!(amounts(&a), amounts(&b));
}

#[test]
fn reconcile_is_balance_growth() {
    assert_eq!(reconcile(700, 10_200), Ok(9_500));
    assert_eq!(reconcile(700, 700), Err(ErrorCode::ReconciliationInvalid));
    assert_eq!(reconcile(700, 600), Err(ErrorCode::ReconciliationInvalid));
}

#[test]
fn transfer_moves_amount() {
    let (f, t) = transfer(account(1, 10), account(2, 5), 4).unwrap();
    assert_eq!((f.amount, t.amount), (6, 9));
    assert!(matches!(transfer(account(1, 10), account(2, 5), 11), Err(ErrorCode::TransferFailed)));
    let mut frozen = account(2, 5);
    frozen.frozen = true;
    assert!(matches!(transfer(account(1, 10), frozen, 1), Err(ErrorCode::TransferFailed)));
}

#[test]
fn swap_debits_input_credits_output() {
    let (f, t) = apply_swap(account(1, 10), account(2, 5), 4, Some(7)).unwrap();
    assert_eq!((f.amount, t.amount), (6, 12));
    assert!(matches!(apply_swap(account(1, 10), account(2, 5), 4, None), Err(ErrorCode::SwapFailed)));
}

#[test]
fn error_messages() {
    assert_eq!(ErrorCode::Expired.message(), "The payment has expired.");
    assert_ne!(ErrorCode::SwapFailed.message(), ErrorCode::TransferFailed.message());
}

#[test]
fn swap_data_encoding() {
    let d = pay::swap::swap_base_in_data(10_000, 0);
    assert_eq!(d, vec![9, 0x10, 0x27, 0, 0, 0, 0, 0, 0, 0, 0, 0, 0, 0, 0, 0, 0]);
    let d = pay::swap::swap_base_in_data(1, u64::MAX);
    assert_eq!(d, vec![9, 1, 0, 0, 0, 0, 0, 0, 0, 255, 255, 255, 255, 255, 255, 255, 255]);
}
