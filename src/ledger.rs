use vstd::prelude::*;
use solana_program::pubkey::Pubkey;
use crate::error::ErrorCode;

verus! {

/// A token account as settlement sees it: its address, its balance, and
/// whether it is frozen (a frozen account can neither send nor receive).
#[derive(Clone, Copy, Debug)]
pub struct TokenAccount {
    pub key: Pubkey,
    pub amount: u64,
    pub frozen: bool,
}

/// The pair of accounts after `debit` units leave `from` and `credit` units
/// reach `to`, or `None` where the movement cannot be made: an account is
/// frozen, `from` holds too little, or `to` would overflow.
pub open spec fn moved(from: TokenAccount, to: TokenAccount, debit: int, credit: int) -> Option<(TokenAccount, TokenAccount)> {
    if !from.frozen && !to.frozen && 0 <= debit <= from.amount && 0 <= credit
        && to.amount + credit <= u64::MAX {
        Some((
            TokenAccount { key: from.key, amount: (from.amount - debit) as u64, frozen: from.frozen },
            TokenAccount { key: to.key, amount: (to.amount + credit) as u64, frozen: to.frozen },
        ))
    } else {
        None
    }
}

/// Moves `amount` units from `from` to `to`, as the token program's transfer
/// does; refused with `TransferFailed` exactly where `moved` gives `None`.
pub fn transfer(from: TokenAccount, to: TokenAccount, amount: u64) -> (r: Result<(TokenAccount, TokenAccount), ErrorCode>)
    ensures
        match moved(from, to, amount as int, amount as int) {
            Some(pair) => r == Ok::<_, ErrorCode>(pair),
            None => r == Err::<(TokenAccount, TokenAccount), _>(ErrorCode::TransferFailed),
        },
{
    if from.frozen || to.frozen || amount > from.amount || amount > u64::MAX - to.amount {
        return Err(ErrorCode::TransferFailed);
    }
    Ok((
        TokenAccount { key: from.key, amount: from.amount - amount, frozen: from.frozen },
        TokenAccount { key: to.key, amount: to.amount + amount, frozen: to.frozen },
    ))
}

/// Applies a venue's swap: `input` units leave `from` and the `output` that
/// the venue filled (`None` where it failed) reaches `to`. Refused with
/// `SwapFailed` where the venue failed or the movement cannot be made.
pub fn apply_swap(from: TokenAccount, to: TokenAccount, input: u64, output: Option<u64>) -> (r: Result<(TokenAccount, TokenAccount), ErrorCode>)
    ensures
        match output {
            None => r == Err::<(TokenAccount, TokenAccount), _>(ErrorCode::SwapFailed),
            Some(o) => match moved(from, to, input as int, o as int) {
                Some(pair) => r == Ok::<_, ErrorCode>(pair),
                None => r == Err::<(TokenAccount, TokenAccount), _>(ErrorCode::SwapFailed),
            },
        },
{
    let o = match output {
        Some(o) => o,
        None => return Err(ErrorCode::SwapFailed),
    };
    if from.frozen || to.frozen || input > from.amount || o > u64::MAX - to.amount {
        return Err(ErrorCode::SwapFailed);
    }
    Ok((
        TokenAccount { key: from.key, amount: from.amount - input, frozen: from.frozen },
        TokenAccount { key: to.key, amount: to.amount + o, frozen: to.frozen },
    ))
}

} // verus!
