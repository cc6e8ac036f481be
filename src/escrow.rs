//! The fee and escrow ledger: which fee movements an operation asks of the
//! token contract. Fees are collected from a payer into the contract's own
//! custodial account, and a dispute's filing fee is released from it on
//! resolution.
use vstd::prelude::*;

use crate::principal::Principal;
use crate::records::DisputeOutcome;

verus! {

/// A movement of `amount` units of `token` from `from` to `to`, to be made
/// by the token contract. If it fails, the operation that asked for it fails
/// as a whole.
#[derive(Debug, Clone)]
pub struct FeeTransfer {
    pub token: Principal,
    pub from: Principal,
    pub to: Principal,
    pub amount: i128,
}

/// The movement that collects `fee` from `payer` into `escrow`; none when
/// the fee is not positive.
pub open spec fn collect_spec(token: Principal, payer: Principal, escrow: Principal, fee: i128) -> Option<FeeTransfer> {
    if fee > 0 {
        Some(FeeTransfer { token, from: payer, to: escrow, amount: fee })
    } else {
        None
    }
}

/// The account that receives a dispute's filing fee when it is resolved with
/// `outcome`: the claimant is refunded when it wins, the treasury (the admin)
/// takes the fee otherwise.
pub open spec fn fee_recipient(outcome: DisputeOutcome, claimant: Principal, treasury: Principal) -> Principal {
    if outcome == DisputeOutcome::Claimant {
        claimant
    } else {
        treasury
    }
}

/// The movement that releases a filing fee `fee` out of `escrow` on
/// resolution with `outcome`; none when the fee is not positive.
pub open spec fn release_spec(
    token: Principal,
    escrow: Principal,
    outcome: DisputeOutcome,
    claimant: Principal,
    treasury: Principal,
    fee: i128,
) -> Option<FeeTransfer> {
    if fee > 0 {
        Some(FeeTransfer { token, from: escrow, to: fee_recipient(outcome, claimant, treasury), amount: fee })
    } else {
        None
    }
}

/// By how much a movement changes the balance of the account `account`.
pub open spec fn balance_change(t: Option<FeeTransfer>, account: Seq<char>) -> int {
    match t {
        None => 0,
        Some(t) => (if t.to@ == account { t.amount as int } else { 0 }) - (if t.from@ == account {
            t.amount as int
        } else {
            0
        }),
    }
}

pub fn collect(token: &Principal, payer: &Principal, escrow: &Principal, fee: i128) -> (r: Option<FeeTransfer>)
    ensures
        r == collect_spec(*token, *payer, *escrow, fee),
{
    if fee > 0 {
        Some(FeeTransfer { token: token.duplicate(), from: payer.duplicate(), to: escrow.duplicate(), amount: fee })
    } else {
        None
    }
}

pub fn release(
    token: &Principal,
    escrow: &Principal,
    outcome: DisputeOutcome,
    claimant: &Principal,
    treasury: &Principal,
    fee: i128,
) -> (r: Option<FeeTransfer>)
    ensures
        r == release_spec(*token, *escrow, outcome, *claimant, *treasury, fee),
{
    if fee > 0 {
        let to = match outcome {
            DisputeOutcome::Claimant => claimant.duplicate(),
            _ => treasury.duplicate(),
        };
        Some(FeeTransfer { token: token.duplicate(), from: escrow.duplicate(), to, amount: fee })
    } else {
        None
    }
}

} // verus!
