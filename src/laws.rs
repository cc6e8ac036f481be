//! Properties that relate several operations, or several calls of one,
//! stated over the same spec functions as the operations' contracts.
use vstd::prelude::*;

use crate::contract::{
    admin_error, arbitrator_authorized, dispute_added, resolve_error, statuses_advance, ContractState,
};
use crate::escrow::{balance_change, collect_spec, fee_recipient, release_spec, FeeTransfer};
use crate::principal::Principal;
use crate::records::{status_rank, Dispute, DisputeOutcome, DisputeStatus};

verus! {

/// Dispute ids run 1, 2, 3, … with no gap and no repeat: two filings in a
/// row hand out consecutive ids, the first filing into an empty contract
/// hands out 1, and every dispute stands under its own id.
pub proof fn lemma_dispute_ids_sequential(
    s0: ContractState,
    s1: ContractState,
    s2: ContractState,
    id1: u64,
    id2: u64,
)
    requires
        s0.wf(),
        dispute_added(s0, s1, id1),
        dispute_added(s1, s2, id2),
    ensures
        id1 == s0.disputes.len() + 1,
        id2 == id1 + 1,
        s0.disputes.len() == 0 ==> id1 == 1 && id2 == 2,
        forall|i: int| 0 <= i < s2.disputes.len() ==> (#[trigger] s2.disputes[i]).dispute_id == i + 1,
{
    assert forall|i: int| 0 <= i < s2.disputes.len() implies (#[trigger] s2.disputes[i]).dispute_id == i + 1 by {
        if i < s0.disputes.len() {
            assert(s2.disputes[i] == s1.disputes[i]);
            assert(s1.disputes[i] == s0.disputes[i]);
        } else if i < s1.disputes.len() {
            assert(s2.disputes[i] == s1.disputes[i]);
        }
    }
}

/// A dispute's status never moves back. Every operation's contract promises
/// `statuses_advance` from the state before to the state after, and this
/// relation chains: over any run of operations from `a` through `b` to `c`,
/// each dispute of `a` stands in `c` at the same place, at the same status
/// or further along `Filed`, `UnderReview`, `Resolved`.
pub proof fn lemma_statuses_never_regress(a: Seq<Dispute>, b: Seq<Dispute>, c: Seq<Dispute>)
    requires
        statuses_advance(a, b),
        statuses_advance(b, c),
    ensures
        statuses_advance(a, c),
{
    assert forall|i: int| 0 <= i < a.len() implies status_rank(#[trigger] a[i].status) <= status_rank(c[i].status) by {
        assert(status_rank(a[i].status) <= status_rank(b[i].status));
        assert(status_rank(b[i].status) <= status_rank(c[i].status));
    }
}

/// Filing fee conservation: a positive filing fee `fee` raises the escrow
/// balance by `fee` when it is collected at filing, and lowers it by exactly
/// `fee` when it is released at resolution, in one movement to exactly one
/// of the claimant and the treasury.
pub proof fn lemma_filing_fee_conserved(
    token: Principal,
    claimant: Principal,
    treasury: Principal,
    escrow: Principal,
    outcome: DisputeOutcome,
    fee: i128,
)
    requires
        fee > 0,
        claimant@ != escrow@,
        treasury@ != escrow@,
    ensures
        balance_change(collect_spec(token, claimant, escrow, fee), escrow@) == fee,
        balance_change(release_spec(token, escrow, outcome, claimant, treasury, fee), escrow@) == -fee,
        release_spec(token, escrow, outcome, claimant, treasury, fee) == Some(
            FeeTransfer { token, from: escrow, to: fee_recipient(outcome, claimant, treasury), amount: fee },
        ),
        outcome == DisputeOutcome::Claimant ==> fee_recipient(outcome, claimant, treasury) == claimant,
        outcome != DisputeOutcome::Claimant ==> fee_recipient(outcome, claimant, treasury) == treasury,
{
}

/// Authorizing an arbitrator twice has the effect of authorizing it once:
/// the second call finds the same admin, succeeds when the first did, and
/// changes nothing.
pub proof fn lemma_authorize_idempotent(s: ContractState, arbitrator: Principal)
    ensures
        arbitrator_authorized(s, arbitrator).is_arbitrator(arbitrator@),
        arbitrator_authorized(arbitrator_authorized(s, arbitrator), arbitrator) == arbitrator_authorized(s, arbitrator),
        forall|signed: bool, admin: Seq<char>|
            #[trigger] admin_error(arbitrator_authorized(s, arbitrator), signed, admin) == admin_error(s, signed, admin),
{
    let t = arbitrator_authorized(s, arbitrator);
    if !s.is_arbitrator(arbitrator@) {
        assert(t.arbitrators[t.arbitrators.len() - 1] == arbitrator);
    }
}

proof fn lemma_filing_run_lengths(states: Seq<ContractState>, ids: Seq<u64>, n: int)
    requires
        states.len() == ids.len() + 1,
        states[0].disputes.len() == 0,
        forall|i: int| 0 <= i < ids.len() ==> dispute_added(#[trigger] states[i], states[i + 1], ids[i]),
        0 <= n <= ids.len(),
    ensures
        states[n].disputes.len() == n,
    decreases n,
{
    if n > 0 {
        lemma_filing_run_lengths(states, ids, n - 1);
        assert(dispute_added(states[n - 1], states[n], ids[n - 1]));
    }
}

/// Dispute ids run 1, 2, 3, … over any run of filings: when `states[0]`
/// holds no dispute and each `states[i + 1]` comes from `states[i]` by a
/// successful filing that hands out `ids[i]`, the filings hand out exactly
/// 1, 2, …, k in order. A refused filing leaves the state as it was, so it
/// takes no id.
pub proof fn lemma_filing_run_ids(states: Seq<ContractState>, ids: Seq<u64>)
    requires
        states.len() == ids.len() + 1,
        states[0].disputes.len() == 0,
        forall|i: int| 0 <= i < ids.len() ==> dispute_added(#[trigger] states[i], states[i + 1], ids[i]),
    ensures
        forall|i: int| 0 <= i < ids.len() ==> #[trigger] ids[i] == i + 1,
        states.last().disputes.len() == ids.len(),
{
    assert forall|i: int| 0 <= i < ids.len() implies #[trigger] ids[i] == i + 1 by {
        lemma_filing_run_lengths(states, ids, i);
        assert(dispute_added(states[i], states[i + 1], ids[i]));
    }
    lemma_filing_run_lengths(states, ids, ids.len() as int);
}

/// A dispute is resolved once: on a resolved dispute `resolve_dispute` is
/// refused, whoever calls, so its filing fee is released once and its
/// `resolved_at` is never overwritten.
pub proof fn lemma_resolved_once(s: ContractState, signed: bool, caller: Seq<char>, dispute_id: u64)
    requires
        s.wf(),
        s.has_dispute(dispute_id),
        s.dispute(dispute_id).status == DisputeStatus::Resolved,
    ensures
        resolve_error(s, signed, caller, dispute_id) is Some,
{
}

} // verus!
