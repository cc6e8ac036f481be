//! Dispute and appeal records, their status and outcome enums, and the
//! errors that the operations report.
use vstd::prelude::*;

use crate::principal::Principal;

verus! {

/// Where a dispute stands. Only `Filed`, `UnderReview` and `Resolved` are
/// entered by any operation; the others are representable but reserved.
#[derive(Debug, Clone, Copy, PartialEq, Eq, Structural)]
pub enum DisputeStatus {
    Filed,
    UnderReview,
    AwaitingEvidence,
    Deliberating,
    Resolved,
    Appealed,
    Closed,
}

/// How a dispute was decided.
#[derive(Debug, Clone, Copy, PartialEq, Eq, Structural)]
pub enum DisputeOutcome {
    Pending,
    Claimant,
    Respondent,
    Split,
    NoAction,
}

/// Where an appeal stands. Resolution always records `Upheld`; the other
/// terminal variants are representable but never entered.
#[derive(Debug, Clone, Copy, PartialEq, Eq, Structural)]
pub enum AppealStatus {
    Pending,
    UnderReview,
    Upheld,
    Overturned,
    Dismissed,
}

/// The position of a status in the declared order of the lifecycle.
pub open spec fn status_rank(s: DisputeStatus) -> nat {
    match s {
        DisputeStatus::Filed => 0,
        DisputeStatus::UnderReview => 1,
        DisputeStatus::AwaitingEvidence => 2,
        DisputeStatus::Deliberating => 3,
        DisputeStatus::Resolved => 4,
        DisputeStatus::Appealed => 5,
        DisputeStatus::Closed => 6,
    }
}

/// One claim of a claimant against a respondent.
#[derive(Debug, Clone)]
pub struct Dispute {
    pub dispute_id: u64,
    pub claimant: Principal,
    pub respondent: Principal,
    pub campaign_id: u64,
    pub claim_amount: i128,
    /// The asset in which the fees of this dispute move.
    pub token: Principal,
    pub description: String,
    /// Content hash of the off-ledger evidence.
    pub evidence_hash: String,
    pub status: DisputeStatus,
    pub outcome: DisputeOutcome,
    pub resolution_notes: String,
    pub filed_at: u64,
    pub resolved_at: Option<u64>,
    pub arbitrator: Option<Principal>,
}

/// An appeal against the outcome of a resolved dispute.
#[derive(Debug, Clone)]
pub struct DisputeAppeal {
    pub appeal_id: u64,
    pub dispute_id: u64,
    pub appellant: Principal,
    pub reason: String,
    pub evidence_hash: String,
    pub status: AppealStatus,
    pub filed_at: u64,
    pub resolved_at: Option<u64>,
    pub new_arbitrator: Option<Principal>,
    /// The dispute's outcome when the appeal was filed.
    pub original_outcome: DisputeOutcome,
    pub final_outcome: DisputeOutcome,
}

/// Why an operation was refused. A refused operation changes nothing.
#[derive(Debug, Clone, Copy, PartialEq, Eq, Structural)]
pub enum DisputeError {
    /// `initialize` was called on a contract that already has an admin.
    AlreadyInitialized,
    /// The contract has no admin yet.
    NotInitialized,
    /// The acting principal did not sign the call.
    NotAuthenticated,
    /// The acting principal is not the stored admin.
    Unauthorized,
    /// The arbitrator to assign is not on the allow-list.
    ArbitratorNotAuthorized,
    DisputeNotFound,
    /// Only a dispute still `Filed` can be assigned an arbitrator.
    DisputeNotFiled,
    /// The caller is not the dispute's assigned arbitrator.
    NotAssignedArbitrator,
    /// Only a dispute under review can be resolved.
    DisputeNotUnderReview,
    /// Only a resolved dispute can be appealed.
    DisputeNotResolved,
    /// Only the claimant or the respondent can appeal.
    NotAParty,
    AppealNotFound,
    AppealNotPending,
    /// The caller is not the proposed next admin.
    NotPendingAdmin,
    /// Every identifier of the counter's type has been handed out.
    CounterExhausted,
}

fn duplicate_principal_opt(p: &Option<Principal>) -> (r: Option<Principal>)
    ensures
        r == *p,
{
    match p {
        Some(q) => Some(q.duplicate()),
        None => None,
    }
}

impl Dispute {
    /// A copy equal to `self` in every field.
    pub fn duplicate(&self) -> (r: Dispute)
        ensures
            r == *self,
    {
        Dispute {
            dispute_id: self.dispute_id,
            claimant: self.claimant.duplicate(),
            respondent: self.respondent.duplicate(),
            campaign_id: self.campaign_id,
            claim_amount: self.claim_amount,
            token: self.token.duplicate(),
            description: self.description.clone(),
            evidence_hash: self.evidence_hash.clone(),
            status: self.status,
            outcome: self.outcome,
            resolution_notes: self.resolution_notes.clone(),
            filed_at: self.filed_at,
            resolved_at: self.resolved_at,
            arbitrator: duplicate_principal_opt(&self.arbitrator),
        }
    }
}

impl DisputeAppeal {
    /// A copy equal to `self` in every field.
    pub fn duplicate(&self) -> (r: DisputeAppeal)
        ensures
            r == *self,
    {
        DisputeAppeal {
            appeal_id: self.appeal_id,
            dispute_id: self.dispute_id,
            appellant: self.appellant.duplicate(),
            reason: self.reason.clone(),
            evidence_hash: self.evidence_hash.clone(),
            status: self.status,
            filed_at: self.filed_at,
            resolved_at: self.resolved_at,
            new_arbitrator: duplicate_principal_opt(&self.new_arbitrator),
            original_outcome: self.original_outcome,
            final_outcome: self.final_outcome,
        }
    }
}

} // verus!
