//! The dispute resolution contract: global configuration, the arbitrator
//! allow-list, dispute and appeal records, and every operation on them.
//!
//! Each operation is all-or-nothing: it either returns an error and leaves
//! the state as it was, or applies its whole effect. Fee movements that an
//! operation asks for come back as [`FeeTransfer`] values; the host performs
//! them and, should one fail, discards the operation's effect.
use vstd::prelude::*;

use crate::escrow::{collect, collect_spec, release, release_spec, FeeTransfer};
use crate::principal::{holds_key, CallAuth, Principal};
use crate::records::{
    AppealStatus, Dispute, DisputeAppeal, DisputeError, DisputeOutcome,
    DisputeStatus, status_rank,
};

verus! {

/// The settings fixed by `initialize`, and the admin handover slots.
#[derive(Debug, Clone)]
pub struct Config {
    pub admin: Principal,
    /// The principal proposed as next admin, if any.
    pub pending_admin: Option<Principal>,
    /// The asset in which fees are paid.
    pub token: Principal,
    pub filing_fee: i128,
    pub appeal_fee: i128,
}

/// The contract's whole state.
#[derive(Debug, Clone)]
pub struct DisputeResolutionContract {
    escrow: Principal,
    config: Option<Config>,
    disputes: Vec<Dispute>,
    appeals: Vec<DisputeAppeal>,
    arbitrators: Vec<Principal>,
}

/// The mathematical state of the contract.
pub struct ContractState {
    /// The contract's own custodial account.
    pub escrow: Principal,
    /// `None` until `initialize`.
    pub config: Option<Config>,
    /// The dispute with id `i + 1` stands at index `i`.
    pub disputes: Seq<Dispute>,
    /// The appeal with id `i + 1` stands at index `i`.
    pub appeals: Seq<DisputeAppeal>,
    /// The authorized arbitrators, in the order of their first authorization.
    pub arbitrators: Seq<Principal>,
}

impl View for DisputeResolutionContract {
    type V = ContractState;

    closed spec fn view(&self) -> ContractState {
        ContractState {
            escrow: self.escrow,
            config: self.config,
            disputes: self.disputes@,
            appeals: self.appeals@,
            arbitrators: self.arbitrators@,
        }
    }
}

/// Only the statuses that some operation enters.
pub open spec fn reachable_dispute_status(s: DisputeStatus) -> bool {
    s == DisputeStatus::Filed || s == DisputeStatus::UnderReview || s == DisputeStatus::Resolved
}

/// A dispute's status agrees with its other fields: only a `Filed`
/// dispute has no arbitrator, and `resolved_at` is set exactly when it is
/// `Resolved`.
pub open spec fn dispute_consistent(d: Dispute) -> bool {
    &&& reachable_dispute_status(d.status)
    &&& (d.status == DisputeStatus::Filed <==> d.arbitrator is None)
    &&& (d.status == DisputeStatus::Resolved <==> d.resolved_at is Some)
}

/// Only the statuses that some operation enters.
pub open spec fn reachable_appeal_status(s: AppealStatus) -> bool {
    s == AppealStatus::Pending || s == AppealStatus::Upheld
}

impl ContractState {
    pub open spec fn is_admin(self, key: Seq<char>) -> bool {
        self.config is Some && self.config->0.admin@ == key
    }

    pub open spec fn is_arbitrator(self, key: Seq<char>) -> bool {
        holds_key(self.arbitrators, key)
    }

    pub open spec fn has_dispute(self, id: u64) -> bool {
        1 <= id <= self.disputes.len()
    }

    pub open spec fn dispute(self, id: u64) -> Dispute {
        self.disputes[id - 1]
    }

    pub open spec fn has_appeal(self, id: u64) -> bool {
        1 <= id <= self.appeals.len()
    }

    pub open spec fn appeal(self, id: u64) -> DisputeAppeal {
        self.appeals[id - 1]
    }

    /// The invariant that every operation keeps.
    pub open spec fn wf(self) -> bool {
        &&& self.config is None ==> {
            &&& self.disputes.len() == 0
            &&& self.appeals.len() == 0
            &&& self.arbitrators.len() == 0
        }
        &&& self.disputes.len() <= u64::MAX
        &&& self.appeals.len() <= u64::MAX
        &&& forall|i: int|
            0 <= i < self.disputes.len() ==> {
                &&& (#[trigger] self.disputes[i]).dispute_id == i + 1
                &&& dispute_consistent(self.disputes[i])
            }
        &&& forall|i: int|
            0 <= i < self.appeals.len() ==> {
                &&& (#[trigger] self.appeals[i]).appeal_id == i + 1
                &&& self.has_dispute(self.appeals[i].dispute_id)
                &&& self.dispute(self.appeals[i].dispute_id).status == DisputeStatus::Resolved
                &&& reachable_appeal_status(self.appeals[i].status)
            }
        &&& forall|i: int, j: int|
            0 <= i < j < self.arbitrators.len() ==> (#[trigger] self.arbitrators[i])@
                != (#[trigger] self.arbitrators[j])@
    }
}

/// The state after `arbitrator` is put on the allow-list of `s`: unchanged
/// when it is already there.
pub open spec fn arbitrator_authorized(s: ContractState, arbitrator: Principal) -> ContractState {
    if s.is_arbitrator(arbitrator@) {
        s
    } else {
        ContractState { arbitrators: s.arbitrators.push(arbitrator), ..s }
    }
}

/// No dispute's status moves back in the lifecycle, and no dispute is removed.
pub open spec fn statuses_advance(pre: Seq<Dispute>, post: Seq<Dispute>) -> bool {
    &&& pre.len() <= post.len()
    &&& forall|i: int|
        0 <= i < pre.len() ==> status_rank(#[trigger] pre[i].status) <= status_rank(post[i].status)
}

/// `post` is `pre` with one dispute more, whose id is `id`, the next one.
pub open spec fn dispute_added(pre: ContractState, post: ContractState, id: u64) -> bool {
    &&& id == pre.disputes.len() + 1
    &&& post.disputes.last().dispute_id == id
    &&& post == ContractState { disputes: pre.disputes.push(post.disputes.last()), ..pre }
}

/// Why `initialize` is refused, if it is.
pub open spec fn initialize_error(s: ContractState, signed: bool) -> Option<DisputeError> {
    if s.config is Some {
        Some(DisputeError::AlreadyInitialized)
    } else if !signed {
        Some(DisputeError::NotAuthenticated)
    } else {
        None
    }
}

/// Why an operation reserved to the admin is refused for `caller`, if it is.
pub open spec fn admin_error(s: ContractState, signed: bool, caller: Seq<char>) -> Option<DisputeError> {
    if !signed {
        Some(DisputeError::NotAuthenticated)
    } else if s.config is None {
        Some(DisputeError::NotInitialized)
    } else if !s.is_admin(caller) {
        Some(DisputeError::Unauthorized)
    } else {
        None
    }
}

/// Why `file_dispute` is refused, if it is.
pub open spec fn file_dispute_error(s: ContractState, signed: bool) -> Option<DisputeError> {
    if !signed {
        Some(DisputeError::NotAuthenticated)
    } else if s.config is None {
        Some(DisputeError::NotInitialized)
    } else if s.disputes.len() >= u64::MAX {
        Some(DisputeError::CounterExhausted)
    } else {
        None
    }
}

/// `d` is the record that `file_dispute` adds to `s`: the next id, status
/// `Filed`, outcome `Pending`, empty notes, no arbitrator.
pub open spec fn is_filed_dispute(
    s: ContractState,
    d: Dispute,
    claimant: Principal,
    respondent: Principal,
    campaign_id: u64,
    claim_amount: i128,
    description: String,
    evidence_hash: String,
    now: u64,
) -> bool {
    &&& d.dispute_id == s.disputes.len() + 1
    &&& d.claimant == claimant
    &&& d.respondent == respondent
    &&& d.campaign_id == campaign_id
    &&& d.claim_amount == claim_amount
    &&& d.token == s.config->0.token
    &&& d.description == description
    &&& d.evidence_hash == evidence_hash
    &&& d.status == DisputeStatus::Filed
    &&& d.outcome == DisputeOutcome::Pending
    &&& d.resolution_notes@ == Seq::<char>::empty()
    &&& d.filed_at == now
    &&& d.resolved_at is None
    &&& d.arbitrator is None
}

/// `s` with the dispute of id `id` replaced by `d`.
pub open spec fn with_dispute(s: ContractState, id: u64, d: Dispute) -> ContractState {
    ContractState { disputes: s.disputes.update(id - 1, d), ..s }
}

/// Why `assign_arbitrator` is refused, if it is.
pub open spec fn assign_error(
    s: ContractState,
    signed: bool,
    admin: Seq<char>,
    dispute_id: u64,
    arbitrator: Seq<char>,
) -> Option<DisputeError> {
    if admin_error(s, signed, admin) is Some {
        admin_error(s, signed, admin)
    } else if !s.is_arbitrator(arbitrator) {
        Some(DisputeError::ArbitratorNotAuthorized)
    } else if !s.has_dispute(dispute_id) {
        Some(DisputeError::DisputeNotFound)
    } else if s.dispute(dispute_id).status != DisputeStatus::Filed {
        Some(DisputeError::DisputeNotFiled)
    } else {
        None
    }
}

/// Whether `key` is the arbitrator assigned to `d`.
pub open spec fn is_assigned(d: Dispute, key: Seq<char>) -> bool {
    d.arbitrator is Some && d.arbitrator->0@ == key
}

/// Why `resolve_dispute` is refused, if it is.
pub open spec fn resolve_error(s: ContractState, signed: bool, caller: Seq<char>, dispute_id: u64) -> Option<DisputeError> {
    if !signed {
        Some(DisputeError::NotAuthenticated)
    } else if !s.has_dispute(dispute_id) {
        Some(DisputeError::DisputeNotFound)
    } else if !is_assigned(s.dispute(dispute_id), caller) {
        Some(DisputeError::NotAssignedArbitrator)
    } else if s.dispute(dispute_id).status != DisputeStatus::UnderReview {
        Some(DisputeError::DisputeNotUnderReview)
    } else {
        None
    }
}

/// The filing fee movement of resolving dispute `dispute_id` of `s` with
/// `outcome`.
pub open spec fn resolution_transfer(s: ContractState, dispute_id: u64, outcome: DisputeOutcome) -> Option<FeeTransfer> {
    let d = s.dispute(dispute_id);
    release_spec(d.token, s.escrow, outcome, d.claimant, s.config->0.admin, s.config->0.filing_fee)
}

/// Why `appeal_dispute` is refused, if it is.
pub open spec fn appeal_error(s: ContractState, signed: bool, appellant: Seq<char>, dispute_id: u64) -> Option<DisputeError> {
    if !signed {
        Some(DisputeError::NotAuthenticated)
    } else if !s.has_dispute(dispute_id) {
        Some(DisputeError::DisputeNotFound)
    } else if s.dispute(dispute_id).status != DisputeStatus::Resolved {
        Some(DisputeError::DisputeNotResolved)
    } else if appellant != s.dispute(dispute_id).claimant@ && appellant != s.dispute(dispute_id).respondent@ {
        Some(DisputeError::NotAParty)
    } else if s.appeals.len() >= u64::MAX {
        Some(DisputeError::CounterExhausted)
    } else {
        None
    }
}

/// The record that `appeal_dispute` adds to `s`.
pub open spec fn filed_appeal(
    s: ContractState,
    appellant: Principal,
    dispute_id: u64,
    reason: String,
    evidence_hash: String,
    now: u64,
) -> DisputeAppeal {
    DisputeAppeal {
        appeal_id: (s.appeals.len() + 1) as u64,
        dispute_id,
        appellant,
        reason,
        evidence_hash,
        status: AppealStatus::Pending,
        filed_at: now,
        resolved_at: None,
        new_arbitrator: None,
        original_outcome: s.dispute(dispute_id).outcome,
        final_outcome: DisputeOutcome::Pending,
    }
}

/// Why `resolve_appeal` is refused, if it is.
pub open spec fn resolve_appeal_error(s: ContractState, signed: bool, admin: Seq<char>, appeal_id: u64) -> Option<DisputeError> {
    if admin_error(s, signed, admin) is Some {
        admin_error(s, signed, admin)
    } else if !s.has_appeal(appeal_id) {
        Some(DisputeError::AppealNotFound)
    } else if s.appeal(appeal_id).status != AppealStatus::Pending {
        Some(DisputeError::AppealNotPending)
    } else {
        None
    }
}

/// The state after appeal `appeal_id` of `s` is resolved: the appeal is
/// upheld, and its dispute takes `final_outcome` and `new_arbitrator` while
/// keeping its status. No fee moves.
pub open spec fn appeal_resolved(
    s: ContractState,
    appeal_id: u64,
    new_arbitrator: Principal,
    final_outcome: DisputeOutcome,
    now: u64,
) -> ContractState {
    let a = s.appeal(appeal_id);
    let d = s.dispute(a.dispute_id);
    ContractState {
        appeals: s.appeals.update(
            appeal_id - 1,
            DisputeAppeal {
                status: AppealStatus::Upheld,
                new_arbitrator: Some(new_arbitrator),
                final_outcome,
                resolved_at: Some(now),
                ..a
            },
        ),
        disputes: s.disputes.update(
            a.dispute_id - 1,
            Dispute { outcome: final_outcome, arbitrator: Some(new_arbitrator), ..d },
        ),
        ..s
    }
}

/// Why `accept_admin` is refused, if it is.
pub open spec fn accept_admin_error(s: ContractState, signed: bool, new_admin: Seq<char>) -> Option<DisputeError> {
    if !signed {
        Some(DisputeError::NotAuthenticated)
    } else if s.config is None {
        Some(DisputeError::NotInitialized)
    } else if !(s.config->0.pending_admin is Some && s.config->0.pending_admin->0@ == new_admin) {
        Some(DisputeError::NotPendingAdmin)
    } else {
        None
    }
}

impl DisputeResolutionContract {
    /// A contract holding the given parts, if they satisfy the invariant:
    /// ids that run 1, 2, 3, … in each list, appeals that name existing
    /// disputes, only reachable statuses, no arbitrator listed twice, and no
    /// record before initialization.
    pub fn from_parts(
        escrow: Principal,
        config: Option<Config>,
        disputes: Vec<Dispute>,
        appeals: Vec<DisputeAppeal>,
        arbitrators: Vec<Principal>,
    ) -> (r: Option<DisputeResolutionContract>)
        ensures
            (ContractState { escrow, config, disputes: disputes@, appeals: appeals@, arbitrators: arbitrators@ }).wf()
                <==> r is Some,
            r is Some ==> r->0@ == (ContractState {
                escrow,
                config,
                disputes: disputes@,
                appeals: appeals@,
                arbitrators: arbitrators@,
            }),
    {
        let c = DisputeResolutionContract { escrow, config, disputes, appeals, arbitrators };
        if c.check_wf() {
            Some(c)
        } else {
            None
        }
    }

    /// The parts of the state: custodial account, configuration, disputes,
    /// appeals and authorized arbitrators.
    pub fn into_parts(self) -> (r: (Principal, Option<Config>, Vec<Dispute>, Vec<DisputeAppeal>, Vec<Principal>))
        ensures
            r.0 == self@.escrow,
            r.1 == self@.config,
            r.2@ == self@.disputes,
            r.3@ == self@.appeals,
            r.4@ == self@.arbitrators,
    {
        (self.escrow, self.config, self.disputes, self.appeals, self.arbitrators)
    }

    /// Whether the state satisfies the invariant.
    fn check_wf(&self) -> (r: bool)
        ensures
            r == self@.wf(),
    {
        let nd = self.disputes.len();
        let na = self.appeals.len();
        let nr = self.arbitrators.len();
        if self.config.is_none() && (nd != 0 || na != 0 || nr != 0) {
            return false;
        }
        let mut i: usize = 0;
        while i < nd
            invariant
                nd == self.disputes@.len(),
                i <= nd,
                forall|k: int|
                    0 <= k < i ==> {
                        &&& (#[trigger] self.disputes@[k]).dispute_id == k + 1
                        &&& dispute_consistent(self.disputes@[k])
                    },
            decreases nd - i,
        {
            let d = &self.disputes[i];
            if d.dispute_id != i as u64 + 1 {
                return false;
            }
            let consistent = match d.status {
                DisputeStatus::Filed => d.arbitrator.is_none() && d.resolved_at.is_none(),
                DisputeStatus::UnderReview => d.arbitrator.is_some() && d.resolved_at.is_none(),
                DisputeStatus::Resolved => d.arbitrator.is_some() && d.resolved_at.is_some(),
                _ => false,
            };
            if !consistent {
                return false;
            }
            i = i + 1;
        }
        let mut j: usize = 0;
        while j < na
            invariant
                na == self.appeals@.len(),
                nd == self.disputes@.len(),
                j <= na,
                forall|k: int|
                    0 <= k < j ==> {
                        &&& (#[trigger] self.appeals@[k]).appeal_id == k + 1
                        &&& self@.has_dispute(self.appeals@[k].dispute_id)
                        &&& self@.dispute(self.appeals@[k].dispute_id).status == DisputeStatus::Resolved
                        &&& reachable_appeal_status(self.appeals@[k].status)
                    },
            decreases na - j,
        {
            let a = &self.appeals[j];
            if a.appeal_id != j as u64 + 1 || a.dispute_id == 0 || a.dispute_id > nd as u64 {
                return false;
            }
            if self.disputes[(a.dispute_id - 1) as usize].status != DisputeStatus::Resolved {
                return false;
            }
            match a.status {
                AppealStatus::Pending | AppealStatus::Upheld => {},
                _ => {
                    return false;
                },
            }
            j = j + 1;
        }
        let mut x: usize = 0;
        while x < nr
            invariant
                nr == self.arbitrators@.len(),
                x <= nr,
                forall|a: int, b: int|
                    0 <= a < b < nr && a < x ==> (#[trigger] self.arbitrators@[a])@
                        != (#[trigger] self.arbitrators@[b])@,
            decreases nr - x,
        {
            let mut y: usize = x + 1;
            while y < nr
                invariant
                    nr == self.arbitrators@.len(),
                    x < y <= nr,
                    forall|a: int, b: int|
                        0 <= a < b < nr && a < x ==> (#[trigger] self.arbitrators@[a])@
                            != (#[trigger] self.arbitrators@[b])@,
                    forall|b: int| x < b < y ==> self.arbitrators@[x as int]@ != (#[trigger] self.arbitrators@[b])@,
                decreases nr - y,
            {
                if self.arbitrators[x].same(&self.arbitrators[y]) {
                    proof {
                        let s = self@;
                        assert(s.arbitrators[x as int]@ == s.arbitrators[y as int]@);
                    }
                    return false;
                }
                y = y + 1;
            }
            x = x + 1;
        }
        true
    }

    /// A contract not yet initialized, whose custodial account is `escrow`.
    pub fn new(escrow: Principal) -> (r: DisputeResolutionContract)
        ensures
            r@.wf(),
            r@.escrow == escrow,
            r@.config is None,
            r@.disputes.len() == 0,
            r@.appeals.len() == 0,
            r@.arbitrators.len() == 0,
    {
        DisputeResolutionContract {
            escrow,
            config: None,
            disputes: Vec::new(),
            appeals: Vec::new(),
            arbitrators: Vec::new(),
        }
    }

    /// Sets the admin, the fee asset and the two fees, once.
    pub fn initialize(
        &mut self,
        auth: &CallAuth,
        admin: Principal,
        token: Principal,
        filing_fee: i128,
        appeal_fee: i128,
    ) -> (r: Result<(), DisputeError>)
        requires
            old(self)@.wf(),
        ensures
            final(self)@.wf(),
            statuses_advance(old(self)@.disputes, final(self)@.disputes),
            match initialize_error(old(self)@, auth.authorizes(admin@)) {
                Some(e) => r == Err::<(), DisputeError>(e) && final(self)@ == old(self)@,
                None => r is Ok && final(self)@ == (ContractState {
                    config: Some(
                        Config { admin, pending_admin: None, token, filing_fee, appeal_fee },
                    ),
                    ..old(self)@
                }),
            },
    {
        if self.config.is_some() {
            return Err(DisputeError::AlreadyInitialized);
        }
        if !auth.has_signed(&admin) {
            return Err(DisputeError::NotAuthenticated);
        }
        self.config = Some(Config { admin, pending_admin: None, token, filing_fee, appeal_fee });
        Ok(())
    }

    /// Whether `p` is on the arbitrator allow-list; `false` for a principal
    /// never authorized.
    pub fn is_authorized(&self, p: &Principal) -> (r: bool)
        ensures
            r == self@.is_arbitrator(p@),
    {
        let mut i: usize = 0;
        while i < self.arbitrators.len()
            invariant
                i <= self.arbitrators@.len(),
                forall|j: int| 0 <= j < i ==> (#[trigger] self.arbitrators@[j])@ != p@,
            decreases self.arbitrators@.len() - i,
        {
            if self.arbitrators[i].same(p) {
                return true;
            }
            i = i + 1;
        }
        false
    }

    /// Checks that `caller` signed and is the stored admin.
    fn check_admin(&self, auth: &CallAuth, caller: &Principal) -> (r: Result<(), DisputeError>)
        ensures
            match admin_error(self@, auth.authorizes(caller@), caller@) {
                Some(e) => r == Err::<(), DisputeError>(e),
                None => r is Ok,
            },
    {
        if !auth.has_signed(caller) {
            return Err(DisputeError::NotAuthenticated);
        }
        match &self.config {
            None => Err(DisputeError::NotInitialized),
            Some(c) => {
                if c.admin.same(caller) {
                    Ok(())
                } else {
                    Err(DisputeError::Unauthorized)
                }
            },
        }
    }

    /// Puts `arbitrator` on the allow-list. Authorizing a principal that is
    /// already on it succeeds and changes nothing.
    pub fn authorize_arbitrator(&mut self, auth: &CallAuth, admin: &Principal, arbitrator: Principal) -> (r: Result<(), DisputeError>)
        requires
            old(self)@.wf(),
        ensures
            final(self)@.wf(),
            statuses_advance(old(self)@.disputes, final(self)@.disputes),
            match admin_error(old(self)@, auth.authorizes(admin@), admin@) {
                Some(e) => r == Err::<(), DisputeError>(e) && final(self)@ == old(self)@,
                None => {
                    &&& r is Ok
                    &&& final(self)@ == arbitrator_authorized(old(self)@, arbitrator)
                    &&& final(self)@.is_arbitrator(arbitrator@)
                },
            },
    {
        self.check_admin(auth, admin)?;
        if !self.is_authorized(&arbitrator) {
            self.arbitrators.push(arbitrator);
            proof {
                let s = self@;
                assert(s.arbitrators[s.arbitrators.len() - 1] == arbitrator);
            }
        }
        Ok(())
    }

    /// Files a claim of `claimant` against `respondent` at time `now`.
    /// Returns the new dispute's id and the collection of the filing fee
    /// into escrow, if the fee is positive.
    pub fn file_dispute(
        &mut self,
        auth: &CallAuth,
        claimant: Principal,
        respondent: Principal,
        campaign_id: u64,
        claim_amount: i128,
        description: String,
        evidence_hash: String,
        now: u64,
    ) -> (r: Result<(u64, Option<FeeTransfer>), DisputeError>)
        requires
            old(self)@.wf(),
        ensures
            final(self)@.wf(),
            statuses_advance(old(self)@.disputes, final(self)@.disputes),
            match file_dispute_error(old(self)@, auth.authorizes(claimant@)) {
                Some(e) => r == Err::<(u64, Option<FeeTransfer>), DisputeError>(e) && final(self)@ == old(self)@,
                None => {
                    &&& r is Ok
                    &&& r->Ok_0.0 == old(self)@.disputes.len() + 1
                    &&& r->Ok_0.1 == collect_spec(
                        old(self)@.config->0.token,
                        claimant,
                        old(self)@.escrow,
                        old(self)@.config->0.filing_fee,
                    )
                    &&& dispute_added(old(self)@, final(self)@, r->Ok_0.0)
                    &&& is_filed_dispute(
                        old(self)@,
                        final(self)@.disputes.last(),
                        claimant,
                        respondent,
                        campaign_id,
                        claim_amount,
                        description,
                        evidence_hash,
                        now,
                    )
                },
            },
    {
        if !auth.has_signed(&claimant) {
            return Err(DisputeError::NotAuthenticated);
        }
        let (token, fee) = match &self.config {
            None => {
                return Err(DisputeError::NotInitialized);
            },
            Some(c) => (c.token.duplicate(), c.filing_fee),
        };
        let count = self.disputes.len() as u64;
        if count >= u64::MAX {
            return Err(DisputeError::CounterExhausted);
        }
        let transfer = collect(&token, &claimant, &self.escrow, fee);
        let dispute_id = count + 1;
        let dispute = Dispute {
            dispute_id,
            claimant,
            respondent,
            campaign_id,
            claim_amount,
            token,
            description,
            evidence_hash,
            status: DisputeStatus::Filed,
            outcome: DisputeOutcome::Pending,
            resolution_notes: String::new(),
            filed_at: now,
            resolved_at: None,
            arbitrator: None,
        };
        self.disputes.push(dispute);
        proof {
            let s0 = old(self)@;
            let s = self@;
            assert(s.disputes =~= s0.disputes.push(s.disputes.last()));
            assert(count == s0.disputes.len());
            assert(s.disputes.len() <= u64::MAX);
            assert(s.appeals == s0.appeals);
            assert(s.arbitrators == s0.arbitrators);
            assert(s.config == s0.config);
            assert(s.config is Some);
            assert forall|i: int| 0 <= i < s.appeals.len() implies s.has_dispute((#[trigger] s.appeals[i]).dispute_id) by {
                assert(s0.has_dispute(s0.appeals[i].dispute_id));
            }
            assert forall|i: int| 0 <= i < s.disputes.len() implies (#[trigger] s.disputes[i]).dispute_id == i
                + 1 && reachable_dispute_status(s.disputes[i].status) by {
                if i < s0.disputes.len() {
                    assert(s.disputes[i] == s0.disputes[i]);
                }
            }
        }
        Ok((dispute_id, transfer))
    }

    /// Assigns an authorized `arbitrator` to dispute `dispute_id` and puts
    /// the dispute under review.
    pub fn assign_arbitrator(
        &mut self,
        auth: &CallAuth,
        admin: &Principal,
        dispute_id: u64,
        arbitrator: Principal,
    ) -> (r: Result<(), DisputeError>)
        requires
            old(self)@.wf(),
        ensures
            final(self)@.wf(),
            statuses_advance(old(self)@.disputes, final(self)@.disputes),
            match assign_error(old(self)@, auth.authorizes(admin@), admin@, dispute_id, arbitrator@) {
                Some(e) => r == Err::<(), DisputeError>(e) && final(self)@ == old(self)@,
                None => r is Ok && final(self)@ == with_dispute(
                    old(self)@,
                    dispute_id,
                    Dispute {
                        arbitrator: Some(arbitrator),
                        status: DisputeStatus::UnderReview,
                        ..old(self)@.dispute(dispute_id)
                    },
                ),
            },
    {
        self.check_admin(auth, admin)?;
        if !self.is_authorized(&arbitrator) {
            return Err(DisputeError::ArbitratorNotAuthorized);
        }
        if dispute_id == 0 || dispute_id > self.disputes.len() as u64 {
            return Err(DisputeError::DisputeNotFound);
        }
        let i = (dispute_id - 1) as usize;
        if self.disputes[i].status != DisputeStatus::Filed {
            return Err(DisputeError::DisputeNotFiled);
        }
        let mut dispute = self.disputes[i].duplicate();
        dispute.arbitrator = Some(arbitrator);
        dispute.status = DisputeStatus::UnderReview;
        self.disputes.set(i, dispute);
        Ok(())
    }

    /// The assigned arbitrator decides dispute `dispute_id` with `outcome` at
    /// time `now`. Returns the release of the filing fee out of escrow, if the
    /// fee is positive: back to the claimant when it wins, to the admin
    /// otherwise.
    pub fn resolve_dispute(
        &mut self,
        auth: &CallAuth,
        arbitrator: &Principal,
        dispute_id: u64,
        outcome: DisputeOutcome,
        notes: String,
        now: u64,
    ) -> (r: Result<Option<FeeTransfer>, DisputeError>)
        requires
            old(self)@.wf(),
        ensures
            final(self)@.wf(),
            statuses_advance(old(self)@.disputes, final(self)@.disputes),
            match resolve_error(old(self)@, auth.authorizes(arbitrator@), arbitrator@, dispute_id) {
                Some(e) => r == Err::<Option<FeeTransfer>, DisputeError>(e) && final(self)@ == old(self)@,
                None => {
                    &&& r == Ok::<Option<FeeTransfer>, DisputeError>(resolution_transfer(old(self)@, dispute_id, outcome))
                    &&& final(self)@ == with_dispute(
                        old(self)@,
                        dispute_id,
                        Dispute {
                            outcome,
                            resolution_notes: notes,
                            status: DisputeStatus::Resolved,
                            resolved_at: Some(now),
                            ..old(self)@.dispute(dispute_id)
                        },
                    )
                },
            },
    {
        if !auth.has_signed(arbitrator) {
            return Err(DisputeError::NotAuthenticated);
        }
        if dispute_id == 0 || dispute_id > self.disputes.len() as u64 {
            return Err(DisputeError::DisputeNotFound);
        }
        let i = (dispute_id - 1) as usize;
        let assigned = match &self.disputes[i].arbitrator {
            Some(a) => a.same(arbitrator),
            None => false,
        };
        if !assigned {
            return Err(DisputeError::NotAssignedArbitrator);
        }
        if self.disputes[i].status != DisputeStatus::UnderReview {
            return Err(DisputeError::DisputeNotUnderReview);
        }
        let mut dispute = self.disputes[i].duplicate();
        let transfer = match &self.config {
            Some(c) => release(&dispute.token, &self.escrow, outcome, &dispute.claimant, &c.admin, c.filing_fee),
            None => None,
        };
        dispute.outcome = outcome;
        dispute.resolution_notes = notes;
        dispute.status = DisputeStatus::Resolved;
        dispute.resolved_at = Some(now);
        self.disputes.set(i, dispute);
        Ok(transfer)
    }

    /// The claimant or the respondent of resolved dispute `dispute_id`
    /// appeals its outcome at time `now`. Returns the new appeal's id and the
    /// collection of the appeal fee into escrow, if the fee is positive.
    pub fn appeal_dispute(
        &mut self,
        auth: &CallAuth,
        appellant: Principal,
        dispute_id: u64,
        reason: String,
        evidence_hash: String,
        now: u64,
    ) -> (r: Result<(u64, Option<FeeTransfer>), DisputeError>)
        requires
            old(self)@.wf(),
        ensures
            final(self)@.wf(),
            statuses_advance(old(self)@.disputes, final(self)@.disputes),
            match appeal_error(old(self)@, auth.authorizes(appellant@), appellant@, dispute_id) {
                Some(e) => r == Err::<(u64, Option<FeeTransfer>), DisputeError>(e) && final(self)@ == old(self)@,
                None => {
                    &&& r == Ok::<(u64, Option<FeeTransfer>), DisputeError>((
                        (old(self)@.appeals.len() + 1) as u64,
                        collect_spec(
                            old(self)@.config->0.token,
                            appellant,
                            old(self)@.escrow,
                            old(self)@.config->0.appeal_fee,
                        ),
                    ))
                    &&& final(self)@ == (ContractState {
                        appeals: old(self)@.appeals.push(
                            filed_appeal(old(self)@, appellant, dispute_id, reason, evidence_hash, now),
                        ),
                        ..old(self)@
                    })
                },
            },
    {
        if !auth.has_signed(&appellant) {
            return Err(DisputeError::NotAuthenticated);
        }
        if dispute_id == 0 || dispute_id > self.disputes.len() as u64 {
            return Err(DisputeError::DisputeNotFound);
        }
        let i = (dispute_id - 1) as usize;
        let dispute = &self.disputes[i];
        if dispute.status != DisputeStatus::Resolved {
            return Err(DisputeError::DisputeNotResolved);
        }
        if !appellant.same(&dispute.claimant) && !appellant.same(&dispute.respondent) {
            return Err(DisputeError::NotAParty);
        }
        let original_outcome = dispute.outcome;
        let count = self.appeals.len() as u64;
        if count >= u64::MAX {
            return Err(DisputeError::CounterExhausted);
        }
        let transfer = match &self.config {
            Some(c) => collect(&c.token, &appellant, &self.escrow, c.appeal_fee),
            None => None,
        };
        let appeal = DisputeAppeal {
            appeal_id: count + 1,
            dispute_id,
            appellant,
            reason,
            evidence_hash,
            status: AppealStatus::Pending,
            filed_at: now,
            resolved_at: None,
            new_arbitrator: None,
            original_outcome,
            final_outcome: DisputeOutcome::Pending,
        };
        self.appeals.push(appeal);
        Ok((count + 1, transfer))
    }

    /// The admin resolves pending appeal `appeal_id` at time `now`: the
    /// appeal is recorded as upheld, and its dispute takes `final_outcome`
    /// and `new_arbitrator`. The dispute keeps its status and no fee moves.
    pub fn resolve_appeal(
        &mut self,
        auth: &CallAuth,
        admin: &Principal,
        appeal_id: u64,
        new_arbitrator: Principal,
        final_outcome: DisputeOutcome,
        now: u64,
    ) -> (r: Result<(), DisputeError>)
        requires
            old(self)@.wf(),
        ensures
            final(self)@.wf(),
            statuses_advance(old(self)@.disputes, final(self)@.disputes),
            match resolve_appeal_error(old(self)@, auth.authorizes(admin@), admin@, appeal_id) {
                Some(e) => r == Err::<(), DisputeError>(e) && final(self)@ == old(self)@,
                None => {
                    let parent = old(self)@.appeal(appeal_id).dispute_id;
                    &&& r is Ok
                    &&& final(self)@ == appeal_resolved(old(self)@, appeal_id, new_arbitrator, final_outcome, now)
                    &&& final(self)@.dispute(parent).outcome == final_outcome
                    &&& final(self)@.dispute(parent).arbitrator == Some(new_arbitrator)
                    &&& final(self)@.dispute(parent).status == old(self)@.dispute(parent).status
                },
            },
    {
        self.check_admin(auth, admin)?;
        if appeal_id == 0 || appeal_id > self.appeals.len() as u64 {
            return Err(DisputeError::AppealNotFound);
        }
        let j = (appeal_id - 1) as usize;
        if self.appeals[j].status != AppealStatus::Pending {
            return Err(DisputeError::AppealNotPending);
        }
        let mut appeal = self.appeals[j].duplicate();
        let parent = appeal.dispute_id;
        proof {
            assert(self@.has_dispute(self@.appeals[j as int].dispute_id));
            assert(1 <= parent <= self.disputes.len());
        }
        let i = (parent - 1) as usize;
        appeal.status = AppealStatus::Upheld;
        appeal.new_arbitrator = Some(new_arbitrator.duplicate());
        appeal.final_outcome = final_outcome;
        appeal.resolved_at = Some(now);
        self.appeals.set(j, appeal);
        let mut dispute = self.disputes[i].duplicate();
        dispute.outcome = final_outcome;
        dispute.arbitrator = Some(new_arbitrator);
        self.disputes.set(i, dispute);
        Ok(())
    }

    /// The current admin proposes `new_admin` as its successor; the handover
    /// takes effect when `new_admin` accepts.
    pub fn propose_admin(&mut self, auth: &CallAuth, current_admin: &Principal, new_admin: Principal) -> (r: Result<(), DisputeError>)
        requires
            old(self)@.wf(),
        ensures
            final(self)@.wf(),
            statuses_advance(old(self)@.disputes, final(self)@.disputes),
            match admin_error(old(self)@, auth.authorizes(current_admin@), current_admin@) {
                Some(e) => r == Err::<(), DisputeError>(e) && final(self)@ == old(self)@,
                None => r is Ok && final(self)@ == (ContractState {
                    config: Some(Config { pending_admin: Some(new_admin), ..old(self)@.config->0 }),
                    ..old(self)@
                }),
            },
    {
        self.check_admin(auth, current_admin)?;
        match &mut self.config {
            Some(c) => {
                c.pending_admin = Some(new_admin);
            },
            None => {},
        }
        Ok(())
    }

    /// The proposed admin takes over; the proposal is cleared.
    pub fn accept_admin(&mut self, auth: &CallAuth, new_admin: Principal) -> (r: Result<(), DisputeError>)
        requires
            old(self)@.wf(),
        ensures
            final(self)@.wf(),
            statuses_advance(old(self)@.disputes, final(self)@.disputes),
            match accept_admin_error(old(self)@, auth.authorizes(new_admin@), new_admin@) {
                Some(e) => r == Err::<(), DisputeError>(e) && final(self)@ == old(self)@,
                None => r is Ok && final(self)@ == (ContractState {
                    config: Some(Config { admin: new_admin, pending_admin: None, ..old(self)@.config->0 }),
                    ..old(self)@
                }),
            },
    {
        if !auth.has_signed(&new_admin) {
            return Err(DisputeError::NotAuthenticated);
        }
        match &mut self.config {
            None => Err(DisputeError::NotInitialized),
            Some(c) => {
                let proposed = match &c.pending_admin {
                    Some(p) => p.same(&new_admin),
                    None => false,
                };
                if !proposed {
                    return Err(DisputeError::NotPendingAdmin);
                }
                c.admin = new_admin;
                c.pending_admin = None;
                Ok(())
            },
        }
    }

    /// The dispute with id `dispute_id`, or `None` for an unknown id.
    pub fn get_dispute(&self, dispute_id: u64) -> (r: Option<Dispute>)
        ensures
            r == (if self@.has_dispute(dispute_id) {
                Some(self@.dispute(dispute_id))
            } else {
                None
            }),
    {
        if dispute_id == 0 || dispute_id > self.disputes.len() as u64 {
            None
        } else {
            Some(self.disputes[(dispute_id - 1) as usize].duplicate())
        }
    }

    /// The appeal with id `appeal_id`, or `None` for an unknown id.
    pub fn get_appeal(&self, appeal_id: u64) -> (r: Option<DisputeAppeal>)
        ensures
            r == (if self@.has_appeal(appeal_id) {
                Some(self@.appeal(appeal_id))
            } else {
                None
            }),
    {
        if appeal_id == 0 || appeal_id > self.appeals.len() as u64 {
            None
        } else {
            Some(self.appeals[(appeal_id - 1) as usize].duplicate())
        }
    }

    /// The number of disputes filed, which is also the latest dispute id.
    pub fn get_dispute_count(&self) -> (r: u64)
        ensures
            r == self@.disputes.len(),
    {
        self.disputes.len() as u64
    }
}

} // verus!
