//! The entry points: submitting a proposal, acting on one, and taking the
//! outcome of an effect back into its record.
//!
//! Each entry point is one step of a state machine. It takes the store, the
//! request, the facts of the call and the policy's answers, and gives the
//! next store together with what the host is to do. A refused step leaves
//! the store as it was.

use vstd::prelude::*;
use crate::effects::{dispatch_of, Dispatch, DispatchView};
use crate::proposals::{
    Proposal, ProposalInput, ProposalKind, ProposalKindView, ProposalStatus, ProposalView, Vote,
};
use crate::store::{ProposalStore, StoreView};
use crate::string_map::texts;
use crate::types::{
    opt_text, role_names, AccountId, Action, BlockHeight, Permission, ProposalError, UserInfo,
    VersionedPolicy, VersionedPolicyView,
};

verus! {

/// How a dispatched effect ended.
#[derive(Clone, Copy, PartialEq, Eq, Structural, Debug)]
pub enum EffectOutcome {
    Successful,
    Failed,
}

impl EffectOutcome {
    /// The status that a proposal takes when its effect has ended this way.
    pub open spec fn settled_status(self) -> ProposalStatus {
        match self {
            EffectOutcome::Successful => ProposalStatus::Approved,
            EffectOutcome::Failed => ProposalStatus::Failed,
        }
    }
}

/// What an accepted action leaves for the host to do.
#[derive(PartialEq, Eq, Debug)]
pub struct ActOutcome {
    /// The effect to perform, where the action led to an execution.
    pub dispatch: Option<Dispatch>,
    /// The caller's note, to be shown and not stored.
    pub memo: Option<String>,
}

/// Mathematical value of an [`ActOutcome`].
pub struct ActOutcomeView {
    pub dispatch: Option<DispatchView>,
    pub memo: Option<Seq<char>>,
}

impl View for ActOutcome {
    type V = ActOutcomeView;

    open spec fn view(&self) -> ActOutcomeView {
        ActOutcomeView {
            dispatch: match self.dispatch {
                Some(d) => Some(d@),
                None => None,
            },
            memo: opt_text(self.memo),
        }
    }
}

/// The value of the result of an action.
pub open spec fn act_result_view(res: Result<ActOutcome, ProposalError>) -> Result<
    ActOutcomeView,
    ProposalError,
> {
    match res {
        Ok(outcome) => Ok(outcome@),
        Err(e) => Err(e),
    }
}

/// The value of a result that holds a record.
pub open spec fn record_result_view(res: Result<Proposal, ProposalError>) -> Result<
    ProposalView,
    ProposalError,
> {
    match res {
        Ok(p) => Ok(p@),
        Err(e) => Err(e),
    }
}

/// Why a proposal of this kind cannot be submitted, whoever submits it: a
/// policy change with a policy of another schema than the current one, or a
/// transfer of the native asset with a message.
pub open spec fn invalid_kind(kind: ProposalKindView) -> Option<ProposalError> {
    match kind {
        ProposalKindView::ChangePolicy { policy } => if policy is Current {
            None
        } else {
            Some(ProposalError::InvalidPolicyPayload)
        },
        ProposalKindView::Transfer { token_id, msg, .. } => if token_id.len() == 0 && msg is Some {
            Some(ProposalError::BaseTokenMessageNotAllowed)
        } else {
            None
        },
        _ => None,
    }
}

/// Why a submission is refused, if it is: for its kind first, then for
/// want of permission.
pub open spec fn add_error(kind: ProposalKindView, allowed: bool) -> Option<ProposalError> {
    match invalid_kind(kind) {
        Some(e) => Some(e),
        None => if allowed {
            None
        } else {
            Some(ProposalError::PermissionDenied)
        },
    }
}

/// The submission of a proposal: the next store and the result. Once
/// accepted, the proposal is entered, as it is when fresh, under the next
/// identifier, which is returned.
pub open spec fn add_step(
    c: StoreView,
    proposer: Seq<char>,
    description: Seq<char>,
    kind: ProposalKindView,
    submission_time: u64,
    allowed: bool,
) -> (StoreView, Result<u64, ProposalError>) {
    match add_error(kind, allowed) {
        Some(e) => (c, Err(e)),
        None => (
            c.created(ProposalView::fresh(proposer, description, kind, submission_time)),
            Ok(c.last_proposal_id),
        ),
    }
}

/// The record on which the policy derives the status for an action: for a
/// vote, the stored record with that vote entered; else the stored record.
/// An error where the action is refused before any status is asked for.
pub open spec fn subject_of(
    c: StoreView,
    id: u64,
    action: Action,
    sender: Seq<char>,
    roles: Seq<Seq<char>>,
    allowed: bool,
    height: BlockHeight,
) -> Result<ProposalView, ProposalError> {
    if !c.proposals.contains_key(id) {
        Err(ProposalError::NotFound)
    } else if !allowed {
        Err(ProposalError::PermissionDenied)
    } else if action == Action::AddProposal {
        Err(ProposalError::WrongActionForEntryPoint)
    } else if action.is_vote() {
        let p = c.proposals[id];
        if p.status != ProposalStatus::InProgress {
            Err(ProposalError::NotOpenForVoting)
        } else if p.votes.contains_key(sender) {
            Err(ProposalError::AlreadyVoted)
        } else {
            Ok(p.with_vote(sender, roles, Vote::of_action(action), height))
        }
    } else {
        Ok(c.proposals[id])
    }
}

/// The outcome of an action that leads to no execution.
pub open spec fn quiet(memo: Option<Seq<char>>) -> ActOutcomeView {
    ActOutcomeView { dispatch: None, memo }
}

/// The outcome of an action that executes the record `p` stored under `id`.
pub open spec fn executed(p: ProposalView, id: u64, memo: Option<Seq<char>>) -> ActOutcomeView {
    ActOutcomeView { dispatch: Some(dispatch_of(p, id)), memo }
}

/// One action on a stored proposal: the next store and the result.
///
/// `derived` is the status that the policy derives for the record that
/// [`subject_of`] gives.
/// - Removing deletes the record. Moving to the hub changes nothing.
/// - A vote is entered and the record takes the derived status: approved, it
///   is executed; removed, it is deleted.
/// - Finalizing takes the derived status where it is approved, and the record
///   is executed again, or expired; any other is refused.
pub open spec fn act_step(
    c: StoreView,
    id: u64,
    action: Action,
    memo: Option<Seq<char>>,
    sender: Seq<char>,
    roles: Seq<Seq<char>>,
    allowed: bool,
    derived: ProposalStatus,
    height: BlockHeight,
) -> (StoreView, Result<ActOutcomeView, ProposalError>) {
    match subject_of(c, id, action, sender, roles, allowed, height) {
        Err(e) => (c, Err(e)),
        Ok(subject) => {
            let decided = subject.with_status(derived);
            match action {
                Action::RemoveProposal => (c.without(id), Ok(quiet(memo))),
                Action::MoveToHub => (c, Ok(quiet(memo))),
                Action::Finalize => match derived {
                    ProposalStatus::Approved => (c.with(id, decided), Ok(executed(decided, id, memo))),
                    ProposalStatus::Expired => (c.with(id, decided), Ok(quiet(memo))),
                    _ => (c, Err(ProposalError::NotEligibleForFinalization)),
                },
                _ => match derived {
                    ProposalStatus::Approved => (c.with(id, decided), Ok(executed(decided, id, memo))),
                    ProposalStatus::Removed => (c.without(id), Ok(quiet(memo))),
                    _ => (c.with(id, decided), Ok(quiet(memo))),
                },
            }
        },
    }
}

/// The outcome of an effect taken back into the record of its proposal: the
/// next store and the result. Exactly one outcome is expected.
pub open spec fn callback_step(c: StoreView, id: u64, outcomes: Seq<EffectOutcome>) -> (
    StoreView,
    Result<(), ProposalError>,
) {
    if !c.proposals.contains_key(id) {
        (c, Err(ProposalError::NotFound))
    } else if outcomes.len() != 1 {
        (c, Err(ProposalError::UnexpectedCallbackShape))
    } else {
        (c.with(id, c.proposals[id].with_status(outcomes[0].settled_status())), Ok(()))
    }
}

/// The organization's proposals and the operations on them.
#[derive(Debug)]
pub struct Contract {
    pub proposals: ProposalStore,
}

impl View for Contract {
    type V = StoreView;

    open spec fn view(&self) -> StoreView {
        self.proposals@
    }
}

impl Contract {
    /// A contract without proposals.
    pub fn new() -> (contract: Contract)
        ensures
            contract@ == (StoreView { proposals: Map::empty(), last_proposal_id: 0 }),
    {
        Contract { proposals: ProposalStore::new() }
    }

    /// Stores `proposal` under an identifier that holds one.
    fn put(&mut self, id: u64, proposal: Proposal)
        requires
            old(self)@.proposals.contains_key(id),
            proposal@.wf(),
        ensures
            final(self)@ == old(self)@.with(id, proposal@),
            final(self)@.wf(),
    {
        match self.proposals.update(id, proposal) {
            Ok(()) => {},
            Err(_) => {},
        }
    }

    /// The roles under which the policy counts the votes when it derives the
    /// status for an action: all roles of the policy for finalizing, else
    /// the caller's roles.
    pub fn roles_for_status(action: Action, permission: &Permission, policy_roles: Vec<String>) -> (roles:
        Vec<String>)
        ensures
            texts(roles@) == if action == Action::Finalize {
                texts(policy_roles@)
            } else {
                role_names(permission.roles@)
            },
    {
        match action {
            Action::Finalize => policy_roles,
            _ => {
                let mut roles: Vec<String> = Vec::new();
                let mut i: usize = 0;
                while i < permission.roles.len()
                    invariant
                        i <= permission.roles@.len(),
                        roles@.len() == i,
                        forall|j: int| 0 <= j < i ==> roles@[j]@ == permission.roles@[j].name@,
                    decreases permission.roles@.len() - i,
                {
                    roles.push(permission.roles[i].name.clone());
                    i += 1;
                }
                assert(texts(roles@) =~= role_names(permission.roles@));
                roles
            },
        }
    }

    /// Marks a proposal as approved for good: its effect has succeeded.
    pub fn internal_callback_proposal_success(proposal: &mut Proposal)
        ensures
            final(proposal)@ == old(proposal)@.with_status(ProposalStatus::Approved),
    {
        proposal.status = ProposalStatus::Approved;
    }

    /// Marks a proposal as failed: its effect has failed.
    pub fn internal_callback_proposal_fail(proposal: &mut Proposal)
        ensures
            final(proposal)@ == old(proposal)@.with_status(ProposalStatus::Failed),
    {
        proposal.status = ProposalStatus::Failed;
    }

    /// The caller as the policy is to see it: every caller has a stake of one.
    pub fn internal_user_info(predecessor: AccountId) -> (user: UserInfo)
        ensures
            user.account_id == predecessor,
            user.stake == 1,
    {
        UserInfo { account_id: predecessor, stake: 1 }
    }

    /// Why a proposal of this kind cannot be submitted, if it cannot.
    pub fn validate_kind(kind: &ProposalKind) -> (res: Result<(), ProposalError>)
        ensures
            match invalid_kind(kind@) {
                Some(e) => res == Err::<(), ProposalError>(e),
                None => res is Ok,
            },
    {
        match kind {
            ProposalKind::ChangePolicy { policy } => match policy {
                VersionedPolicy::Current(_) => Ok(()),
                _ => Err(ProposalError::InvalidPolicyPayload),
            },
            ProposalKind::Transfer { token_id, msg, .. } => {
                if token_id.as_str().is_empty() && msg.is_some() {
                    Err(ProposalError::BaseTokenMessageNotAllowed)
                } else {
                    Ok(())
                }
            },
            _ => Ok(()),
        }
    }

    /// Add proposal to this DAO.
    ///
    /// `proposer` is the caller and `submission_time` the time of the call;
    /// `permission` is the policy's answer for the caller adding a proposal
    /// of this kind.
    pub fn add_proposal(
        &mut self,
        proposal: ProposalInput,
        proposer: AccountId,
        submission_time: u64,
        permission: &Permission,
    ) -> (res: Result<u64, ProposalError>)
        requires
            old(self)@.last_proposal_id < u64::MAX,
        ensures
            final(self)@.wf(),
            (final(self)@, res) == add_step(
                old(self)@,
                proposer@,
                proposal.description@,
                proposal.kind@,
                submission_time,
                permission.allowed,
            ),
    {
        proof {
            use_type_invariant(&self.proposals);
        }
        // 1. Validate proposal.
        match Self::validate_kind(&proposal.kind) {
            Err(e) => {
                return Err(e);
            },
            Ok(()) => {},
        }
        // 2. Check permission of caller to add this type of proposal.
        if !permission.allowed {
            return Err(ProposalError::PermissionDenied);
        }
        // 3. Actually add proposal to the current list of proposals.
        let id = self.proposals.create(Proposal::new(proposal, proposer, submission_time));
        Ok(id)
    }

    /// The record on which the policy is to derive the status before
    /// [`Contract::act_proposal`] is called: for a vote, the stored record
    /// with the caller's vote entered; else the stored record. The store
    /// itself stays as it is.
    pub fn proposal_for_status(
        &self,
        id: u64,
        action: Action,
        sender: &AccountId,
        permission: &Permission,
        block_height: BlockHeight,
    ) -> (res: Result<Proposal, ProposalError>)
        ensures
            record_result_view(res) == subject_of(
                self@,
                id,
                action,
                sender@,
                role_names(permission.roles@),
                permission.allowed,
                block_height,
            ),
            res is Ok ==> res->Ok_0@.wf(),
    {
        let stored = match self.proposals.get(id) {
            Ok(p) => p,
            Err(e) => {
                return Err(e);
            },
        };
        if !permission.allowed {
            return Err(ProposalError::PermissionDenied);
        }
        match action {
            Action::AddProposal => Err(ProposalError::WrongActionForEntryPoint),
            Action::VoteApprove | Action::VoteReject | Action::VoteRemove => {
                if stored.status != ProposalStatus::InProgress {
                    return Err(ProposalError::NotOpenForVoting);
                }
                let mut voted = stored.clone();
                match voted.update_votes(
                    sender,
                    permission.roles.as_slice(),
                    Vote::from(action),
                    block_height,
                ) {
                    Ok(()) => Ok(voted),
                    Err(e) => Err(e),
                }
            },
            _ => Ok(stored.clone()),
        }
    }

    /// Act on given proposal by id, if permissions allow.
    ///
    /// `sender` is the caller and `block_height` the height of the call.
    /// `permission` is the policy's answer for the caller taking this action
    /// on the proposal, and `derived` the status that the policy derives for
    /// the record that [`Contract::proposal_for_status`] gives. The memo is
    /// handed back to be shown; it is not stored.
    pub fn act_proposal(
        &mut self,
        id: u64,
        action: Action,
        memo: Option<String>,
        sender: &AccountId,
        permission: &Permission,
        derived: ProposalStatus,
        block_height: BlockHeight,
    ) -> (res: Result<ActOutcome, ProposalError>)
        ensures
            final(self)@.wf(),
            (final(self)@, act_result_view(res)) == act_step(
                old(self)@,
                id,
                action,
                opt_text(memo),
                sender@,
                role_names(permission.roles@),
                permission.allowed,
                derived,
                block_height,
            ),
    {
        proof {
            use_type_invariant(&self.proposals);
        }
        let mut subject = match self.proposal_for_status(
            id,
            action,
            sender,
            permission,
            block_height,
        ) {
            Ok(p) => p,
            Err(e) => {
                return Err(e);
            },
        };
        subject.status = derived;
        let dispatch = match action {
            Action::RemoveProposal => {
                self.proposals.remove(id);
                None
            },
            Action::MoveToHub => None,
            // There are two cases when proposal must be finalized manually: expired or failed.
            // In case of failed, the status is recomputed and if it is still approved, the
            // proposal is executed again. A proposal that expired while failed is marked expired.
            Action::Finalize => match derived {
                ProposalStatus::Approved => {
                    let dispatch = Self::internal_execute_proposal(&subject, id);
                    self.put(id, subject);
                    Some(dispatch)
                },
                ProposalStatus::Expired => {
                    self.put(id, subject);
                    None
                },
                _ => {
                    return Err(ProposalError::NotEligibleForFinalization);
                },
            },
            _ => match derived {
                ProposalStatus::Approved => {
                    let dispatch = Self::internal_execute_proposal(&subject, id);
                    self.put(id, subject);
                    Some(dispatch)
                },
                ProposalStatus::Removed => {
                    self.proposals.remove(id);
                    None
                },
                _ => {
                    // Rejected, still in progress or expired.
                    self.put(id, subject);
                    None
                },
            },
        };
        Ok(ActOutcome { dispatch, memo })
    }

    /// Receiving callback after the proposal has been finalized.
    /// If the proposal execution failed (funds didn't transfer or function call failure),
    /// move proposal to "Failed" state.
    ///
    /// `outcomes` holds what the host reports of the effect: exactly one
    /// outcome is expected.
    pub fn on_proposal_callback(&mut self, proposal_id: u64, outcomes: &[EffectOutcome]) -> (res:
        Result<(), ProposalError>)
        ensures
            final(self)@.wf(),
            (final(self)@, res) == callback_step(old(self)@, proposal_id, outcomes@),
    {
        let mut proposal = match self.proposals.get(proposal_id) {
            Ok(p) => p.clone(),
            Err(e) => {
                return Err(e);
            },
        };
        if outcomes.len() != 1 {
            return Err(ProposalError::UnexpectedCallbackShape);
        }
        match outcomes[0] {
            EffectOutcome::Successful => Self::internal_callback_proposal_success(&mut proposal),
            EffectOutcome::Failed => Self::internal_callback_proposal_fail(&mut proposal),
        }
        self.put(proposal_id, proposal);
        Ok(())
    }
}

} // verus!
