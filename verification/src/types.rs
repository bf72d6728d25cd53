//! Plain values shared by the whole library.

use vstd::prelude::*;

verus! {

/// Name of an account.
pub type AccountId = String;

/// Amount of the native asset or of a token, in its smallest unit.
pub type Balance = u128;

/// Height of a block.
pub type BlockHeight = u64;

/// Content hash of a stored code blob.
pub type CryptoHash = [u8; 32];

/// What a caller asks to do with a proposal.
#[derive(Clone, Copy, PartialEq, Eq, Structural, Debug)]
pub enum Action {
    /// Submit a new proposal.
    AddProposal,
    /// Delete a proposal.
    RemoveProposal,
    /// Vote to approve.
    VoteApprove,
    /// Vote to reject.
    VoteReject,
    /// Vote to remove, for instance as spam.
    VoteRemove,
    /// Recompute the status of an expired or failed proposal.
    Finalize,
    /// Hand the proposal over to another organization.
    MoveToHub,
}

impl Action {
    /// Whether the action casts a vote.
    pub open spec fn is_vote(self) -> bool {
        self == Action::VoteApprove || self == Action::VoteReject || self == Action::VoteRemove
    }
}

/// Why an operation was refused. A refused operation changes nothing.
#[derive(Clone, Copy, PartialEq, Eq, Structural, Debug)]
pub enum ProposalError {
    /// The caller lacks the role or authority for this action on this kind.
    PermissionDenied,
    /// No proposal is stored under the identifier.
    NotFound,
    /// The account has already voted on the proposal.
    AlreadyVoted,
    /// The proposal is no longer in progress.
    NotOpenForVoting,
    /// The recomputed status is neither approved nor expired.
    NotEligibleForFinalization,
    /// A policy change carries a policy of an unsupported schema version.
    InvalidPolicyPayload,
    /// A transfer of the native asset carries a message.
    BaseTokenMessageNotAllowed,
    /// `AddProposal` was passed where a stored proposal is acted on.
    WrongActionForEntryPoint,
    /// An effect completed with other than exactly one outcome.
    UnexpectedCallbackShape,
}

impl ProposalError {
    /// Text of the code under which the error is reported.
    pub open spec fn code_text(self) -> Seq<char> {
        match self {
            ProposalError::PermissionDenied => "ERR_PERMISSION_DENIED"@,
            ProposalError::NotFound => "ERR_NO_PROPOSAL"@,
            ProposalError::AlreadyVoted => "ERR_ALREADY_VOTED"@,
            ProposalError::NotOpenForVoting => "ERR_PROPOSAL_NOT_READY_FOR_VOTE"@,
            ProposalError::NotEligibleForFinalization => "ERR_PROPOSAL_NOT_EXPIRED_OR_FAILED"@,
            ProposalError::InvalidPolicyPayload => "ERR_INVALID_POLICY"@,
            ProposalError::BaseTokenMessageNotAllowed => "ERR_BASE_TOKEN_NO_MSG"@,
            ProposalError::WrongActionForEntryPoint => "ERR_WRONG_ACTION"@,
            ProposalError::UnexpectedCallbackShape => "ERR_UNEXPECTED_CALLBACK_PROMISES"@,
        }
    }

    /// The code under which the error is reported.
    pub fn code(&self) -> (text: &'static str)
        ensures
            text@ == self.code_text(),
    {
        match self {
            ProposalError::PermissionDenied => "ERR_PERMISSION_DENIED",
            ProposalError::NotFound => "ERR_NO_PROPOSAL",
            ProposalError::AlreadyVoted => "ERR_ALREADY_VOTED",
            ProposalError::NotOpenForVoting => "ERR_PROPOSAL_NOT_READY_FOR_VOTE",
            ProposalError::NotEligibleForFinalization => "ERR_PROPOSAL_NOT_EXPIRED_OR_FAILED",
            ProposalError::InvalidPolicyPayload => "ERR_INVALID_POLICY",
            ProposalError::BaseTokenMessageNotAllowed => "ERR_BASE_TOKEN_NO_MSG",
            ProposalError::WrongActionForEntryPoint => "ERR_WRONG_ACTION",
            ProposalError::UnexpectedCallbackShape => "ERR_UNEXPECTED_CALLBACK_PROMISES",
        }
    }
}

/// The account on whose behalf an action is checked, with its stake.
#[derive(PartialEq, Eq, Debug)]
pub struct UserInfo {
    pub account_id: AccountId,
    pub stake: Balance,
}

/// A value that belongs to a collaborator and is carried through in its
/// encoded form: the library never looks inside.
#[derive(PartialEq, Eq, Debug)]
pub struct Payload {
    pub bytes: Vec<u8>,
}

impl View for Payload {
    type V = Seq<u8>;

    open spec fn view(&self) -> Seq<u8> {
        self.bytes@
    }
}

impl Clone for Payload {
    fn clone(&self) -> (r: Self)
        ensures
            r@ == self@,
    {
        Payload { bytes: self.bytes.clone() }
    }
}

/// A policy as submitted, tagged with its schema version.
#[derive(PartialEq, Eq, Debug)]
pub enum VersionedPolicy {
    /// The earlier schema, no longer accepted in proposals.
    Default(Payload),
    /// The current schema.
    Current(Payload),
}

/// Mathematical value of a [`VersionedPolicy`].
pub enum VersionedPolicyView {
    Default(Seq<u8>),
    Current(Seq<u8>),
}

impl View for VersionedPolicy {
    type V = VersionedPolicyView;

    open spec fn view(&self) -> VersionedPolicyView {
        match self {
            VersionedPolicy::Default(p) => VersionedPolicyView::Default(p@),
            VersionedPolicy::Current(p) => VersionedPolicyView::Current(p@),
        }
    }
}

impl Clone for VersionedPolicy {
    fn clone(&self) -> (r: Self)
        ensures
            r@ == self@,
    {
        match self {
            VersionedPolicy::Default(p) => VersionedPolicy::Default(p.clone()),
            VersionedPolicy::Current(p) => VersionedPolicy::Current(p.clone()),
        }
    }
}

/// A role under which the caller may act, as the policy reports it.
#[derive(PartialEq, Eq, Debug)]
pub struct VoterRole {
    /// Name of the role.
    pub name: String,
    /// The policy's token-weighting flag for this role and the proposal's
    /// label. Reserved: every vote weighs one, whatever the flag.
    pub token_weighted: bool,
}

/// Names of a list of roles, in order.
pub open spec fn role_names(roles: Seq<VoterRole>) -> Seq<Seq<char>> {
    roles.map_values(|r: VoterRole| r.name@)
}

/// The policy's answer to a permission query.
#[derive(PartialEq, Eq, Debug)]
pub struct Permission {
    /// The caller's roles that apply to the proposal's kind.
    pub roles: Vec<VoterRole>,
    /// Whether the action is allowed.
    pub allowed: bool,
}

/// The text of an optional string.
pub open spec fn opt_text(s: Option<String>) -> Option<Seq<char>> {
    match s {
        Some(t) => Some(t@),
        None => None,
    }
}

/// Copies an optional string.
pub fn clone_opt_string(s: &Option<String>) -> (r: Option<String>)
    ensures
        opt_text(r) == opt_text(*s),
{
    match s {
        Some(t) => Some(t.clone()),
        None => None,
    }
}

} // verus!
