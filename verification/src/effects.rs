//! What an approved proposal calls for outside the record: the library
//! describes the effect, the host performs it.

use vstd::prelude::*;
use crate::contract::Contract;
use crate::proposals::{
    action_views, clone_actions, ActionCall, ActionCallView, PolicyParameters, Proposal,
    ProposalKind, ProposalKindView, ProposalView,
};
use crate::types::{
    clone_opt_string, opt_text, AccountId, Balance, CryptoHash, Payload, VersionedPolicy,
    VersionedPolicyView,
};

verus! {

/// An effect for the host to perform.
#[allow(inconsistent_fields)]
#[derive(PartialEq, Eq, Debug)]
pub enum Effect {
    /// Nothing to perform.
    Nothing,
    /// Replace the stored configuration.
    ChangeConfig { config: Payload },
    /// Replace the stored policy.
    ChangePolicy { policy: VersionedPolicy },
    /// Store the current policy with the member added to the role.
    AddMemberToRole { member_id: AccountId, role: String },
    /// Store the current policy with the member removed from the role.
    RemoveMemberFromRole { member_id: AccountId, role: String },
    /// Call the receiver's methods, in this order, as one chain.
    FunctionCall { receiver_id: AccountId, actions: Vec<ActionCall> },
    /// Replace this contract's code with the stored blob of this hash.
    UpgradeSelf { hash: CryptoHash },
    /// Hand the stored blob of this hash to the receiver's method.
    UpgradeRemote { receiver_id: AccountId, method_name: String, hash: CryptoHash },
    /// Send an amount of the native asset.
    Transfer { receiver_id: AccountId, amount: Balance },
    /// Have the token contract transfer an amount.
    FtTransfer { token_id: AccountId, receiver_id: AccountId, amount: Balance, memo: String },
    /// Have the token contract transfer an amount and notify the receiver
    /// with a message.
    FtTransferCall {
        token_id: AccountId,
        receiver_id: AccountId,
        amount: Balance,
        memo: String,
        msg: String,
    },
    /// Store the current policy with the role added or updated.
    AddOrUpdateRole { role: Payload },
    /// Store the current policy without the role.
    RemoveRole { role: String },
    /// Store the current policy with another default vote policy.
    UpdateDefaultVotePolicy { vote_policy: Payload },
    /// Store the current policy with other parameters.
    UpdateParameters { parameters: PolicyParameters },
    /// Emit a line of text.
    Log { text: String },
}

/// Mathematical value of an [`Effect`].
#[allow(inconsistent_fields)]
pub enum EffectView {
    Nothing,
    ChangeConfig { config: Seq<u8> },
    ChangePolicy { policy: VersionedPolicyView },
    AddMemberToRole { member_id: Seq<char>, role: Seq<char> },
    RemoveMemberFromRole { member_id: Seq<char>, role: Seq<char> },
    FunctionCall { receiver_id: Seq<char>, actions: Seq<ActionCallView> },
    UpgradeSelf { hash: CryptoHash },
    UpgradeRemote { receiver_id: Seq<char>, method_name: Seq<char>, hash: CryptoHash },
    Transfer { receiver_id: Seq<char>, amount: Balance },
    FtTransfer { token_id: Seq<char>, receiver_id: Seq<char>, amount: Balance, memo: Seq<char> },
    FtTransferCall {
        token_id: Seq<char>,
        receiver_id: Seq<char>,
        amount: Balance,
        memo: Seq<char>,
        msg: Seq<char>,
    },
    AddOrUpdateRole { role: Seq<u8> },
    RemoveRole { role: Seq<char> },
    UpdateDefaultVotePolicy { vote_policy: Seq<u8> },
    UpdateParameters { parameters: PolicyParameters },
    Log { text: Seq<char> },
}

impl View for Effect {
    type V = EffectView;

    open spec fn view(&self) -> EffectView {
        match self {
            Effect::Nothing => EffectView::Nothing,
            Effect::ChangeConfig { config } => EffectView::ChangeConfig { config: config@ },
            Effect::ChangePolicy { policy } => EffectView::ChangePolicy { policy: policy@ },
            Effect::AddMemberToRole { member_id, role } => EffectView::AddMemberToRole {
                member_id: member_id@,
                role: role@,
            },
            Effect::RemoveMemberFromRole { member_id, role } => EffectView::RemoveMemberFromRole {
                member_id: member_id@,
                role: role@,
            },
            Effect::FunctionCall { receiver_id, actions } => EffectView::FunctionCall {
                receiver_id: receiver_id@,
                actions: action_views(actions@),
            },
            Effect::UpgradeSelf { hash } => EffectView::UpgradeSelf { hash: *hash },
            Effect::UpgradeRemote { receiver_id, method_name, hash } => EffectView::UpgradeRemote {
                receiver_id: receiver_id@,
                method_name: method_name@,
                hash: *hash,
            },
            Effect::Transfer { receiver_id, amount } => EffectView::Transfer {
                receiver_id: receiver_id@,
                amount: *amount,
            },
            Effect::FtTransfer { token_id, receiver_id, amount, memo } => EffectView::FtTransfer {
                token_id: token_id@,
                receiver_id: receiver_id@,
                amount: *amount,
                memo: memo@,
            },
            Effect::FtTransferCall {
                token_id,
                receiver_id,
                amount,
                memo,
                msg,
            } => EffectView::FtTransferCall {
                token_id: token_id@,
                receiver_id: receiver_id@,
                amount: *amount,
                memo: memo@,
                msg: msg@,
            },
            Effect::AddOrUpdateRole { role } => EffectView::AddOrUpdateRole { role: role@ },
            Effect::RemoveRole { role } => EffectView::RemoveRole { role: role@ },
            Effect::UpdateDefaultVotePolicy { vote_policy } => EffectView::UpdateDefaultVotePolicy {
                vote_policy: vote_policy@,
            },
            Effect::UpdateParameters { parameters } => EffectView::UpdateParameters {
                parameters: *parameters,
            },
            Effect::Log { text } => EffectView::Log { text: text@ },
        }
    }
}

impl EffectView {
    /// Whether the effect settles later, with an outcome to be reported
    /// back: calls, and transfers of the native asset or of a token.
    pub open spec fn is_promise(self) -> bool {
        self is FunctionCall || self is Transfer || self is FtTransfer || self is FtTransferCall
    }
}

impl Effect {
    /// Whether the effect settles later, with an outcome to be reported back.
    pub fn is_promise(&self) -> (r: bool)
        ensures
            r == self@.is_promise(),
    {
        match self {
            Effect::FunctionCall { .. } => true,
            Effect::Transfer { .. } => true,
            Effect::FtTransfer { .. } => true,
            Effect::FtTransferCall { .. } => true,
            _ => false,
        }
    }
}

/// An effect together with the continuation to attach to it.
#[derive(PartialEq, Eq, Debug)]
pub struct Dispatch {
    /// What the host is to perform.
    pub effect: Effect,
    /// The proposal to which the single outcome of the effect is to be
    /// reported once it has settled; `None` where the effect resolves at once.
    pub callback: Option<u64>,
}

/// Mathematical value of a [`Dispatch`].
pub struct DispatchView {
    pub effect: EffectView,
    pub callback: Option<u64>,
}

impl View for Dispatch {
    type V = DispatchView;

    open spec fn view(&self) -> DispatchView {
        DispatchView { effect: self.effect@, callback: self.callback }
    }
}

/// The token that a token identifier of a transfer denotes: `None`, the
/// native asset, for the empty identifier, else the token's account.
pub open spec fn token_of(token_id: Seq<char>) -> Option<Seq<char>> {
    if token_id.len() == 0 {
        None
    } else {
        Some(token_id)
    }
}

/// The effect that pays `amount` of a token to `receiver_id`: a transfer of
/// the native asset where there is no token, else a transfer by the token's
/// contract, with the message where there is one.
pub open spec fn payout_effect(
    token_id: Option<Seq<char>>,
    receiver_id: Seq<char>,
    amount: Balance,
    memo: Seq<char>,
    msg: Option<Seq<char>>,
) -> EffectView {
    match token_id {
        None => EffectView::Transfer { receiver_id, amount },
        Some(token_id) => match msg {
            Some(msg) => EffectView::FtTransferCall { token_id, receiver_id, amount, memo, msg },
            None => EffectView::FtTransfer { token_id, receiver_id, amount, memo },
        },
    }
}

/// The effect that executing a proposal calls for.
pub open spec fn effect_of(p: ProposalView) -> EffectView {
    match p.kind {
        ProposalKindView::ChangeConfig { config } => EffectView::ChangeConfig { config },
        ProposalKindView::ChangePolicy { policy } => EffectView::ChangePolicy { policy },
        ProposalKindView::AddMemberToRole { member_id, role } => EffectView::AddMemberToRole {
            member_id,
            role,
        },
        ProposalKindView::RemoveMemberFromRole {
            member_id,
            role,
        } => EffectView::RemoveMemberFromRole { member_id, role },
        ProposalKindView::FunctionCall { receiver_id, actions } => EffectView::FunctionCall {
            receiver_id,
            actions,
        },
        ProposalKindView::UpgradeSelf { hash } => EffectView::UpgradeSelf { hash },
        ProposalKindView::UpgradeRemote {
            receiver_id,
            method_name,
            hash,
        } => EffectView::UpgradeRemote { receiver_id, method_name, hash },
        ProposalKindView::Transfer { token_id, receiver_id, amount, msg } => payout_effect(
            token_of(token_id),
            receiver_id,
            amount,
            p.description,
            msg,
        ),
        ProposalKindView::Vote => EffectView::Nothing,
        ProposalKindView::ChangePolicyAddOrUpdateRole { role } => EffectView::AddOrUpdateRole {
            role,
        },
        ProposalKindView::ChangePolicyRemoveRole { role } => EffectView::RemoveRole { role },
        ProposalKindView::ChangePolicyUpdateDefaultVotePolicy {
            vote_policy,
        } => EffectView::UpdateDefaultVotePolicy { vote_policy },
        ProposalKindView::ChangePolicyUpdateParameters {
            parameters,
        } => EffectView::UpdateParameters { parameters },
        ProposalKindView::Suggestion { suggestion } => EffectView::Log { text: suggestion },
    }
}

/// The effect of executing the proposal stored under `proposal_id`, with the
/// continuation that reports to that proposal where the effect settles later.
pub open spec fn dispatch_of(p: ProposalView, proposal_id: u64) -> DispatchView {
    DispatchView {
        effect: effect_of(p),
        callback: if effect_of(p).is_promise() {
            Some(proposal_id)
        } else {
            None
        },
    }
}

/// The token that a token identifier of a transfer denotes.
pub fn convert_old_to_new_token(token_id: &String) -> (token: Option<AccountId>)
    ensures
        opt_text(token) == token_of(token_id@),
{
    if token_id.as_str().is_empty() {
        None
    } else {
        Some(token_id.clone())
    }
}

impl Contract {
    /// Execute payout of given token to given user.
    pub fn internal_payout(
        token_id: &Option<AccountId>,
        receiver_id: &AccountId,
        amount: Balance,
        memo: String,
        msg: Option<String>,
    ) -> (effect: Effect)
        ensures
            effect@ == payout_effect(opt_text(*token_id), receiver_id@, amount, memo@, opt_text(msg)),
    {
        match token_id {
            None => Effect::Transfer { receiver_id: receiver_id.clone(), amount },
            Some(token) => match msg {
                Some(msg) => Effect::FtTransferCall {
                    token_id: token.clone(),
                    receiver_id: receiver_id.clone(),
                    amount,
                    memo,
                    msg,
                },
                None => Effect::FtTransfer {
                    token_id: token.clone(),
                    receiver_id: receiver_id.clone(),
                    amount,
                    memo,
                },
            },
        }
    }

    /// Executes given proposal: says what is to happen, and whether its outcome
    /// is to be reported back.
    pub fn internal_execute_proposal(proposal: &Proposal, proposal_id: u64) -> (dispatch: Dispatch)
        ensures
            dispatch@ == dispatch_of(proposal@, proposal_id),
    {
        let effect = match &proposal.kind {
            ProposalKind::ChangeConfig { config } => Effect::ChangeConfig { config: config.clone() },
            ProposalKind::ChangePolicy { policy } => Effect::ChangePolicy { policy: policy.clone() },
            ProposalKind::AddMemberToRole { member_id, role } => Effect::AddMemberToRole {
                member_id: member_id.clone(),
                role: role.clone(),
            },
            ProposalKind::RemoveMemberFromRole { member_id, role } => Effect::RemoveMemberFromRole {
                member_id: member_id.clone(),
                role: role.clone(),
            },
            ProposalKind::FunctionCall { receiver_id, actions } => Effect::FunctionCall {
                receiver_id: receiver_id.clone(),
                actions: clone_actions(actions),
            },
            ProposalKind::UpgradeSelf { hash } => Effect::UpgradeSelf { hash: *hash },
            ProposalKind::UpgradeRemote { receiver_id, method_name, hash } => Effect::UpgradeRemote {
                receiver_id: receiver_id.clone(),
                method_name: method_name.clone(),
                hash: *hash,
            },
            ProposalKind::Transfer { token_id, receiver_id, amount, msg } => Self::internal_payout(
                &convert_old_to_new_token(token_id),
                receiver_id,
                *amount,
                proposal.description.clone(),
                clone_opt_string(msg),
            ),
            ProposalKind::Vote => Effect::Nothing,
            ProposalKind::ChangePolicyAddOrUpdateRole { role } => Effect::AddOrUpdateRole {
                role: role.clone(),
            },
            ProposalKind::ChangePolicyRemoveRole { role } => Effect::RemoveRole { role: role.clone() },
            ProposalKind::ChangePolicyUpdateDefaultVotePolicy {
                vote_policy,
            } => Effect::UpdateDefaultVotePolicy { vote_policy: vote_policy.clone() },
            ProposalKind::ChangePolicyUpdateParameters { parameters } => Effect::UpdateParameters {
                parameters: *parameters,
            },
            ProposalKind::Suggestion { suggestion } => Effect::Log { text: suggestion.clone() },
        };
        let callback = if effect.is_promise() {
            Some(proposal_id)
        } else {
            None
        };
        Dispatch { effect, callback }
    }
}

} // verus!
