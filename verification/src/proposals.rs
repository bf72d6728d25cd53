//! Proposals: what they ask for, how they are voted on, and their record.

use vstd::prelude::*;
use crate::string_map::StringMap;
use crate::types::{
    clone_opt_string, opt_text, role_names, AccountId, Action, Balance, BlockHeight, CryptoHash,
    Payload, ProposalError, VersionedPolicy, VersionedPolicyView, VoterRole,
};

verus! {

/// Status of a proposal.
#[derive(Clone, Copy, PartialEq, Eq, Structural, Debug)]
pub enum ProposalStatus {
    InProgress,
    /// If quorum voted yes, this proposal is successfully approved.
    Approved,
    /// If quorum voted no, this proposal is rejected.
    Rejected,
    /// If quorum voted to remove (e.g. spam), this proposal is rejected.
    /// Interfaces shouldn't show removed proposals.
    Removed,
    /// Expired after period of time.
    Expired,
    /// If proposal was moved to Hub or somewhere else.
    Moved,
    /// If proposal has failed when finalizing. Allowed to re-finalize again to
    /// either expire or approved.
    Failed,
}

/// Function call arguments.
#[derive(PartialEq, Eq, Debug)]
pub struct ActionCall {
    pub method_name: String,
    pub args: Vec<u8>,
    pub deposit: Balance,
    pub gas: u64,
}

/// Mathematical value of an [`ActionCall`].
pub struct ActionCallView {
    pub method_name: Seq<char>,
    pub args: Seq<u8>,
    pub deposit: Balance,
    pub gas: u64,
}

impl View for ActionCall {
    type V = ActionCallView;

    open spec fn view(&self) -> ActionCallView {
        ActionCallView {
            method_name: self.method_name@,
            args: self.args@,
            deposit: self.deposit,
            gas: self.gas,
        }
    }
}

impl Clone for ActionCall {
    fn clone(&self) -> (r: Self)
        ensures
            r@ == self@,
    {
        ActionCall {
            method_name: self.method_name.clone(),
            args: self.args.clone(),
            deposit: self.deposit,
            gas: self.gas,
        }
    }
}

/// Values of a list of calls, in order.
pub open spec fn action_views(actions: Seq<ActionCall>) -> Seq<ActionCallView> {
    actions.map_values(|a: ActionCall| a@)
}

/// Copies a list of calls.
pub fn clone_actions(actions: &Vec<ActionCall>) -> (r: Vec<ActionCall>)
    ensures
        action_views(r@) == action_views(actions@),
{
    let mut r: Vec<ActionCall> = Vec::new();
    let mut i: usize = 0;
    while i < actions.len()
        invariant
            i <= actions@.len(),
            r@.len() == i,
            forall|j: int| 0 <= j < i ==> r@[j]@ == actions@[j]@,
        decreases actions@.len() - i,
    {
        r.push(actions[i].clone());
        i += 1;
    }
    assert(action_views(r@) =~= action_views(actions@));
    r
}

/// Parameters of the policy that a proposal can update.
#[derive(Clone, Copy, PartialEq, Eq, Debug)]
pub struct PolicyParameters {
    pub proposal_period: Option<u64>,
}

/// Kinds of proposals, doing different action.
#[allow(inconsistent_fields)]
#[derive(PartialEq, Eq, Debug)]
pub enum ProposalKind {
    /// Change the DAO config.
    ChangeConfig { config: Payload },
    /// Change the full policy.
    ChangePolicy { policy: VersionedPolicy },
    /// Add member to given role in the policy. This is short cut to updating the whole policy.
    AddMemberToRole { member_id: AccountId, role: String },
    /// Remove member to given role in the policy. This is short cut to updating the whole policy.
    RemoveMemberFromRole { member_id: AccountId, role: String },
    /// Calls `receiver_id` with list of method names in a single promise.
    /// Allows this contract to execute any arbitrary set of actions in other contracts.
    FunctionCall { receiver_id: AccountId, actions: Vec<ActionCall> },
    /// Upgrade this contract with given hash from blob store.
    UpgradeSelf { hash: CryptoHash },
    /// Upgrade another contract, by calling method with the code from given hash from blob store.
    UpgradeRemote { receiver_id: AccountId, method_name: String, hash: CryptoHash },
    /// Transfers given amount of `token_id` from this DAO to `receiver_id`.
    /// If `msg` is not None, the token's transfer-with-message is used. Fails if this base token.
    /// For token transfers `memo` is the `description` of the proposal.
    Transfer {
        /// Can be "" for the native asset or a valid account id.
        token_id: String,
        receiver_id: AccountId,
        amount: Balance,
        msg: Option<String>,
    },
    /// Just a signaling vote, with no execution.
    Vote,
    /// Add new role to the policy. If the role already exists, update it.
    ChangePolicyAddOrUpdateRole { role: Payload },
    /// Remove role from the policy.
    ChangePolicyRemoveRole { role: String },
    /// Update the default vote policy from the policy.
    ChangePolicyUpdateDefaultVotePolicy { vote_policy: Payload },
    /// Update the parameters from the policy.
    ChangePolicyUpdateParameters { parameters: PolicyParameters },
    /// Suggestion to be seen by councils and proposed by members
    Suggestion { suggestion: String },
}

/// Mathematical value of a [`ProposalKind`].
#[allow(inconsistent_fields)]
pub enum ProposalKindView {
    ChangeConfig { config: Seq<u8> },
    ChangePolicy { policy: VersionedPolicyView },
    AddMemberToRole { member_id: Seq<char>, role: Seq<char> },
    RemoveMemberFromRole { member_id: Seq<char>, role: Seq<char> },
    FunctionCall { receiver_id: Seq<char>, actions: Seq<ActionCallView> },
    UpgradeSelf { hash: CryptoHash },
    UpgradeRemote { receiver_id: Seq<char>, method_name: Seq<char>, hash: CryptoHash },
    Transfer { token_id: Seq<char>, receiver_id: Seq<char>, amount: Balance, msg: Option<Seq<char>> },
    Vote,
    ChangePolicyAddOrUpdateRole { role: Seq<u8> },
    ChangePolicyRemoveRole { role: Seq<char> },
    ChangePolicyUpdateDefaultVotePolicy { vote_policy: Seq<u8> },
    ChangePolicyUpdateParameters { parameters: PolicyParameters },
    Suggestion { suggestion: Seq<char> },
}

impl View for ProposalKind {
    type V = ProposalKindView;

    open spec fn view(&self) -> ProposalKindView {
        match self {
            ProposalKind::ChangeConfig { config } => ProposalKindView::ChangeConfig {
                config: config@,
            },
            ProposalKind::ChangePolicy { policy } => ProposalKindView::ChangePolicy {
                policy: policy@,
            },
            ProposalKind::AddMemberToRole { member_id, role } => ProposalKindView::AddMemberToRole {
                member_id: member_id@,
                role: role@,
            },
            ProposalKind::RemoveMemberFromRole {
                member_id,
                role,
            } => ProposalKindView::RemoveMemberFromRole { member_id: member_id@, role: role@ },
            ProposalKind::FunctionCall { receiver_id, actions } => ProposalKindView::FunctionCall {
                receiver_id: receiver_id@,
                actions: action_views(actions@),
            },
            ProposalKind::UpgradeSelf { hash } => ProposalKindView::UpgradeSelf { hash: *hash },
            ProposalKind::UpgradeRemote {
                receiver_id,
                method_name,
                hash,
            } => ProposalKindView::UpgradeRemote {
                receiver_id: receiver_id@,
                method_name: method_name@,
                hash: *hash,
            },
            ProposalKind::Transfer {
                token_id,
                receiver_id,
                amount,
                msg,
            } => ProposalKindView::Transfer {
                token_id: token_id@,
                receiver_id: receiver_id@,
                amount: *amount,
                msg: opt_text(*msg),
            },
            ProposalKind::Vote => ProposalKindView::Vote,
            ProposalKind::ChangePolicyAddOrUpdateRole {
                role,
            } => ProposalKindView::ChangePolicyAddOrUpdateRole { role: role@ },
            ProposalKind::ChangePolicyRemoveRole {
                role,
            } => ProposalKindView::ChangePolicyRemoveRole { role: role@ },
            ProposalKind::ChangePolicyUpdateDefaultVotePolicy {
                vote_policy,
            } => ProposalKindView::ChangePolicyUpdateDefaultVotePolicy {
                vote_policy: vote_policy@,
            },
            ProposalKind::ChangePolicyUpdateParameters {
                parameters,
            } => ProposalKindView::ChangePolicyUpdateParameters { parameters: *parameters },
            ProposalKind::Suggestion { suggestion } => ProposalKindView::Suggestion {
                suggestion: suggestion@,
            },
        }
    }
}

impl ProposalKindView {
    /// Label under which the policy lists permissions for this kind.
    pub open spec fn policy_label(self) -> Seq<char> {
        match self {
            ProposalKindView::ChangeConfig { .. } => "config"@,
            ProposalKindView::ChangePolicy { .. } => "policy"@,
            ProposalKindView::AddMemberToRole { .. } => "add_member_to_role"@,
            ProposalKindView::RemoveMemberFromRole { .. } => "remove_member_from_role"@,
            ProposalKindView::FunctionCall { .. } => "call"@,
            ProposalKindView::UpgradeSelf { .. } => "upgrade_self"@,
            ProposalKindView::UpgradeRemote { .. } => "upgrade_remote"@,
            ProposalKindView::Transfer { .. } => "transfer"@,
            ProposalKindView::Vote => "vote"@,
            ProposalKindView::ChangePolicyAddOrUpdateRole { .. } => "policy_add_or_update_role"@,
            ProposalKindView::ChangePolicyRemoveRole { .. } => "policy_remove_role"@,
            ProposalKindView::ChangePolicyUpdateDefaultVotePolicy {
                ..
            } => "policy_update_default_vote_policy"@,
            ProposalKindView::ChangePolicyUpdateParameters { .. } => "policy_update_parameters"@,
            ProposalKindView::Suggestion { .. } => "give a suggestion"@,
        }
    }
}

impl ProposalKind {
    /// Returns label of policy for given type of proposal.
    pub fn to_policy_label(&self) -> (label: &'static str)
        ensures
            label@ == self@.policy_label(),
    {
        match self {
            ProposalKind::ChangeConfig { .. } => "config",
            ProposalKind::ChangePolicy { .. } => "policy",
            ProposalKind::AddMemberToRole { .. } => "add_member_to_role",
            ProposalKind::RemoveMemberFromRole { .. } => "remove_member_from_role",
            ProposalKind::FunctionCall { .. } => "call",
            ProposalKind::UpgradeSelf { .. } => "upgrade_self",
            ProposalKind::UpgradeRemote { .. } => "upgrade_remote",
            ProposalKind::Transfer { .. } => "transfer",
            ProposalKind::Vote => "vote",
            ProposalKind::ChangePolicyAddOrUpdateRole { .. } => "policy_add_or_update_role",
            ProposalKind::ChangePolicyRemoveRole { .. } => "policy_remove_role",
            ProposalKind::ChangePolicyUpdateDefaultVotePolicy {
                ..
            } => "policy_update_default_vote_policy",
            ProposalKind::ChangePolicyUpdateParameters { .. } => "policy_update_parameters",
            ProposalKind::Suggestion { .. } => "give a suggestion",
        }
    }
}

impl Clone for ProposalKind {
    fn clone(&self) -> (r: Self)
        ensures
            r@ == self@,
    {
        match self {
            ProposalKind::ChangeConfig { config } => ProposalKind::ChangeConfig {
                config: config.clone(),
            },
            ProposalKind::ChangePolicy { policy } => ProposalKind::ChangePolicy {
                policy: policy.clone(),
            },
            ProposalKind::AddMemberToRole { member_id, role } => ProposalKind::AddMemberToRole {
                member_id: member_id.clone(),
                role: role.clone(),
            },
            ProposalKind::RemoveMemberFromRole {
                member_id,
                role,
            } => ProposalKind::RemoveMemberFromRole {
                member_id: member_id.clone(),
                role: role.clone(),
            },
            ProposalKind::FunctionCall { receiver_id, actions } => ProposalKind::FunctionCall {
                receiver_id: receiver_id.clone(),
                actions: clone_actions(actions),
            },
            ProposalKind::UpgradeSelf { hash } => ProposalKind::UpgradeSelf { hash: *hash },
            ProposalKind::UpgradeRemote { receiver_id, method_name, hash } => {
                ProposalKind::UpgradeRemote {
                    receiver_id: receiver_id.clone(),
                    method_name: method_name.clone(),
                    hash: *hash,
                }
            },
            ProposalKind::Transfer { token_id, receiver_id, amount, msg } => {
                ProposalKind::Transfer {
                    token_id: token_id.clone(),
                    receiver_id: receiver_id.clone(),
                    amount: *amount,
                    msg: clone_opt_string(msg),
                }
            },
            ProposalKind::Vote => ProposalKind::Vote,
            ProposalKind::ChangePolicyAddOrUpdateRole {
                role,
            } => ProposalKind::ChangePolicyAddOrUpdateRole { role: role.clone() },
            ProposalKind::ChangePolicyRemoveRole { role } => ProposalKind::ChangePolicyRemoveRole {
                role: role.clone(),
            },
            ProposalKind::ChangePolicyUpdateDefaultVotePolicy {
                vote_policy,
            } => ProposalKind::ChangePolicyUpdateDefaultVotePolicy {
                vote_policy: vote_policy.clone(),
            },
            ProposalKind::ChangePolicyUpdateParameters {
                parameters,
            } => ProposalKind::ChangePolicyUpdateParameters { parameters: *parameters },
            ProposalKind::Suggestion { suggestion } => ProposalKind::Suggestion {
                suggestion: suggestion.clone(),
            },
        }
    }
}

/// Votes recorded in the proposal.
#[derive(Clone, Copy, PartialEq, Eq, Structural, Debug)]
pub enum Vote {
    Approve,
    Reject,
    Remove,
}

impl Vote {
    /// Position of this vote among the counts of a role: approve, reject, remove.
    pub open spec fn spec_index(self) -> int {
        match self {
            Vote::Approve => 0,
            Vote::Reject => 1,
            Vote::Remove => 2,
        }
    }

    /// The vote that a voting action casts. Of another action: approve, which
    /// nothing relies on.
    pub open spec fn of_action(action: Action) -> Vote {
        match action {
            Action::VoteReject => Vote::Reject,
            Action::VoteRemove => Vote::Remove,
            _ => Vote::Approve,
        }
    }

    /// Position of this vote among the counts of a role: approve, reject, remove.
    pub fn index(self) -> (i: usize)
        ensures
            i == self.spec_index(),
    {
        match self {
            Vote::Approve => 0,
            Vote::Reject => 1,
            Vote::Remove => 2,
        }
    }

    /// The vote that a voting action casts.
    pub fn from(action: Action) -> (vote: Vote)
        requires
            action.is_vote(),
        ensures
            vote == Vote::of_action(action),
    {
        match action {
            Action::VoteReject => Vote::Reject,
            Action::VoteRemove => Vote::Remove,
            _ => Vote::Approve,
        }
    }
}

/// A vote with the height of the block in which it was cast.
#[derive(Clone, Copy, PartialEq, Eq, Structural, Debug)]
pub struct VoteWithTimestamp {
    pub vote: Vote,
    pub blocknumber: BlockHeight,
}

/// Votes counted for one role.
pub struct Tally {
    pub approve: nat,
    pub reject: nat,
    pub remove: nat,
}

impl Tally {
    /// No vote counted.
    pub open spec fn zero() -> Tally {
        Tally { approve: 0, reject: 0, remove: 0 }
    }

    /// The count of one kind of vote.
    pub open spec fn get(self, vote: Vote) -> nat {
        match vote {
            Vote::Approve => self.approve,
            Vote::Reject => self.reject,
            Vote::Remove => self.remove,
        }
    }

    /// The tally with `n` more votes of one kind.
    pub open spec fn plus(self, vote: Vote, n: nat) -> Tally {
        match vote {
            Vote::Approve => Tally { approve: self.approve + n, ..self },
            Vote::Reject => Tally { reject: self.reject + n, ..self },
            Vote::Remove => Tally { remove: self.remove + n, ..self },
        }
    }

    /// Whether no count exceeds `limit`.
    pub open spec fn within(self, limit: int) -> bool {
        self.approve <= limit && self.reject <= limit && self.remove <= limit
    }
}

/// The tally that three stored counts stand for.
pub open spec fn tally_of(counts: [Balance; 3]) -> Tally {
    Tally { approve: counts[0] as nat, reject: counts[1] as nat, remove: counts[2] as nat }
}

/// The tallies that stored counts stand for, role by role.
pub open spec fn tallies(counts: Map<Seq<char>, [Balance; 3]>) -> Map<Seq<char>, Tally> {
    Map::new(|role: Seq<char>| counts.contains_key(role), |role: Seq<char>| tally_of(counts[role]))
}

/// The votes counted for `role`: zero where the role has no entry.
pub open spec fn tally_in(counts: Map<Seq<char>, Tally>, role: Seq<char>) -> Tally {
    if counts.contains_key(role) {
        counts[role]
    } else {
        Tally::zero()
    }
}

/// The counts with one more vote of a kind under a role.
pub open spec fn counted(counts: Map<Seq<char>, Tally>, role: Seq<char>, vote: Vote) -> Map<
    Seq<char>,
    Tally,
> {
    counts.insert(role, tally_in(counts, role).plus(vote, 1))
}

/// How often `role` occurs in `roles`.
pub open spec fn occurrences(roles: Seq<Seq<char>>, role: Seq<char>) -> nat
    decreases roles.len(),
{
    if roles.len() == 0 {
        0
    } else {
        occurrences(roles.drop_last(), role) + if roles.last() == role {
            1nat
        } else {
            0nat
        }
    }
}

/// The weight of one vote under a role. `token_weighted` is the policy's flag
/// for the role; it is reserved and has no influence: the weight is one.
pub fn vote_weight(token_weighted: bool) -> (weight: Balance)
    ensures
        weight == 1,
{
    if token_weighted {
        1
    } else {
        1
    }
}

/// Mathematical value of a [`Proposal`].
pub struct ProposalView {
    pub proposer: Seq<char>,
    pub description: Seq<char>,
    pub kind: ProposalKindView,
    pub status: ProposalStatus,
    pub vote_counts: Map<Seq<char>, Tally>,
    pub votes: Map<Seq<char>, VoteWithTimestamp>,
    pub threshold_block: Option<BlockHeight>,
    pub submission_time: u64,
}

impl ProposalView {
    /// The votes counted for `role`: zero where the role has no entry.
    pub open spec fn tally(self, role: Seq<char>) -> Tally {
        tally_in(self.vote_counts, role)
    }

    /// The record of a proposal as it is when submitted: in progress, with
    /// no vote cast or counted.
    pub open spec fn fresh(
        proposer: Seq<char>,
        description: Seq<char>,
        kind: ProposalKindView,
        submission_time: u64,
    ) -> ProposalView {
        ProposalView {
            proposer,
            description,
            kind,
            status: ProposalStatus::InProgress,
            vote_counts: Map::empty(),
            votes: Map::empty(),
            threshold_block: None,
            submission_time,
        }
    }

    /// The record with another status.
    pub open spec fn with_status(self, status: ProposalStatus) -> ProposalView {
        ProposalView { status, ..self }
    }

    /// The record after `voter` has cast `vote` under `roles` at `height`:
    /// each role counts one more vote of that kind for each time it is
    /// listed, and the voter is entered among the votes.
    pub open spec fn with_vote(
        self,
        voter: Seq<char>,
        roles: Seq<Seq<char>>,
        vote: Vote,
        height: BlockHeight,
    ) -> ProposalView {
        ProposalView {
            vote_counts: Map::new(
                |role: Seq<char>| self.vote_counts.contains_key(role) || roles.contains(role),
                |role: Seq<char>| self.tally(role).plus(vote, occurrences(roles, role)),
            ),
            votes: self.votes.insert(voter, VoteWithTimestamp { vote, blocknumber: height }),
            ..self
        }
    }

    /// Whether the record can take another vote without a count leaving its
    /// range: the votes are finitely many, and no count exceeds what that
    /// many votes can add, each vote at most `usize::MAX` per role.
    pub open spec fn wf(self) -> bool {
        &&& self.votes.dom().finite()
        &&& forall|role: Seq<char>| #[trigger]
            self.vote_counts.contains_key(role) ==> self.vote_counts[role].within(
                self.votes.dom().len() * usize::MAX,
            )
    }
}

/// Proposal that are sent to this DAO.
#[derive(Debug)]
pub struct Proposal {
    /// Account that submitted the proposal.
    pub proposer: AccountId,
    /// Description of this proposal.
    pub description: String,
    /// Kind of proposal with relevant information.
    pub kind: ProposalKind,
    /// Current status of the proposal.
    pub status: ProposalStatus,
    /// Count of votes per role per decision: yes / no / spam.
    pub vote_counts: StringMap<[Balance; 3]>,
    /// Map of who voted and how.
    pub votes: StringMap<VoteWithTimestamp>,
    /// The cutoff for when a submitted vote will be rewarded
    pub threshold_block: Option<BlockHeight>,
    /// Submission time (for voting period).
    pub submission_time: u64,
}

impl View for Proposal {
    type V = ProposalView;

    open spec fn view(&self) -> ProposalView {
        ProposalView {
            proposer: self.proposer@,
            description: self.description@,
            kind: self.kind@,
            status: self.status,
            vote_counts: tallies(self.vote_counts@),
            votes: self.votes@,
            threshold_block: self.threshold_block,
            submission_time: self.submission_time,
        }
    }
}

impl Clone for Proposal {
    fn clone(&self) -> (r: Self)
        ensures
            r@ == self@,
    {
        Proposal {
            proposer: self.proposer.clone(),
            description: self.description.clone(),
            kind: self.kind.clone(),
            status: self.status,
            vote_counts: self.vote_counts.clone(),
            votes: self.votes.clone(),
            threshold_block: self.threshold_block,
            submission_time: self.submission_time,
        }
    }
}

/// A stored proposal, tagged with the schema version of its record.
#[derive(Debug)]
pub enum VersionedProposal {
    Default(Proposal),
}

impl View for VersionedProposal {
    type V = ProposalView;

    open spec fn view(&self) -> ProposalView {
        match self {
            VersionedProposal::Default(p) => p@,
        }
    }
}

impl VersionedProposal {
    /// The record in the current schema, without taking it out.
    pub fn as_proposal(&self) -> (p: &Proposal)
        ensures
            p@ == self@,
    {
        match self {
            VersionedProposal::Default(p) => p,
        }
    }
}

impl From<VersionedProposal> for Proposal {
    fn from(v: VersionedProposal) -> (p: Proposal) {
        match v {
            VersionedProposal::Default(p) => p,
        }
    }
}

impl vstd::std_specs::convert::FromSpecImpl<VersionedProposal> for Proposal {
    open spec fn obeys_from_spec() -> bool {
        true
    }

    open spec fn from_spec(v: VersionedProposal) -> Proposal {
        match v {
            VersionedProposal::Default(p) => p,
        }
    }
}

/// What a caller submits to open a proposal.
#[derive(Debug)]
pub struct ProposalInput {
    /// Description of this proposal.
    pub description: String,
    /// Kind of proposal with relevant information.
    pub kind: ProposalKind,
}

/// A role occurs in a list at most as often as the list is long.
pub proof fn lemma_occurrences_bounded(roles: Seq<Seq<char>>, role: Seq<char>)
    ensures
        occurrences(roles, role) <= roles.len(),
    decreases roles.len(),
{
    if roles.len() > 0 {
        lemma_occurrences_bounded(roles.drop_last(), role);
    }
}

/// A role occurs zero times in a list exactly if the list does not hold it.
pub proof fn lemma_occurrences_absent(roles: Seq<Seq<char>>, role: Seq<char>)
    ensures
        occurrences(roles, role) == 0 <==> !roles.contains(role),
    decreases roles.len(),
{
    if roles.len() > 0 {
        let front = roles.drop_last();
        lemma_occurrences_absent(front, role);
        if front.contains(role) {
            let j = choose|j: int| 0 <= j < front.len() && front[j] == role;
            assert(roles[j] == role);
        }
        if roles.contains(role) && roles.last() != role {
            let j = choose|j: int| 0 <= j < roles.len() && roles[j] == role;
            assert(front[j] == role);
        }
    }
}

/// In a list that holds no role twice, a role occurs once or not at all.
pub proof fn lemma_occurrences_unique(roles: Seq<Seq<char>>, role: Seq<char>)
    requires
        roles.no_duplicates(),
    ensures
        occurrences(roles, role) == if roles.contains(role) {
            1nat
        } else {
            0nat
        },
    decreases roles.len(),
{
    lemma_occurrences_absent(roles, role);
    if roles.len() > 0 {
        let front = roles.drop_last();
        lemma_occurrences_unique(front, role);
        lemma_occurrences_absent(front, role);
        if roles.last() == role && front.contains(role) {
            let j = choose|j: int| 0 <= j < front.len() && front[j] == role;
            assert(roles[j] == roles[roles.len() - 1]);
        }
    }
}

/// One more role at the end of a list adds one occurrence of that role and
/// none of any other.
pub proof fn lemma_occurrences_push(roles: Seq<Seq<char>>, last: Seq<char>, role: Seq<char>)
    ensures
        occurrences(roles.push(last), role) == occurrences(roles, role) + if last == role {
            1nat
        } else {
            0nat
        },
        roles.push(last).contains(role) <==> roles.contains(role) || last == role,
{
    let longer = roles.push(last);
    assert(longer.drop_last() =~= roles);
    assert(longer.last() == last);
    if roles.contains(role) {
        let j = choose|j: int| 0 <= j < roles.len() && roles[j] == role;
        assert(longer[j] == role);
    }
    if last == role {
        assert(longer[roles.len() as int] == role);
    }
    if longer.contains(role) && last != role {
        let j = choose|j: int| 0 <= j < longer.len() && longer[j] == role;
        assert(roles[j] == role);
    }
}

/// A vote adds to each count of its kind the number of times that the role
/// is listed, and nothing to the counts of another kind.
pub proof fn lemma_with_vote_tally(
    p: ProposalView,
    voter: Seq<char>,
    roles: Seq<Seq<char>>,
    vote: Vote,
    height: BlockHeight,
    role: Seq<char>,
    kind: Vote,
)
    ensures
        p.with_vote(voter, roles, vote, height).tally(role).get(kind) == p.tally(role).get(kind)
            + if kind == vote {
            occurrences(roles, role)
        } else {
            0nat
        },
{
    lemma_occurrences_absent(roles, role);
}

/// A vote under no role changes no count.
pub proof fn lemma_with_vote_none(
    p: ProposalView,
    voter: Seq<char>,
    vote: Vote,
    height: BlockHeight,
)
    ensures
        p.with_vote(voter, Seq::empty(), vote, height).vote_counts == p.vote_counts,
{
    let q = p.with_vote(voter, Seq::empty(), vote, height);
    assert forall|role: Seq<char>| #[trigger] q.vote_counts.contains_key(role) implies q.vote_counts[role]
        == p.vote_counts[role] by {
        assert(p.tally(role).plus(vote, 0) == p.tally(role));
    }
    assert(q.vote_counts =~= p.vote_counts);
}

/// A vote under one more role counts once more under that role.
pub proof fn lemma_with_vote_one_more(
    p: ProposalView,
    voter: Seq<char>,
    roles: Seq<Seq<char>>,
    role: Seq<char>,
    vote: Vote,
    height: BlockHeight,
)
    ensures
        p.with_vote(voter, roles.push(role), vote, height).vote_counts == counted(
            p.with_vote(voter, roles, vote, height).vote_counts,
            role,
            vote,
        ),
{
    let shorter = p.with_vote(voter, roles, vote, height).vote_counts;
    let longer = p.with_vote(voter, roles.push(role), vote, height).vote_counts;
    assert forall|r: Seq<char>| longer.contains_key(r) == #[trigger] counted(
        shorter,
        role,
        vote,
    ).contains_key(r) by {
        lemma_occurrences_push(roles, role, r);
    }
    assert forall|r: Seq<char>| #[trigger] longer.contains_key(r) implies longer[r] == counted(
        shorter,
        role,
        vote,
    )[r] by {
        lemma_occurrences_push(roles, role, r);
        lemma_occurrences_absent(roles, role);
    }
    assert(longer =~= counted(shorter, role, vote));
}

/// In a well-formed record with no more votes than fit in memory, a count
/// has room for one more vote after any list of roles that fits in memory.
pub proof fn lemma_count_in_range(
    p: ProposalView,
    voter: Seq<char>,
    roles: Seq<Seq<char>>,
    role: Seq<char>,
    vote: Vote,
    height: BlockHeight,
)
    requires
        p.wf(),
        p.votes.dom().len() <= usize::MAX,
        roles.len() < usize::MAX,
    ensures
        tally_in(p.with_vote(voter, roles, vote, height).vote_counts, role).get(vote) < u128::MAX,
{
    let cast = p.votes.dom().len() as int;
    let most = usize::MAX as int;
    lemma_occurrences_bounded(roles, role);
    lemma_with_vote_tally(p, voter, roles, vote, height, role, vote);
    assert(0 <= cast * most <= most * most) by (nonlinear_arith)
        requires
            0 <= cast <= most,
    ;
    assert(most * most + most < u128::MAX) by (nonlinear_arith)
        requires
            0 <= most <= 0xffff_ffff_ffff_ffff,
    ;
    assert(p.tally(role).within(cast * most));
}

/// A vote by an account that has not voted keeps a well-formed record
/// well-formed, whatever roles it counts under.
pub proof fn lemma_with_vote_wf(
    p: ProposalView,
    voter: Seq<char>,
    roles: Seq<Seq<char>>,
    vote: Vote,
    height: BlockHeight,
)
    requires
        p.wf(),
        !p.votes.contains_key(voter),
        roles.len() <= usize::MAX,
    ensures
        p.with_vote(voter, roles, vote, height).wf(),
        p.with_vote(voter, roles, vote, height).votes.dom().len() == p.votes.dom().len() + 1,
{
    let q = p.with_vote(voter, roles, vote, height);
    let cast = p.votes.dom().len() as int;
    let most = usize::MAX as int;
    assert(q.votes.dom() =~= p.votes.dom().insert(voter));
    assert((cast + 1) * most == cast * most + most) by (nonlinear_arith);
    assert forall|role: Seq<char>| #[trigger] q.vote_counts.contains_key(role) implies q.vote_counts[role].within(
        (cast + 1) * most,
    ) by {
        lemma_occurrences_bounded(roles, role);
        assert(p.tally(role).within(cast * most)) by {
            assert(0 <= cast * most) by (nonlinear_arith)
                requires
                    0 <= cast,
                    0 <= most,
            ;
        }
    }
}

impl Proposal {
    /// A proposal as it is when submitted: in progress, with no vote cast.
    pub fn new(input: ProposalInput, proposer: AccountId, submission_time: u64) -> (p: Proposal)
        ensures
            p@ == ProposalView::fresh(proposer@, input.description@, input.kind@, submission_time),
            p@.wf(),
    {
        let p = Proposal {
            proposer,
            description: input.description,
            kind: input.kind,
            status: ProposalStatus::InProgress,
            vote_counts: StringMap::new(),
            votes: StringMap::new(),
            threshold_block: None,
            submission_time,
        };
        assert(p@.vote_counts =~= Map::empty());
        p
    }

    /// Whether the record can take another vote without a count leaving its
    /// range. Every record that this library hands out can.
    pub fn well_formed(&self) -> (ok: bool)
        ensures
            ok == self@.wf(),
    {
        let cast: usize = self.votes.len();
        let most: usize = usize::MAX;
        assert(cast * most <= u128::MAX) by (nonlinear_arith)
            requires
                0 <= cast <= 0xffff_ffff_ffff_ffff,
                0 <= most <= 0xffff_ffff_ffff_ffff,
        ;
        let limit: u128 = (cast as u128) * (most as u128);
        let n: usize = self.vote_counts.len();
        let ghost roles = self.vote_counts.key_seq();
        proof {
            self.vote_counts.lemma_keys();
        }
        let mut i: usize = 0;
        while i < n
            invariant
                i <= n,
                n == roles.len(),
                roles == self.vote_counts.key_seq(),
                limit == self@.votes.dom().len() * usize::MAX,
                forall|j: int| 0 <= j < i ==> self@.vote_counts[#[trigger] roles[j]].within(limit as int),
            decreases n - i,
        {
            match self.vote_counts.entry(i) {
                Some((role, counts)) => {
                    assert(self@.vote_counts.contains_key(role@));
                    assert(self@.vote_counts[role@] == tally_of(*counts));
                    if counts[0] > limit || counts[1] > limit || counts[2] > limit {
                        return false;
                    }
                },
                None => {},
            }
            i += 1;
        }
        proof {
            assert forall|role: Seq<char>| #[trigger]
                self@.vote_counts.contains_key(role) implies self@.vote_counts[role].within(
                limit as int,
            ) by {
                assert(roles.contains(role));
                let j = choose|j: int| 0 <= j < roles.len() && roles[j] == role;
                assert(self@.vote_counts[roles[j]].within(limit as int));
            }
        }
        true
    }

    /// Adds vote of the given user. If user already voted, fails and leaves
    /// the record as it was.
    ///
    /// Each entry of `roles` counts one vote for its role: with a role listed
    /// twice, the role counts two.
    pub fn update_votes(
        &mut self,
        account_id: &AccountId,
        roles: &[VoterRole],
        vote: Vote,
        block_height: BlockHeight,
    ) -> (res: Result<(), ProposalError>)
        requires
            old(self)@.wf(),
        ensures
            final(self)@.wf(),
            match res {
                Ok(()) => !old(self)@.votes.contains_key(account_id@) && final(self)@ == old(
                    self,
                )@.with_vote(account_id@, role_names(roles@), vote, block_height),
                Err(e) => e == ProposalError::AlreadyVoted && old(self)@.votes.contains_key(
                    account_id@,
                ) && final(self)@ == old(self)@,
            },
    {
        if self.votes.contains_key(account_id) {
            return Err(ProposalError::AlreadyVoted);
        }
        let cast: usize = self.votes.len();
        let ghost start = self@;
        let ghost names = role_names(roles@);
        proof {
            lemma_with_vote_none(start, account_id@, vote, block_height);
            assert(names.take(0) =~= Seq::empty());
        }
        let mut i: usize = 0;
        while i < roles.len()
            invariant
                i <= roles@.len(),
                names == role_names(roles@),
                start.wf(),
                cast == start.votes.dom().len(),
                self@ == (ProposalView {
                    vote_counts: start.with_vote(
                        account_id@,
                        names.take(i as int),
                        vote,
                        block_height,
                    ).vote_counts,
                    ..start
                }),
            decreases roles@.len() - i,
        {
            let role = &roles[i];
            let amount = vote_weight(role.token_weighted);
            proof {
                let seen = names.take(i as int);
                assert(names.take(i + 1) =~= seen.push(role.name@));
                lemma_with_vote_one_more(start, account_id@, seen, role.name@, vote, block_height);
                lemma_count_in_range(start, account_id@, seen, role.name@, vote, block_height);
            }
            count_vote(&mut self.vote_counts, &role.name, vote, amount);
            i += 1;
        }
        self.votes.insert(account_id.clone(), VoteWithTimestamp { vote, blocknumber: block_height });
        proof {
            assert(names.take(i as int) =~= names);
            lemma_with_vote_wf(start, account_id@, names, vote, block_height);
        }
        Ok(())
    }
}

/// Counts `amount`, which is one, more for a kind of vote under a role.
fn count_vote(counts: &mut StringMap<[Balance; 3]>, role: &String, vote: Vote, amount: Balance)
    requires
        amount == 1,
        tally_in(tallies(old(counts)@), role@).get(vote) < u128::MAX,
    ensures
        tallies(final(counts)@) == counted(tallies(old(counts)@), role@, vote),
{
    let mut entry: [Balance; 3] = match counts.get(role) {
        Some(c) => *c,
        None => [0u128;3],
    };
    let k = vote.index();
    assert(tally_of(entry) == tally_in(tallies(counts@), role@));
    entry[k] = entry[k] + amount;
    counts.insert(role.clone(), entry);
    assert(tallies(counts@) =~= counted(tallies(old(counts)@), role@, vote));
}

} // verus!
