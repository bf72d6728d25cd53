//! What holds of every history of the contract: the votes of a proposal are
//! the votes that were accepted for it, and its counts are the roles under
//! which they were cast.

use vstd::prelude::*;
use crate::contract::{act_step, add_step, callback_step, subject_of, EffectOutcome};
use crate::proposals::{
    lemma_occurrences_unique, lemma_with_vote_tally, occurrences, ProposalKindView,
    ProposalStatus, Vote,
};
use crate::store::StoreView;
use crate::types::{Action, BlockHeight, ProposalError};

verus! {

/// One call of an entry point, with all that it is given.
pub enum Step {
    /// A submission.
    Add {
        proposer: Seq<char>,
        description: Seq<char>,
        kind: ProposalKindView,
        submission_time: u64,
        allowed: bool,
    },
    /// An action on a stored proposal.
    Act {
        id: u64,
        action: Action,
        memo: Option<Seq<char>>,
        sender: Seq<char>,
        roles: Seq<Seq<char>>,
        allowed: bool,
        derived: ProposalStatus,
        height: BlockHeight,
    },
    /// The report of how an effect ended.
    Callback { id: u64, outcomes: Seq<EffectOutcome> },
}

/// The store after one call.
pub open spec fn step(c: StoreView, s: Step) -> StoreView {
    match s {
        Step::Add { proposer, description, kind, submission_time, allowed } => add_step(
            c,
            proposer,
            description,
            kind,
            submission_time,
            allowed,
        ).0,
        Step::Act { id, action, memo, sender, roles, allowed, derived, height } => act_step(
            c,
            id,
            action,
            memo,
            sender,
            roles,
            allowed,
            derived,
            height,
        ).0,
        Step::Callback { id, outcomes } => callback_step(c, id, outcomes).0,
    }
}

/// The store after a history of calls on a new contract.
pub open spec fn run(steps: Seq<Step>) -> StoreView
    decreases steps.len(),
{
    if steps.len() == 0 {
        StoreView { proposals: Map::empty(), last_proposal_id: 0 }
    } else {
        step(run(steps.drop_last()), steps.last())
    }
}

/// Whether each submission of the history finds an identifier left to give.
pub open spec fn admissible(steps: Seq<Step>) -> bool
    decreases steps.len(),
{
    steps.len() == 0 || (admissible(steps.drop_last()) && (steps.last() is Add ==> run(
        steps.drop_last(),
    ).last_proposal_id < u64::MAX))
}

/// Whether the call is a vote on proposal `id` that the store `c` accepts.
pub open spec fn accepts_vote(c: StoreView, s: Step, id: u64) -> bool {
    match s {
        Step::Act { id: target, action, memo, sender, roles, allowed, derived, height } => target
            == id && action.is_vote() && act_step(
            c,
            target,
            action,
            memo,
            sender,
            roles,
            allowed,
            derived,
            height,
        ).1 is Ok,
        _ => false,
    }
}

/// How many votes on proposal `id` the history has accepted.
pub open spec fn votes_accepted(steps: Seq<Step>, id: u64) -> nat
    decreases steps.len(),
{
    if steps.len() == 0 {
        0
    } else {
        votes_accepted(steps.drop_last(), id) + if accepts_vote(
            run(steps.drop_last()),
            steps.last(),
            id,
        ) {
            1nat
        } else {
            0nat
        }
    }
}

/// How often `role` is listed for the call, where it is a vote of kind
/// `vote`; zero for any other call.
pub open spec fn role_entries(s: Step, role: Seq<char>, vote: Vote) -> nat {
    match s {
        Step::Act { action, roles, .. } => if Vote::of_action(action) == vote {
            occurrences(roles, role)
        } else {
            0
        },
        _ => 0,
    }
}

/// Whether the call lists `role` and is a vote of kind `vote`.
pub open spec fn held_role(s: Step, role: Seq<char>, vote: Vote) -> bool {
    match s {
        Step::Act { action, roles, .. } => Vote::of_action(action) == vote && roles.contains(role),
        _ => false,
    }
}

/// Over the accepted votes of kind `vote` on proposal `id`: how often they
/// list `role`, taken together.
pub open spec fn entries_counted(steps: Seq<Step>, id: u64, role: Seq<char>, vote: Vote) -> nat
    decreases steps.len(),
{
    if steps.len() == 0 {
        0
    } else {
        entries_counted(steps.drop_last(), id, role, vote) + if accepts_vote(
            run(steps.drop_last()),
            steps.last(),
            id,
        ) {
            role_entries(steps.last(), role, vote)
        } else {
            0nat
        }
    }
}

/// How many accepted votes of kind `vote` on proposal `id` were cast by an
/// account holding `role`.
pub open spec fn holders_counted(steps: Seq<Step>, id: u64, role: Seq<char>, vote: Vote) -> nat
    decreases steps.len(),
{
    if steps.len() == 0 {
        0
    } else {
        holders_counted(steps.drop_last(), id, role, vote) + if accepts_vote(
            run(steps.drop_last()),
            steps.last(),
            id,
        ) && held_role(steps.last(), role, vote) {
            1nat
        } else {
            0nat
        }
    }
}

/// Whether no call of the history lists a role twice.
pub open spec fn roles_listed_once(steps: Seq<Step>) -> bool {
    forall|i: int|
        0 <= i < steps.len() ==> match #[trigger] steps[i] {
            Step::Act { roles, .. } => roles.no_duplicates(),
            _ => true,
        }
}

/// After any admissible history, every stored identifier has been given
/// out, and what is recorded of proposal `id` is what the history accepted.
proof fn lemma_history(steps: Seq<Step>, id: u64, role: Seq<char>, vote: Vote)
    requires
        admissible(steps),
    ensures
        forall|k: u64| #[trigger]
            run(steps).proposals.contains_key(k) ==> k < run(steps).last_proposal_id,
        id >= run(steps).last_proposal_id ==> votes_accepted(steps, id) == 0 && entries_counted(
            steps,
            id,
            role,
            vote,
        ) == 0,
        run(steps).proposals.contains_key(id) ==> {
            let p = run(steps).proposals[id];
            &&& p.votes.dom().finite()
            &&& p.votes.dom().len() == votes_accepted(steps, id)
            &&& p.tally(role).get(vote) == entries_counted(steps, id, role, vote)
        },
    decreases steps.len(),
{
    if steps.len() > 0 {
        let front = steps.drop_last();
        let s = steps.last();
        let c = run(front);
        let d = run(steps);
        lemma_history(front, id, role, vote);
        assert(d == step(c, s));
        match s {
            Step::Add { proposer, description, kind, submission_time, allowed } => {
                assert(!accepts_vote(c, s, id));
                if d.proposals.contains_key(id) && !c.proposals.contains_key(id) {
                    assert(id == c.last_proposal_id);
                    assert(d.proposals[id].votes.dom() =~= Set::empty());
                }
            },
            Step::Act { id: target, action, memo, sender, roles, allowed, derived, height } => {
                let subject = subject_of(c, target, action, sender, roles, allowed, height);
                if target == id && c.proposals.contains_key(id) {
                    let p = c.proposals[id];
                    if accepts_vote(c, s, id) {
                        assert(subject is Ok);
                        let q = subject->Ok_0;
                        assert(q.votes.dom() =~= p.votes.dom().insert(sender));
                        assert(!p.votes.dom().contains(sender));
                        lemma_with_vote_tally(
                            p,
                            sender,
                            roles,
                            Vote::of_action(action),
                            height,
                            role,
                            vote,
                        );
                        if d.proposals.contains_key(id) {
                            assert(d.proposals[id] == q.with_status(derived));
                        }
                    } else if d.proposals.contains_key(id) {
                        assert(d.proposals[id].votes == p.votes);
                        assert(d.proposals[id].vote_counts == p.vote_counts);
                    }
                } else if target != id {
                    assert(!accepts_vote(c, s, id));
                    assert(d.proposals.contains_key(id) == c.proposals.contains_key(id));
                } else {
                    assert(subject is Err);
                }
            },
            Step::Callback { id: target, outcomes } => {
                assert(!accepts_vote(c, s, id));
            },
        }
    }
}

/// The votes recorded for a stored proposal are as many as the votes that
/// were accepted for it, whatever else was attempted: a refused vote, a
/// second vote by the same account among them, leaves no trace.
pub proof fn law_votes_are_accepted_votes(steps: Seq<Step>, id: u64)
    requires
        admissible(steps),
        run(steps).proposals.contains_key(id),
    ensures
        run(steps).proposals[id].votes.dom().finite(),
        run(steps).proposals[id].votes.dom().len() == votes_accepted(steps, id),
{
    lemma_history(steps, id, Seq::empty(), Vote::Approve);
}

/// Each count of a stored proposal is the number of times that the accepted
/// votes of that kind list the role.
pub proof fn law_tally_counts_role_entries(steps: Seq<Step>, id: u64, role: Seq<char>, vote: Vote)
    requires
        admissible(steps),
        run(steps).proposals.contains_key(id),
    ensures
        run(steps).proposals[id].tally(role).get(vote) == entries_counted(steps, id, role, vote),
{
    lemma_history(steps, id, role, vote);
}

/// Where no call lists a role twice, the entries counted for a role are the
/// votes cast by accounts holding it.
proof fn lemma_entries_are_holders(steps: Seq<Step>, id: u64, role: Seq<char>, vote: Vote)
    requires
        roles_listed_once(steps),
    ensures
        entries_counted(steps, id, role, vote) == holders_counted(steps, id, role, vote),
    decreases steps.len(),
{
    if steps.len() > 0 {
        let front = steps.drop_last();
        assert forall|i: int| 0 <= i < front.len() implies match #[trigger] front[i] {
            Step::Act { roles, .. } => roles.no_duplicates(),
            _ => true,
        } by {
            assert(front[i] == steps[i]);
        }
        lemma_entries_are_holders(front, id, role, vote);
        let s = steps[steps.len() - 1];
        match s {
            Step::Act { roles, .. } => {
                lemma_occurrences_unique(roles, role);
            },
            _ => {},
        }
    }
}

/// With every vote weighing one and no role listed twice for a voter, each
/// count of a stored proposal is the number of accounts that cast that kind
/// of vote while holding the role.
pub proof fn law_tally_counts_holders(steps: Seq<Step>, id: u64, role: Seq<char>, vote: Vote)
    requires
        admissible(steps),
        roles_listed_once(steps),
        run(steps).proposals.contains_key(id),
    ensures
        run(steps).proposals[id].tally(role).get(vote) == holders_counted(steps, id, role, vote),
{
    lemma_history(steps, id, role, vote);
    lemma_entries_are_holders(steps, id, role, vote);
}

/// A vote by an account that has already voted on the proposal is refused
/// and changes nothing. Where the caller is permitted and the proposal is
/// still in progress, the reason given is that the account has voted.
pub proof fn law_double_vote_refused(
    c: StoreView,
    id: u64,
    action: Action,
    memo: Option<Seq<char>>,
    sender: Seq<char>,
    roles: Seq<Seq<char>>,
    allowed: bool,
    derived: ProposalStatus,
    height: BlockHeight,
)
    requires
        action.is_vote(),
        c.proposals.contains_key(id),
        c.proposals[id].votes.contains_key(sender),
    ensures
        act_step(c, id, action, memo, sender, roles, allowed, derived, height).0 == c,
        act_step(c, id, action, memo, sender, roles, allowed, derived, height).1 is Err,
        allowed && c.proposals[id].status == ProposalStatus::InProgress ==> act_step(
            c,
            id,
            action,
            memo,
            sender,
            roles,
            allowed,
            derived,
            height,
        ).1 == Err::<crate::contract::ActOutcomeView, ProposalError>(ProposalError::AlreadyVoted),
{
}

/// An accepted vote that leaves the proposal stored enters the voter among
/// its votes, so that a second vote by the same account is refused.
pub proof fn law_vote_then_vote_again(
    c: StoreView,
    id: u64,
    action: Action,
    memo: Option<Seq<char>>,
    sender: Seq<char>,
    roles: Seq<Seq<char>>,
    allowed: bool,
    derived: ProposalStatus,
    height: BlockHeight,
    again: Action,
    derived_again: ProposalStatus,
    height_again: BlockHeight,
)
    requires
        action.is_vote(),
        again.is_vote(),
        act_step(c, id, action, memo, sender, roles, allowed, derived, height).1 is Ok,
        act_step(c, id, action, memo, sender, roles, allowed, derived, height).0.proposals.contains_key(
            id,
        ),
    ensures
        ({
            let voted = act_step(c, id, action, memo, sender, roles, allowed, derived, height).0;
            let second = act_step(
                voted,
                id,
                again,
                memo,
                sender,
                roles,
                allowed,
                derived_again,
                height_again,
            );
            &&& second.0 == voted
            &&& second.1 is Err
            &&& derived == ProposalStatus::InProgress ==> second.1 == Err::<
                crate::contract::ActOutcomeView,
                ProposalError,
            >(ProposalError::AlreadyVoted)
        }),
{
}

/// Finalizing a stored proposal for which the policy derives neither
/// approved nor expired, as it does within the voting period of a proposal
/// that has not failed, is refused as not eligible and changes nothing.
pub proof fn law_finalize_needs_approved_or_expired(
    c: StoreView,
    id: u64,
    memo: Option<Seq<char>>,
    sender: Seq<char>,
    roles: Seq<Seq<char>>,
    derived: ProposalStatus,
    height: BlockHeight,
)
    requires
        c.proposals.contains_key(id),
        derived != ProposalStatus::Approved,
        derived != ProposalStatus::Expired,
    ensures
        act_step(c, id, Action::Finalize, memo, sender, roles, true, derived, height) == (
            c,
            Err::<crate::contract::ActOutcomeView, ProposalError>(
                ProposalError::NotEligibleForFinalization,
            ),
        ),
{
}

/// Whether the store `c` refuses the call.
pub open spec fn refuses(c: StoreView, s: Step) -> bool {
    match s {
        Step::Add { proposer, description, kind, submission_time, allowed } => add_step(
            c,
            proposer,
            description,
            kind,
            submission_time,
            allowed,
        ).1 is Err,
        Step::Act { id, action, memo, sender, roles, allowed, derived, height } => act_step(
            c,
            id,
            action,
            memo,
            sender,
            roles,
            allowed,
            derived,
            height,
        ).1 is Err,
        Step::Callback { id, outcomes } => callback_step(c, id, outcomes).1 is Err,
    }
}

/// A refused call leaves the store as it was.
pub proof fn law_refused_call_changes_nothing(c: StoreView, s: Step)
    requires
        refuses(c, s),
    ensures
        step(c, s) == c,
{
}

/// How many submissions the history has accepted.
pub open spec fn submissions_accepted(steps: Seq<Step>) -> nat
    decreases steps.len(),
{
    if steps.len() == 0 {
        0
    } else {
        submissions_accepted(steps.drop_last()) + if steps.last() is Add && !refuses(
            run(steps.drop_last()),
            steps.last(),
        ) {
            1nat
        } else {
            0nat
        }
    }
}

/// The next identifier is the number of submissions accepted so far, and
/// every stored proposal is stored under an identifier below it.
pub proof fn law_identifiers_count_submissions(steps: Seq<Step>)
    requires
        admissible(steps),
    ensures
        run(steps).last_proposal_id == submissions_accepted(steps),
        forall|id: u64| #[trigger]
            run(steps).proposals.contains_key(id) ==> id < run(steps).last_proposal_id,
    decreases steps.len(),
{
    if steps.len() > 0 {
        law_identifiers_count_submissions(steps.drop_last());
        lemma_history(steps, 0, Seq::empty(), Vote::Approve);
    }
}

/// An identifier that has been given out and holds no proposal holds none
/// ever after: a proposal that was removed does not come back, and its
/// identifier goes to no other.
pub proof fn law_removed_stays_removed(steps: Seq<Step>, more: Seq<Step>, id: u64)
    requires
        admissible(steps + more),
        id < run(steps).last_proposal_id,
        !run(steps).proposals.contains_key(id),
    ensures
        admissible(steps),
        run(steps).last_proposal_id <= run(steps + more).last_proposal_id,
        !run(steps + more).proposals.contains_key(id),
    decreases more.len(),
{
    if more.len() == 0 {
        assert(steps + more =~= steps);
    } else {
        let all = steps + more;
        assert(all.drop_last() =~= steps + more.drop_last());
        assert(all.last() == more.last());
        law_removed_stays_removed(steps, more.drop_last(), id);
    }
}

} // verus!
