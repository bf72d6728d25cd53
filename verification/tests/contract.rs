use dao_proposals::contract::{ActOutcome, Contract, EffectOutcome};
use dao_proposals::effects::{Dispatch, Effect};
use dao_proposals::proposals::{
    ActionCall, ProposalInput, ProposalKind, ProposalStatus, Vote, VoteWithTimestamp,
};
use dao_proposals::store::ProposalStore;
use dao_proposals::types::{
    Action, Payload, Permission, ProposalError, UserInfo, VersionedPolicy, VoterRole,
};

fn s(t: &str) -> String {
    t.to_string()
}

fn allowed(roles: &[&str]) -> Permission {
    Permission {
        roles: roles.iter().map(|r| VoterRole { name: r.to_string(), token_weighted: false }).collect(),
        allowed: true,
    }
}

fn denied() -> Permission {
    Permission { roles: vec![], allowed: false }
}

fn input(description: &str, kind: ProposalKind) -> ProposalInput {
    ProposalInput { description: s(description), kind }
}

fn with_one(kind: ProposalKind) -> Contract {
    let mut c = Contract::new();
    assert_eq!(c.add_proposal(input("d", kind), s("proposer"), 1, &allowed(&[])), Ok(0));
    c
}

fn status(c: &Contract, id: u64) -> ProposalStatus {
    c.proposals.get(id).unwrap().status
}

fn quiet(memo: Option<String>) -> Result<ActOutcome, ProposalError> {
    Ok(ActOutcome { dispatch: None, memo })
}

#[test]
fn identifiers_count_up_from_zero() {
    let mut c = Contract::new();
    assert_eq!(c.proposals.get_last_proposal_id(), 0);
    assert_eq!(c.add_proposal(input("a", ProposalKind::Vote), s("x"), 1, &allowed(&[])), Ok(0));
    assert_eq!(c.add_proposal(input("b", ProposalKind::Vote), s("y"), 2, &allowed(&[])), Ok(1));
    assert_eq!(c.add_proposal(input("c", ProposalKind::Vote), s("z"), 3, &allowed(&[])), Ok(2));
    assert_eq!(c.proposals.get_last_proposal_id(), 3);
    let p = c.proposals.get(1).unwrap();
    assert_eq!(p.description, "b");
    assert_eq!(p.proposer, "y");
    assert_eq!(p.submission_time, 2);
    assert_eq!(p.status, ProposalStatus::InProgress);
}

#[test]
fn identifiers_are_not_given_out_again_after_removal() {
    let mut c = with_one(ProposalKind::Vote);
    assert_eq!(
        c.act_proposal(0, Action::RemoveProposal, None, &s("a"), &allowed(&[]), ProposalStatus::InProgress, 1),
        quiet(None)
    );
    assert_eq!(c.add_proposal(input("b", ProposalKind::Vote), s("y"), 2, &allowed(&[])), Ok(1));
    assert_eq!(c.proposals.get(0).err(), Some(ProposalError::NotFound));
    assert_eq!(c.proposals.get(1).unwrap().description, "b");
}

#[test]
fn add_refuses_policy_of_earlier_schema() {
    let mut c = Contract::new();
    let kind = ProposalKind::ChangePolicy {
        policy: VersionedPolicy::Default(Payload { bytes: vec![1] }),
    };
    assert_eq!(
        c.add_proposal(input("p", kind), s("x"), 1, &allowed(&[])),
        Err(ProposalError::InvalidPolicyPayload)
    );
    assert_eq!(c.proposals.get_last_proposal_id(), 0);
    assert!(c.proposals.get(0).is_err());
}

#[test]
fn add_accepts_policy_of_current_schema() {
    let mut c = Contract::new();
    let kind = ProposalKind::ChangePolicy {
        policy: VersionedPolicy::Current(Payload { bytes: vec![1] }),
    };
    assert_eq!(c.add_proposal(input("p", kind), s("x"), 1, &allowed(&[])), Ok(0));
}

#[test]
fn add_refuses_native_transfer_with_message() {
    let mut c = Contract::new();
    let kind = |msg: Option<String>| ProposalKind::Transfer {
        token_id: s(""),
        receiver_id: s("bob"),
        amount: 1,
        msg,
    };
    assert_eq!(
        c.add_proposal(input("p", kind(Some(s("hello")))), s("x"), 1, &allowed(&[])),
        Err(ProposalError::BaseTokenMessageNotAllowed)
    );
    assert_eq!(
        c.add_proposal(input("p", kind(Some(s("")))), s("x"), 1, &allowed(&[])),
        Err(ProposalError::BaseTokenMessageNotAllowed)
    );
    assert_eq!(c.proposals.get_last_proposal_id(), 0);
    assert_eq!(c.add_proposal(input("p", kind(None)), s("x"), 1, &allowed(&[])), Ok(0));
}

#[test]
fn add_accepts_token_transfer_with_message() {
    let mut c = Contract::new();
    let kind = ProposalKind::Transfer {
        token_id: s("t.near"),
        receiver_id: s("bob"),
        amount: 1,
        msg: Some(s("hello")),
    };
    assert_eq!(c.add_proposal(input("p", kind), s("x"), 1, &allowed(&[])), Ok(0));
}

#[test]
fn add_refuses_without_permission() {
    let mut c = Contract::new();
    assert_eq!(
        c.add_proposal(input("p", ProposalKind::Vote), s("x"), 1, &denied()),
        Err(ProposalError::PermissionDenied)
    );
    assert_eq!(c.proposals.get_last_proposal_id(), 0);
}

#[test]
fn add_reports_the_kind_before_the_permission() {
    let mut c = Contract::new();
    let kind = ProposalKind::ChangePolicy {
        policy: VersionedPolicy::Default(Payload { bytes: vec![] }),
    };
    assert_eq!(
        c.add_proposal(input("p", kind), s("x"), 1, &denied()),
        Err(ProposalError::InvalidPolicyPayload)
    );
}

#[test]
fn validate_kind_passes_other_kinds() {
    assert_eq!(Contract::validate_kind(&ProposalKind::Vote), Ok(()));
    assert_eq!(
        Contract::validate_kind(&ProposalKind::Suggestion { suggestion: s("x") }),
        Ok(())
    );
}

#[test]
fn user_info_has_stake_one() {
    assert_eq!(
        Contract::internal_user_info(s("alice.near")),
        UserInfo { account_id: s("alice.near"), stake: 1 }
    );
}

#[test]
fn act_on_unknown_proposal() {
    let mut c = Contract::new();
    for action in [
        Action::AddProposal,
        Action::RemoveProposal,
        Action::VoteApprove,
        Action::Finalize,
        Action::MoveToHub,
    ] {
        assert_eq!(
            c.act_proposal(5, action, None, &s("a"), &allowed(&[]), ProposalStatus::Approved, 1),
            Err(ProposalError::NotFound)
        );
    }
}

#[test]
fn unknown_proposal_is_reported_before_missing_permission() {
    let mut c = Contract::new();
    assert_eq!(
        c.act_proposal(0, Action::VoteApprove, None, &s("a"), &denied(), ProposalStatus::Approved, 1),
        Err(ProposalError::NotFound)
    );
}

#[test]
fn act_without_permission_changes_nothing() {
    let mut c = with_one(ProposalKind::Vote);
    for action in [
        Action::AddProposal,
        Action::RemoveProposal,
        Action::VoteApprove,
        Action::VoteReject,
        Action::VoteRemove,
        Action::Finalize,
        Action::MoveToHub,
    ] {
        assert_eq!(
            c.act_proposal(0, action, None, &s("a"), &denied(), ProposalStatus::Approved, 1),
            Err(ProposalError::PermissionDenied)
        );
    }
    let p = c.proposals.get(0).unwrap();
    assert_eq!(p.status, ProposalStatus::InProgress);
    assert_eq!(p.votes.len(), 0);
}

#[test]
fn add_action_is_the_wrong_action_here() {
    let mut c = with_one(ProposalKind::Vote);
    assert_eq!(
        c.act_proposal(0, Action::AddProposal, None, &s("a"), &allowed(&[]), ProposalStatus::Approved, 1),
        Err(ProposalError::WrongActionForEntryPoint)
    );
    assert_eq!(status(&c, 0), ProposalStatus::InProgress);
}

#[test]
fn vote_without_quorum_stays_in_progress() {
    let mut c = with_one(ProposalKind::Vote);
    assert_eq!(
        c.act_proposal(
            0,
            Action::VoteReject,
            Some(s("not yet")),
            &s("alice"),
            &allowed(&["council"]),
            ProposalStatus::InProgress,
            77
        ),
        quiet(Some(s("not yet")))
    );
    let p = c.proposals.get(0).unwrap();
    assert_eq!(p.status, ProposalStatus::InProgress);
    assert_eq!(p.vote_counts.get(&s("council")), Some(&[0, 1, 0]));
    assert_eq!(
        p.votes.get(&s("alice")),
        Some(&VoteWithTimestamp { vote: Vote::Reject, blocknumber: 77 })
    );
}

#[test]
fn vote_that_rejects() {
    let mut c = with_one(ProposalKind::FunctionCall { receiver_id: s("x"), actions: vec![] });
    assert_eq!(
        c.act_proposal(0, Action::VoteReject, None, &s("alice"), &allowed(&["council"]), ProposalStatus::Rejected, 1),
        quiet(None)
    );
    assert_eq!(status(&c, 0), ProposalStatus::Rejected);
    assert_eq!(c.proposals.get(0).unwrap().votes.len(), 1);
}

#[test]
fn vote_that_approves_a_transfer_dispatches_it() {
    let mut c = with_one(ProposalKind::Transfer {
        token_id: s(""),
        receiver_id: s("bob"),
        amount: 500,
        msg: None,
    });
    assert_eq!(
        c.act_proposal(0, Action::VoteApprove, None, &s("alice"), &allowed(&["council"]), ProposalStatus::Approved, 1),
        Ok(ActOutcome {
            dispatch: Some(Dispatch {
                effect: Effect::Transfer { receiver_id: s("bob"), amount: 500 },
                callback: Some(0),
            }),
            memo: None,
        })
    );
    assert_eq!(status(&c, 0), ProposalStatus::Approved);
}

#[test]
fn second_vote_by_same_account_is_refused() {
    let mut c = with_one(ProposalKind::Vote);
    let roles = allowed(&["council"]);
    assert_eq!(
        c.act_proposal(0, Action::VoteApprove, None, &s("alice"), &roles, ProposalStatus::InProgress, 1),
        quiet(None)
    );
    for action in [Action::VoteApprove, Action::VoteReject, Action::VoteRemove] {
        assert_eq!(
            c.act_proposal(0, action, None, &s("alice"), &roles, ProposalStatus::Approved, 2),
            Err(ProposalError::AlreadyVoted)
        );
    }
    let p = c.proposals.get(0).unwrap();
    assert_eq!(p.status, ProposalStatus::InProgress);
    assert_eq!(p.votes.len(), 1);
    assert_eq!(p.vote_counts.len(), 1);
    assert_eq!(p.vote_counts.get(&s("council")), Some(&[1, 0, 0]));
    assert_eq!(
        p.votes.get(&s("alice")),
        Some(&VoteWithTimestamp { vote: Vote::Approve, blocknumber: 1 })
    );
}

#[test]
fn vote_on_a_closed_proposal_is_refused() {
    let mut c = with_one(ProposalKind::Vote);
    assert_eq!(
        c.act_proposal(0, Action::VoteReject, None, &s("alice"), &allowed(&["council"]), ProposalStatus::Rejected, 1),
        quiet(None)
    );
    assert_eq!(
        c.act_proposal(0, Action::VoteApprove, None, &s("bob"), &allowed(&["council"]), ProposalStatus::Approved, 2),
        Err(ProposalError::NotOpenForVoting)
    );
    assert_eq!(
        c.act_proposal(0, Action::VoteApprove, None, &s("alice"), &allowed(&["council"]), ProposalStatus::Approved, 2),
        Err(ProposalError::NotOpenForVoting)
    );
    let p = c.proposals.get(0).unwrap();
    assert_eq!(p.status, ProposalStatus::Rejected);
    assert_eq!(p.votes.len(), 1);
}

#[test]
fn finalize_within_the_voting_period_is_refused() {
    let mut c = with_one(ProposalKind::Vote);
    for derived in [
        ProposalStatus::InProgress,
        ProposalStatus::Rejected,
        ProposalStatus::Removed,
        ProposalStatus::Moved,
        ProposalStatus::Failed,
    ] {
        assert_eq!(
            c.act_proposal(0, Action::Finalize, None, &s("alice"), &allowed(&[]), derived, 1),
            Err(ProposalError::NotEligibleForFinalization)
        );
        assert_eq!(status(&c, 0), ProposalStatus::InProgress);
    }
}

#[test]
fn finalize_an_expired_proposal() {
    let mut c = with_one(ProposalKind::Vote);
    assert_eq!(
        c.act_proposal(0, Action::Finalize, Some(s("late")), &s("alice"), &allowed(&[]), ProposalStatus::Expired, 1),
        quiet(Some(s("late")))
    );
    let p = c.proposals.get(0).unwrap();
    assert_eq!(p.status, ProposalStatus::Expired);
    assert_eq!(p.votes.len(), 0);
}

#[test]
fn finalize_a_failed_proposal_executes_it_again() {
    let calls = || vec![ActionCall { method_name: s("m"), args: vec![9], deposit: 1, gas: 2 }];
    let mut c = with_one(ProposalKind::FunctionCall { receiver_id: s("x"), actions: calls() });
    let pending = Ok(ActOutcome {
        dispatch: Some(Dispatch {
            effect: Effect::FunctionCall { receiver_id: s("x"), actions: calls() },
            callback: Some(0),
        }),
        memo: None,
    });
    assert_eq!(
        c.act_proposal(0, Action::VoteApprove, None, &s("alice"), &allowed(&["council"]), ProposalStatus::Approved, 1),
        pending
    );
    assert_eq!(c.on_proposal_callback(0, &[EffectOutcome::Failed]), Ok(()));
    assert_eq!(status(&c, 0), ProposalStatus::Failed);
    assert_eq!(
        c.act_proposal(0, Action::Finalize, None, &s("bob"), &allowed(&[]), ProposalStatus::Approved, 2),
        pending
    );
    let p = c.proposals.get(0).unwrap();
    assert_eq!(p.status, ProposalStatus::Approved);
    assert_eq!(p.votes.len(), 1);
}

#[test]
fn remove_action_deletes_whatever_the_status() {
    let mut c = with_one(ProposalKind::Vote);
    assert_eq!(
        c.act_proposal(0, Action::VoteApprove, None, &s("alice"), &allowed(&[]), ProposalStatus::Approved, 1),
        Ok(ActOutcome { dispatch: Some(Dispatch { effect: Effect::Nothing, callback: None }), memo: None })
    );
    assert_eq!(
        c.act_proposal(0, Action::RemoveProposal, Some(s("gone")), &s("bob"), &allowed(&[]), ProposalStatus::Approved, 2),
        quiet(Some(s("gone")))
    );
    assert_eq!(c.proposals.get(0).err(), Some(ProposalError::NotFound));
}

#[test]
fn move_to_hub_changes_nothing() {
    let mut c = with_one(ProposalKind::Vote);
    assert_eq!(
        c.act_proposal(0, Action::MoveToHub, None, &s("alice"), &allowed(&["council"]), ProposalStatus::Moved, 1),
        quiet(None)
    );
    let p = c.proposals.get(0).unwrap();
    assert_eq!(p.status, ProposalStatus::InProgress);
    assert_eq!(p.votes.len(), 0);
    assert_eq!(p.vote_counts.len(), 0);
}

#[test]
fn acting_on_one_proposal_leaves_the_others() {
    let mut c = Contract::new();
    assert_eq!(c.add_proposal(input("a", ProposalKind::Vote), s("x"), 1, &allowed(&[])), Ok(0));
    assert_eq!(c.add_proposal(input("b", ProposalKind::Vote), s("y"), 2, &allowed(&[])), Ok(1));
    assert_eq!(
        c.act_proposal(1, Action::VoteRemove, None, &s("alice"), &allowed(&["council"]), ProposalStatus::InProgress, 1),
        quiet(None)
    );
    assert_eq!(c.proposals.get(0).unwrap().votes.len(), 0);
    assert_eq!(c.proposals.get(1).unwrap().votes.len(), 1);
    assert_eq!(c.proposals.get(1).unwrap().vote_counts.get(&s("council")), Some(&[0, 0, 1]));
}

#[test]
fn proposal_for_status_shows_the_vote_and_keeps_the_store() {
    let c = with_one(ProposalKind::Vote);
    let subject = c
        .proposal_for_status(0, Action::VoteApprove, &s("alice"), &allowed(&["council"]), 9)
        .unwrap();
    assert_eq!(subject.status, ProposalStatus::InProgress);
    assert_eq!(subject.votes.len(), 1);
    assert_eq!(subject.vote_counts.get(&s("council")), Some(&[1, 0, 0]));
    assert_eq!(c.proposals.get(0).unwrap().votes.len(), 0);
    let stored = c
        .proposal_for_status(0, Action::Finalize, &s("alice"), &allowed(&["council"]), 9)
        .unwrap();
    assert_eq!(stored.votes.len(), 0);
}

#[test]
fn proposal_for_status_refuses_as_the_action_would() {
    let mut c = with_one(ProposalKind::Vote);
    let roles = allowed(&["council"]);
    let err = |c: &Contract, id: u64, action: Action, who: &str, perm: &Permission| {
        c.proposal_for_status(id, action, &s(who), perm, 1).err()
    };
    assert_eq!(err(&c, 3, Action::VoteApprove, "a", &roles), Some(ProposalError::NotFound));
    assert_eq!(err(&c, 0, Action::VoteApprove, "a", &denied()), Some(ProposalError::PermissionDenied));
    assert_eq!(
        err(&c, 0, Action::AddProposal, "a", &roles),
        Some(ProposalError::WrongActionForEntryPoint)
    );
    assert_eq!(
        c.act_proposal(0, Action::VoteApprove, None, &s("a"), &roles, ProposalStatus::InProgress, 1),
        quiet(None)
    );
    assert_eq!(err(&c, 0, Action::VoteReject, "a", &roles), Some(ProposalError::AlreadyVoted));
    assert_eq!(
        c.act_proposal(0, Action::VoteApprove, None, &s("b"), &roles, ProposalStatus::Rejected, 1),
        quiet(None)
    );
    assert_eq!(err(&c, 0, Action::VoteReject, "c", &roles), Some(ProposalError::NotOpenForVoting));
}

#[test]
fn callback_with_success_confirms_approval() {
    let mut c = with_one(ProposalKind::FunctionCall { receiver_id: s("x"), actions: vec![] });
    assert!(c
        .act_proposal(0, Action::VoteApprove, None, &s("alice"), &allowed(&[]), ProposalStatus::Approved, 1)
        .is_ok());
    assert_eq!(c.on_proposal_callback(0, &[EffectOutcome::Successful]), Ok(()));
    assert_eq!(status(&c, 0), ProposalStatus::Approved);
}

#[test]
fn callback_with_failure_marks_failed() {
    let mut c = with_one(ProposalKind::FunctionCall { receiver_id: s("x"), actions: vec![] });
    assert!(c
        .act_proposal(0, Action::VoteApprove, None, &s("alice"), &allowed(&[]), ProposalStatus::Approved, 1)
        .is_ok());
    assert_eq!(c.on_proposal_callback(0, &[EffectOutcome::Failed]), Ok(()));
    assert_eq!(status(&c, 0), ProposalStatus::Failed);
    assert_eq!(c.proposals.get(0).unwrap().votes.len(), 1);
}

#[test]
fn callback_needs_exactly_one_outcome() {
    let mut c = with_one(ProposalKind::Vote);
    assert_eq!(c.on_proposal_callback(0, &[]), Err(ProposalError::UnexpectedCallbackShape));
    assert_eq!(
        c.on_proposal_callback(0, &[EffectOutcome::Failed, EffectOutcome::Failed]),
        Err(ProposalError::UnexpectedCallbackShape)
    );
    assert_eq!(status(&c, 0), ProposalStatus::InProgress);
}

#[test]
fn callback_for_unknown_proposal() {
    let mut c = Contract::new();
    assert_eq!(
        c.on_proposal_callback(0, &[EffectOutcome::Successful]),
        Err(ProposalError::NotFound)
    );
    assert_eq!(c.on_proposal_callback(0, &[]), Err(ProposalError::NotFound));
}

#[test]
fn store_operations() {
    let mut store = ProposalStore::new();
    let make = |d: &str| {
        dao_proposals::proposals::Proposal::new(input(d, ProposalKind::Vote), s("x"), 0)
    };
    assert_eq!(store.create(make("a")), 0);
    assert_eq!(store.create(make("b")), 1);
    assert_eq!(store.get(1).unwrap().description, "b");
    assert_eq!(store.update(1, make("c")), Ok(()));
    assert_eq!(store.get(1).unwrap().description, "c");
    assert_eq!(store.update(9, make("z")), Err(ProposalError::NotFound));
    assert!(store.get(9).is_err());
    store.remove(0);
    store.remove(7);
    assert_eq!(store.get(0).err(), Some(ProposalError::NotFound));
    assert_eq!(store.update(0, make("again")), Err(ProposalError::NotFound));
    assert_eq!(store.create(make("d")), 2);
    assert_eq!(store.get_last_proposal_id(), 3);
}

#[test]
fn roles_for_status_are_all_roles_only_when_finalizing() {
    let all = || vec![s("council"), s("community"), s("all")];
    let mine = allowed(&["council"]);
    assert_eq!(Contract::roles_for_status(Action::Finalize, &mine, all()), all());
    for action in [
        Action::VoteApprove,
        Action::VoteReject,
        Action::VoteRemove,
        Action::RemoveProposal,
        Action::MoveToHub,
        Action::AddProposal,
    ] {
        assert_eq!(Contract::roles_for_status(action, &mine, all()), vec![s("council")]);
    }
}

#[test]
fn reload_takes_only_records_of_identifiers_given_out() {
    let make = |d: &str| {
        dao_proposals::proposals::Proposal::new(input(d, ProposalKind::Vote), s("x"), 0)
    };
    let mut store = ProposalStore::resume(5);
    assert_eq!(store.get_last_proposal_id(), 5);
    assert!(store.get(2).is_err());
    assert!(store.reload(2, make("two")));
    assert_eq!(store.get(2).unwrap().description, "two");
    assert!(!store.reload(5, make("five")));
    assert!(store.get(5).is_err());
    assert_eq!(store.create(make("next")), 5);
    assert_eq!(store.get_last_proposal_id(), 6);
}

#[test]
fn reload_refuses_counts_that_no_votes_account_for() {
    let mut p = dao_proposals::proposals::Proposal::new(input("d", ProposalKind::Vote), s("x"), 0);
    assert!(p.well_formed());
    p.vote_counts.insert(s("council"), [0, 1, 0]);
    assert!(!p.well_formed());
    let mut store = ProposalStore::resume(1);
    assert!(!store.reload(0, p));
    assert!(store.get(0).is_err());
}

#[test]
fn records_with_votes_are_well_formed() {
    let mut c = with_one(ProposalKind::Vote);
    assert!(c
        .act_proposal(0, Action::VoteReject, None, &s("a"), &allowed(&["r", "r", "q"]), ProposalStatus::InProgress, 1)
        .is_ok());
    let p = c.proposals.get(0).unwrap();
    assert_eq!(p.vote_counts.get(&s("r")), Some(&[0, 2, 0]));
    assert!(p.well_formed());
}
