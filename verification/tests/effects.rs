use dao_proposals::contract::Contract;
use dao_proposals::effects::{convert_old_to_new_token, Dispatch, Effect};
use dao_proposals::proposals::{
    ActionCall, PolicyParameters, Proposal, ProposalInput, ProposalKind,
};
use dao_proposals::types::{Payload, VersionedPolicy};

fn proposal(description: &str, kind: ProposalKind) -> Proposal {
    Proposal::new(
        ProposalInput { description: description.to_string(), kind },
        "proposer.near".to_string(),
        0,
    )
}

fn s(t: &str) -> String {
    t.to_string()
}

#[test]
fn empty_token_is_the_native_asset() {
    assert_eq!(convert_old_to_new_token(&String::new()), None);
    assert_eq!(convert_old_to_new_token(&s("usdc.near")), Some(s("usdc.near")));
}

#[test]
fn native_payout_is_one_plain_transfer() {
    let effect = Contract::internal_payout(&None, &s("bob.near"), 500, s("memo"), None);
    assert_eq!(effect, Effect::Transfer { receiver_id: s("bob.near"), amount: 500 });
    assert!(effect.is_promise());
}

#[test]
fn native_payout_ignores_a_message() {
    let effect = Contract::internal_payout(&None, &s("bob.near"), 500, s("memo"), Some(s("m")));
    assert_eq!(effect, Effect::Transfer { receiver_id: s("bob.near"), amount: 500 });
}

#[test]
fn token_payout_with_message() {
    let effect = Contract::internal_payout(&Some(s("t.near")), &s("bob.near"), 7, s("why"), Some(s("m")));
    assert_eq!(
        effect,
        Effect::FtTransferCall {
            token_id: s("t.near"),
            receiver_id: s("bob.near"),
            amount: 7,
            memo: s("why"),
            msg: s("m"),
        }
    );
}

#[test]
fn token_payout_without_message() {
    let effect = Contract::internal_payout(&Some(s("t.near")), &s("bob.near"), 7, s("why"), None);
    assert_eq!(
        effect,
        Effect::FtTransfer {
            token_id: s("t.near"),
            receiver_id: s("bob.near"),
            amount: 7,
            memo: s("why"),
        }
    );
}

#[test]
fn transfer_proposal_of_native_asset() {
    let p = proposal(
        "pay bob",
        ProposalKind::Transfer {
            token_id: s(""),
            receiver_id: s("bob.near"),
            amount: 500,
            msg: None,
        },
    );
    assert_eq!(
        Contract::internal_execute_proposal(&p, 3),
        Dispatch {
            effect: Effect::Transfer { receiver_id: s("bob.near"), amount: 500 },
            callback: Some(3),
        }
    );
}

#[test]
fn transfer_proposal_of_token_with_message() {
    let p = proposal(
        "pay bob",
        ProposalKind::Transfer {
            token_id: s("t.near"),
            receiver_id: s("bob.near"),
            amount: 9,
            msg: Some(s("m")),
        },
    );
    assert_eq!(
        Contract::internal_execute_proposal(&p, 1),
        Dispatch {
            effect: Effect::FtTransferCall {
                token_id: s("t.near"),
                receiver_id: s("bob.near"),
                amount: 9,
                memo: s("pay bob"),
                msg: s("m"),
            },
            callback: Some(1),
        }
    );
}

#[test]
fn transfer_proposal_of_token_without_message() {
    let p = proposal(
        "pay bob",
        ProposalKind::Transfer {
            token_id: s("t.near"),
            receiver_id: s("bob.near"),
            amount: 9,
            msg: None,
        },
    );
    assert_eq!(
        Contract::internal_execute_proposal(&p, 1),
        Dispatch {
            effect: Effect::FtTransfer {
                token_id: s("t.near"),
                receiver_id: s("bob.near"),
                amount: 9,
                memo: s("pay bob"),
            },
            callback: Some(1),
        }
    );
}

#[test]
fn function_call_proposal_keeps_the_order_of_calls() {
    let calls = || {
        vec![
            ActionCall { method_name: s("one"), args: vec![1, 2, 3], deposit: 5, gas: 11 },
            ActionCall { method_name: s("two"), args: vec![], deposit: 0, gas: 22 },
        ]
    };
    let p = proposal("call", ProposalKind::FunctionCall { receiver_id: s("x.near"), actions: calls() });
    assert_eq!(
        Contract::internal_execute_proposal(&p, 8),
        Dispatch {
            effect: Effect::FunctionCall { receiver_id: s("x.near"), actions: calls() },
            callback: Some(8),
        }
    );
}

#[test]
fn function_call_proposal_without_calls_is_still_pending() {
    let p = proposal("call", ProposalKind::FunctionCall { receiver_id: s("x.near"), actions: vec![] });
    assert_eq!(
        Contract::internal_execute_proposal(&p, 2),
        Dispatch {
            effect: Effect::FunctionCall { receiver_id: s("x.near"), actions: vec![] },
            callback: Some(2),
        }
    );
}

#[test]
fn vote_proposal_has_no_effect() {
    let p = proposal("ping", ProposalKind::Vote);
    assert_eq!(Contract::internal_execute_proposal(&p, 0), Dispatch { effect: Effect::Nothing, callback: None });
}

#[test]
fn suggestion_proposal_emits_its_text() {
    let p = proposal("d", ProposalKind::Suggestion { suggestion: s("more tea") });
    assert_eq!(
        Contract::internal_execute_proposal(&p, 0),
        Dispatch { effect: Effect::Log { text: s("more tea") }, callback: None }
    );
}

#[test]
fn local_kinds_resolve_at_once() {
    let bytes = |b: u8| Payload { bytes: vec![b, b] };
    let hash = [7u8; 32];
    let cases = vec![
        (
            ProposalKind::ChangeConfig { config: bytes(1) },
            Effect::ChangeConfig { config: bytes(1) },
        ),
        (
            ProposalKind::ChangePolicy { policy: VersionedPolicy::Current(bytes(2)) },
            Effect::ChangePolicy { policy: VersionedPolicy::Current(bytes(2)) },
        ),
        (
            ProposalKind::AddMemberToRole { member_id: s("a"), role: s("r") },
            Effect::AddMemberToRole { member_id: s("a"), role: s("r") },
        ),
        (
            ProposalKind::RemoveMemberFromRole { member_id: s("b"), role: s("q") },
            Effect::RemoveMemberFromRole { member_id: s("b"), role: s("q") },
        ),
        (ProposalKind::UpgradeSelf { hash }, Effect::UpgradeSelf { hash }),
        (
            ProposalKind::UpgradeRemote { receiver_id: s("x"), method_name: s("m"), hash },
            Effect::UpgradeRemote { receiver_id: s("x"), method_name: s("m"), hash },
        ),
        (
            ProposalKind::ChangePolicyAddOrUpdateRole { role: bytes(3) },
            Effect::AddOrUpdateRole { role: bytes(3) },
        ),
        (
            ProposalKind::ChangePolicyRemoveRole { role: s("r") },
            Effect::RemoveRole { role: s("r") },
        ),
        (
            ProposalKind::ChangePolicyUpdateDefaultVotePolicy { vote_policy: bytes(4) },
            Effect::UpdateDefaultVotePolicy { vote_policy: bytes(4) },
        ),
        (
            ProposalKind::ChangePolicyUpdateParameters {
                parameters: PolicyParameters { proposal_period: None },
            },
            Effect::UpdateParameters { parameters: PolicyParameters { proposal_period: None } },
        ),
    ];
    for (kind, effect) in cases {
        let p = proposal("d", kind);
        assert_eq!(Contract::internal_execute_proposal(&p, 4), Dispatch { effect, callback: None });
    }
}
