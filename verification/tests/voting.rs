//! Vote collection, tallying and execution.

use interchain_gov::error::InterchainGovError;
use interchain_gov::gov::InterchainGov;
use interchain_gov::state::{
    BlockInfo, Expiration, Governance, Members, Proposal, ProposalAction, ProposalMsg, Vote,
};
use interchain_gov::sync_state::SyncStateError;

fn s(x: &str) -> String {
    x.to_string()
}

fn members(names: &[&str]) -> Members {
    Members { members: names.iter().map(|n| n.to_string()).collect() }
}

fn node(chain: &str, group: &[&str]) -> InterchainGov {
    let mut g = InterchainGov::new(s(chain), members(&[]));
    g.test_add_members(members(group)).unwrap();
    g
}

fn open_block() -> BlockInfo {
    BlockInfo { height: 50, time: 0 }
}

fn closed_block() -> BlockInfo {
    BlockInfo { height: 150, time: 0 }
}

/// Put a committed proposal (expiring at height 100) into the node via
/// the receiver path, and return its identifier.
fn committed_proposal(g: &mut InterchainGov, title: &str) -> String {
    let msg = ProposalMsg {
        title: s(title),
        description: s("a proposal under vote"),
        min_voting_period: None,
        expiration: Expiration::AtHeight(100),
        action: ProposalAction::Signal,
    };
    let id = msg.hash();
    let self_chain = g.members_state.self_chain.clone();
    let prop = Proposal::new(msg, s("proposer"), s("origin"));
    g.receive_propose_proposal(id.clone(), prop, self_chain).unwrap();
    g.receive_finalize_proposal(id.clone()).unwrap();
    id
}

#[test]
fn vote_records_and_updates_record() {
    let mut a = node("a", &["a", "b"]);
    let id = committed_proposal(&mut a, "voted");
    a.do_vote(id.clone(), Vote::Yes, Governance::Manual {}, &open_block()).unwrap();
    assert_eq!(a.proposal_state.load(&id).unwrap().vote, Vote::Yes);
    let resp = a.query_vote(id.clone()).unwrap();
    assert_eq!(resp.vote, Vote::Yes);
    assert_eq!(resp.chain, s("a"));
}

#[test]
fn vote_rejects_expired() {
    let mut a = node("a", &["a", "b"]);
    let id = committed_proposal(&mut a, "late");
    match a.do_vote(id.clone(), Vote::Yes, Governance::Manual {}, &closed_block()) {
        Err(InterchainGovError::ProposalExpired(p)) => assert_eq!(p, id),
        other => panic!("expected an expiration rejection, got {:?}", other),
    }
    assert!(a.query_vote(id).is_err());
}

#[test]
fn vote_requires_known_finalized_proposal() {
    let mut a = node("a", &["a", "b"]);
    match a.do_vote(s("missing"), Vote::Yes, Governance::Manual {}, &open_block()) {
        Err(InterchainGovError::ProposalNotFound(p)) => assert_eq!(p, s("missing")),
        other => panic!("expected a not-found rejection, got {:?}", other),
    }
    // A proposal still in the overlay is not finalized.
    let msg = ProposalMsg {
        title: s("pending"),
        description: s("still pending"),
        min_voting_period: None,
        expiration: Expiration::AtHeight(100),
        action: ProposalAction::Signal,
    };
    let id = msg.hash();
    let prop = Proposal::new(msg, s("proposer"), s("origin"));
    a.receive_propose_proposal(id.clone(), prop, s("a")).unwrap();
    match a.do_vote(id, Vote::Yes, Governance::Manual {}, &open_block()) {
        Err(InterchainGovError::SyncState(SyncStateError::DataNotFinalized)) => {}
        other => panic!("expected a not-finalized rejection, got {:?}", other),
    }
}

#[test]
fn request_vote_results_repeated() {
    // Scenario: a second request on a still-pending proposal reports the
    // pending state instead of issuing duplicate queries.
    let mut a = node("a", &["a", "b"]);
    let id = committed_proposal(&mut a, "pending votes");
    let queries = a.request_vote_results(id.clone(), &closed_block()).unwrap();
    assert_eq!(queries.len(), 1);
    assert_eq!(queries[0].host, s("b"));
    assert_eq!(queries[0].prop_id, id);
    match a.request_vote_results(id.clone(), &closed_block()) {
        Err(InterchainGovError::VotesStillPending(p)) => assert_eq!(p, id),
        other => panic!("expected a still-pending rejection, got {:?}", other),
    }
    // Still exactly one pending entry for B.
    let results = a.query_vote_results(id).results;
    assert_eq!(results.len(), 1);
    assert_eq!(results[0].chain, s("b"));
    assert!(results[0].vote.is_none());
}

#[test]
fn request_vote_results_requires_expiration() {
    let mut a = node("a", &["a", "b"]);
    let id = committed_proposal(&mut a, "too early");
    match a.request_vote_results(id.clone(), &open_block()) {
        Err(InterchainGovError::ProposalStillOpen(p)) => assert_eq!(p, id),
        other => panic!("expected a still-open rejection, got {:?}", other),
    }
}

#[test]
fn unrequested_vote_rejected() {
    // Scenario: a vote result for a pair never requested changes nothing.
    let mut a = node("a", &["a", "b"]);
    let id = committed_proposal(&mut a, "unsolicited");
    match a.vote_result_callback(id.clone(), s("b"), Governance::Manual {}, Vote::Yes) {
        Err(InterchainGovError::UnrequestedVote { chain, prop_id }) => {
            assert_eq!(chain, s("b"));
            assert_eq!(prop_id, id);
        }
        other => panic!("expected an unrequested-vote rejection, got {:?}", other),
    }
    assert_eq!(a.query_vote_results(id.clone()).results.len(), 0);

    // Also rejected for a peer that is not among the requested ones.
    a.request_vote_results(id.clone(), &closed_block()).unwrap();
    match a.vote_result_callback(id.clone(), s("z"), Governance::Manual {}, Vote::Yes) {
        Err(InterchainGovError::UnrequestedVote { chain, .. }) => assert_eq!(chain, s("z")),
        other => panic!("expected an unrequested-vote rejection, got {:?}", other),
    }
    let results = a.query_vote_results(id).results;
    assert_eq!(results.len(), 1);
    assert!(results[0].vote.is_none());
}

#[test]
fn existing_vote_result_rejected() {
    let mut a = node("a", &["a", "b"]);
    let id = committed_proposal(&mut a, "reported twice");
    a.request_vote_results(id.clone(), &closed_block()).unwrap();
    a.vote_result_callback(id.clone(), s("b"), Governance::Manual {}, Vote::No).unwrap();
    match a.vote_result_callback(id.clone(), s("b"), Governance::Manual {}, Vote::Yes) {
        Err(InterchainGovError::ExistingVoteResult { chain, .. }) => assert_eq!(chain, s("b")),
        other => panic!("expected an existing-result rejection, got {:?}", other),
    }
    // The first answer stands.
    let results = a.query_vote_results(id).results;
    assert_eq!(results[0].vote.as_ref().unwrap().vote, Vote::No);
}

#[test]
fn vote_results_already_finalized() {
    let mut a = node("a", &["a", "b"]);
    let id = committed_proposal(&mut a, "all in");
    a.request_vote_results(id.clone(), &closed_block()).unwrap();
    a.vote_result_callback(id.clone(), s("b"), Governance::Manual {}, Vote::Yes).unwrap();
    match a.request_vote_results(id.clone(), &closed_block()) {
        Err(InterchainGovError::VotesAlreadyFinalized(p)) => assert_eq!(p, id),
        other => panic!("expected an already-finalized rejection, got {:?}", other),
    }
}

#[test]
fn tally_majority_passes() {
    // Three members; this node and one peer vote Yes, one peer votes No:
    // two for, one against passes.
    let mut a = node("a", &["a", "b", "c"]);
    let id = committed_proposal(&mut a, "majority");
    a.do_vote(id.clone(), Vote::Yes, Governance::Manual {}, &open_block()).unwrap();
    a.request_vote_results(id.clone(), &closed_block()).unwrap();
    a.vote_result_callback(id.clone(), s("b"), Governance::Manual {}, Vote::Yes).unwrap();
    a.vote_result_callback(id.clone(), s("c"), Governance::Manual {}, Vote::No).unwrap();
    let actions = a.execute_prop(id.clone()).unwrap();

    let stored = a.finalized_proposals.get(&id).unwrap();
    assert!(stored.outcome.passed);
    assert_eq!(stored.outcome.votes_for, 2);
    assert_eq!(stored.outcome.votes_against, 1);
    // The outcome is reported to both peers with fresh acknowledgments.
    assert_eq!(actions.len(), 2);
    assert_eq!(actions[0].host, s("b"));
    assert_eq!(actions[1].host, s("c"));
    assert!(a.proposal_state.has_outstanding_acks(&id));
}

#[test]
fn tally_tie_fails() {
    // Two members; one Yes (this node), one NoVote: a tie fails.
    let mut a = node("a", &["a", "b"]);
    let id = committed_proposal(&mut a, "tie");
    a.do_vote(id.clone(), Vote::Yes, Governance::Manual {}, &open_block()).unwrap();
    a.request_vote_results(id.clone(), &closed_block()).unwrap();
    a.vote_result_callback(id.clone(), s("b"), Governance::Manual {}, Vote::NoVote).unwrap();
    a.execute_prop(id.clone()).unwrap();
    let stored = a.finalized_proposals.get(&id).unwrap();
    assert!(!stored.outcome.passed);
    assert_eq!(stored.outcome.votes_for, 1);
    assert_eq!(stored.outcome.votes_against, 1);
}

#[test]
fn tally_counts_ratio_as_against() {
    // Only a plain Yes counts for the proposal; a ratio vote counts
    // against it like No and NoVote do.
    let mut a = node("a", &["a", "b", "c"]);
    let id = committed_proposal(&mut a, "ratio");
    a.do_vote(id.clone(), Vote::Yes, Governance::Manual {}, &open_block()).unwrap();
    a.request_vote_results(id.clone(), &closed_block()).unwrap();
    a.vote_result_callback(id.clone(), s("b"), Governance::Manual {}, Vote::Ratio(1, 2)).unwrap();
    a.vote_result_callback(id.clone(), s("c"), Governance::Manual {}, Vote::No).unwrap();
    a.execute_prop(id.clone()).unwrap();
    let stored = a.finalized_proposals.get(&id).unwrap();
    assert!(!stored.outcome.passed);
    assert_eq!(stored.outcome.votes_for, 1);
    assert_eq!(stored.outcome.votes_against, 2);
}

#[test]
fn vote_constructors() {
    assert_eq!(Vote::new(true), Vote::Yes);
    assert_eq!(Vote::new(false), Vote::No);
    let gv = interchain_gov::state::GovernanceVote::new(
        Governance::Native { proposal_id: 9 },
        Vote::Yes,
    );
    assert_eq!(gv.vote, Vote::Yes);
    assert_eq!(gv.governance, Governance::Native { proposal_id: 9 });
}

#[test]
fn time_expiration_gates_votes() {
    let mut a = node("a", &["a", "b"]);
    let msg = ProposalMsg {
        title: s("timed"),
        description: s("expires by timestamp"),
        min_voting_period: None,
        expiration: Expiration::AtTime(1000),
        action: ProposalAction::Signal,
    };
    let id = msg.hash();
    let prop = Proposal::new(msg, s("proposer"), s("b"));
    a.receive_propose_proposal(id.clone(), prop, s("a")).unwrap();
    a.receive_finalize_proposal(id.clone()).unwrap();
    let before = BlockInfo { height: 0, time: 999 };
    let after = BlockInfo { height: 0, time: 1000 };
    a.do_vote(id.clone(), Vote::Yes, Governance::Manual {}, &before).unwrap();
    match a.do_vote(id.clone(), Vote::No, Governance::Manual {}, &after) {
        Err(InterchainGovError::ProposalExpired(_)) => {}
        other => panic!("expected an expiration rejection, got {:?}", other),
    }
}

#[test]
fn execute_requires_results() {
    let mut a = node("a", &["a", "b"]);
    let id = committed_proposal(&mut a, "premature");
    match a.execute_prop(id.clone()) {
        Err(InterchainGovError::MissingVoteResults(p)) => assert_eq!(p, id),
        other => panic!("expected a missing-results rejection, got {:?}", other),
    }
    a.do_vote(id.clone(), Vote::Yes, Governance::Manual {}, &open_block()).unwrap();
    a.request_vote_results(id.clone(), &closed_block()).unwrap();
    match a.execute_prop(id.clone()) {
        Err(InterchainGovError::VotesStillPending(p)) => assert_eq!(p, id),
        other => panic!("expected a still-pending rejection, got {:?}", other),
    }
}

#[test]
fn execute_requires_own_vote() {
    let mut a = node("a", &["a", "b"]);
    let id = committed_proposal(&mut a, "no self vote");
    a.request_vote_results(id.clone(), &closed_block()).unwrap();
    a.vote_result_callback(id.clone(), s("b"), Governance::Manual {}, Vote::Yes).unwrap();
    match a.execute_prop(id.clone()) {
        Err(InterchainGovError::VoteNotFound(p)) => assert_eq!(p, id),
        other => panic!("expected a vote-not-found rejection, got {:?}", other),
    }
}

#[test]
fn passed_member_update_replaces_members() {
    // A passed member-set change replaces the local member set.
    let mut a = node("a", &["a", "b"]);
    let msg = ProposalMsg {
        title: s("grow"),
        description: s("add chain c"),
        min_voting_period: None,
        expiration: Expiration::AtHeight(100),
        action: ProposalAction::UpdateMembers { members: members(&["a", "b", "c"]) },
    };
    let id = msg.hash();
    let prop = Proposal::new(msg, s("proposer"), s("b"));
    a.receive_propose_proposal(id.clone(), prop, s("a")).unwrap();
    a.receive_finalize_proposal(id.clone()).unwrap();
    a.do_vote(id.clone(), Vote::Yes, Governance::Manual {}, &open_block()).unwrap();
    a.request_vote_results(id.clone(), &closed_block()).unwrap();
    a.vote_result_callback(id.clone(), s("b"), Governance::Manual {}, Vote::Yes).unwrap();
    a.execute_prop(id.clone()).unwrap();
    assert_eq!(a.query_members().members.members, vec![s("a"), s("b"), s("c")]);
}

#[test]
fn excluding_member_update_leaves_group() {
    // A member-set change that excludes this node makes it leave the
    // group, keeping itself as the only member; a deliberate choice.
    let mut a = node("a", &["a", "b"]);
    let msg = ProposalMsg {
        title: s("shrink"),
        description: s("drop chain a"),
        min_voting_period: None,
        expiration: Expiration::AtHeight(100),
        action: ProposalAction::UpdateMembers { members: members(&["b", "c"]) },
    };
    let id = msg.hash();
    let prop = Proposal::new(msg, s("proposer"), s("b"));
    a.receive_propose_proposal(id.clone(), prop, s("a")).unwrap();
    a.receive_finalize_proposal(id.clone()).unwrap();
    a.receive_proposal_result(
        id.clone(),
        interchain_gov::state::ProposalOutcome { passed: true, votes_for: 2, votes_against: 0 },
    )
    .unwrap();
    assert_eq!(a.query_members().members.members, vec![s("a")]);
}
