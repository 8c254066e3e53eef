//! The proposal and membership lifecycle across peers.

use interchain_gov::data_state::DataState;
use interchain_gov::error::InterchainGovError;
use interchain_gov::gov::InterchainGov;
use interchain_gov::module_ibc::authorize_module;
use interchain_gov::msg::{InterchainGovIbcCallbackMsg, InterchainGovIbcMsg};
use interchain_gov::state::{Expiration, Members, ProposalAction, ProposalMsg, Vote};
use interchain_gov::sync_state::SyncStateError;

fn s(x: &str) -> String {
    x.to_string()
}

fn members(names: &[&str]) -> Members {
    Members { members: names.iter().map(|n| n.to_string()).collect() }
}

fn node(chain: &str, group: &[&str]) -> InterchainGov {
    let mut g = InterchainGov::new(s(chain), members(&[]));
    if !group.is_empty() {
        g.test_add_members(members(group)).unwrap();
    }
    g
}

fn signal_msg(title: &str) -> ProposalMsg {
    ProposalMsg {
        title: s(title),
        description: s("a signalling proposal"),
        min_voting_period: None,
        expiration: Expiration::AtHeight(100),
        action: ProposalAction::Signal,
    }
}

#[test]
fn single_peer_signal_commits_immediately() {
    // Scenario: a group of one member needs no acknowledgment round.
    let mut a = node("a", &[]);
    let (id, actions) = a.propose(signal_msg("solo"), s("alice")).unwrap();
    assert!(actions.is_empty());
    assert!(a.proposal_state.has(&id));
    assert_eq!(a.proposal_state.data_state(&id), None);
    let record = a.proposal_state.load(&id).unwrap();
    assert_eq!(record.vote, Vote::Yes);
    assert_eq!(record.proposal.title, s("solo"));
    assert_eq!(record.proposal.proposer, s("alice"));
    assert_eq!(record.proposal.proposer_chain, s("a"));
    assert_eq!(record.proposal.min_voting_period, None);
    assert_eq!(
        record.proposal.threshold,
        interchain_gov::state::Threshold::AbsolutePercentage { percent: 100 }
    );
}

#[test]
fn two_peer_propose_flow() {
    // Scenario: A proposes a member-set change to a two-peer group.
    let mut a = node("a", &["a", "b"]);
    let msg = ProposalMsg {
        title: s("grow"),
        description: s("add chain c"),
        min_voting_period: None,
        expiration: Expiration::AtHeight(100),
        action: ProposalAction::UpdateMembers { members: members(&["a", "b", "c"]) },
    };
    let (id, actions) = a.propose(msg, s("alice")).unwrap();

    // A holds the proposal as Initiated, awaiting exactly B.
    assert_eq!(a.proposal_state.data_state(&id), Some(DataState::Initiated));
    assert_eq!(a.proposal_state.outstanding_acks.get(&id).unwrap(), &vec![s("b")]);
    assert_eq!(actions.len(), 1);
    assert_eq!(actions[0].host, s("b"));

    // B receives the announcement and holds it as Proposed with NoVote.
    let mut b = node("b", &["a", "b"]);
    match &actions[0].msg {
        InterchainGovIbcMsg::ProposeProposal { prop_hash, prop, chain } => {
            assert_eq!(prop_hash, &id);
            assert_eq!(chain, &s("b"));
            b.receive_propose_proposal(prop_hash.clone(), prop.clone(), chain.clone()).unwrap();
        }
        other => panic!("expected a proposal announcement, got {:?}", other),
    }
    assert_eq!(b.proposal_state.data_state(&id), Some(DataState::Proposed));
    assert_eq!(b.proposal_state.load_status(&id, DataState::Proposed).is_some(), true);

    // B's acknowledgment empties A's outstanding set and readies A's copy.
    match &actions[0].callback {
        InterchainGovIbcCallbackMsg::ProposeProposal { prop_hash, proposed_to } => {
            a.proposal_callback(prop_hash, proposed_to).unwrap();
        }
        other => panic!("expected a proposal callback, got {:?}", other),
    }
    assert!(!a.proposal_state.has_outstanding_acks(&id));
    assert_eq!(a.proposal_state.data_state(&id), Some(DataState::Proposed));
}

#[test]
fn full_finalize_round() {
    let mut a = node("a", &["a", "b"]);
    let (id, actions) = a.propose(signal_msg("round"), s("alice")).unwrap();
    let mut b = node("b", &["a", "b"]);
    match &actions[0].msg {
        InterchainGovIbcMsg::ProposeProposal { prop_hash, prop, chain } => {
            b.receive_propose_proposal(prop_hash.clone(), prop.clone(), chain.clone()).unwrap();
        }
        other => panic!("unexpected message {:?}", other),
    }
    a.proposal_callback(&id, &s("b")).unwrap();

    // A broadcasts the finalization; B commits on receipt.
    let finalize_actions = a.finalize(id.clone()).unwrap();
    assert_eq!(finalize_actions.len(), 1);
    assert_eq!(finalize_actions[0].host, s("b"));
    match &finalize_actions[0].msg {
        InterchainGovIbcMsg::FinalizeProposal { prop_hash } => {
            b.receive_finalize_proposal(prop_hash.clone()).unwrap();
        }
        other => panic!("unexpected message {:?}", other),
    }
    assert!(b.proposal_state.has(&id));
    assert_eq!(b.proposal_state.data_state(&id), None);
    assert_eq!(b.proposal_state.load(&id).unwrap().vote, Vote::NoVote);

    // B's acknowledgment commits A's own copy.
    a.finalize_callback(&id, &s("b")).unwrap();
    assert!(a.proposal_state.has(&id));
    assert_eq!(a.proposal_state.data_state(&id), None);
    assert_eq!(a.proposal_state.load(&id).unwrap().vote, Vote::Yes);
}

#[test]
fn propose_rejects_duplicate() {
    let mut a = node("a", &["a", "b"]);
    let (id, _) = a.propose(signal_msg("dup"), s("alice")).unwrap();
    match a.propose(signal_msg("dup"), s("alice")) {
        Err(InterchainGovError::ProposalAlreadyExists(p)) => assert_eq!(p, id),
        other => panic!("expected a duplicate rejection, got {:?}", other),
    }
}

#[test]
fn receive_wrong_chain() {
    let mut b = node("b", &["a", "b"]);
    let msg = signal_msg("misrouted");
    let id = msg.hash();
    let prop = interchain_gov::state::Proposal::new(msg, s("alice"), s("a"));
    match b.receive_propose_proposal(id, prop, s("c")) {
        Err(InterchainGovError::WrongChain { expected, actual }) => {
            assert_eq!(expected, s("b"));
            assert_eq!(actual, s("c"));
        }
        other => panic!("expected a wrong-chain rejection, got {:?}", other),
    }
}

#[test]
fn finalize_requires_ready_state() {
    let mut a = node("a", &["a", "b"]);
    let (id, _) = a.propose(signal_msg("early"), s("alice")).unwrap();
    // Still Initiated: not ready to finalize.
    match a.finalize(id.clone()) {
        Err(InterchainGovError::InvalidProposalState { prop_id, .. }) => assert_eq!(prop_id, id),
        other => panic!("expected an invalid-state rejection, got {:?}", other),
    }
}

#[test]
fn join_group_flow() {
    // The sole member proposes a member-set change: it commits at once
    // and the new member is invited.
    let mut a = node("a", &[]);
    let msg = ProposalMsg {
        title: s("invite"),
        description: s("add chain b"),
        min_voting_period: None,
        expiration: Expiration::AtHeight(100),
        action: ProposalAction::UpdateMembers { members: members(&["a", "b"]) },
    };
    let (_, actions) = a.propose(msg, s("alice")).unwrap();
    assert_eq!(actions.len(), 1);
    assert_eq!(actions[0].host, s("b"));

    // B accepts the invitation when the group is whitelisted.
    let mut b = InterchainGov::new(s("b"), members(&["a", "b"]));
    match &actions[0].msg {
        InterchainGovIbcMsg::JoinGov { members: m } => {
            b.receive_join_gov(m.clone()).unwrap();
        }
        other => panic!("expected an invitation, got {:?}", other),
    }
    assert_eq!(b.query_members().members.members, vec![s("a"), s("b")]);

    // B's acknowledgment commits the pending member set on A.
    a.join_gov_callback(&s("b")).unwrap();
    assert_eq!(a.query_members().members.members, vec![s("a"), s("b")]);
}

#[test]
fn foreign_module_rejected() {
    // A peer message must come from this very module; anything else is
    // rejected before it is dispatched.
    assert!(authorize_module(&s("yournamespace:interchain-gov")).is_ok());
    match authorize_module(&s("intruder:module")) {
        Err(InterchainGovError::UnauthorizedIbcModule(m)) => {
            assert_eq!(m, s("intruder:module"));
        }
        other => panic!("expected a module rejection, got {:?}", other),
    }
}

#[test]
fn join_rejects_unauthorized() {
    let mut b = InterchainGov::new(s("b"), members(&["a", "b"]));
    match b.receive_join_gov(members(&["a", "x"])) {
        Err(InterchainGovError::UnauthorizedIbcMessage) => {}
        other => panic!("expected an authorization rejection, got {:?}", other),
    }
    assert_eq!(b.query_members().members.members, vec![s("b")]);
}

#[test]
fn propose_blocked_while_members_syncing() {
    // A member-set change in flight gates every new proposal.
    let mut a = node("a", &[]);
    let msg = ProposalMsg {
        title: s("invite"),
        description: s("add chain b"),
        min_voting_period: None,
        expiration: Expiration::AtHeight(100),
        action: ProposalAction::UpdateMembers { members: members(&["a", "b"]) },
    };
    a.propose(msg, s("alice")).unwrap();
    match a.propose(signal_msg("meanwhile"), s("alice")) {
        Err(InterchainGovError::SyncState(SyncStateError::DataNotFinalized)) => {}
        other => panic!("expected a members-not-finalized rejection, got {:?}", other),
    }
}

#[test]
fn three_peer_end_to_end() {
    // The whole round: propose, acknowledge, finalize, vote, collect
    // results, execute, and report the outcome, across three peers.
    let mut a = node("a", &["a", "b", "c"]);
    let mut b = node("b", &["a", "b", "c"]);
    let mut c = node("c", &["a", "b", "c"]);

    let (id, actions) = a.propose(signal_msg("everyone"), s("alice")).unwrap();
    assert_eq!(actions.len(), 2);
    for action in &actions {
        let receiver = if action.host == s("b") { &mut b } else { &mut c };
        match &action.msg {
            InterchainGovIbcMsg::ProposeProposal { prop_hash, prop, chain } => {
                receiver
                    .receive_propose_proposal(prop_hash.clone(), prop.clone(), chain.clone())
                    .unwrap();
            }
            other => panic!("unexpected message {:?}", other),
        }
        a.proposal_callback(&id, &action.host).unwrap();
    }
    assert_eq!(a.proposal_state.data_state(&id), Some(DataState::Proposed));

    let finalize_actions = a.finalize(id.clone()).unwrap();
    for action in &finalize_actions {
        let receiver = if action.host == s("b") { &mut b } else { &mut c };
        receiver.receive_finalize_proposal(id.clone()).unwrap();
        a.finalize_callback(&id, &action.host).unwrap();
    }
    assert!(a.proposal_state.has(&id));
    assert!(b.proposal_state.has(&id));
    assert!(c.proposal_state.has(&id));

    // Everyone votes before the expiration.
    let open = interchain_gov::state::BlockInfo { height: 50, time: 0 };
    let closed = interchain_gov::state::BlockInfo { height: 150, time: 0 };
    let manual = || interchain_gov::state::Governance::Manual {};
    a.do_vote(id.clone(), Vote::Yes, manual(), &open).unwrap();
    b.do_vote(id.clone(), Vote::Yes, manual(), &open).unwrap();
    c.do_vote(id.clone(), Vote::No, manual(), &open).unwrap();

    // A collects the votes: each query is answered from the peer's state.
    let queries = a.request_vote_results(id.clone(), &closed).unwrap();
    assert_eq!(queries.len(), 2);
    for query in &queries {
        let peer = if query.host == s("b") { &b } else { &c };
        let answer = peer.query_vote(query.prop_id.clone()).unwrap();
        a.vote_result_callback(id.clone(), answer.chain, answer.governance, answer.vote)
            .unwrap();
    }

    let result_actions = a.execute_prop(id.clone()).unwrap();
    let outcome = a.finalized_proposals.get(&id).unwrap().outcome;
    assert!(outcome.passed);
    assert_eq!(outcome.votes_for, 2);
    assert_eq!(outcome.votes_against, 1);

    // The outcome is reported to both peers and acknowledged.
    for action in &result_actions {
        let receiver = if action.host == s("b") { &mut b } else { &mut c };
        match &action.msg {
            InterchainGovIbcMsg::ProposalResult { prop_hash, outcome } => {
                receiver.receive_proposal_result(prop_hash.clone(), *outcome).unwrap();
            }
            other => panic!("unexpected message {:?}", other),
        }
        a.proposal_result_callback(&id, &action.host).unwrap();
    }
    assert!(!a.proposal_state.has_outstanding_acks(&id));
    assert_eq!(b.finalized_proposals.get(&id).unwrap().outcome, outcome);
    assert_eq!(c.finalized_proposals.get(&id).unwrap().outcome, outcome);
}

#[test]
fn query_reports_proposal_and_state() {
    let mut a = node("a", &["a", "b"]);
    let (id, _) = a.propose(signal_msg("inspect"), s("alice")).unwrap();
    // Still initiated: no committed entry yet, but an overlay.
    assert!(a.query_proposal(id.clone()).is_err());
    let state = a.query_prop_state(id.clone()).unwrap();
    assert_eq!(state.proposal_id, id);
    assert_eq!(state.state, DataState::Initiated);
    assert_eq!(state.record.vote, Vote::Yes);

    // After the round completes, the committed entry is visible and the
    // overlay is gone.
    a.proposal_callback(&id, &s("b")).unwrap();
    a.finalize(id.clone()).unwrap();
    a.finalize_callback(&id, &s("b")).unwrap();
    let resp = a.query_proposal(id.clone()).unwrap();
    assert_eq!(resp.prop_id, id);
    assert_eq!(resp.prop.title, s("inspect"));
    assert!(resp.state.is_none());
    assert!(a.query_prop_state(id.clone()).is_none());
    let many = a.query_proposals(vec![id.clone()]).unwrap();
    assert_eq!(many.proposals.len(), 1);
}

#[test]
fn members_from_names() {
    let m = Members::from(vec![s("a"), s("b")]);
    assert_eq!(m.members, vec![s("a"), s("b")]);
}

#[test]
fn propose_rejects_duplicate_member() {
    let mut a = node("a", &[]);
    let msg = ProposalMsg {
        title: s("twice"),
        description: s("lists b twice"),
        min_voting_period: None,
        expiration: Expiration::AtHeight(100),
        action: ProposalAction::UpdateMembers { members: members(&["a", "b", "b"]) },
    };
    match a.propose(msg, s("alice")) {
        Err(InterchainGovError::MemberAlreadyExists { member }) => assert_eq!(member, s("b")),
        other => panic!("expected a duplicate-member rejection, got {:?}", other),
    }
}
