//! The external tally query correlator.

use interchain_gov::error::InterchainGovError;
use interchain_gov::gov::InterchainGov;
use interchain_gov::state::{
    BlockInfo, Expiration, Governance, Members, Proposal, ProposalAction, ProposalMsg, QueryId,
    ReplyId, TallyResult, Vote,
};

fn s(x: &str) -> String {
    x.to_string()
}

fn members(names: &[&str]) -> Members {
    Members { members: names.iter().map(|n| n.to_string()).collect() }
}

/// A node with a committed, voted and fully reported proposal: ready for
/// the external tally round. Returns the node and the proposal id.
fn ready_node() -> (InterchainGov, String) {
    let mut g = InterchainGov::new(s("a"), members(&[]));
    g.test_add_members(members(&["a", "b"])).unwrap();
    let msg = ProposalMsg {
        title: s("audited"),
        description: s("pull the authoritative tally"),
        min_voting_period: None,
        expiration: Expiration::AtHeight(100),
        action: ProposalAction::Signal,
    };
    let id = msg.hash();
    let prop = Proposal::new(msg, s("proposer"), s("b"));
    g.receive_propose_proposal(id.clone(), prop, s("a")).unwrap();
    g.receive_finalize_proposal(id.clone()).unwrap();
    g.request_vote_results(id.clone(), &BlockInfo { height: 150, time: 0 }).unwrap();
    g.vote_result_callback(
        id.clone(),
        s("b"),
        Governance::Native { proposal_id: 4 },
        Vote::Yes,
    )
    .unwrap();
    (g, id)
}

fn tally() -> TallyResult {
    TallyResult { yes: 70, no: 20, abstain: 5, no_with_veto: 5 }
}

#[test]
fn tally_query_round_trip() {
    // Scenario: registration yields a reply identifier; the reply assigns
    // the query identifier; the pushed result lands under the right pair.
    let (mut g, id) = ready_node();

    let regs = g.request_gov_vote_details(id.clone()).unwrap();
    assert_eq!(regs.len(), 1);
    assert_eq!(regs[0].host, s("b"));
    assert_eq!(regs[0].reply_id, ReplyId(0));

    // The registration's reply assigns query identifier 77.
    g.icq_reply(ReplyId(0), QueryId(77)).unwrap();
    assert!(!g.pending_replies.contains_key(&0u64));
    assert!(g.pending_queries.contains_key(&77u64));

    // The out-of-band push stores the tally and clears the pending entry.
    g.kv_query_result(QueryId(77), tally()).unwrap();
    assert!(!g.pending_queries.contains_key(&77u64));
    let queries = g.gov_vote_queries.get(&id).unwrap();
    assert_eq!(queries.len(), 1);
    assert_eq!(queries[0].chain, s("b"));
    assert_eq!(queries[0].tally, Some(tally()));
}

#[test]
fn unknown_reply_rejected() {
    let (mut g, id) = ready_node();
    g.request_gov_vote_details(id).unwrap();
    match g.icq_reply(ReplyId(9), QueryId(1)) {
        Err(InterchainGovError::UnknownReply(r)) => assert_eq!(r, ReplyId(9)),
        other => panic!("expected an unknown-reply rejection, got {:?}", other),
    }
    assert!(g.pending_replies.contains_key(&0u64));
    assert!(!g.pending_queries.contains_key(&1u64));
}

#[test]
fn unknown_query_rejected() {
    // A push for a query identifier nobody registered changes nothing.
    let (mut g, id) = ready_node();
    g.request_gov_vote_details(id.clone()).unwrap();
    g.icq_reply(ReplyId(0), QueryId(77)).unwrap();
    match g.kv_query_result(QueryId(5), tally()) {
        Err(InterchainGovError::UnknownQuery(q)) => assert_eq!(q, QueryId(5)),
        other => panic!("expected an unknown-query rejection, got {:?}", other),
    }
    assert!(g.pending_queries.contains_key(&77u64));
    let queries = g.gov_vote_queries.get(&id).unwrap();
    assert_eq!(queries[0].tally, None);
}

#[test]
fn tally_round_guards_repetition() {
    let (mut g, id) = ready_node();
    g.request_gov_vote_details(id.clone()).unwrap();

    // While the tally is pending, a second round is refused.
    match g.request_gov_vote_details(id.clone()) {
        Err(InterchainGovError::GovVotesStillPending(p)) => assert_eq!(p, id),
        other => panic!("expected a still-pending rejection, got {:?}", other),
    }

    // Once the tally arrived, a repeat reports completion.
    g.icq_reply(ReplyId(0), QueryId(3)).unwrap();
    g.kv_query_result(QueryId(3), tally()).unwrap();
    match g.request_gov_vote_details(id.clone()) {
        Err(InterchainGovError::GovVotesAlreadyQueried(p)) => assert_eq!(p, id),
        other => panic!("expected an already-queried rejection, got {:?}", other),
    }
}

#[test]
fn gov_proposal_keys_are_big_endian() {
    let key = interchain_gov::icq::create_gov_proposal_key(1);
    assert_eq!(key, vec![0, 0, 0, 0, 0, 0, 0, 0, 1]);
    let key = interchain_gov::icq::create_gov_proposal_key(0x0102030405060708);
    assert_eq!(key, vec![0, 1, 2, 3, 4, 5, 6, 7, 8]);
    let keys = interchain_gov::icq::create_gov_proposal_keys(&vec![1, 256]);
    assert_eq!(keys.len(), 2);
    assert_eq!(keys[0].path, "gov");
    assert_eq!(keys[1].key, vec![0, 0, 0, 0, 0, 0, 0, 1, 0]);
}

#[test]
fn query_type_text() {
    assert_eq!(interchain_gov::icq::QueryType::KV.to_string(), "kv");
    assert_eq!(interchain_gov::icq::QueryType::TX.to_string(), "tx");
}

#[test]
fn tally_round_requires_vote_results() {
    let mut g = InterchainGov::new(s("a"), members(&[]));
    g.test_add_members(members(&["a", "b"])).unwrap();
    match g.request_gov_vote_details(s("nobody asked")) {
        Err(InterchainGovError::MissingVoteResults(_)) => {}
        other => panic!("expected a missing-results rejection, got {:?}", other),
    }
}
