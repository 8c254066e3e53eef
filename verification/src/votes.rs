//! Vote collection and tallying.
//!
//! After a proposal expires, this node asks every other member for its
//! local vote, stores the answers as they arrive, and finally tallies
//! them: the proposal passes exactly when strictly more votes are for it
//! than against it.

use vstd::prelude::*;

use crate::error::InterchainGovError;
use crate::gov::{unique_result_chains, InterchainGov};
use crate::msg::{IbcAction, InterchainGovIbcCallbackMsg, InterchainGovIbcMsg, VoteQuery};
use crate::names::clone_names;
use crate::state::{
    BlockInfo, FinalizedProposal, Governance, GovernanceVote, Members, ProposalAction,
    ProposalOutcome, ProposalRecord, Vote, VoteResult,
};
use crate::sync_state::SyncStateError;

verus! {

/// The weight a peer's reported vote adds to the `for` side: one for a
/// reported `Yes`, nothing for everything else.
pub open spec fn yes_weight(vr: VoteResult) -> int {
    match vr.vote {
        Some(gv) => if gv.vote is Yes {
            1int
        } else {
            0int
        },
        None => 0int,
    }
}

/// How many peers reported `Yes`.
pub open spec fn count_peer_yes(rs: Seq<VoteResult>) -> int
    decreases rs.len(),
{
    if rs.len() == 0 {
        0
    } else {
        count_peer_yes(rs.drop_last()) + yes_weight(rs.last())
    }
}

/// Every requested vote has arrived.
pub open spec fn all_votes_in(rs: Seq<VoteResult>) -> bool {
    forall|i: int| 0 <= i < rs.len() ==> (#[trigger] rs[i]).vote is Some
}

/// The peer was asked for its vote and has not reported one yet.
pub open spec fn chain_pending(rs: Seq<VoteResult>, n: Seq<char>) -> bool {
    exists|i: int| 0 <= i < rs.len() && (#[trigger] rs[i]).chain@ == n && rs[i].vote is None
}

/// The peer already reported a vote.
pub open spec fn chain_reported(rs: Seq<VoteResult>, n: Seq<char>) -> bool {
    exists|i: int| 0 <= i < rs.len() && (#[trigger] rs[i]).chain@ == n && rs[i].vote is Some
}

/// Counting one more entry adds that entry's weight.
proof fn lemma_count_take_step(rs: Seq<VoteResult>, i: int)
    requires
        0 <= i < rs.len(),
    ensures
        count_peer_yes(rs.take(i + 1)) == count_peer_yes(rs.take(i)) + yes_weight(rs[i]),
{
    assert(rs.take(i + 1).drop_last() =~= rs.take(i));
    assert(rs.take(i + 1).last() == rs[i]);
}

impl InterchainGov {
    /// Record this node's vote on a finalized, still-open proposal.
    pub fn do_vote(
        &mut self,
        prop_id: String,
        vote: Vote,
        governance: Governance,
        block: &BlockInfo,
    ) -> (r: Result<(), InterchainGovError>)
        requires
            old(self).well_formed(),
        ensures
            final(self).well_formed(),
            old(self).proposal_state.has_overlay(prop_id@) ==> r == Err::<(), InterchainGovError>(
                InterchainGovError::SyncState(SyncStateError::DataNotFinalized),
            ) && *final(self) == *old(self),
            !old(self).proposal_state.has_overlay(prop_id@) && !old(self).proposal_state.base_map().contains_key(prop_id@) ==> (r matches Err(e) && e matches
                InterchainGovError::ProposalNotFound(p) && p@ == prop_id@) && *final(self) == *old(self),
            !old(self).proposal_state.has_overlay(prop_id@) && old(self).proposal_state.base_map().contains_key(prop_id@) && old(self).proposal_state.base_map()[prop_id@].proposal.expiration.spec_is_expired(*block) ==> (
            r matches Err(e) && e matches InterchainGovError::ProposalExpired(p) && p@
                == prop_id@) && *final(self) == *old(self),
            r is Ok <==> !old(self).proposal_state.has_overlay(prop_id@) && old(self).proposal_state.base_map().contains_key(prop_id@) && !old(self).proposal_state.base_map()[prop_id@].proposal.expiration.spec_is_expired(*block),
            r is Ok ==> {
                &&& final(self).votes@.contains_key(prop_id@)
                &&& final(self).votes@[prop_id@].vote == vote
                &&& final(self).votes@[prop_id@].governance == governance
                &&& final(self).votes@ == old(self).votes@.insert(
                    prop_id@,
                    final(self).votes@[prop_id@],
                )
                &&& final(self).proposal_state.base_map().contains_key(prop_id@)
                &&& final(self).proposal_state.base_map() == old(self).proposal_state.base_map().insert(prop_id@, final(self).proposal_state.base_map()[prop_id@])
                &&& final(self).proposal_state.base_map()[prop_id@].vote == vote
                &&& final(self).proposal_state.base_map()[prop_id@].proposal.eqv(
                    old(self).proposal_state.base_map()[prop_id@].proposal,
                )
                &&& final(self).proposal_state.initiated_map() == old(self).proposal_state.initiated_map()
                &&& final(self).proposal_state.proposed_map() == old(self).proposal_state.proposed_map()
                &&& final(self).proposal_state.acks_map() == old(self).proposal_state.acks_map()
            },
            final(self).members_state == old(self).members_state,
            final(self).finalized_proposals@ == old(self).finalized_proposals@,
            final(self).vote_results@ == old(self).vote_results@,
            final(self).gov_vote_queries@ == old(self).gov_vote_queries@,
            final(self).pending_replies@ == old(self).pending_replies@,
            final(self).pending_queries@ == old(self).pending_queries@,
            final(self).allow_joining_gov == old(self).allow_joining_gov,
    {
        if let Err(_) = self.proposal_state.assert_finalized(prop_id.as_str()) {
            return Err(InterchainGovError::SyncState(SyncStateError::DataNotFinalized));
        }
        let record = match self.proposal_state.load(prop_id.as_str()) {
            Ok(rec) => rec,
            Err(_) => {
                return Err(InterchainGovError::ProposalNotFound(prop_id));
            },
        };
        if record.proposal.expiration.is_expired(block) {
            return Err(InterchainGovError::ProposalExpired(prop_id));
        }
        let prop = record.proposal.clone();
        self.votes.insert(prop_id.clone(), GovernanceVote::new(governance, vote));
        let finalize_res = self.proposal_state.finalize_kv_state(
            prop_id,
            Some(ProposalRecord { proposal: prop, vote }),
        );
        proof {
            assert(finalize_res is Ok);
            assert(self.proposal_state.initiated_map() =~= old(self).proposal_state.initiated_map());
            assert(self.proposal_state.proposed_map() =~= old(self).proposal_state.proposed_map());
        }
        Ok(())
    }

    /// Ask every other member for its local vote on an expired proposal.
    /// Pre-seeds one pending entry per peer, so a repeated call reports
    /// `VotesStillPending` (or, once all answers arrived,
    /// `VotesAlreadyFinalized`) instead of issuing duplicate queries.
    #[verifier::loop_isolation(false)]
    pub fn request_vote_results(&mut self, prop_id: String, block: &BlockInfo) -> (r: Result<
        Vec<VoteQuery>,
        InterchainGovError,
    >)
        requires
            old(self).well_formed(),
        ensures
            final(self).well_formed(),
            !old(self).proposal_state.base_map().contains_key(prop_id@) ==> (r matches Err(e)
                && e matches InterchainGovError::ProposalNotFound(p) && p@ == prop_id@) && *final(self) == *old(self),
            old(self).proposal_state.base_map().contains_key(prop_id@) && !old(self).proposal_state.base_map()[prop_id@].proposal.expiration.spec_is_expired(*block) ==> (
            r matches Err(e) && e matches InterchainGovError::ProposalStillOpen(p) && p@
                == prop_id@) && *final(self) == *old(self),
            old(self).proposal_state.base_map().contains_key(prop_id@) && old(self).proposal_state.base_map()[prop_id@].proposal.expiration.spec_is_expired(*block)
                && old(self).vote_results@.contains_key(prop_id@) && !all_votes_in(
                old(self).vote_results@[prop_id@]@,
            ) ==> (r matches Err(e) && e matches InterchainGovError::VotesStillPending(p) && p@
                == prop_id@) && *final(self) == *old(self),
            old(self).proposal_state.base_map().contains_key(prop_id@) && old(self).proposal_state.base_map()[prop_id@].proposal.expiration.spec_is_expired(*block)
                && old(self).vote_results@.contains_key(prop_id@) && all_votes_in(
                old(self).vote_results@[prop_id@]@,
            ) ==> (r matches Err(e) && e matches InterchainGovError::VotesAlreadyFinalized(p)
                && p@ == prop_id@) && *final(self) == *old(self),
            r is Ok <==> old(self).proposal_state.base_map().contains_key(prop_id@) && old(self).proposal_state.base_map()[prop_id@].proposal.expiration.spec_is_expired(*block)
                && !old(self).vote_results@.contains_key(prop_id@),
            r matches Ok(queries) ==> {
                let ext = crate::names::remove_name(
                    old(self).members_state.member_names(),
                    old(self).self_chain_name(),
                );
                &&& final(self).vote_results@.contains_key(prop_id@)
                &&& final(self).vote_results@ == old(self).vote_results@.insert(
                    prop_id@,
                    final(self).vote_results@[prop_id@],
                )
                &&& final(self).vote_results@[prop_id@]@.len() == ext.len()
                &&& forall|i: int|
                    0 <= i < ext.len() ==> (#[trigger] final(self).vote_results@[prop_id@]@[i]).chain == ext[i] && final(self).vote_results@[prop_id@]@[i].vote is None
                &&& queries@.len() == ext.len()
                &&& forall|i: int|
                    0 <= i < ext.len() ==> (#[trigger] queries@[i]).host == ext[i]
                        && queries@[i].prop_id@ == prop_id@
            },
            final(self).members_state == old(self).members_state,
            final(self).proposal_state == old(self).proposal_state,
            final(self).votes@ == old(self).votes@,
            final(self).finalized_proposals@ == old(self).finalized_proposals@,
            final(self).gov_vote_queries@ == old(self).gov_vote_queries@,
            final(self).pending_replies@ == old(self).pending_replies@,
            final(self).pending_queries@ == old(self).pending_queries@,
            final(self).allow_joining_gov == old(self).allow_joining_gov,
    {
        let record = match self.proposal_state.load(prop_id.as_str()) {
            Ok(rec) => rec,
            Err(_) => {
                return Err(InterchainGovError::ProposalNotFound(prop_id));
            },
        };
        if !record.proposal.expiration.is_expired(block) {
            return Err(InterchainGovError::ProposalStillOpen(prop_id));
        }
        match self.vote_results.get(prop_id.as_str()) {
            Some(existing) => {
                let n = existing.len();
                let mut i: usize = 0;
                while i < n
                    invariant
                        0 <= i <= n,
                        n == existing@.len(),
                        forall|j: int| 0 <= j < i ==> (#[trigger] existing@[j]).vote is Some,
                    decreases n - i,
                {
                    if existing[i].vote.is_none() {
                        return Err(InterchainGovError::VotesStillPending(prop_id));
                    }
                    i = i + 1;
                }
                Err(InterchainGovError::VotesAlreadyFinalized(prop_id))
            },
            None => {
                let ext = self.members_state.external_members();
                let ghost ext_names = ext.members@;
                let mut seeded: Vec<VoteResult> = Vec::new();
                let mut queries: Vec<VoteQuery> = Vec::new();
                let mut i: usize = 0;
                while i < ext.members.len()
                    invariant
                        0 <= i <= ext.members.len(),
                        ext.members@ == ext_names,
                        seeded@.len() == i,
                        queries@.len() == i,
                        forall|j: int|
                            0 <= j < i ==> (#[trigger] seeded@[j]).chain == ext_names[j]
                                && seeded@[j].vote is None,
                        forall|j: int|
                            0 <= j < i ==> (#[trigger] queries@[j]).host == ext_names[j]
                                && queries@[j].prop_id@ == prop_id@,
                    decreases ext.members.len() - i,
                {
                    let host = ext.members[i].clone();
                    seeded.push(VoteResult { chain: host.clone(), vote: None });
                    queries.push(VoteQuery { host, prop_id: prop_id.clone() });
                    i = i + 1;
                }
                let ghost gkey = prop_id@;
                self.vote_results.insert(prop_id, seeded);
                proof {
                    assert(unique_result_chains(self.vote_results@[gkey]@)) by {
                        assert(crate::names::unique_names(ext_names));
                    }
                    assert forall|k: Seq<char>|
                        #[trigger] self.vote_results@.contains_key(k) implies unique_result_chains(
                        self.vote_results@[k]@,
                    ) by {
                        if k != gkey {
                            assert(old(self).vote_results@.contains_key(k));
                        }
                    }
                }
                Ok(queries)
            },
        }
    }

    /// A peer's vote arrived: store it, rejecting answers that were never
    /// requested and answers for a peer that already reported one.
    #[verifier::loop_isolation(false)]
    pub fn vote_result_callback(
        &mut self,
        prop_id: String,
        chain: String,
        governance: Governance,
        vote: Vote,
    ) -> (r: Result<(), InterchainGovError>)
        requires
            old(self).well_formed(),
        ensures
            final(self).well_formed(),
            !old(self).vote_results@.contains_key(prop_id@) ==> (r matches Err(e) && e matches
                InterchainGovError::UnrequestedVote { chain: c, prop_id: p } && c@ == chain@ && p@
                == prop_id@) && *final(self) == *old(self),
            old(self).vote_results@.contains_key(prop_id@) && (forall|i: int|
                0 <= i < old(self).vote_results@[prop_id@]@.len() ==> (#[trigger] old(self).vote_results@[prop_id@]@[i]).chain@ != chain@) ==> (r matches Err(e)
                && e matches InterchainGovError::UnrequestedVote { chain: c, prop_id: p } && c@
                == chain@ && p@ == prop_id@) && *final(self) == *old(self),
            old(self).vote_results@.contains_key(prop_id@) && chain_reported(
                old(self).vote_results@[prop_id@]@,
                chain@,
            ) ==> (r matches Err(e) && e matches InterchainGovError::ExistingVoteResult {
                chain: c,
                prop_id: p,
            } && c@ == chain@ && p@ == prop_id@) && *final(self) == *old(self),
            r is Ok <==> old(self).vote_results@.contains_key(prop_id@) && chain_pending(
                old(self).vote_results@[prop_id@]@,
                chain@,
            ),
            r is Ok ==> {
                let rs = old(self).vote_results@[prop_id@]@;
                exists|i: int|
                    (0 <= i < rs.len() && (#[trigger] rs[i]).chain@ == chain@
                        && rs[i].vote is None
                        && final(self).vote_results@[prop_id@]@.len() == rs.len()
                        && final(self).vote_results@[prop_id@]@[i].chain == rs[i].chain
                        && final(self).vote_results@[prop_id@]@[i].vote == Some(
                        (GovernanceVote { vote, governance }),
                    ) && (forall|j: int|
                        0 <= j < rs.len() && j != i ==> final(self).vote_results@[prop_id@]@[j]
                            == rs[j]))
            },
            r is Ok ==> final(self).vote_results@ == old(self).vote_results@.insert(
                prop_id@,
                final(self).vote_results@[prop_id@],
            ),
            r is Err ==> *final(self) == *old(self),
            final(self).members_state == old(self).members_state,
            final(self).proposal_state == old(self).proposal_state,
            final(self).votes@ == old(self).votes@,
            final(self).finalized_proposals@ == old(self).finalized_proposals@,
            final(self).gov_vote_queries@ == old(self).gov_vote_queries@,
            final(self).pending_replies@ == old(self).pending_replies@,
            final(self).pending_queries@ == old(self).pending_queries@,
            final(self).allow_joining_gov == old(self).allow_joining_gov,
    {
        let ghost gkey = prop_id@;
        let list = match self.vote_results.get(prop_id.as_str()) {
            Some(l) => l,
            None => {
                return Err(InterchainGovError::UnrequestedVote { chain, prop_id });
            },
        };
        let n = list.len();
        let mut i: usize = 0;
        while i < n
            invariant
                *self == *old(self),
                0 <= i <= n,
                n == list@.len(),
                forall|j: int| 0 <= j < i ==> (#[trigger] list@[j]).chain@ != chain@,
            decreases n - i,
        {
            if list[i].chain == chain {
                if list[i].vote.is_some() {
                    return Err(InterchainGovError::ExistingVoteResult { chain, prop_id });
                }
                let mut updated: Vec<VoteResult> = Vec::new();
                let mut j: usize = 0;
                while j < n
                    invariant
                        0 <= j <= n,
                        i < n,
                        n == list@.len(),
                        updated@.len() == j,
                        forall|k: int|
                            0 <= k < j && k != i ==> (#[trigger] updated@[k]) == list@[k],
                        i < j ==> updated@[i as int].chain == list@[i as int].chain
                            && updated@[i as int].vote == Some(
                            GovernanceVote { vote, governance },
                        ),
                    decreases n - j,
                {
                    if j == i {
                        updated.push(
                            VoteResult {
                                chain: list[j].chain.clone(),
                                vote: Some(GovernanceVote::new(governance.clone(), vote)),
                            },
                        );
                    } else {
                        updated.push(list[j].clone());
                    }
                    j = j + 1;
                }
                let ghost old_rs = list@;
                self.vote_results.insert(prop_id, updated);
                proof {
                    assert forall|k: Seq<char>|
                        #[trigger] self.vote_results@.contains_key(k) implies unique_result_chains(
                        self.vote_results@[k]@,
                    ) by {
                        if k != gkey {
                            assert(old(self).vote_results@.contains_key(k));
                        } else {
                            assert(unique_result_chains(old_rs));
                            assert forall|a: int, b: int|
                                0 <= a < b < self.vote_results@[k]@.len() implies self.vote_results@[k]@[a].chain@
                                != self.vote_results@[k]@[b].chain@ by {
                                assert(self.vote_results@[k]@[a].chain == old_rs[a].chain);
                                assert(self.vote_results@[k]@[b].chain == old_rs[b].chain);
                            }
                        }
                    }
                }
                return Ok(());
            }
            i = i + 1;
        }
        Err(InterchainGovError::UnrequestedVote { chain, prop_id })
    }

    /// Execute a proposal once every requested vote arrived: tally this
    /// node's vote together with the peers' votes, store the outcome,
    /// apply the proposal's action, and report the outcome to every other
    /// member with a fresh acknowledgment round. The proposal passes
    /// exactly when strictly more votes are for it than against it; a tie
    /// fails.
    #[verifier::loop_isolation(false)]
    pub fn execute_prop(&mut self, prop_id: String) -> (r: Result<
        Vec<IbcAction>,
        InterchainGovError,
    >)
        requires
            old(self).well_formed(),
        ensures
            final(self).well_formed(),
            !old(self).vote_results@.contains_key(prop_id@) ==> (r matches Err(e) && e matches
                InterchainGovError::MissingVoteResults(p) && p@ == prop_id@) && *final(self)
                == *old(self),
            old(self).vote_results@.contains_key(prop_id@) && !all_votes_in(
                old(self).vote_results@[prop_id@]@,
            ) ==> (r matches Err(e) && e matches InterchainGovError::VotesStillPending(p) && p@
                == prop_id@) && *final(self) == *old(self),
            old(self).vote_results@.contains_key(prop_id@) && all_votes_in(
                old(self).vote_results@[prop_id@]@,
            ) && !old(self).votes@.contains_key(prop_id@) ==> (r matches Err(e) && e matches
                InterchainGovError::VoteNotFound(p) && p@ == prop_id@) && *final(self) == *old(self),
            old(self).vote_results@.contains_key(prop_id@) && all_votes_in(
                old(self).vote_results@[prop_id@]@,
            ) && old(self).votes@.contains_key(prop_id@) && !old(self).proposal_state.base_map().contains_key(prop_id@) ==> (r matches Err(e) && e matches
                InterchainGovError::ProposalNotFound(p) && p@ == prop_id@) && *final(self) == *old(self),
            r is Ok <==> old(self).vote_results@.contains_key(prop_id@) && all_votes_in(
                old(self).vote_results@[prop_id@]@,
            ) && old(self).votes@.contains_key(prop_id@) && old(self).proposal_state.base_map().contains_key(prop_id@),
            r is Ok ==> ({
                let rs = old(self).vote_results@[prop_id@]@;
                let self_yes: int = if old(self).votes@[prop_id@].vote is Yes {
                    1int
                } else {
                    0int
                };
                let votes_for = count_peer_yes(rs) + self_yes;
                let votes_against = rs.len() - count_peer_yes(rs) + 1 - self_yes;
                &&& final(self).finalized_proposals@.contains_key(prop_id@)
                &&& final(self).finalized_proposals@[prop_id@].outcome.votes_for as int
                    == votes_for
                &&& final(self).finalized_proposals@[prop_id@].outcome.votes_against as int
                    == votes_against
                &&& final(self).finalized_proposals@[prop_id@].outcome.passed == (votes_for
                    > votes_against)
                &&& final(self).finalized_proposals@[prop_id@].proposal.eqv(
                    old(self).proposal_state.base_map()[prop_id@].proposal,
                )
            }),
            r is Ok ==> ({
                let ext = crate::names::remove_name(
                    old(self).members_state.member_names(),
                    old(self).self_chain_name(),
                );
                let outcome = final(self).finalized_proposals@[prop_id@].outcome;
                &&& final(self).proposal_state.acks_of(prop_id@) == ext
                &&& (r matches Ok(actions) && actions@.len() == ext.len() && forall|i: int|
                    0 <= i < ext.len() ==> {
                        &&& (#[trigger] actions@[i]).host == ext[i]
                        &&& (actions@[i].msg matches InterchainGovIbcMsg::ProposalResult {
                            prop_hash,
                            outcome: oc,
                        } && prop_hash@ == prop_id@ && oc == outcome)
                        &&& (actions@[i].callback matches
                            InterchainGovIbcCallbackMsg::ProposalResult {
                            prop_hash,
                            proposed_to,
                        } && prop_hash@ == prop_id@ && proposed_to == ext[i])
                    })
            }),
            r is Ok ==> ({
                let act = old(self).proposal_state.base_map()[prop_id@].proposal.action;
                &&& (act.update_members() is Some && act.update_members().unwrap().well_formed()
                    && crate::names::contains_name(
                    act.update_members().unwrap().names(),
                    old(self).self_chain_name(),
                ) ==> final(self).members_state.member_names() == act.update_members().unwrap().names())
                &&& (act.update_members() is Some && act.update_members().unwrap().well_formed()
                    && !crate::names::contains_name(
                    act.update_members().unwrap().names(),
                    old(self).self_chain_name(),
                ) ==> final(self).members_state.member_names() == seq![
                    old(self).members_state.self_chain,
                ])
                &&& (act is Signal ==> final(self).members_state.members == old(self).members_state.members)
            }),
            r is Ok ==> ({
                &&& final(self).proposal_state.base_map() == old(self).proposal_state.base_map()
                &&& final(self).proposal_state.initiated_map() == old(self).proposal_state.initiated_map()
                &&& final(self).proposal_state.proposed_map() == old(self).proposal_state.proposed_map()
                &&& final(self).proposal_state.acks_map() == old(self).proposal_state.acks_map().insert(prop_id@, final(self).proposal_state.acks_map()[prop_id@])
                &&& final(self).finalized_proposals@ == old(self).finalized_proposals@.insert(prop_id@, final(self).finalized_proposals@[prop_id@])
                &&& final(self).votes@ == old(self).votes@
                &&& final(self).vote_results@ == old(self).vote_results@
                &&& final(self).gov_vote_queries@ == old(self).gov_vote_queries@
                &&& final(self).pending_replies@ == old(self).pending_replies@
                &&& final(self).pending_queries@ == old(self).pending_queries@
                &&& final(self).allow_joining_gov == old(self).allow_joining_gov
                &&& final(self).members_state.self_chain == old(self).members_state.self_chain
                &&& final(self).members_state.item_state == old(self).members_state.item_state
                &&& final(self).members_state.acks() == old(self).members_state.acks()
            }),
            r is Err ==> *final(self) == *old(self),
    {
        let ghost gkey = prop_id@;
        let (yes_count, peer_count): (u128, u128) = {
            let results = match self.vote_results.get(prop_id.as_str()) {
                Some(l) => l,
                None => {
                    return Err(InterchainGovError::MissingVoteResults(prop_id));
                },
            };
            let n = results.len();
            let mut yes: u128 = 0;
            let mut i: usize = 0;
            while i < n
                invariant
                    0 <= i <= n,
                    n == results@.len(),
                    forall|j: int| 0 <= j < i ==> (#[trigger] results@[j]).vote is Some,
                    yes == count_peer_yes(results@.take(i as int)),
                    0 <= yes <= i,
                decreases n - i,
            {
                proof {
                    lemma_count_take_step(results@, i as int);
                }
                match &results[i].vote {
                    None => {
                        return Err(InterchainGovError::VotesStillPending(prop_id));
                    },
                    Some(gv) => {
                        if matches!(gv.vote, Vote::Yes) {
                            yes = yes + 1;
                        }
                    },
                }
                i = i + 1;
            }
            proof {
                assert(results@.take(n as int) =~= results@);
            }
            (yes, n as u128)
        };

        let self_vote_yes: bool = match self.votes.get(prop_id.as_str()) {
            Some(gv) => matches!(gv.vote, Vote::Yes),
            None => {
                return Err(InterchainGovError::VoteNotFound(prop_id));
            },
        };

        let record = match self.proposal_state.load(prop_id.as_str()) {
            Ok(rec) => rec,
            Err(_) => {
                return Err(InterchainGovError::ProposalNotFound(prop_id));
            },
        };
        let prop = record.proposal.clone();
        let action_members: Option<Members> = match &prop.action {
            ProposalAction::UpdateMembers { members } => Some(members.clone()),
            ProposalAction::Signal => None,
        };

        let votes_for: u128 = yes_count + if self_vote_yes {
            1
        } else {
            0
        };
        let votes_against: u128 = (peer_count - yes_count) + if self_vote_yes {
            0
        } else {
            1
        };
        let outcome = ProposalOutcome { passed: votes_for > votes_against, votes_for, votes_against };

        self.finalized_proposals.insert(
            prop_id.clone(),
            FinalizedProposal { proposal: prop, outcome },
        );

        let ext = self.members_state.external_members();
        if let Some(members) = action_members {
            self.apply_member_update(members);
        }
        self.proposal_state.set_outstanding_finalization_acks(
            prop_id.clone(),
            clone_names(&ext.members),
        );

        let ghost ext_names = ext.members@;
        let mut actions: Vec<IbcAction> = Vec::new();
        let mut i: usize = 0;
        while i < ext.members.len()
            invariant
                0 <= i <= ext.members.len(),
                ext.members@ == ext_names,
                actions@.len() == i,
                forall|j: int|
                    0 <= j < i ==> {
                        &&& (#[trigger] actions@[j]).host == ext_names[j]
                        &&& (actions@[j].msg matches InterchainGovIbcMsg::ProposalResult {
                            prop_hash,
                            outcome: oc,
                        } && prop_hash@ == prop_id@ && oc == outcome)
                        &&& (actions@[j].callback matches
                            InterchainGovIbcCallbackMsg::ProposalResult {
                            prop_hash,
                            proposed_to,
                        } && prop_hash@ == prop_id@ && proposed_to == ext_names[j])
                    },
            decreases ext.members.len() - i,
        {
            let host = ext.members[i].clone();
            actions.push(
                IbcAction {
                    host: host.clone(),
                    msg: InterchainGovIbcMsg::ProposalResult {
                        prop_hash: prop_id.clone(),
                        outcome,
                    },
                    callback: InterchainGovIbcCallbackMsg::ProposalResult {
                        prop_hash: prop_id.clone(),
                        proposed_to: host,
                    },
                },
            );
            i = i + 1;
        }
        Ok(actions)
    }
}

} // verus!
