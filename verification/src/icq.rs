//! External tally query correlation.
//!
//! Pulling a peer's authoritative governance tally is a two-hop pattern:
//! a registration call is answered with a reply that assigns a query
//! identifier, and the query's result arrives later as an independent
//! push. The correlator bridges that gap with two tables: pending replies
//! keyed by reply identifier, and pending queries keyed by the assigned
//! query identifier. Reply and query identifiers are distinct types that
//! can never be cross-wired.

use vstd::prelude::*;

use crate::error::InterchainGovError;
use crate::gov::{unique_tally_chains, InterchainGov};
use crate::msg::TallyRegistration;
use crate::state::{GovQueryResult, QueryId, QueryTarget, ReplyId, TallyResult};

verus! {

impl InterchainGov {
    /// Ask every other member for its authoritative governance tally.
    /// Requires the plain vote results to be complete (so it is known who
    /// to query); assigns one sequential reply identifier per peer,
    /// records what each registration is about, and pre-seeds one pending
    /// tally entry per peer, so a repeated call reports
    /// `GovVotesStillPending` or `GovVotesAlreadyQueried` instead of
    /// registering duplicate queries.
    #[verifier::loop_isolation(false)]
    pub fn request_gov_vote_details(&mut self, prop_id: String) -> (r: Result<
        Vec<TallyRegistration>,
        InterchainGovError,
    >)
        requires
            old(self).well_formed(),
        ensures
            final(self).well_formed(),
            !old(self).vote_results@.contains_key(prop_id@) ==> (r matches Err(e) && e matches
                InterchainGovError::MissingVoteResults(p) && p@ == prop_id@) && *final(self)
                == *old(self),
            old(self).vote_results@.contains_key(prop_id@) && !crate::votes::all_votes_in(
                old(self).vote_results@[prop_id@]@,
            ) ==> (r matches Err(e) && e matches InterchainGovError::VotesStillPending(p) && p@
                == prop_id@) && *final(self) == *old(self),
            old(self).vote_results@.contains_key(prop_id@) && crate::votes::all_votes_in(
                old(self).vote_results@[prop_id@]@,
            ) && old(self).gov_vote_queries@.contains_key(prop_id@) && !all_tallies_in(
                old(self).gov_vote_queries@[prop_id@]@,
            ) ==> (r matches Err(e) && e matches InterchainGovError::GovVotesStillPending(p)
                && p@ == prop_id@) && *final(self) == *old(self),
            old(self).vote_results@.contains_key(prop_id@) && crate::votes::all_votes_in(
                old(self).vote_results@[prop_id@]@,
            ) && old(self).gov_vote_queries@.contains_key(prop_id@) && all_tallies_in(
                old(self).gov_vote_queries@[prop_id@]@,
            ) ==> (r matches Err(e) && e matches InterchainGovError::GovVotesAlreadyQueried(p)
                && p@ == prop_id@) && *final(self) == *old(self),
            r is Ok <==> old(self).vote_results@.contains_key(prop_id@)
                && crate::votes::all_votes_in(old(self).vote_results@[prop_id@]@) && !old(self).gov_vote_queries@.contains_key(prop_id@),
            r matches Ok(regs) ==> ({
                let ext = crate::names::remove_name(
                    old(self).members_state.member_names(),
                    old(self).self_chain_name(),
                );
                &&& final(self).gov_vote_queries@.contains_key(prop_id@)
                &&& final(self).gov_vote_queries@ == old(self).gov_vote_queries@.insert(
                    prop_id@,
                    final(self).gov_vote_queries@[prop_id@],
                )
                &&& final(self).gov_vote_queries@[prop_id@]@.len() == ext.len()
                &&& forall|i: int|
                    0 <= i < ext.len() ==> (#[trigger] final(self).gov_vote_queries@[prop_id@]@[i]).chain == ext[i] && final(self).gov_vote_queries@[prop_id@]@[i].tally is None
                &&& regs@.len() == ext.len()
                &&& forall|i: int|
                    0 <= i < ext.len() ==> (#[trigger] regs@[i]).host == ext[i]
                        && regs@[i].reply_id == ReplyId(i as u64)
                &&& forall|i: int|
                    0 <= i < ext.len() ==> final(self).pending_replies@.contains_key(
                        i as u64,
                    ) && (#[trigger] final(self).pending_replies@[i as u64]).chain == ext[i]
                        && final(self).pending_replies@[i as u64].prop_id@ == prop_id@
                &&& final(self).pending_queries@ == old(self).pending_queries@
                &&& forall|id: u64|
                    #![trigger final(self).pending_replies@.contains_key(id)]
                    #![trigger old(self).pending_replies@.contains_key(id)]
                    id as int >= ext.len() ==> ((final(self).pending_replies@.contains_key(id)
                        <==> old(self).pending_replies@.contains_key(id)) && (old(self).pending_replies@.contains_key(id) ==> final(self).pending_replies@[id] == old(self).pending_replies@[id]))
            }),
            final(self).members_state == old(self).members_state,
            final(self).proposal_state == old(self).proposal_state,
            final(self).votes@ == old(self).votes@,
            final(self).vote_results@ == old(self).vote_results@,
            final(self).finalized_proposals@ == old(self).finalized_proposals@,
            final(self).allow_joining_gov == old(self).allow_joining_gov,
    {
        {
            let results = match self.vote_results.get(prop_id.as_str()) {
                Some(l) => l,
                None => {
                    return Err(InterchainGovError::MissingVoteResults(prop_id));
                },
            };
            let n = results.len();
            let mut i: usize = 0;
            while i < n
                invariant
                    0 <= i <= n,
                    forall|j: int| 0 <= j < i ==> (#[trigger] results@[j]).vote is Some,
                decreases n - i,
            {
                if results[i].vote.is_none() {
                    return Err(InterchainGovError::VotesStillPending(prop_id));
                }
                i = i + 1;
            }
        }
        match self.gov_vote_queries.get(prop_id.as_str()) {
            Some(existing) => {
                let n = existing.len();
                let mut i: usize = 0;
                while i < n
                    invariant
                        0 <= i <= n,
                        forall|j: int| 0 <= j < i ==> (#[trigger] existing@[j]).tally is Some,
                    decreases n - i,
                {
                    if existing[i].tally.is_none() {
                        return Err(InterchainGovError::GovVotesStillPending(prop_id));
                    }
                    i = i + 1;
                }
                Err(InterchainGovError::GovVotesAlreadyQueried(prop_id))
            },
            None => {
                let ext = self.members_state.external_members();
                let ghost ext_names = ext.members@;
                let mut seeded: Vec<GovQueryResult> = Vec::new();
                let mut regs: Vec<TallyRegistration> = Vec::new();
                let mut i: usize = 0;
                while i < ext.members.len()
                    invariant
                        0 <= i <= ext.members.len(),
                        ext.members@ == ext_names,
                        seeded@.len() == i,
                        regs@.len() == i,
                        forall|j: int|
                            0 <= j < i ==> (#[trigger] seeded@[j]).chain == ext_names[j]
                                && seeded@[j].tally is None,
                        forall|j: int|
                            0 <= j < i ==> (#[trigger] regs@[j]).host == ext_names[j]
                                && regs@[j].reply_id == ReplyId(j as u64),
                        forall|j: int|
                            0 <= j < i ==> #[trigger] self.pending_replies@.contains_key(j as u64)
                                && self.pending_replies@[j as u64].chain == ext_names[j]
                                && self.pending_replies@[j as u64].prop_id@ == prop_id@,
                        forall|id: u64|
                            #[trigger] self.pending_replies@.contains_key(id) && !(0 <= id < i)
                                ==> old(self).pending_replies@.contains_key(id) && self.pending_replies@[id]
                                == old(self).pending_replies@[id],
                        forall|id: u64|
                            #[trigger] old(self).pending_replies@.contains_key(id)
                                ==> self.pending_replies@.contains_key(id),
                        self.members_state == old(self).members_state,
                        self.proposal_state == old(self).proposal_state,
                        self.votes@ == old(self).votes@,
                        self.vote_results@ == old(self).vote_results@,
                        self.gov_vote_queries@ == old(self).gov_vote_queries@,
                        self.finalized_proposals@ == old(self).finalized_proposals@,
                        self.pending_queries@ == old(self).pending_queries@,
                        self.allow_joining_gov == old(self).allow_joining_gov,
                    decreases ext.members.len() - i,
                {
                    let host = ext.members[i].clone();
                    seeded.push(GovQueryResult { chain: host.clone(), tally: None });
                    regs.push(TallyRegistration { host: host.clone(), reply_id: ReplyId(i as u64) });
                    let ghost pre = self.pending_replies@;
                    self.pending_replies.insert(
                        i as u64,
                        QueryTarget { chain: host, prop_id: prop_id.clone() },
                    );
                    proof {
                        let gi = i as int;
                        assert(self.pending_replies@.contains_key(gi as u64));
                        assert(self.pending_replies@[gi as u64].chain == ext_names[gi]);
                        assert(self.pending_replies@[gi as u64].prop_id@ == prop_id@);
                        assert forall|j: int| 0 <= j < gi implies #[trigger] self.pending_replies@.contains_key(
                            j as u64,
                        ) && self.pending_replies@[j as u64].chain == ext_names[j]
                            && self.pending_replies@[j as u64].prop_id@ == prop_id@ by {
                            assert(pre.contains_key(j as u64));
                            assert(j as u64 != gi as u64);
                            assert(self.pending_replies@ == pre.insert(gi as u64, self.pending_replies@[gi as u64]));
                            assert(self.pending_replies@.contains_key(j as u64));
                        }
                    }
                    i = i + 1;
                }
                let ghost gkey = prop_id@;
                self.gov_vote_queries.insert(prop_id, seeded);
                proof {
                    assert(unique_tally_chains(self.gov_vote_queries@[gkey]@)) by {
                        assert(crate::names::unique_names(ext_names));
                    }
                    assert forall|k: Seq<char>|
                        #[trigger] self.gov_vote_queries@.contains_key(k) implies unique_tally_chains(
                        self.gov_vote_queries@[k]@,
                    ) by {
                        if k != gkey {
                            assert(old(self).gov_vote_queries@.contains_key(k));
                        }
                    }
                }
                Ok(regs)
            },
        }
    }

    /// The reply to a registration call arrived and assigned `query_id`:
    /// move the pending entry from the reply table to the query table and
    /// discard the reply identifier. A reply that no pending registration
    /// matches is rejected without mutation.
    pub fn icq_reply(&mut self, reply_id: ReplyId, query_id: QueryId) -> (r: Result<
        (),
        InterchainGovError,
    >)
        requires
            old(self).well_formed(),
        ensures
            final(self).well_formed(),
            !old(self).pending_replies@.contains_key(reply_id.0) ==> r == Err::<
                (),
                InterchainGovError,
            >(InterchainGovError::UnknownReply(reply_id)) && *final(self) == *old(self),
            r is Ok <==> old(self).pending_replies@.contains_key(reply_id.0),
            r is Ok ==> final(self).pending_replies@ == old(self).pending_replies@.remove(
                reply_id.0,
            ) && final(self).pending_queries@ == old(self).pending_queries@.insert(
                query_id.0,
                old(self).pending_replies@[reply_id.0],
            ),
            final(self).members_state == old(self).members_state,
            final(self).proposal_state == old(self).proposal_state,
            final(self).votes@ == old(self).votes@,
            final(self).vote_results@ == old(self).vote_results@,
            final(self).gov_vote_queries@ == old(self).gov_vote_queries@,
            final(self).finalized_proposals@ == old(self).finalized_proposals@,
            final(self).allow_joining_gov == old(self).allow_joining_gov,
    {
        if !self.pending_replies.contains_key(&reply_id.0) {
            return Err(InterchainGovError::UnknownReply(reply_id));
        }
        let target = match self.pending_replies.remove(&reply_id.0) {
            Some(t) => t,
            None => {
                proof {
                    assert(false);
                }
                return Err(InterchainGovError::UnknownReply(reply_id));
            },
        };
        self.pending_queries.insert(query_id.0, target);
        Ok(())
    }

    /// A ready query result was pushed for `query_id`, fully out of band:
    /// look up what it is about, drop the pending entry, and store the
    /// tally. A push that no pending query matches is rejected without
    /// mutation.
    #[verifier::loop_isolation(false)]
    pub fn kv_query_result(&mut self, query_id: QueryId, tally: TallyResult) -> (r: Result<
        (),
        InterchainGovError,
    >)
        requires
            old(self).well_formed(),
        ensures
            final(self).well_formed(),
            !old(self).pending_queries@.contains_key(query_id.0) ==> r == Err::<
                (),
                InterchainGovError,
            >(InterchainGovError::UnknownQuery(query_id)) && *final(self) == *old(self),
            r is Ok <==> old(self).pending_queries@.contains_key(query_id.0),
            r is Ok ==> ({
                let target = old(self).pending_queries@[query_id.0];
                let new_rs = final(self).gov_vote_queries@[target.prop_id@]@;
                &&& final(self).pending_queries@ == old(self).pending_queries@.remove(query_id.0)
                &&& final(self).gov_vote_queries@.contains_key(target.prop_id@)
                &&& final(self).gov_vote_queries@.remove(target.prop_id@) =~= old(self).gov_vote_queries@.remove(target.prop_id@)
                &&& (old(self).gov_vote_queries@.contains_key(target.prop_id@) ==> ({
                    let rs = old(self).gov_vote_queries@[target.prop_id@]@;
                    if exists|k: int| 0 <= k < rs.len() && (#[trigger] rs[k]).chain@
                        == target.chain@ {
                        &&& new_rs.len() == rs.len()
                        &&& forall|k: int|
                            0 <= k < rs.len() ==> (#[trigger] new_rs[k]).chain == rs[k].chain
                        &&& forall|k: int|
                            0 <= k < rs.len() && rs[k].chain@ == target.chain@ ==> (
                            #[trigger] new_rs[k]).tally == Some(tally)
                        &&& forall|k: int|
                            0 <= k < rs.len() && rs[k].chain@ != target.chain@ ==> (
                            #[trigger] new_rs[k]) == rs[k]
                    } else {
                        &&& new_rs.len() == rs.len() + 1
                        &&& forall|k: int| 0 <= k < rs.len() ==> (#[trigger] new_rs[k]) == rs[k]
                        &&& new_rs.last().chain@ == target.chain@
                        &&& new_rs.last().tally == Some(tally)
                    }
                }))
                &&& (!old(self).gov_vote_queries@.contains_key(target.prop_id@) ==> new_rs.len()
                    == 1 && new_rs[0].chain@ == target.chain@ && new_rs[0].tally == Some(tally))
            }),
            final(self).members_state == old(self).members_state,
            final(self).proposal_state == old(self).proposal_state,
            final(self).votes@ == old(self).votes@,
            final(self).vote_results@ == old(self).vote_results@,
            final(self).pending_replies@ == old(self).pending_replies@,
            final(self).finalized_proposals@ == old(self).finalized_proposals@,
            final(self).allow_joining_gov == old(self).allow_joining_gov,
    {
        if !self.pending_queries.contains_key(&query_id.0) {
            return Err(InterchainGovError::UnknownQuery(query_id));
        }
        let target = match self.pending_queries.remove(&query_id.0) {
            Some(t) => t,
            None => {
                proof {
                    assert(false);
                }
                return Err(InterchainGovError::UnknownQuery(query_id));
            },
        };
        let ghost gkey = target.prop_id@;
        let ghost gchain = target.chain@;
        let updated: Vec<GovQueryResult> = match self.gov_vote_queries.get(target.prop_id.as_str()) {
            None => {
                let mut fresh: Vec<GovQueryResult> = Vec::new();
                fresh.push(GovQueryResult { chain: target.chain, tally: Some(tally) });
                fresh
            },
            Some(list) => {
                let n = list.len();
                let mut updated: Vec<GovQueryResult> = Vec::new();
                let mut found: bool = false;
                let mut j: usize = 0;
                while j < n
                    invariant
                        0 <= j <= n,
                        updated@.len() == j,
                        forall|k: int|
                            0 <= k < j && list@[k].chain@ != gchain ==> (#[trigger] updated@[k])
                                == list@[k],
                        forall|k: int|
                            0 <= k < j && list@[k].chain@ == gchain ==> (#[trigger] updated@[k]).chain
                                == list@[k].chain && updated@[k].tally == Some(tally),
                        found <==> exists|k: int| 0 <= k < j && (#[trigger] list@[k]).chain@ == gchain,
                        forall|k: int|
                            0 <= k < j ==> (#[trigger] updated@[k]).chain == list@[k].chain,
                    decreases n - j,
                {
                    if list[j].chain == target.chain {
                        updated.push(
                            GovQueryResult { chain: list[j].chain.clone(), tally: Some(tally) },
                        );
                        found = true;
                    } else {
                        updated.push(list[j].clone());
                    }
                    j = j + 1;
                }
                if !found {
                    updated.push(GovQueryResult { chain: target.chain, tally: Some(tally) });
                }
                updated
            },
        };
        let prop_key = target.prop_id;
        self.gov_vote_queries.insert(prop_key, updated);
        proof {
            assert forall|k: Seq<char>|
                #[trigger] self.gov_vote_queries@.contains_key(k) implies unique_tally_chains(
                self.gov_vote_queries@[k]@,
            ) by {
                if k != gkey {
                    assert(old(self).gov_vote_queries@.contains_key(k));
                } else {
                    if old(self).gov_vote_queries@.contains_key(gkey) {
                        let old_rs = old(self).gov_vote_queries@[gkey]@;
                        assert(unique_tally_chains(old_rs));
                        let new_rs = self.gov_vote_queries@[k]@;
                        assert forall|a: int, b: int|
                            0 <= a < b < new_rs.len() implies new_rs[a].chain@
                            != new_rs[b].chain@ by {
                            if b < old_rs.len() {
                                assert(new_rs[a].chain == old_rs[a].chain);
                                assert(new_rs[b].chain == old_rs[b].chain);
                            } else {
                                assert(new_rs[b].chain@ == gchain);
                                assert(new_rs[a].chain == old_rs[a].chain);
                                assert(!exists|k2: int|
                                    0 <= k2 < old_rs.len() && (#[trigger] old_rs[k2]).chain@
                                        == gchain);
                            }
                        }
                    }
                }
            }
        }
        Ok(())
    }
}

/// Every requested tally has arrived.
pub open spec fn all_tallies_in(rs: Seq<GovQueryResult>) -> bool {
    forall|i: int| 0 <= i < rs.len() ==> (#[trigger] rs[i]).tally is Some
}

/// The prefix under which the cosmos-sdk governance module stores its
/// proposals.
pub const PROPOSALS_KEY_PREFIX: u8 = 0;

/// One key-value read of a remote store: the store name and the raw key.
#[derive(Debug)]
pub struct KvKey {
    pub path: String,
    pub key: Vec<u8>,
}

/// `key` is the governance-store key of proposal `proposal_id`: the
/// proposals prefix byte followed by the number in big-endian bytes.
pub open spec fn is_gov_proposal_key(key: Seq<u8>, proposal_id: u64) -> bool {
    &&& key.len() == 9
    &&& key[0] == PROPOSALS_KEY_PREFIX
    &&& key[1] == ((proposal_id >> 56u64) & 0xffu64) as u8
    &&& key[2] == ((proposal_id >> 48u64) & 0xffu64) as u8
    &&& key[3] == ((proposal_id >> 40u64) & 0xffu64) as u8
    &&& key[4] == ((proposal_id >> 32u64) & 0xffu64) as u8
    &&& key[5] == ((proposal_id >> 24u64) & 0xffu64) as u8
    &&& key[6] == ((proposal_id >> 16u64) & 0xffu64) as u8
    &&& key[7] == ((proposal_id >> 8u64) & 0xffu64) as u8
    &&& key[8] == (proposal_id & 0xffu64) as u8
}

/// The governance-store key for the proposal with the given number.
pub fn create_gov_proposal_key(proposal_id: u64) -> (r: Vec<u8>)
    ensures
        is_gov_proposal_key(r@, proposal_id),
{
    let mut key: Vec<u8> = Vec::new();
    key.push(PROPOSALS_KEY_PREFIX);
    key.push(((proposal_id >> 56u64) & 0xffu64) as u8);
    key.push(((proposal_id >> 48u64) & 0xffu64) as u8);
    key.push(((proposal_id >> 40u64) & 0xffu64) as u8);
    key.push(((proposal_id >> 32u64) & 0xffu64) as u8);
    key.push(((proposal_id >> 24u64) & 0xffu64) as u8);
    key.push(((proposal_id >> 16u64) & 0xffu64) as u8);
    key.push(((proposal_id >> 8u64) & 0xffu64) as u8);
    key.push((proposal_id & 0xffu64) as u8);
    key
}

/// The governance-store keys for a list of proposal numbers.
pub fn create_gov_proposal_keys(proposal_ids: &Vec<u64>) -> (r: Vec<KvKey>)
    ensures
        r@.len() == proposal_ids@.len(),
        forall|i: int|
            0 <= i < proposal_ids@.len() ==> (#[trigger] r@[i]).path@ == "gov"@
                && is_gov_proposal_key(r@[i].key@, proposal_ids@[i]),
{
    let mut kv_keys: Vec<KvKey> = Vec::new();
    let mut i: usize = 0;
    while i < proposal_ids.len()
        invariant
            0 <= i <= proposal_ids@.len(),
            kv_keys@.len() == i,
            forall|j: int|
                0 <= j < i ==> (#[trigger] kv_keys@[j]).path@ == "gov"@ && is_gov_proposal_key(
                    kv_keys@[j].key@,
                    proposal_ids@[j],
                ),
        decreases proposal_ids@.len() - i,
    {
        let key = create_gov_proposal_key(proposal_ids[i]);
        kv_keys.push(KvKey { path: "gov".to_owned(), key });
        i = i + 1;
    }
    kv_keys
}

/// The kind of remote query a registration asks for: a key-value read or
/// a transaction search.
#[derive(Clone, Copy, Debug, PartialEq, Eq, Structural)]
pub enum QueryType {
    KV,
    TX,
}

impl QueryType {
    /// The wire name of the query kind.
    pub fn to_string(&self) -> (r: String)
        ensures
            *self is KV ==> r@ == "kv"@,
            *self is TX ==> r@ == "tx"@,
    {
        match self {
            QueryType::KV => "kv".to_owned(),
            QueryType::TX => "tx".to_owned(),
        }
    }
}

} // verus!
