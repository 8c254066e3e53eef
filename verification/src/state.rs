//! Data model of the interchain governance engine.
//!
//! Every value here is plain data: peers are names, clock readings are a
//! height and a timestamp, and a proposal is the content agreed on. The
//! engine's contracts are stated over these values.

use vstd::prelude::*;

use crate::hash::proposal_id_of;
use crate::names::{clone_names, contains_name, unique_names};

verus! {

/// A proposal identifier: the deterministic content hash of the
/// originating proposal message, as base-64 text.
pub type ProposalId = String;

/// A clock reading: the current block height and timestamp.
#[derive(Clone, Copy, Debug, PartialEq, Eq, Structural)]
pub struct BlockInfo {
    pub height: u64,
    pub time: u64,
}

/// A point after which a proposal closes: a block height, a timestamp, or
/// never.
#[derive(Clone, Copy, Debug, PartialEq, Eq, Structural)]
pub enum Expiration {
    AtHeight(u64),
    AtTime(u64),
    Never,
}

impl Expiration {
    /// The expiration has been reached at the given clock reading.
    pub open spec fn spec_is_expired(self, block: BlockInfo) -> bool {
        match self {
            Expiration::AtHeight(height) => block.height >= height,
            Expiration::AtTime(time) => block.time >= time,
            Expiration::Never => false,
        }
    }

    pub fn is_expired(&self, block: &BlockInfo) -> (r: bool)
        ensures
            r == self.spec_is_expired(*block),
    {
        match self {
            Expiration::AtHeight(height) => block.height >= *height,
            Expiration::AtTime(time) => block.time >= *time,
            Expiration::Never => false,
        }
    }
}

/// The threshold at which a proposal passes. Every proposal created here
/// requires the full group: one hundred percent.
#[derive(Clone, Copy, Debug, PartialEq, Eq, Structural)]
pub enum Threshold {
    AbsolutePercentage { percent: u64 },
}

/// The ordered set of peers in the group, always carried without
/// duplicates.
#[derive(Debug)]
pub struct Members {
    pub members: Vec<String>,
}

impl Members {
    /// The peer names, in order.
    pub open spec fn names(self) -> Seq<String> {
        self.members@
    }

    /// A members list is an ordered set: no peer appears twice.
    pub open spec fn well_formed(self) -> bool {
        unique_names(self.members@)
    }

    /// The group of a freshly instantiated node: the node itself.
    pub fn new(self_chain: String) -> (r: Self)
        ensures
            r.names() == seq![self_chain],
            r.well_formed(),
    {
        let members: Vec<String> = vec![self_chain];
        Members { members }
    }

    /// Whether `chain` is a member.
    pub fn contains(&self, chain: &String) -> (r: bool)
        ensures
            r == contains_name(self.names(), chain@),
    {
        let mut i: usize = 0;
        while i < self.members.len()
            invariant
                0 <= i <= self.members.len(),
                forall|j: int| 0 <= j < i ==> self.members@[j]@ != chain@,
            decreases self.members.len() - i,
        {
            if self.members[i] == *chain {
                return true;
            }
            i = i + 1;
        }
        false
    }

    /// A peer that appears twice, if any: the runtime check of
    /// well-formedness for member lists arriving from outside.
    pub fn find_duplicate(&self) -> (r: Option<String>)
        ensures
            r is None <==> self.well_formed(),
            r matches Some(m) ==> exists|i: int, j: int|
                #![trigger self.names()[i], self.names()[j]]
                0 <= i < j < self.names().len() && self.names()[i]@ == m@ && self.names()[j]@
                    == m@,
    {
        let n = self.members.len();
        let mut i: usize = 0;
        while i < n
            invariant
                0 <= i <= n,
                n == self.members@.len(),
                forall|a: int, b: int| 0 <= a < b < n && a < i ==> self.members@[a]@
                    != self.members@[b]@,
            decreases n - i,
        {
            let mut j: usize = i + 1;
            while j < n
                invariant
                    i < j <= n,
                    n == self.members@.len(),
                    forall|b: int| i < b < j ==> self.members@[i as int]@ != self.members@[b]@,
                decreases n - j,
            {
                if self.members[i] == self.members[j] {
                    let m = self.members[j].clone();
                    proof {
                        let gi = i as int;
                        let gj = j as int;
                        assert(0 <= gi < gj < self.names().len() && self.names()[gi]@ == m@
                            && self.names()[gj]@ == m@);
                    }
                    return Some(m);
                }
                j = j + 1;
            }
            i = i + 1;
        }
        None
    }

    /// Whether no peer appears twice.
    pub fn check_unique(&self) -> (r: bool)
        ensures
            r == self.well_formed(),
    {
        self.find_duplicate().is_none()
    }

    /// Whether every member of `other` is also a member here.
    pub fn contains_all(&self, other: &Members) -> (r: bool)
        ensures
            r == forall|i: int|
                0 <= i < other.names().len() ==> contains_name(self.names(), other.names()[i]@),
    {
        let mut i: usize = 0;
        while i < other.members.len()
            invariant
                0 <= i <= other.members.len(),
                forall|j: int| 0 <= j < i ==> contains_name(self.names(), other.names()[j]@),
            decreases other.members.len() - i,
        {
            if !self.contains(&other.members[i]) {
                proof {
                    let w = i as int;
                    assert(0 <= w < other.names().len() && !contains_name(
                        self.names(),
                        other.names()[w]@,
                    ));
                }
                return false;
            }
            i = i + 1;
        }
        true
    }
}

impl Clone for Members {
    fn clone(&self) -> (r: Self)
        ensures
            r.names() == self.names(),
    {
        Members { members: clone_names(&self.members) }
    }
}

impl From<Vec<String>> for Members {
    fn from(members: Vec<String>) -> (r: Self)
        ensures
            r == (Members { members }),
    {
        Members { members }
    }
}

impl vstd::std_specs::convert::FromSpecImpl<Vec<String>> for Members {
    open spec fn obeys_from_spec() -> bool {
        true
    }

    open spec fn from_spec(members: Vec<String>) -> Self {
        Members { members }
    }
}

/// A vote on a proposal.
#[derive(Clone, Copy, Debug, PartialEq, Eq, Structural)]
pub enum Vote {
    Yes,
    No,
    NoVote,
    Ratio(u64, u64),
}

impl Vote {
    pub fn new(vote: bool) -> (r: Self)
        ensures
            r == if vote {
                Vote::Yes
            } else {
                Vote::No
            },
    {
        if vote {
            Vote::Yes
        } else {
            Vote::No
        }
    }
}

/// How a vote was cast: through the peer's native governance, through an
/// external governance contract, or by hand.
#[derive(Debug, PartialEq, Eq)]
pub enum Governance {
    Native { proposal_id: u64 },
    ExternalDao { dao_address: String, proposal_id: u64 },
    Manual {},
}

impl Clone for Governance {
    fn clone(&self) -> (r: Self)
        ensures
            r == *self,
    {
        match self {
            Governance::Native { proposal_id } => Governance::Native { proposal_id: *proposal_id },
            Governance::ExternalDao { dao_address, proposal_id } => Governance::ExternalDao {
                dao_address: dao_address.clone(),
                proposal_id: *proposal_id,
            },
            Governance::Manual {} => Governance::Manual {},
        }
    }
}

/// A vote together with how it was cast.
#[derive(Debug, PartialEq, Eq)]
pub struct GovernanceVote {
    pub vote: Vote,
    pub governance: Governance,
}

impl GovernanceVote {
    pub fn new(governance: Governance, vote: Vote) -> (r: Self)
        ensures
            r.vote == vote,
            r.governance == governance,
    {
        GovernanceVote { vote, governance }
    }
}

impl Clone for GovernanceVote {
    fn clone(&self) -> (r: Self)
        ensures
            r == *self,
    {
        GovernanceVote { vote: self.vote, governance: self.governance.clone() }
    }
}

/// What the group runs when a proposal passes.
#[derive(Debug)]
pub enum ProposalAction {
    /// A signalling proposal: no effect beyond the recorded outcome.
    Signal,
    /// Replace the member set of the group.
    UpdateMembers { members: Members },
}

impl ProposalAction {
    /// The member set this action replaces the group with, if it is a
    /// member-set change.
    pub open spec fn update_members(self) -> Option<Members> {
        match self {
            ProposalAction::UpdateMembers { members } => Some(members),
            ProposalAction::Signal => None,
        }
    }

    /// Same action with the same content. Lists compare by their
    /// elements, so a copy of an action is equivalent to its original.
    pub open spec fn eqv(self, other: Self) -> bool {
        match (self, other) {
            (ProposalAction::Signal, ProposalAction::Signal) => true,
            (
                ProposalAction::UpdateMembers { members: a },
                ProposalAction::UpdateMembers { members: b },
            ) => a.names() == b.names(),
            _ => false,
        }
    }
}

impl Clone for ProposalAction {
    fn clone(&self) -> (r: Self)
        ensures
            r.eqv(*self),
    {
        match self {
            ProposalAction::Signal => ProposalAction::Signal,
            ProposalAction::UpdateMembers { members } => ProposalAction::UpdateMembers {
                members: members.clone(),
            },
        }
    }
}

/// A proposal as submitted by a proposer.
#[derive(Debug)]
pub struct ProposalMsg {
    /// The title of the proposal.
    pub title: String,
    /// The main body of the proposal text.
    pub description: String,
    /// The minimum amount of time this proposal must remain open for
    /// voting.
    pub min_voting_period: Option<Expiration>,
    /// The time at which this proposal closes for additional votes.
    pub expiration: Expiration,
    /// A standard action that the group can run.
    pub action: ProposalAction,
}

impl ProposalMsg {
    /// The deterministic identifier of this message: the content hash of
    /// its canonical content. Identical content yields identical
    /// identifiers on every peer.
    pub fn hash(&self) -> (r: String)
        ensures
            r@ == proposal_id_of(self.title@, self.description@),
            r@.len() == 44,
    {
        let mut content = self.title.clone();
        content.append(": ");
        content.append(self.description.as_str());
        let digest = crate::hash::sha256(content.as_str());
        crate::hash::base64_encode(digest.as_slice())
    }
}

impl ProposalMsg {
    /// Same message content: equal fields, with the action compared by
    /// content.
    pub open spec fn eqv(self, other: Self) -> bool {
        &&& self.title == other.title
        &&& self.description == other.description
        &&& self.min_voting_period == other.min_voting_period
        &&& self.expiration == other.expiration
        &&& self.action.eqv(other.action)
    }
}

impl Clone for ProposalMsg {
    fn clone(&self) -> (r: Self)
        ensures
            r.eqv(*self),
    {
        ProposalMsg {
            title: self.title.clone(),
            description: self.description.clone(),
            min_voting_period: self.min_voting_period,
            expiration: self.expiration,
            action: self.action.clone(),
        }
    }
}

/// A proposal as tracked by the group.
#[derive(Debug)]
pub struct Proposal {
    /// The title of the proposal.
    pub title: String,
    /// The main body of the proposal text.
    pub description: String,
    /// The address that created this proposal.
    pub proposer: String,
    /// The chain that created this proposal.
    pub proposer_chain: String,
    /// Action that the group will perform.
    pub action: ProposalAction,
    /// The minimum amount of time this proposal must remain open for
    /// voting.
    pub min_voting_period: Option<Expiration>,
    /// The time at which this proposal closes for additional votes.
    pub expiration: Expiration,
    /// The threshold at which this proposal will pass.
    pub threshold: Threshold,
}

impl Proposal {
    /// Build the tracked proposal from a submitted message: the full group
    /// must agree, so the threshold is one hundred percent.
    pub fn new(proposal: ProposalMsg, proposer: String, proposer_chain: String) -> (r: Self)
        ensures
            r.title == proposal.title,
            r.description == proposal.description,
            r.proposer == proposer,
            r.proposer_chain == proposer_chain,
            r.action == proposal.action,
            r.min_voting_period == proposal.min_voting_period,
            r.expiration == proposal.expiration,
            r.threshold == (Threshold::AbsolutePercentage { percent: 100u64 }),
    {
        let ProposalMsg { title, description, min_voting_period, expiration, action } = proposal;
        Proposal {
            title,
            description,
            proposer,
            proposer_chain,
            action,
            min_voting_period,
            expiration,
            threshold: Threshold::AbsolutePercentage { percent: 100 },
        }
    }
}

impl Proposal {
    /// Same proposal content: equal fields, with the action compared by
    /// content.
    pub open spec fn eqv(self, other: Self) -> bool {
        &&& self.title == other.title
        &&& self.description == other.description
        &&& self.proposer == other.proposer
        &&& self.proposer_chain == other.proposer_chain
        &&& self.action.eqv(other.action)
        &&& self.min_voting_period == other.min_voting_period
        &&& self.expiration == other.expiration
        &&& self.threshold == other.threshold
    }
}

impl Clone for Proposal {
    fn clone(&self) -> (r: Self)
        ensures
            r.eqv(*self),
    {
        Proposal {
            title: self.title.clone(),
            description: self.description.clone(),
            proposer: self.proposer.clone(),
            proposer_chain: self.proposer_chain.clone(),
            action: self.action.clone(),
            min_voting_period: self.min_voting_period,
            expiration: self.expiration,
            threshold: self.threshold,
        }
    }
}

/// A tracked proposal together with this node's vote on it: the value
/// replicated by the proposal overlay.
#[derive(Debug)]
pub struct ProposalRecord {
    pub proposal: Proposal,
    pub vote: Vote,
}

impl ProposalRecord {
    /// Same record content.
    pub open spec fn eqv(self, other: Self) -> bool {
        self.proposal.eqv(other.proposal) && self.vote == other.vote
    }
}

impl Clone for ProposalRecord {
    fn clone(&self) -> (r: Self)
        ensures
            r.eqv(*self),
    {
        ProposalRecord { proposal: self.proposal.clone(), vote: self.vote }
    }
}

/// The tallied outcome of an executed proposal.
#[derive(Clone, Copy, Debug, PartialEq, Eq, Structural)]
pub struct ProposalOutcome {
    pub passed: bool,
    pub votes_for: u128,
    pub votes_against: u128,
}

/// A remote governance tally, delivered by the external tally correlator.
#[derive(Clone, Copy, Debug, PartialEq, Eq, Structural)]
pub struct TallyResult {
    pub yes: u128,
    pub no: u128,
    pub abstain: u128,
    pub no_with_veto: u128,
}

/// An executed proposal together with its outcome.
#[derive(Debug)]
pub struct FinalizedProposal {
    pub proposal: Proposal,
    pub outcome: ProposalOutcome,
}

impl FinalizedProposal {
    /// Same executed proposal and outcome.
    pub open spec fn eqv(self, other: Self) -> bool {
        self.proposal.eqv(other.proposal) && self.outcome == other.outcome
    }
}

impl Clone for FinalizedProposal {
    fn clone(&self) -> (r: Self)
        ensures
            r.eqv(*self),
    {
        FinalizedProposal { proposal: self.proposal.clone(), outcome: self.outcome }
    }
}

/// The identifier a registration call is correlated by until the remote
/// side assigns a query identifier. Kept distinct from `QueryId` so the
/// two correlation tables can never be cross-wired.
#[derive(Clone, Copy, Debug, PartialEq, Eq, Structural)]
pub struct ReplyId(pub u64);

/// The identifier an established remote query is correlated by.
#[derive(Clone, Copy, Debug, PartialEq, Eq, Structural)]
pub struct QueryId(pub u64);

/// What a pending registration reply or remote query is about: the peer
/// whose tally was asked for and the proposal it belongs to.
#[derive(Debug, PartialEq, Eq)]
pub struct QueryTarget {
    pub chain: String,
    pub prop_id: ProposalId,
}

impl Clone for QueryTarget {
    fn clone(&self) -> (r: Self)
        ensures
            r == *self,
    {
        QueryTarget { chain: self.chain.clone(), prop_id: self.prop_id.clone() }
    }
}

/// One peer's reported vote on one proposal: `None` while requested but
/// still pending.
#[derive(Debug)]
pub struct VoteResult {
    pub chain: String,
    pub vote: Option<GovernanceVote>,
}

impl Clone for VoteResult {
    fn clone(&self) -> (r: Self)
        ensures
            r == *self,
    {
        let vote = match &self.vote {
            Some(v) => Some(v.clone()),
            None => None,
        };
        VoteResult { chain: self.chain.clone(), vote }
    }
}

/// One peer's authoritative governance tally for one proposal: `None`
/// while the external query is still pending.
#[derive(Debug)]
pub struct GovQueryResult {
    pub chain: String,
    pub tally: Option<TallyResult>,
}

impl Clone for GovQueryResult {
    fn clone(&self) -> (r: Self)
        ensures
            r == *self,
    {
        GovQueryResult { chain: self.chain.clone(), tally: self.tally }
    }
}

} // verus!
