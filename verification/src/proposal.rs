//! Proposals, the requests that make and change them, and the ways a
//! record may change.

use vstd::prelude::*;
use crate::identity::{identities, is_identity, Identity};

verus! {

/// What a voter may answer to a proposal.
#[derive(Clone, Copy, Debug, PartialEq, Eq)]
pub enum Choice {
    Approve,
    Reject,
    Pass,
}

/// Why a change to a proposal was refused.
#[derive(Clone, Copy, Debug, PartialEq, Eq)]
pub enum VoteError {
    /// The caller has voted on this proposal before.
    AlreadyVoted,
    /// The proposal is closed to votes.
    ProposalIsNotActive,
    /// No proposal is stored under the key.
    NoSuchProposal,
    /// The caller does not own the proposal.
    AccessRejected,
    /// The store did not find the record it had just read.
    UpdateError,
}

/// A proposal as it is stored.
#[derive(Clone, Debug, PartialEq, Eq)]
pub struct Proposal {
    pub description: String,
    pub approve: u32,
    pub reject: u32,
    pub pass: u32,
    pub is_active: bool,
    /// Everyone who has voted, each once.
    pub voted: Vec<Identity>,
    pub owner: Identity,
}

/// What a caller supplies to make or edit a proposal.
#[derive(Clone, Debug, PartialEq, Eq)]
pub struct CreateProposal {
    pub description: String,
    pub is_active: bool,
}

/// The mathematical content of a [`Proposal`].
pub ghost struct ProposalData {
    pub description: Seq<char>,
    pub approve: u32,
    pub reject: u32,
    pub pass: u32,
    pub is_active: bool,
    pub voted: Seq<Seq<u8>>,
    pub owner: Seq<u8>,
}

/// The mathematical content of a [`CreateProposal`].
pub ghost struct RequestData {
    pub description: Seq<char>,
    pub is_active: bool,
}

impl View for Proposal {
    type V = ProposalData;

    open spec fn view(&self) -> ProposalData {
        ProposalData {
            description: self.description@,
            approve: self.approve,
            reject: self.reject,
            pass: self.pass,
            is_active: self.is_active,
            voted: identities(self.voted@),
            owner: self.owner@,
        }
    }
}

impl View for CreateProposal {
    type V = RequestData;

    open spec fn view(&self) -> RequestData {
        RequestData { description: self.description@, is_active: self.is_active }
    }
}

/// A record is well formed when its owner and each of its voters is an
/// identity.
pub open spec fn data_wf(data: ProposalData) -> bool {
    &&& is_identity(data.owner)
    &&& forall|i: int| 0 <= i < data.voted.len() ==> is_identity(#[trigger] data.voted[i])
}

/// The record that `owner` makes from `request`: no votes yet.
pub open spec fn created(owner: Seq<u8>, request: RequestData) -> ProposalData {
    ProposalData {
        description: request.description,
        approve: 0,
        reject: 0,
        pass: 0,
        is_active: request.is_active,
        voted: Seq::empty(),
        owner,
    }
}

/// `data` with its description and activity taken from `request`; the
/// tallies, the voters and the owner stay.
pub open spec fn edited(data: ProposalData, request: RequestData) -> ProposalData {
    ProposalData { description: request.description, is_active: request.is_active, ..data }
}

/// `data`, closed to further votes.
pub open spec fn ended(data: ProposalData) -> ProposalData {
    ProposalData { is_active: false, ..data }
}

/// The tally of `data` that `choice` counts towards.
pub open spec fn tally(data: ProposalData, choice: Choice) -> u32 {
    match choice {
        Choice::Approve => data.approve,
        Choice::Reject => data.reject,
        Choice::Pass => data.pass,
    }
}

/// `data` after `voter` has answered `choice`: the matching tally is one
/// higher, and `voter` is the last of the voters.
pub open spec fn tallied(data: ProposalData, voter: Seq<u8>, choice: Choice) -> ProposalData
    recommends
        tally(data, choice) < u32::MAX,
{
    let voted = data.voted.push(voter);
    match choice {
        Choice::Approve => ProposalData { approve: (data.approve + 1) as u32, voted, ..data },
        Choice::Reject => ProposalData { reject: (data.reject + 1) as u32, voted, ..data },
        Choice::Pass => ProposalData { pass: (data.pass + 1) as u32, voted, ..data },
    }
}

impl Proposal {
    /// Whether the owner and each voter is a well-formed identity.
    pub open spec fn wf(&self) -> bool {
        data_wf(self@)
    }

    /// A new proposal owned by `owner`, with no votes.
    pub fn create(owner: Identity, request: CreateProposal) -> (proposal: Proposal)
        requires
            owner.wf(),
        ensures
            proposal@ == created(owner@, request@),
            proposal.wf(),
    {
        let proposal = Proposal {
            description: request.description,
            approve: 0u32,
            reject: 0u32,
            pass: 0u32,
            is_active: request.is_active,
            voted: Vec::new(),
            owner,
        };
        assert(proposal@.voted =~= Seq::empty());
        proposal
    }

    /// This proposal with the description and activity of `request`.
    pub fn edit(self, request: CreateProposal) -> (proposal: Proposal)
        ensures
            proposal@ == edited(self@, request@),
            self.wf() ==> proposal.wf(),
    {
        let proposal = Proposal {
            description: request.description,
            approve: self.approve,
            reject: self.reject,
            pass: self.pass,
            is_active: request.is_active,
            voted: self.voted,
            owner: self.owner,
        };
        assert(proposal@.voted == self@.voted);
        proposal
    }

    /// This proposal, closed to further votes.
    pub fn end(self) -> (proposal: Proposal)
        ensures
            proposal@ == ended(self@),
            self.wf() ==> proposal.wf(),
    {
        let mut proposal = self;
        proposal.is_active = false;
        assert(proposal@.voted == self@.voted);
        proposal
    }

    /// The tally that `choice` counts towards.
    pub fn tally_of(&self, choice: Choice) -> (count: u32)
        ensures
            count == tally(self@, choice),
    {
        match choice {
            Choice::Approve => self.approve,
            Choice::Reject => self.reject,
            Choice::Pass => self.pass,
        }
    }

    /// This proposal after `voter` has answered `choice`. Every answer
    /// raises its own tally by one, `Pass` like the other two.
    pub fn record_vote(self, voter: Identity, choice: Choice) -> (proposal: Proposal)
        requires
            tally(self@, choice) < u32::MAX,
        ensures
            proposal@ == tallied(self@, voter@, choice),
            self.wf() && voter.wf() ==> proposal.wf(),
    {
        let mut proposal = self;
        match choice {
            Choice::Approve => proposal.approve += 1,
            Choice::Pass => proposal.pass += 1,
            Choice::Reject => proposal.reject += 1,
        }
        proposal.voted.push(voter);
        assert(proposal@.voted =~= self@.voted.push(voter@));
        proposal
    }
}

} // verus!
