//! The voting state machine: the operations that callers reach, each
//! one read of the store followed by at most one write.

use vstd::prelude::*;
use crate::codec::fits;
use crate::identity::{is_among, Identity};
use crate::proposal::{
    created, edited, ended, tallied, tally, Choice, CreateProposal, Proposal, ProposalData,
    RequestData, VoteError,
};
use crate::store::{ProposalStore, RecordTooLarge};

verus! {

/// What an edit by `caller` of the proposal under `key` comes to: the
/// record to write, or the reason for refusing.
pub open spec fn edit_outcome(
    records: Map<u64, ProposalData>,
    caller: Seq<u8>,
    key: u64,
    request: RequestData,
) -> Result<ProposalData, VoteError> {
    if !records.contains_key(key) {
        Err(VoteError::NoSuchProposal)
    } else if records[key].owner != caller {
        Err(VoteError::AccessRejected)
    } else {
        Ok(edited(records[key], request))
    }
}

/// What closing the proposal under `key` by `caller` comes to.
pub open spec fn end_outcome(records: Map<u64, ProposalData>, caller: Seq<u8>, key: u64) -> Result<
    ProposalData,
    VoteError,
> {
    if !records.contains_key(key) {
        Err(VoteError::NoSuchProposal)
    } else if records[key].owner != caller {
        Err(VoteError::AccessRejected)
    } else {
        Ok(ended(records[key]))
    }
}

/// What a vote of `caller` on the proposal under `key` comes to. An
/// earlier vote of the same caller is found before a closed proposal
/// is.
pub open spec fn vote_outcome(
    records: Map<u64, ProposalData>,
    caller: Seq<u8>,
    key: u64,
    choice: Choice,
) -> Result<ProposalData, VoteError> {
    if !records.contains_key(key) {
        Err(VoteError::NoSuchProposal)
    } else if records[key].voted.contains(caller) {
        Err(VoteError::AlreadyVoted)
    } else if !records[key].is_active {
        Err(VoteError::ProposalIsNotActive)
    } else {
        Ok(tallied(records[key], caller, choice))
    }
}

/// The records after an operation on `key` that came to `outcome`: the
/// new record is written, a refusal changes nothing.
pub open spec fn after(
    records: Map<u64, ProposalData>,
    key: u64,
    outcome: Result<ProposalData, VoteError>,
) -> Map<u64, ProposalData> {
    match outcome {
        Ok(record) => records.insert(key, record),
        Err(_) => records,
    }
}

/// What the caller is told of an operation that came to `outcome`.
pub open spec fn answer(outcome: Result<ProposalData, VoteError>) -> Result<(), VoteError> {
    match outcome {
        Ok(_) => Ok(()),
        Err(reason) => Err(reason),
    }
}

/// Whether the record that `outcome` asks to write, if any, can be
/// stored.
pub open spec fn storable(outcome: Result<ProposalData, VoteError>) -> bool {
    outcome matches Ok(record) ==> fits(record)
}

/// Whether a vote can be carried out: where it is accepted, the tally
/// has room for one more and the new record can be stored.
pub open spec fn vote_ready(
    records: Map<u64, ProposalData>,
    caller: Seq<u8>,
    key: u64,
    choice: Choice,
) -> bool {
    let outcome = vote_outcome(records, caller, key, choice);
    &&& outcome is Ok ==> tally(records[key], choice) < u32::MAX
    &&& storable(outcome)
}

/// The proposal stored under `key`, if there is one.
pub fn get_proposal(store: &ProposalStore, key: u64) -> (proposal: Option<Proposal>)
    requires
        store.wf(),
    ensures
        proposal is Some <==> store@.contains_key(key),
        proposal matches Some(p) ==> p@ == store@[key] && p.wf(),
{
    store.get(key)
}

/// The number of proposals stored.
pub fn get_proposal_count(store: &ProposalStore) -> (count: u64)
    requires
        store.wf(),
    ensures
        count == store@.dom().len(),
{
    store.count()
}

/// Stores under `key` a new proposal that `caller` owns, with no votes,
/// and returns the proposal that was stored there before. A proposal
/// that was there is replaced, votes and owner with it.
pub fn create_proposal(
    store: &mut ProposalStore,
    caller: &Identity,
    key: u64,
    proposal: CreateProposal,
) -> (previous: Option<Proposal>)
    requires
        old(store).wf(),
        caller.wf(),
        fits(created(caller@, proposal@)),
    ensures
        final(store).wf(),
        final(store)@ == old(store)@.insert(key, created(caller@, proposal@)),
        previous is Some <==> old(store)@.contains_key(key),
        previous matches Some(p) ==> p@ == old(store)@[key] && p.wf(),
{
    let value = Proposal::create(caller.duplicate(), proposal);
    store.put(key, &value)
}

/// Whether the proposal that `caller` would create can be stored.
pub fn create_fits(caller: &Identity, proposal: &CreateProposal) -> (ok: bool)
    requires
        caller.wf(),
    ensures
        ok == fits(created(caller@, proposal@)),
{
    let request =
        CreateProposal { description: proposal.description.clone(), is_active: proposal.is_active };
    Proposal::create(caller.duplicate(), request).fits()
}

/// [`create_proposal`], unless the new proposal is too large to be
/// stored: then the store stays as it is.
pub fn try_create_proposal(
    store: &mut ProposalStore,
    caller: &Identity,
    key: u64,
    proposal: CreateProposal,
) -> (outcome: Result<Option<Proposal>, RecordTooLarge>)
    requires
        old(store).wf(),
        caller.wf(),
    ensures
        final(store).wf(),
        outcome is Ok <==> fits(created(caller@, proposal@)),
        outcome is Err ==> final(store)@ == old(store)@,
        outcome matches Ok(previous) ==> {
            &&& final(store)@ == old(store)@.insert(key, created(caller@, proposal@))
            &&& previous is Some <==> old(store)@.contains_key(key)
            &&& previous matches Some(p) ==> p@ == old(store)@[key] && p.wf()
        },
{
    if create_fits(caller, &proposal) {
        Ok(create_proposal(store, caller, key, proposal))
    } else {
        Err(RecordTooLarge)
    }
}

/// Replaces the description and the activity of the proposal under
/// `key`. Only its owner may; tallies, voters and owner stay.
pub fn edit_proposal(
    store: &mut ProposalStore,
    caller: &Identity,
    key: u64,
    proposal: CreateProposal,
) -> (result: Result<(), VoteError>)
    requires
        old(store).wf(),
        storable(edit_outcome(old(store)@, caller@, key, proposal@)),
    ensures
        final(store).wf(),
        final(store)@ == after(old(store)@, key, edit_outcome(old(store)@, caller@, key, proposal@)),
        result == answer(edit_outcome(old(store)@, caller@, key, proposal@)),
{
    let old_proposal = match store.get(key) {
        Some(value) => value,
        None => return Err(VoteError::NoSuchProposal),
    };

    if !old_proposal.owner.same(caller) {
        return Err(VoteError::AccessRejected);
    }

    let value = old_proposal.edit(proposal);

    match store.put(key, &value) {
        Some(_) => Ok(()),
        None => Err(VoteError::UpdateError),
    }
}

/// Whether the record that [`edit_proposal`] would write, if it would
/// write one, can be stored.
pub fn edit_fits(store: &ProposalStore, caller: &Identity, key: u64, proposal: &CreateProposal) -> (ok:
    bool)
    requires
        store.wf(),
    ensures
        ok == storable(edit_outcome(store@, caller@, key, proposal@)),
{
    match store.get(key) {
        Some(current) => {
            if current.owner.same(caller) {
                let request = CreateProposal {
                    description: proposal.description.clone(),
                    is_active: proposal.is_active,
                };
                current.edit(request).fits()
            } else {
                true
            }
        },
        None => true,
    }
}

/// [`edit_proposal`], unless the edited proposal is too large to be
/// stored: then nothing is answered and the store stays as it is.
pub fn try_edit_proposal(
    store: &mut ProposalStore,
    caller: &Identity,
    key: u64,
    proposal: CreateProposal,
) -> (result: Option<Result<(), VoteError>>)
    requires
        old(store).wf(),
    ensures
        final(store).wf(),
        result is Some <==> storable(edit_outcome(old(store)@, caller@, key, proposal@)),
        result is None ==> final(store)@ == old(store)@,
        result matches Some(r) ==> {
            &&& final(store)@ == after(
                old(store)@,
                key,
                edit_outcome(old(store)@, caller@, key, proposal@),
            )
            &&& r == answer(edit_outcome(old(store)@, caller@, key, proposal@))
        },
{
    if edit_fits(store, caller, key, &proposal) {
        Some(edit_proposal(store, caller, key, proposal))
    } else {
        None
    }
}

/// Closes the proposal under `key` to further votes. Only its owner
/// may.
pub fn end_proposal(store: &mut ProposalStore, caller: &Identity, key: u64) -> (result: Result<
    (),
    VoteError,
>)
    requires
        old(store).wf(),
        storable(end_outcome(old(store)@, caller@, key)),
    ensures
        final(store).wf(),
        final(store)@ == after(old(store)@, key, end_outcome(old(store)@, caller@, key)),
        result == answer(end_outcome(old(store)@, caller@, key)),
{
    let old_proposal = match store.get(key) {
        Some(value) => value,
        None => return Err(VoteError::NoSuchProposal),
    };

    if !old_proposal.owner.same(caller) {
        return Err(VoteError::AccessRejected);
    }

    let value = old_proposal.end();

    match store.put(key, &value) {
        Some(_) => Ok(()),
        None => Err(VoteError::UpdateError),
    }
}

/// Whether the record that [`end_proposal`] would write, if it would
/// write one, can be stored.
pub fn end_fits(store: &ProposalStore, caller: &Identity, key: u64) -> (ok: bool)
    requires
        store.wf(),
    ensures
        ok == storable(end_outcome(store@, caller@, key)),
{
    match store.get(key) {
        Some(current) => {
            if current.owner.same(caller) {
                current.end().fits()
            } else {
                true
            }
        },
        None => true,
    }
}

/// [`end_proposal`], unless the closed proposal is too large to be
/// stored: then nothing is answered and the store stays as it is.
pub fn try_end_proposal(store: &mut ProposalStore, caller: &Identity, key: u64) -> (result: Option<
    Result<(), VoteError>,
>)
    requires
        old(store).wf(),
    ensures
        final(store).wf(),
        result is Some <==> storable(end_outcome(old(store)@, caller@, key)),
        result is None ==> final(store)@ == old(store)@,
        result matches Some(r) ==> {
            &&& final(store)@ == after(old(store)@, key, end_outcome(old(store)@, caller@, key))
            &&& r == answer(end_outcome(old(store)@, caller@, key))
        },
{
    if end_fits(store, caller, key) {
        Some(end_proposal(store, caller, key))
    } else {
        None
    }
}

/// Counts the answer of `caller` to the proposal under `key`: the tally
/// of `choice` rises by one and `caller` joins the voters. A caller
/// votes once on a proposal, and only while it is active.
pub fn vote(store: &mut ProposalStore, caller: &Identity, key: u64, choice: Choice) -> (result:
    Result<(), VoteError>)
    requires
        old(store).wf(),
        caller.wf(),
        vote_ready(old(store)@, caller@, key, choice),
    ensures
        final(store).wf(),
        final(store)@ == after(old(store)@, key, vote_outcome(old(store)@, caller@, key, choice)),
        result == answer(vote_outcome(old(store)@, caller@, key, choice)),
{
    let proposal = match store.get(key) {
        Some(value) => value,
        None => return Err(VoteError::NoSuchProposal),
    };

    if is_among(&proposal.voted, caller) {
        return Err(VoteError::AlreadyVoted);
    } else if !proposal.is_active {
        return Err(VoteError::ProposalIsNotActive);
    }

    let value = proposal.record_vote(caller.duplicate(), choice);

    match store.put(key, &value) {
        Some(_) => Ok(()),
        None => Err(VoteError::UpdateError),
    }
}

/// Whether [`vote`] can be carried out.
pub fn vote_fits(store: &ProposalStore, caller: &Identity, key: u64, choice: Choice) -> (ok: bool)
    requires
        store.wf(),
        caller.wf(),
    ensures
        ok == vote_ready(store@, caller@, key, choice),
{
    match store.get(key) {
        Some(current) => {
            if is_among(&current.voted, caller) || !current.is_active {
                true
            } else if current.tally_of(choice) == u32::MAX {
                false
            } else {
                current.record_vote(caller.duplicate(), choice).fits()
            }
        },
        None => true,
    }
}

/// [`vote`], unless the tally is full or the proposal with one more
/// voter is too large to be stored: then nothing is answered and the
/// store stays as it is.
pub fn try_vote(store: &mut ProposalStore, caller: &Identity, key: u64, choice: Choice) -> (result:
    Option<Result<(), VoteError>>)
    requires
        old(store).wf(),
        caller.wf(),
    ensures
        final(store).wf(),
        result is Some <==> vote_ready(old(store)@, caller@, key, choice),
        result is None ==> final(store)@ == old(store)@,
        result matches Some(r) ==> {
            &&& final(store)@ == after(
                old(store)@,
                key,
                vote_outcome(old(store)@, caller@, key, choice),
            )
            &&& r == answer(vote_outcome(old(store)@, caller@, key, choice))
        },
{
    if vote_fits(store, caller, key, choice) {
        Some(vote(store, caller, key, choice))
    } else {
        None
    }
}

} // verus!
