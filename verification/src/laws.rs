//! What holds of the registry whatever its records are, stated over the
//! outcomes that the operations are specified by.

use vstd::prelude::*;
use crate::proposal::{
    created, edited, ended, tallied, tally, Choice, ProposalData, RequestData, VoteError,
};
use crate::registry::{after, answer, edit_outcome, end_outcome, vote_outcome};

verus! {

/// The votes counted on a record, over its three tallies.
pub open spec fn votes(data: ProposalData) -> int {
    data.approve + data.reject + data.pass
}

/// A key under which nothing was written holds no record, and stays
/// so whatever is written under another key, be it a new proposal or
/// what an edit, a close or a vote comes to. Reading changes nothing:
/// the operations that read borrow the store shared.
pub proof fn law_unwritten_key_is_absent(
    records: Map<u64, ProposalData>,
    key: u64,
    other: u64,
    record: ProposalData,
    outcome: Result<ProposalData, VoteError>,
)
    requires
        !records.contains_key(key),
        other != key,
    ensures
        !records.insert(other, record).contains_key(key),
        !after(records, other, outcome).contains_key(key),
{
}

/// Writing under a key that held nothing makes the records one more;
/// writing under a key that held a record leaves their number.
pub proof fn law_count_follows_keys(
    records: Map<u64, ProposalData>,
    key: u64,
    record: ProposalData,
)
    requires
        records.dom().finite(),
    ensures
        records.insert(key, record).dom().finite(),
        records.contains_key(key) ==> records.insert(key, record).dom().len()
            == records.dom().len(),
        !records.contains_key(key) ==> records.insert(key, record).dom().len()
            == records.dom().len() + 1,
{
    assert(records.insert(key, record).dom() =~= records.dom().insert(key));
}

/// A proposal just created reads back with no votes and no voters,
/// owned by its creator, with the description and the activity that
/// were asked for.
pub proof fn law_created_proposal_reads_back(
    records: Map<u64, ProposalData>,
    caller: Seq<u8>,
    key: u64,
    request: RequestData,
)
    ensures
        ({
            let now = records.insert(key, created(caller, request));
            &&& now.contains_key(key)
            &&& now[key].approve == 0
            &&& now[key].reject == 0
            &&& now[key].pass == 0
            &&& now[key].voted.len() == 0
            &&& now[key].owner == caller
            &&& now[key].description == request.description
            &&& now[key].is_active == request.is_active
        }),
{
}

/// An edit by anyone but the owner is refused as `AccessRejected`, and
/// the records stay as they were.
pub proof fn law_edit_by_stranger_is_rejected(
    records: Map<u64, ProposalData>,
    caller: Seq<u8>,
    key: u64,
    request: RequestData,
)
    requires
        records.contains_key(key),
        records[key].owner != caller,
    ensures
        answer(edit_outcome(records, caller, key, request)) == Err::<(), VoteError>(
            VoteError::AccessRejected,
        ),
        after(records, key, edit_outcome(records, caller, key, request)) == records,
{
}

/// Under a key that holds nothing, an edit and a close are both refused
/// as `NoSuchProposal`, and the records stay as they were.
pub proof fn law_missing_proposal_is_reported(
    records: Map<u64, ProposalData>,
    caller: Seq<u8>,
    key: u64,
    request: RequestData,
)
    requires
        !records.contains_key(key),
    ensures
        answer(edit_outcome(records, caller, key, request)) == Err::<(), VoteError>(
            VoteError::NoSuchProposal,
        ),
        answer(end_outcome(records, caller, key)) == Err::<(), VoteError>(
            VoteError::NoSuchProposal,
        ),
        after(records, key, edit_outcome(records, caller, key, request)) == records,
        after(records, key, end_outcome(records, caller, key)) == records,
{
}

/// Of two votes of one caller on an active proposal, the first is
/// counted: the tally of its choice rises by one and the other two
/// stay. The second is refused as `AlreadyVoted`, and the records stay
/// as the first vote left them.
pub proof fn law_second_vote_is_refused(
    records: Map<u64, ProposalData>,
    caller: Seq<u8>,
    key: u64,
    first: Choice,
    second: Choice,
)
    requires
        records.contains_key(key),
        records[key].is_active,
        !records[key].voted.contains(caller),
        tally(records[key], first) < u32::MAX,
    ensures
        ({
            let counted = after(records, key, vote_outcome(records, caller, key, first));
            let again = vote_outcome(counted, caller, key, second);
            &&& answer(vote_outcome(records, caller, key, first)) == Ok::<(), VoteError>(())
            &&& counted.contains_key(key)
            &&& tally(counted[key], first) == tally(records[key], first) + 1
            &&& votes(counted[key]) == votes(records[key]) + 1
            &&& answer(again) == Err::<(), VoteError>(VoteError::AlreadyVoted)
            &&& after(counted, key, again) == counted
        }),
{
    let counted = after(records, key, vote_outcome(records, caller, key, first));
    assert(counted[key].voted.last() == caller);
}

/// A vote on a closed proposal by a caller who has not voted on it is
/// refused as `ProposalIsNotActive`, and the records stay as they were.
/// (A caller who has voted on it is told `AlreadyVoted`.)
pub proof fn law_vote_on_closed_proposal_is_refused(
    records: Map<u64, ProposalData>,
    caller: Seq<u8>,
    key: u64,
    choice: Choice,
)
    requires
        records.contains_key(key),
        !records[key].is_active,
        !records[key].voted.contains(caller),
    ensures
        answer(vote_outcome(records, caller, key, choice)) == Err::<(), VoteError>(
            VoteError::ProposalIsNotActive,
        ),
        after(records, key, vote_outcome(records, caller, key, choice)) == records,
{
}

/// A record that was put under a key is the record read there, equal
/// in every field.
pub proof fn law_put_then_get(records: Map<u64, ProposalData>, key: u64, record: ProposalData)
    ensures
        records.insert(key, record).contains_key(key),
        records.insert(key, record)[key] == record,
        forall|other: u64|
            other != key && records.contains_key(other) ==> #[trigger] records.insert(
                key,
                record,
            )[other] == records[other],
{
}

/// No change to a record changes its owner.
pub proof fn law_owner_is_kept(
    data: ProposalData,
    request: RequestData,
    voter: Seq<u8>,
    choice: Choice,
)
    ensures
        edited(data, request).owner == data.owner,
        ended(data).owner == data.owner,
        tallied(data, voter, choice).owner == data.owner,
{
}

/// Voters are only ever added, and only by a vote: an edit and a close
/// keep them and the tallies, and an accepted vote appends the caller,
/// who was not among them, so that voters who were distinct stay
/// distinct.
pub proof fn law_voters_only_grow(
    records: Map<u64, ProposalData>,
    caller: Seq<u8>,
    key: u64,
    request: RequestData,
    choice: Choice,
)
    requires
        records.contains_key(key),
    ensures
        edited(records[key], request).voted == records[key].voted,
        ended(records[key]).voted == records[key].voted,
        votes(edited(records[key], request)) == votes(records[key]),
        votes(ended(records[key])) == votes(records[key]),
        vote_outcome(records, caller, key, choice) matches Ok(next) ==> {
            &&& records[key].is_active
            &&& next.voted == records[key].voted.push(caller)
            &&& records[key].voted.no_duplicates() ==> next.voted.no_duplicates()
        },
{
    if let Ok(next) = vote_outcome(records, caller, key, choice) {
        let before = records[key].voted;
        if before.no_duplicates() {
            assert forall|i: int, j: int|
                0 <= i < next.voted.len() && 0 <= j < next.voted.len() && i != j implies next.voted[i]
                != next.voted[j] by {
                if i < before.len() {
                    assert(before[i] == next.voted[i]);
                    assert(before.contains(before[i]));
                }
                if j < before.len() {
                    assert(before[j] == next.voted[j]);
                    assert(before.contains(before[j]));
                }
            }
        }
    }
}

/// A closed proposal stays closed under votes and under a close; only
/// an edit by its owner sets the activity anew.
pub proof fn law_close_is_kept(data: ProposalData, voter: Seq<u8>, choice: Choice)
    ensures
        !ended(data).is_active,
        tallied(data, voter, choice).is_active == data.is_active,
        ended(ended(data)) == ended(data),
{
}

} // verus!
