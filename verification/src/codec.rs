//! Records as bytes: the Candid encoding of a proposal, and what this
//! library takes on trust about it.

use vstd::prelude::*;
use candid::Principal;
use crate::identity::Identity;
use crate::proposal::{Proposal, ProposalData};
use crate::tree::MAX_VALUE_SIZE;

verus! {

/// The Candid message that holds the fields of `record` as its
/// arguments, in the order of their declaration: a text, three `nat32`,
/// a `bool`, a vector of principals and a principal.
pub uninterp spec fn record_bytes(record: ProposalData) -> Seq<u8>;

/// The record that a Candid message decodes to, if it decodes to one.
pub uninterp spec fn record_of(bytes: Seq<u8>) -> Option<ProposalData>;

/// Whether the encoding of `record` is short enough to be stored.
pub open spec fn fits(record: ProposalData) -> bool {
    record_bytes(record).len() <= MAX_VALUE_SIZE
}

/// `candid::encode_args` on the fields of `record`, each identity as a
/// `Principal` made by `Principal::from_slice`. The encoder cannot fail
/// on these types, and what it writes depends on the fields alone. The
/// second clause is Candid's round trip: `candid::decode_args`, asked
/// for the same types, gives the same fields back.
/// `from_slice` panics on more than 29 bytes, which a well-formed
/// record does not have.
#[verifier::external_body]
pub(crate) fn encode_record(record: &Proposal) -> (bytes: Vec<u8>)
    requires
        record.wf(),
    ensures
        bytes@ == record_bytes(record@),
        record_of(bytes@) == Some(record@),
{
    let voted: Vec<Principal> =
        record.voted.iter().map(|id| Principal::from_slice(id.as_bytes())).collect();
    let owner = Principal::from_slice(record.owner.as_bytes());
    candid::encode_args(
        (&record.description, record.approve, record.reject, record.pass, record.is_active, voted, owner),
    ).unwrap()
}

/// `candid::decode_args`, asked for a text, three `nat32`, a `bool`, a
/// vector of principals and a principal; each principal is kept by its
/// bytes (`Principal::as_slice`), which are never more than 29. What
/// comes out depends on the bytes alone, short of a call stack that is
/// nearly used up.
#[verifier::external_body]
pub(crate) fn decode_record(bytes: &Vec<u8>) -> (record: Option<Proposal>)
    ensures
        record is Some <==> record_of(bytes@) is Some,
        record matches Some(p) ==> record_of(bytes@) == Some(p@) && p.wf(),
{
    let fields: (String, u32, u32, u32, bool, Vec<Principal>, Principal) =
        candid::decode_args(bytes.as_slice()).ok()?;
    Some(Proposal {
        description: fields.0,
        approve: fields.1,
        reject: fields.2,
        pass: fields.3,
        is_active: fields.4,
        voted: fields.5.iter().map(|p| Identity { bytes: p.as_slice().to_vec() }).collect(),
        owner: Identity { bytes: fields.6.as_slice().to_vec() },
    })
}

impl Proposal {
    /// The encoding of this record.
    pub fn to_bytes(&self) -> (bytes: Vec<u8>)
        requires
            self.wf(),
        ensures
            bytes@ == record_bytes(self@),
            record_of(bytes@) == Some(self@),
    {
        encode_record(self)
    }

    /// The record that `bytes` encode, if they encode one.
    pub fn from_bytes(bytes: &Vec<u8>) -> (record: Option<Proposal>)
        ensures
            record is Some <==> record_of(bytes@) is Some,
            record matches Some(p) ==> record_of(bytes@) == Some(p@) && p.wf(),
    {
        decode_record(bytes)
    }

    /// Whether the encoding of this record is short enough to be stored.
    pub fn fits(&self) -> (ok: bool)
        requires
            self.wf(),
        ensures
            ok == fits(self@),
    {
        encode_record(self).len() <= MAX_VALUE_SIZE
    }
}

} // verus!
