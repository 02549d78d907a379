//! The durable record store: proposals by key, kept as bytes in a
//! stable B-tree.

use vstd::prelude::*;
use crate::codec::{decode_record, encode_record, fits, record_of};
use crate::proposal::{data_wf, Proposal, ProposalData};
use crate::tree::{stored, tree_get, tree_init, tree_insert, tree_keys, tree_len, RecordTree};

verus! {

/// The virtual memory that the registry keeps its records in.
pub const PROPOSAL_MEMORY: u8 = 0;

/// A record was not stored because its encoding is longer than
/// [`crate::tree::MAX_VALUE_SIZE`] bytes.
#[derive(Clone, Copy, Debug, PartialEq, Eq)]
pub struct RecordTooLarge;

/// Whether `bytes` encode a well-formed record.
pub open spec fn readable(bytes: Seq<u8>) -> bool {
    record_of(bytes) matches Some(record) && data_wf(record)
}

/// A map from 64-bit keys to proposals that outlives the process.
pub struct ProposalStore {
    tree: RecordTree,
}

impl View for ProposalStore {
    type V = Map<u64, ProposalData>;

    /// The records of the store, each under its key.
    open spec fn view(&self) -> Map<u64, ProposalData> {
        Map::new(
            |key: u64| self.entries().contains_key(key),
            |key: u64| record_of(self.entries()[key]).unwrap(),
        )
    }
}

impl ProposalStore {
    /// The bytes stored under each key.
    pub closed spec fn entries(&self) -> Map<u64, Seq<u8>> {
        stored(self.tree)
    }

    /// A store is sound when it has finitely many entries and each of
    /// them is a readable record.
    pub open spec fn wf(&self) -> bool {
        &&& self.entries().dom().finite()
        &&& forall|key: u64| #[trigger]
            self.entries().contains_key(key) ==> readable(self.entries()[key])
    }

    /// Opens the store in stable memory: the records written before are
    /// there again; where there were none, the store is empty. Whether
    /// what was found is sound is for [`ProposalStore::is_sound`] to
    /// tell. A canister opens its store once and keeps it: a second
    /// store opened on the same stable memory knows nothing of what is
    /// written through the first.
    pub fn init() -> (store: ProposalStore)
        ensures
            store.entries().dom().finite(),
    {
        ProposalStore { tree: tree_init(PROPOSAL_MEMORY) }
    }

    /// The keys of the store in ascending order.
    pub fn keys(&self) -> (keys: Vec<u64>)
        ensures
            keys@.to_set() == self.entries().dom(),
            forall|i: int, j: int| 0 <= i < j < keys@.len() ==> keys@[i] < keys@[j],
    {
        tree_keys(&self.tree)
    }

    /// Reads every entry and tells whether the store is sound.
    pub fn is_sound(&self) -> (sound: bool)
        ensures
            sound == self.wf(),
    {
        let keys = tree_keys(&self.tree);
        proof {
            vstd::seq_lib::seq_to_set_is_finite(keys@);
        }
        let mut i: usize = 0;
        while i < keys.len()
            invariant
                i <= keys.len(),
                keys@.to_set() == self.entries().dom(),
                forall|j: int| 0 <= j < i ==> readable(self.entries()[#[trigger] keys@[j]]),
            decreases keys.len() - i,
        {
            let key = keys[i];
            assert(keys@.to_set().contains(key));
            let readable = match tree_get(&self.tree, key) {
                Some(bytes) => decode_record(&bytes).is_some(),
                None => false,
            };
            if !readable {
                assert(self.entries().contains_key(key));
                return false;
            }
            i += 1;
        }
        assert forall|key: u64| #[trigger]
            self.entries().contains_key(key) implies readable(self.entries()[key]) by {
            assert(keys@.to_set().contains(key));
            let j = choose|j: int| 0 <= j < keys@.len() && keys@[j] == key;
            assert(readable(self.entries()[keys@[j]]));
        }
        true
    }

    /// The record stored under `key`, if there is one.
    pub fn get(&self, key: u64) -> (record: Option<Proposal>)
        requires
            self.wf(),
        ensures
            record is Some <==> self@.contains_key(key),
            record matches Some(p) ==> p@ == self@[key] && p.wf(),
    {
        match tree_get(&self.tree, key) {
            Some(bytes) => decode_record(&bytes),
            None => None,
        }
    }

    /// Stores `record` under `key`, in place of the record that was
    /// there, and returns the record that was there.
    pub fn put(&mut self, key: u64, record: &Proposal) -> (previous: Option<Proposal>)
        requires
            old(self).wf(),
            record.wf(),
            fits(record@),
        ensures
            final(self).wf(),
            final(self)@ == old(self)@.insert(key, record@),
            previous is Some <==> old(self)@.contains_key(key),
            previous matches Some(p) ==> p@ == old(self)@[key] && p.wf(),
    {
        let bytes = encode_record(record);
        let replaced = tree_insert(&mut self.tree, key, &bytes);
        assert(self@ =~= old(self)@.insert(key, record@));
        match replaced {
            Some(before) => decode_record(&before),
            None => None,
        }
    }

    /// Stores `record` under `key` as [`ProposalStore::put`] does, if
    /// its encoding is short enough; if not, the store stays as it is.
    pub fn try_put(&mut self, key: u64, record: &Proposal) -> (outcome: Result<
        Option<Proposal>,
        RecordTooLarge,
    >)
        requires
            old(self).wf(),
            record.wf(),
        ensures
            final(self).wf(),
            outcome is Ok <==> fits(record@),
            outcome is Err ==> final(self)@ == old(self)@,
            outcome matches Ok(previous) ==> {
                &&& final(self)@ == old(self)@.insert(key, record@)
                &&& previous is Some <==> old(self)@.contains_key(key)
                &&& previous matches Some(p) ==> p@ == old(self)@[key] && p.wf()
            },
    {
        if record.fits() {
            Ok(self.put(key, record))
        } else {
            Err(RecordTooLarge)
        }
    }

    /// The number of records in the store.
    pub fn count(&self) -> (count: u64)
        requires
            self.wf(),
        ensures
            count == self@.dom().len(),
    {
        assert(self@.dom() =~= self.entries().dom());
        tree_len(&self.tree)
    }
}

} // verus!
