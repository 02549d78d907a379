//! The stable B-tree that holds the encoded records, and what this
//! library takes on trust about it.

use vstd::prelude::*;
use ic_stable_structures::memory_manager::{MemoryId, MemoryManager, VirtualMemory};
use ic_stable_structures::storable::Blob;
use ic_stable_structures::{DefaultMemoryImpl, StableBTreeMap};

verus! {

/// The most bytes that one stored value may have.
pub const MAX_VALUE_SIZE: usize = 5000;

/// The one memory identifier that the memory manager keeps for itself.
pub const RESERVED_MEMORY_ID: u8 = 255;

/// A `StableBTreeMap` from `u64` keys to byte strings of at most
/// [`MAX_VALUE_SIZE`] bytes, in a virtual memory of the default stable
/// memory. Nothing of its inside is known to the verifier; [`stored`]
/// names what it holds.
#[verifier::external_body]
pub struct RecordTree {
    inner: StableBTreeMap<u64, Blob<MAX_VALUE_SIZE>, VirtualMemory<DefaultMemoryImpl>>,
}

/// The entries of a tree: each key with the bytes stored under it.
pub uninterp spec fn stored(tree: RecordTree) -> Map<u64, Seq<u8>>;

/// `MemoryManager::init` on the default memory, `MemoryManager::get`
/// for the virtual memory `id`, and `StableBTreeMap::init` on that
/// memory: the tree found there is loaded, or an empty one is made
/// where there is none. Which entries it has depends on the memory, so
/// the contract says only that they are finitely many.
///
/// Not checked: the memory is empty or holds what an earlier call with
/// the same `id` left there (on a tree of another layout the load
/// panics), and no other tree is open on it (what is written through
/// one handle is not accounted for in [`stored`] of another).
#[verifier::external_body]
pub(crate) fn tree_init(id: u8) -> (tree: RecordTree)
    requires
        id != RESERVED_MEMORY_ID,
    ensures
        stored(tree).dom().finite(),
{
    let manager = MemoryManager::init(DefaultMemoryImpl::default());
    RecordTree { inner: StableBTreeMap::init(manager.get(MemoryId::new(id))) }
}

/// `StableBTreeMap::get`: the bytes stored under `key`, if there are
/// any.
#[verifier::external_body]
pub(crate) fn tree_get(tree: &RecordTree, key: u64) -> (value: Option<Vec<u8>>)
    ensures
        value is Some <==> stored(*tree).contains_key(key),
        value matches Some(bytes) ==> bytes@ == stored(*tree)[key],
{
    tree.inner.get(&key).map(|blob| blob.as_slice().to_vec())
}

/// `StableBTreeMap::insert`: stores `bytes` under `key`, in place of
/// what was there, and returns what was there. The map refuses a value
/// longer than its bound by a panic, so the bound is required here. It
/// also panics when stable memory cannot grow any further.
#[verifier::external_body]
pub(crate) fn tree_insert(tree: &mut RecordTree, key: u64, bytes: &Vec<u8>) -> (previous: Option<
    Vec<u8>,
>)
    requires
        bytes@.len() <= MAX_VALUE_SIZE,
    ensures
        stored(*final(tree)) == stored(*old(tree)).insert(key, bytes@),
        previous is Some <==> stored(*old(tree)).contains_key(key),
        previous matches Some(b) ==> b@ == stored(*old(tree))[key],
{
    let blob = Blob::try_from(bytes.as_slice()).unwrap();
    tree.inner.insert(key, blob).map(|old| old.as_slice().to_vec())
}

/// `StableBTreeMap::len`: the number of entries.
#[verifier::external_body]
pub(crate) fn tree_len(tree: &RecordTree) -> (count: u64)
    ensures
        count == stored(*tree).dom().len(),
{
    tree.inner.len()
}

/// `StableBTreeMap::iter`, keeping the key of each entry: every key of
/// the tree, once, in ascending order.
#[verifier::external_body]
pub(crate) fn tree_keys(tree: &RecordTree) -> (keys: Vec<u64>)
    ensures
        keys@.to_set() == stored(*tree).dom(),
        forall|i: int, j: int| 0 <= i < j < keys@.len() ==> keys@[i] < keys@[j],
{
    tree.inner.iter().map(|entry| entry.0).collect()
}

} // verus!
