//! Caller identities.

use vstd::prelude::*;

verus! {

/// The largest number of bytes an identity may hold.
pub const MAX_IDENTITY_LEN: usize = 29;

/// The identity of a caller: an opaque string of at most
/// [`MAX_IDENTITY_LEN`] bytes, compared byte for byte.
#[derive(Clone, Debug, PartialEq, Eq, Hash)]
pub struct Identity {
    pub(crate) bytes: Vec<u8>,
}

impl View for Identity {
    type V = Seq<u8>;

    closed spec fn view(&self) -> Seq<u8> {
        self.bytes@
    }
}

/// Whether a byte string is short enough to be an identity.
pub open spec fn is_identity(bytes: Seq<u8>) -> bool {
    bytes.len() <= MAX_IDENTITY_LEN
}

impl Identity {
    /// Every identity built by [`Identity::new`] is well formed.
    pub open spec fn wf(&self) -> bool {
        is_identity(self@)
    }

    /// Makes an identity of `bytes`, unless they are too many.
    pub fn new(bytes: Vec<u8>) -> (id: Option<Identity>)
        ensures
            id is Some <==> is_identity(bytes@),
            id matches Some(i) ==> i@ == bytes@ && i.wf(),
    {
        if bytes.len() <= MAX_IDENTITY_LEN {
            Some(Identity { bytes })
        } else {
            None
        }
    }

    /// The bytes of this identity.
    pub fn as_bytes(&self) -> (bytes: &Vec<u8>)
        ensures
            bytes@ == self@,
    {
        &self.bytes
    }

    /// Whether two identities are the same, byte for byte.
    pub fn same(&self, other: &Identity) -> (eq: bool)
        ensures
            eq == (self@ == other@),
    {
        if self.bytes.len() != other.bytes.len() {
            return false;
        }
        let mut i: usize = 0;
        while i < self.bytes.len()
            invariant
                self.bytes.len() == other.bytes.len(),
                i <= self.bytes.len(),
                forall|j: int| 0 <= j < i ==> self.bytes@[j] == other.bytes@[j],
            decreases self.bytes.len() - i,
        {
            if self.bytes[i] != other.bytes[i] {
                return false;
            }
            i += 1;
        }
        assert(self@ =~= other@);
        true
    }

    /// A copy of this identity.
    pub fn duplicate(&self) -> (copy: Identity)
        ensures
            copy@ == self@,
    {
        let mut bytes: Vec<u8> = Vec::new();
        let mut i: usize = 0;
        while i < self.bytes.len()
            invariant
                i <= self.bytes.len(),
                bytes@ == self.bytes@.subrange(0, i as int),
            decreases self.bytes.len() - i,
        {
            bytes.push(self.bytes[i]);
            assert(bytes@ =~= self.bytes@.subrange(0, i + 1));
            i += 1;
        }
        assert(bytes@ =~= self.bytes@);
        Identity { bytes }
    }
}

/// Whether `who` is among `voters`.
pub fn is_among(voters: &Vec<Identity>, who: &Identity) -> (found: bool)
    ensures
        found == identities(voters@).contains(who@),
{
    let mut i: usize = 0;
    while i < voters.len()
        invariant
            i <= voters.len(),
            forall|j: int| 0 <= j < i ==> identities(voters@)[j] != who@,
        decreases voters.len() - i,
    {
        if voters[i].same(who) {
            assert(identities(voters@)[i as int] == who@);
            return true;
        }
        i += 1;
    }
    false
}

/// The identities of a list, each by its bytes.
pub open spec fn identities(list: Seq<Identity>) -> Seq<Seq<u8>> {
    list.map_values(|id: Identity| id@)
}

} // verus!
