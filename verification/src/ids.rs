//! Fixed-size identifiers of the nostr protocol: public keys and event ids
//! are both 32 bytes.
use vstd::prelude::*;

verus! {

/// A 32-byte nostr identifier (a public key or an event id), held as its
/// raw bytes.
#[derive(Clone, Copy, Debug)]
pub struct Key32 {
    pub bytes: [u8; 32],
}

/// A nostr public key.
pub type PublicKey = Key32;

/// A nostr event id.
pub type EventId = Key32;

impl View for Key32 {
    type V = Seq<u8>;

    open spec fn view(&self) -> Seq<u8> {
        self.bytes@
    }
}

impl Key32 {
    /// Builds a key from its 32 bytes.
    pub fn from_bytes(bytes: [u8; 32]) -> (r: Key32)
        ensures
            r@ == bytes@,
    {
        Key32 { bytes }
    }

    /// Returns whether two keys hold the same bytes.
    pub fn same(&self, other: &Key32) -> (r: bool)
        ensures
            r == (self@ == other@),
    {
        let mut i: usize = 0;
        while i < 32
            invariant
                i <= 32,
                self@.len() == 32,
                other@.len() == 32,
                forall|k: int| 0 <= k < i ==> self@[k] == other@[k],
            decreases 32 - i,
        {
            if self.bytes[i] != other.bytes[i] {
                return false;
            }
            i = i + 1;
        }
        assert(self@ =~= other@);
        true
    }
}

impl PartialEq for Key32 {
    fn eq(&self, other: &Key32) -> (r: bool) {
        self.same(other)
    }
}

impl vstd::std_specs::cmp::PartialEqSpecImpl for Key32 {
    open spec fn obeys_eq_spec() -> bool {
        true
    }

    open spec fn eq_spec(&self, other: &Key32) -> bool {
        self@ == other@
    }
}

impl Eq for Key32 {}

/// Returns whether `k` is in `keys`.
pub fn contains_key(keys: &Vec<Key32>, k: &Key32) -> (r: bool)
    ensures
        r == keys@.map_values(|x: Key32| x@).contains(k@),
{
    let ghost views = keys@.map_values(|x: Key32| x@);
    let mut i: usize = 0;
    while i < keys.len()
        invariant
            i <= keys.len(),
            views == keys@.map_values(|x: Key32| x@),
            forall|j: int| 0 <= j < i ==> views[j] != k@,
        decreases keys.len() - i,
    {
        if keys[i].same(k) {
            assert(views[i as int] == k@);
            return true;
        }
        i = i + 1;
    }
    false
}

} // verus!
