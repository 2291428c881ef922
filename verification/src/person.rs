//! User profiles: which profiles are known, which were asked for, and how
//! requests for profile metadata are batched.
use vstd::prelude::*;

use crate::ids::{contains_key, Key32, PublicKey};
use crate::profile::{empty_fields, FieldsView, Profile, ProfileFields};

verus! {

/// A batch is sent as soon as it holds this many public keys.
pub const METADATA_BATCH_SIZE: usize = 20;

/// The keys of a list of public keys.
pub open spec fn key_views(s: Seq<Key32>) -> Seq<Seq<u8>> {
    s.map_values(|k: Key32| k@)
}

/// Appending a key to a list adds its bytes to the set of keys the list
/// holds.
pub(crate) proof fn lemma_key_set_push(s: Seq<Key32>, k: Key32)
    ensures
        key_views(s.push(k)).to_set() == key_views(s).to_set().insert(k@),
{
    assert(key_views(s.push(k)) =~= key_views(s).push(k@));
    lemma_push_to_set(key_views(s), k@);
}

/// Public keys waiting for their metadata to be requested, each once.
#[derive(Debug)]
pub struct MetadataBatcher {
    batch: Vec<PublicKey>,
}

impl MetadataBatcher {
    #[verifier::type_invariant]
    closed spec fn inv(self) -> bool {
        &&& key_views(self.batch@).no_duplicates()
        &&& self.batch@.len() < METADATA_BATCH_SIZE
    }
}

impl View for MetadataBatcher {
    type V = Set<Seq<u8>>;

    closed spec fn view(&self) -> Set<Seq<u8>> {
        key_views(self.batch@).to_set()
    }
}

/// A request for the metadata of some authors.
#[derive(Debug)]
pub struct MetadataRequest {
    /// The authors, each once.
    pub authors: Vec<PublicKey>,
    /// How many events to ask for: one per author.
    pub limit: usize,
}

/// Why no metadata request is made.
#[derive(Debug, Clone, Copy, PartialEq, Eq)]
pub enum MetadataError {
    /// There is no public key to ask for.
    NoPublicKey,
}

/// Builds the request for the metadata of `authors`; at least one public
/// key is needed.
pub fn metadata_request(authors: Vec<PublicKey>) -> (r: Result<MetadataRequest, MetadataError>)
    ensures
        authors@.len() == 0 ==> r == Err::<MetadataRequest, MetadataError>(
            MetadataError::NoPublicKey,
        ),
        authors@.len() > 0 ==> r is Ok && r->Ok_0.authors@ == authors@ && r->Ok_0.limit
            == authors@.len(),
{
    let limit = authors.len();
    if limit == 0 {
        return Err(MetadataError::NoPublicKey);
    }
    Ok(MetadataRequest { authors, limit })
}

impl MetadataBatcher {
    /// An empty batch.
    pub fn new() -> (r: MetadataBatcher)
        ensures
            r@ == Set::<Seq<u8>>::empty(),
    {
        let r = MetadataBatcher { batch: Vec::new() };
        assert(key_views(r.batch@) =~= Seq::<Seq<u8>>::empty());
        assert(r@ =~= Set::<Seq<u8>>::empty());
        r
    }

    /// Returns how many keys are waiting.
    pub fn len(&self) -> (r: usize)
        ensures
            r == self@.len(),
            r < METADATA_BATCH_SIZE,
    {
        proof {
            use_type_invariant(self);
            key_views(self.batch@).unique_seq_to_set();
        }
        self.batch.len()
    }

    /// Adds a public key whose metadata is wanted. When the batch is full it
    /// is handed out for a request and starts again empty.
    pub fn on_received(&mut self, public_key: PublicKey) -> (r: Option<Vec<PublicKey>>)
        ensures
            old(self)@.insert(public_key@).len() >= METADATA_BATCH_SIZE ==> r is Some
                && key_views(r->Some_0@).no_duplicates() && key_views(r->Some_0@).to_set()
                == old(self)@.insert(public_key@) && final(self)@ == Set::<Seq<u8>>::empty(),
            old(self)@.insert(public_key@).len() < METADATA_BATCH_SIZE ==> r is None && final(self)@ == old(self)@.insert(public_key@),
    {
        proof {
            use_type_invariant(&*self);
        }
        let mut batch: Vec<PublicKey> = Vec::new();
        std::mem::swap(&mut batch, &mut self.batch);
        let ghost s = key_views(batch@);
        proof {
            s.unique_seq_to_set();
        }
        if !contains_key(&batch, &public_key) {
            batch.push(public_key);
        }
        let ghost t = key_views(batch@);
        proof {
            if s.contains(public_key@) {
                assert(t =~= s);
                assert(s.to_set().insert(public_key@) =~= s.to_set());
            } else {
                assert(t =~= s.push(public_key@));
                assert(t.no_duplicates()) by {
                    assert forall|a: int, b: int| 0 <= a < t.len() && 0 <= b < t.len() && a != b implies t[a] != t[b] by {
                        if a < s.len() && b < s.len() {
                        } else if a < s.len() {
                            assert(s[a] != public_key@);
                        } else {
                            assert(s[b] != public_key@);
                        }
                    }
                }
                assert(t.to_set() =~= s.to_set().insert(public_key@)) by {
                    assert forall|x: Seq<u8>| t.contains(x) <==> (s.contains(x) || x == public_key@) by {
                        if t.contains(x) {
                            let j = choose|j: int| 0 <= j < t.len() && t[j] == x;
                            if j < s.len() {
                                assert(s[j] == x);
                            }
                        }
                        if s.contains(x) {
                            let j = choose|j: int| 0 <= j < s.len() && s[j] == x;
                            assert(t[j] == x);
                        }
                        assert(t[s.len() as int] == public_key@);
                    }
                }
            }
            t.unique_seq_to_set();
        }
        if batch.len() >= METADATA_BATCH_SIZE {
            proof {
                assert(key_views(self.batch@) =~= Seq::<Seq<u8>>::empty());
                assert(self@ =~= Set::<Seq<u8>>::empty());
            }
            Some(batch)
        } else {
            self.batch = batch;
            None
        }
    }

    /// Hands out the whole batch when no key arrived for a while; it may be
    /// empty.
    pub fn on_timeout(&mut self) -> (r: Vec<PublicKey>)
        ensures
            key_views(r@).no_duplicates(),
            key_views(r@).to_set() == old(self)@,
            final(self)@ == Set::<Seq<u8>>::empty(),
    {
        proof {
            use_type_invariant(&*self);
        }
        let mut batch: Vec<PublicKey> = Vec::new();
        std::mem::swap(&mut batch, &mut self.batch);
        proof {
            assert(key_views(self.batch@) =~= Seq::<Seq<u8>>::empty());
            assert(self@ =~= Set::<Seq<u8>>::empty());
        }
        batch
    }
}

/// What looking up a profile does.
#[derive(Debug, Clone, Copy, PartialEq, Eq)]
pub enum ProfileLookup {
    /// The profile is known.
    Known,
    /// The profile is unknown and its metadata is requested now.
    Requested,
    /// The profile is unknown and was requested before.
    Pending,
}

/// The profiles that a list of profiles holds: for each key, the metadata
/// of its last profile in the list.
pub open spec fn profile_map(s: Seq<Profile>) -> Map<Seq<u8>, FieldsView>
    decreases s.len(),
{
    if s.len() == 0 {
        Map::empty()
    } else {
        profile_map(s.drop_last()).insert(s.last().public_key@, s.last().metadata@)
    }
}

/// The profiles after inserting the profiles of `s`, in order, into `m`.
pub open spec fn inserted_all(m: Map<Seq<u8>, FieldsView>, s: Seq<Profile>) -> Map<
    Seq<u8>,
    FieldsView,
>
    decreases s.len(),
{
    if s.len() == 0 {
        m
    } else {
        inserted_all(m, s.drop_last()).insert(s.last().public_key@, s.last().metadata@)
    }
}

/// The profiles known to the application, and the keys whose profiles were
/// asked for.
#[derive(Debug)]
pub struct PersonRegistry {
    persons: Vec<Profile>,
    seen: Vec<PublicKey>,
}

impl PersonRegistry {
    /// The known profiles: the metadata of each known key.
    pub closed spec fn profiles(self) -> Map<Seq<u8>, FieldsView> {
        profile_map(self.persons@)
    }

    /// The keys whose profiles were asked for.
    pub closed spec fn seen_keys(self) -> Set<Seq<u8>> {
        key_views(self.seen@).to_set()
    }

    /// No profile known, none asked for.
    pub fn new() -> (r: PersonRegistry)
        ensures
            r.profiles() == Map::<Seq<u8>, FieldsView>::empty(),
            r.seen_keys() == Set::<Seq<u8>>::empty(),
    {
        let r = PersonRegistry { persons: Vec::new(), seen: Vec::new() };
        assert(key_views(r.seen@) =~= Seq::<Seq<u8>>::empty());
        assert(r.seen_keys() =~= Set::<Seq<u8>>::empty());
        r
    }

    /// Inserts a profile, or updates the profile of its key.
    pub fn insert(&mut self, profile: Profile)
        ensures
            final(self).profiles() == old(self).profiles().insert(profile@.0, profile@.1),
            final(self).seen_keys() == old(self).seen_keys(),
    {
        let ghost before = self.persons@;
        self.persons.push(profile);
        proof {
            assert(self.persons@.drop_last() =~= before);
        }
    }

    /// Inserts a batch of profiles (those loaded from the database), in
    /// order.
    pub fn bulk_inserts(&mut self, profiles: Vec<Profile>)
        ensures
            final(self).profiles() == inserted_all(old(self).profiles(), profiles@),
            final(self).seen_keys() == old(self).seen_keys(),
    {
        let ghost start = self.profiles();
        let mut i: usize = 0;
        while i < profiles.len()
            invariant
                i <= profiles.len(),
                self.profiles() == inserted_all(start, profiles@.subrange(0, i as int)),
                self.seen_keys() == old(self).seen_keys(),
                start == old(self).profiles(),
            decreases profiles.len() - i,
        {
            proof {
                assert(profiles@.subrange(0, i + 1).drop_last() =~= profiles@.subrange(0, i as int));
            }
            let p = profiles[i].clone();
            self.insert(p);
            i = i + 1;
        }
        assert(profiles@.subrange(0, profiles@.len() as int) =~= profiles@);
    }

    /// The position of the last profile of `public_key`, if any; what is
    /// stored for the key is that profile's metadata.
    fn find(&self, public_key: &PublicKey) -> (r: Option<usize>)
        ensures
            match r {
                Some(i) => i < self.persons@.len() && self.persons@[i as int].public_key@
                    == public_key@ && self.profiles().contains_key(public_key@)
                    && self.profiles()[public_key@] == self.persons@[i as int].metadata@,
                None => !self.profiles().contains_key(public_key@),
            },
    {
        let ghost s = self.persons@;
        let ghost k = public_key@;
        let mut i: usize = self.persons.len();
        assert(s.subrange(0, s.len() as int) =~= s);
        while i > 0
            invariant
                i <= s.len(),
                s == self.persons@,
                k == public_key@,
                profile_map(s).contains_key(k) == profile_map(s.subrange(0, i as int)).contains_key(
                    k,
                ),
                profile_map(s).contains_key(k) ==> profile_map(s)[k] == profile_map(
                    s.subrange(0, i as int),
                )[k],
            decreases i,
        {
            let ghost t = s.subrange(0, i as int);
            proof {
                assert(t.drop_last() =~= s.subrange(0, i - 1));
                assert(t.last() == s[i - 1]);
            }
            if self.persons[i - 1].public_key.same(public_key) {
                return Some(i - 1);
            }
            i = i - 1;
        }
        None
    }

    /// Looks up a profile: a known one is returned; for an unknown key the
    /// key with empty metadata is returned, and its metadata is requested
    /// the first time only.
    pub fn get(&mut self, public_key: &PublicKey) -> (r: (Profile, ProfileLookup))
        ensures
            old(self).profiles().contains_key(public_key@) ==> r.1 == ProfileLookup::Known
                && r.0@ == (public_key@, old(self).profiles()[public_key@])
                && final(self).seen_keys() == old(self).seen_keys(),
            !old(self).profiles().contains_key(public_key@) ==> r.0@ == (
                public_key@,
                empty_fields(),
            ),
            !old(self).profiles().contains_key(public_key@) && !old(self).seen_keys().contains(
                public_key@,
            ) ==> r.1 == ProfileLookup::Requested && final(self).seen_keys() == old(
                self,
            ).seen_keys().insert(public_key@),
            !old(self).profiles().contains_key(public_key@) && old(self).seen_keys().contains(
                public_key@,
            ) ==> r.1 == ProfileLookup::Pending && final(self).seen_keys() == old(self).seen_keys(),
            final(self).profiles() == old(self).profiles(),
    {
        match self.find(public_key) {
            Some(i) => {
                return (self.persons[i].clone(), ProfileLookup::Known);
            },
            None => {},
        }
        let unknown = Profile::new(*public_key, ProfileFields::new());
        if contains_key(&self.seen, public_key) {
            return (unknown, ProfileLookup::Pending);
        }
        let ghost before = key_views(self.seen@);
        self.seen.push(*public_key);
        proof {
            lemma_push_to_set(before, public_key@);
            assert(key_views(self.seen@) =~= before.push(public_key@));
        }
        (unknown, ProfileLookup::Requested)
    }
}

/// A lookup after an insert gives the inserted profile, and the profiles of
/// all other keys stay as they were.
pub proof fn law_get_after_insert(
    before: Map<Seq<u8>, FieldsView>,
    key: Seq<u8>,
    fields: FieldsView,
    other: Seq<u8>,
)
    requires
        other != key,
    ensures
        before.insert(key, fields).contains_key(key),
        before.insert(key, fields)[key] == fields,
        before.insert(key, fields).contains_key(other) == before.contains_key(other),
        before.contains_key(other) ==> before.insert(key, fields)[other] == before[other],
{
}

/// Appending to a sequence adds the element to the set of its elements.
pub(crate) proof fn lemma_push_to_set<A>(s: Seq<A>, x: A)
    ensures
        s.push(x).to_set() == s.to_set().insert(x),
{
    let t = s.push(x);
    assert forall|y: A| t.contains(y) <==> (s.contains(y) || y == x) by {
        if t.contains(y) {
            let j = choose|j: int| 0 <= j < t.len() && t[j] == y;
            if j < s.len() {
                assert(s[j] == y);
            }
        }
        if s.contains(y) {
            let j = choose|j: int| 0 <= j < s.len() && s[j] == y;
            assert(t[j] == y);
        }
        assert(t[s.len() as int] == x);
    }
    assert(t.to_set() =~= s.to_set().insert(x));
}

} // verus!
