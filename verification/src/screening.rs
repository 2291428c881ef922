//! Screening a stranger before opening a chat with them: whether the user
//! follows them, which of the user's contacts follow them, when they were
//! last active and whether their address checks out.
use vstd::prelude::*;

use crate::chat::RoomKind;
use crate::ids::{contains_key, PublicKey};
use crate::person::key_views;

verus! {

/// The authors of contact lists that name the person, without the user.
pub open spec fn mutual_authors(authors: Seq<PublicKey>, user: Seq<u8>) -> Seq<PublicKey> {
    authors.filter(|k: PublicKey| k@ != user)
}

/// Returns whether the user's contact list names `target`.
pub fn is_followed(contacts: &Vec<PublicKey>, target: &PublicKey) -> (r: bool)
    ensures
        r == key_views(contacts@).contains(target@),
{
    contains_key(contacts, target)
}

/// Returns the authors of the contact lists that name the person, in order,
/// leaving the user out.
pub fn mutual_contacts_of(authors: &Vec<PublicKey>, user: &PublicKey) -> (r: Vec<PublicKey>)
    ensures
        r@ == mutual_authors(authors@, user@),
{
    let mut out: Vec<PublicKey> = Vec::new();
    let mut i: usize = 0;
    while i < authors.len()
        invariant
            i <= authors.len(),
            out@ == mutual_authors(authors@.subrange(0, i as int), user@),
        decreases authors.len() - i,
    {
        proof {
            let s = authors@.subrange(0, i + 1);
            assert(s.drop_last() =~= authors@.subrange(0, i as int));
            reveal(Seq::filter);
        }
        let k = authors[i];
        if !k.same(user) {
            out.push(k);
        }
        i = i + 1;
    }
    assert(authors@.subrange(0, authors@.len() as int) =~= authors@);
    out
}

/// The time of the last event the relays sent, if any (each event that
/// arrives replaces the one before).
pub open spec fn latest_activity_spec(times: Seq<u64>) -> Option<u64> {
    if times.len() == 0 {
        None
    } else {
        Some(times.last())
    }
}

/// Returns the time of the last event that arrived, if any.
pub fn latest_activity(times: &Vec<u64>) -> (r: Option<u64>)
    ensures
        r == latest_activity_spec(times@),
{
    if times.len() == 0 {
        None
    } else {
        Some(times[times.len() - 1])
    }
}

/// What the address check says.
#[derive(Clone, Copy, Debug, PartialEq, Eq, Structural)]
pub enum AddressStatus {
    /// The person gives no address.
    NoAddress,
    /// The address names the person's public key.
    Matches,
    /// It does not.
    DoesNotMatch,
}

/// The four checks, each `None` while it is running, else whether it
/// speaks for the person.
#[derive(Clone, Copy, Debug, PartialEq, Eq, Structural)]
pub struct Badges {
    pub contact: Option<bool>,
    pub activity: Option<bool>,
    pub address: Option<bool>,
    pub mutuals: Option<bool>,
}

/// The screening of one person, filled in as the checks finish.
#[derive(Debug)]
pub struct Screening {
    has_address: bool,
    verified: bool,
    followed: bool,
    last_active: Option<u64>,
    mutual_contacts: Vec<PublicKey>,
}

impl Screening {
    /// Whether the person gives an address.
    pub closed spec fn has_address_spec(self) -> bool {
        self.has_address
    }

    /// Whether the address was found to name the person.
    pub closed spec fn verified_spec(self) -> bool {
        self.verified
    }

    /// Whether the user follows the person.
    pub closed spec fn followed_spec(self) -> bool {
        self.followed
    }

    /// When the person was last seen active.
    pub closed spec fn last_active_spec(self) -> Option<u64> {
        self.last_active
    }

    /// The user's contacts who follow the person.
    pub closed spec fn mutuals_spec(self) -> Seq<PublicKey> {
        self.mutual_contacts@
    }

    /// Nothing checked yet, for a person who gives an address or not.
    pub fn new(has_address: bool) -> (r: Screening)
        ensures
            r.has_address_spec() == has_address,
            !r.verified_spec(),
            !r.followed_spec(),
            r.last_active_spec() is None,
            r.mutuals_spec().len() == 0,
    {
        Screening {
            has_address,
            verified: false,
            followed: false,
            last_active: None,
            mutual_contacts: Vec::new(),
        }
    }

    /// The contact check finished.
    pub fn on_contacts_checked(&mut self, followed: bool, mutual_contacts: Vec<PublicKey>)
        ensures
            final(self).followed_spec() == followed,
            final(self).mutuals_spec() == mutual_contacts@,
            final(self).has_address_spec() == old(self).has_address_spec(),
            final(self).verified_spec() == old(self).verified_spec(),
            final(self).last_active_spec() == old(self).last_active_spec(),
    {
        self.followed = followed;
        self.mutual_contacts = mutual_contacts;
    }

    /// The activity check finished.
    pub fn on_activity_checked(&mut self, last_active: Option<u64>)
        ensures
            final(self).last_active_spec() == last_active,
            final(self).has_address_spec() == old(self).has_address_spec(),
            final(self).verified_spec() == old(self).verified_spec(),
            final(self).followed_spec() == old(self).followed_spec(),
            final(self).mutuals_spec() == old(self).mutuals_spec(),
    {
        self.last_active = last_active;
    }

    /// The address check finished.
    pub fn on_address_checked(&mut self, verified: bool)
        ensures
            final(self).verified_spec() == verified,
            final(self).has_address_spec() == old(self).has_address_spec(),
            final(self).followed_spec() == old(self).followed_spec(),
            final(self).last_active_spec() == old(self).last_active_spec(),
            final(self).mutuals_spec() == old(self).mutuals_spec(),
    {
        self.verified = verified;
    }

    /// Returns the number of mutual contacts.
    pub fn total_mutuals(&self) -> (r: usize)
        ensures
            r == self.mutuals_spec().len(),
    {
        self.mutual_contacts.len()
    }

    /// Returns what the address check says.
    pub fn address_status(&self) -> (r: AddressStatus)
        ensures
            !self.has_address_spec() ==> r == AddressStatus::NoAddress,
            self.has_address_spec() && self.verified_spec() ==> r == AddressStatus::Matches,
            self.has_address_spec() && !self.verified_spec() ==> r == AddressStatus::DoesNotMatch,
    {
        if !self.has_address {
            AddressStatus::NoAddress
        } else if self.verified {
            AddressStatus::Matches
        } else {
            AddressStatus::DoesNotMatch
        }
    }

    /// Returns the badges: the contact, address and mutual-contacts checks
    /// always show their outcome; activity shows a spinner until the person
    /// was seen active.
    pub fn badges(&self) -> (r: Badges)
        ensures
            r.contact == Some(self.followed_spec()),
            r.activity == (if self.last_active_spec() is Some {
                Some(true)
            } else {
                None::<bool>
            }),
            r.address == Some(self.verified_spec()),
            r.mutuals == Some(self.mutuals_spec().len() > 0),
    {
        Badges {
            contact: Some(self.followed),
            activity: match self.last_active {
                Some(_) => Some(true),
                None => None,
            },
            address: Some(self.verified),
            mutuals: Some(self.mutual_contacts.len() > 0),
        }
    }
}

/// Returns whether opening a room from the list shows the screening of
/// its other member first: for a room that is not an ongoing conversation,
/// when the user screens everyone.
pub fn screen_on_open(kind: RoomKind, screen_everyone: bool) -> (r: bool)
    ensures
        r == (kind != RoomKind::Ongoing && screen_everyone),
{
    kind != RoomKind::Ongoing && screen_everyone
}

/// The user's answer to a screening.
#[derive(Debug, Clone, Copy, PartialEq, Eq, Structural)]
pub enum ScreeningAnswer {
    /// "Ignore": the room is closed.
    Ignore,
    /// "Response": the room stays open.
    Respond,
}

/// Returns whether an answer closes the room.
pub fn closes_room(answer: ScreeningAnswer) -> (r: bool)
    ensures
        r == (answer == ScreeningAnswer::Ignore),
{
    match answer {
        ScreeningAnswer::Ignore => true,
        ScreeningAnswer::Respond => false,
    }
}

} // verus!
