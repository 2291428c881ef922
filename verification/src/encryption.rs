//! The encryption manager (NIP-4e): when the user's encryption key is
//! looked for, which stored key is accepted, the key requests from the
//! user's other devices, and when a request may be sent.
use vstd::prelude::*;

pub mod announcement;

use crate::encryption::announcement::{name_view, Announcement};
use crate::ids::PublicKey;
use crate::person::lemma_push_to_set;
use crate::text::same_text;

verus! {

/// An announcement as plain values: the event id, the announced key and the
/// client's name.
pub type AnnouncementView = (Seq<u8>, Seq<u8>, Option<Seq<char>>);

/// The plain values of an announcement.
pub open spec fn announcement_view(a: Announcement) -> AnnouncementView {
    (a.id_spec()@, a.public_key_spec()@, a.client_name_spec())
}

/// Why a key request or answer cannot be sent.
#[derive(Debug, Clone, Copy, PartialEq, Eq)]
pub enum EncryptionError {
    /// This device's client key is not loaded yet.
    ClientSignerRequired,
}

impl EncryptionError {
    /// The message of the error.
    pub fn message(&self) -> (r: String)
        ensures
            r@ == "Client Signer is required"@,
    {
        String::from_str("Client Signer is required")
    }
}

/// What the encryption manager holds.
#[derive(Debug)]
pub struct Encryption {
    has_client: bool,
    encryption_key: Option<PublicKey>,
    announcement: Option<Announcement>,
    requests: Vec<Announcement>,
}

fn same_name(a: &Option<String>, b: &Option<String>) -> (r: bool)
    ensures
        r == (name_view(*a) == name_view(*b)),
{
    match (a, b) {
        (Some(x), Some(y)) => same_text(x.as_str(), y.as_str()),
        (None, None) => true,
        _ => false,
    }
}

fn same_announcement(a: &Announcement, b: &Announcement) -> (r: bool)
    ensures
        r == (announcement_view(*a) == announcement_view(*b)),
{
    let ids = a.id().same(&b.id());
    let keys = a.public_key().same(&b.public_key());
    let names = same_name(&a.client_name_option(), &b.client_name_option());
    ids && keys && names
}

impl Encryption {
    /// Whether this device's client key is loaded.
    pub closed spec fn has_client_spec(self) -> bool {
        self.has_client
    }

    /// The public key of the encryption key in use, if any.
    pub closed spec fn encryption_key_spec(self) -> Option<Seq<u8>> {
        match self.encryption_key {
            Some(k) => Some(k@),
            None => None,
        }
    }

    /// Whether an encryption key is in use.
    pub open spec fn has_encryption_spec(self) -> bool {
        self.encryption_key_spec() is Some
    }

    /// The user's announcement, once found.
    pub closed spec fn announcement_spec(self) -> Option<AnnouncementView> {
        match self.announcement {
            Some(a) => Some(announcement_view(a)),
            None => None,
        }
    }

    /// The key requests received from the user's other devices.
    pub closed spec fn requests_spec(self) -> Set<AnnouncementView> {
        self.requests@.map_values(|a: Announcement| announcement_view(a)).to_set()
    }

    /// Nothing loaded, no request.
    pub fn new() -> (r: Encryption)
        ensures
            !r.has_client_spec(),
            r.encryption_key_spec() is None,
            r.announcement_spec() is None,
            r.requests_spec() == Set::<AnnouncementView>::empty(),
    {
        let r = Encryption {
            has_client: false,
            encryption_key: None,
            announcement: None,
            requests: Vec::new(),
        };
        assert(r.requests@.map_values(|a: Announcement| announcement_view(a)) =~= Seq::<
            AnnouncementView,
        >::empty());
        assert(r.requests_spec() =~= Set::<AnnouncementView>::empty());
        r
    }

    /// The account changed: returns whether to look for the user's
    /// announcement, which is done when there is an account and no
    /// encryption key yet.
    pub fn on_account_changed(&self, has_account: bool) -> (r: bool)
        ensures
            r == (has_account && !self.has_encryption_spec()),
    {
        has_account && self.encryption_key.is_none()
    }

    /// This device's client key was loaded or created.
    pub fn set_client(&mut self)
        ensures
            final(self).has_client_spec(),
            final(self).encryption_key_spec() == old(self).encryption_key_spec(),
            final(self).announcement_spec() == old(self).announcement_spec(),
            final(self).requests_spec() == old(self).requests_spec(),
    {
        self.has_client = true;
    }

    /// The encryption key with this public key is now in use.
    pub fn set_encryption(&mut self, public_key: PublicKey)
        ensures
            final(self).encryption_key_spec() == Some(public_key@),
            final(self).has_client_spec() == old(self).has_client_spec(),
            final(self).announcement_spec() == old(self).announcement_spec(),
            final(self).requests_spec() == old(self).requests_spec(),
    {
        self.encryption_key = Some(public_key);
    }

    /// Returns whether an encryption key is in use.
    pub fn has_encryption(&self) -> (r: bool)
        ensures
            r == self.has_encryption_spec(),
    {
        self.encryption_key.is_some()
    }

    /// Returns the public key of the encryption key in use, if any.
    pub fn encryption_key(&self) -> (r: Option<PublicKey>)
        ensures
            match r {
                Some(k) => self.encryption_key_spec() == Some(k@),
                None => self.encryption_key_spec() is None,
            },
    {
        self.encryption_key
    }

    /// The user's announcement was found.
    pub fn set_announcement(&mut self, announcement: Announcement)
        ensures
            final(self).announcement_spec() == Some(announcement_view(announcement)),
            final(self).has_client_spec() == old(self).has_client_spec(),
            final(self).encryption_key_spec() == old(self).encryption_key_spec(),
            final(self).requests_spec() == old(self).requests_spec(),
    {
        self.announcement = Some(announcement);
    }

    /// Returns the user's announcement, once found.
    pub fn announcement(&self) -> (r: Option<&Announcement>)
        ensures
            match r {
                Some(a) => self.announcement_spec() == Some(announcement_view(*a)),
                None => self.announcement_spec() is None,
            },
    {
        self.announcement.as_ref()
    }

    /// The key stored on this device was read (`None` where there was none
    /// or reading failed) for the announced public key: a stored key that
    /// is the announced one is put in use, and requests from other devices
    /// are then listened for. Returns whether it was.
    pub fn on_stored_key(&mut self, announced: &PublicKey, stored: Option<PublicKey>) -> (r: bool)
        ensures
            r == (stored matches Some(k) && k@ == announced@),
            r ==> final(self).encryption_key_spec() == Some(announced@),
            !r ==> final(self).encryption_key_spec() == old(self).encryption_key_spec(),
            final(self).has_client_spec() == old(self).has_client_spec(),
            final(self).announcement_spec() == old(self).announcement_spec(),
            final(self).requests_spec() == old(self).requests_spec(),
    {
        match stored {
            Some(k) => {
                if k.same(announced) {
                    self.encryption_key = Some(k);
                    true
                } else {
                    false
                }
            },
            None => false,
        }
    }

    /// Checks that a key request or answer can be sent: the client key is
    /// needed.
    pub fn check_can_send(&self) -> (r: Result<(), EncryptionError>)
        ensures
            r is Ok <==> self.has_client_spec(),
    {
        if self.has_client {
            Ok(())
        } else {
            Err(EncryptionError::ClientSignerRequired)
        }
    }

    /// Records a key request from another device; a request seen already is
    /// kept once.
    pub fn set_request(&mut self, request: Announcement)
        ensures
            final(self).requests_spec() == old(self).requests_spec().insert(
                announcement_view(request),
            ),
            final(self).has_client_spec() == old(self).has_client_spec(),
            final(self).encryption_key_spec() == old(self).encryption_key_spec(),
            final(self).announcement_spec() == old(self).announcement_spec(),
    {
        let ghost views = self.requests@.map_values(|a: Announcement| announcement_view(a));
        let mut i: usize = 0;
        while i < self.requests.len()
            invariant
                i <= self.requests.len(),
                views == self.requests@.map_values(|a: Announcement| announcement_view(a)),
                forall|j: int| 0 <= j < i ==> views[j] != announcement_view(request),
            decreases self.requests.len() - i,
        {
            if same_announcement(&self.requests[i], &request) {
                proof {
                    assert(views[i as int] == announcement_view(request));
                    assert(views.to_set().contains(announcement_view(request)));
                    assert(views.to_set().insert(announcement_view(request)) =~= views.to_set());
                }
                return;
            }
            i = i + 1;
        }
        proof {
            lemma_push_to_set(views, announcement_view(request));
        }
        self.requests.push(request);
        proof {
            assert(self.requests@.map_values(|a: Announcement| announcement_view(a)) =~= views.push(
                announcement_view(request),
            ));
        }
    }

    /// Returns the key requests received, each once.
    pub fn requests(&self) -> (r: &Vec<Announcement>)
        ensures
            r@.map_values(|a: Announcement| announcement_view(a)).to_set() == self.requests_spec(),
    {
        &self.requests
    }
}

} // verus!
