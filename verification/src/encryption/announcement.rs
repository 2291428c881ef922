//! Announcements of encryption keys (NIP-4e) as the encryption manager
//! keeps them, and the answers to key requests.
use vstd::prelude::*;

use crate::ids::{EventId, PublicKey};
pub use crate::signer::Response;

verus! {

/// The announcement of an encryption key, whose client may be unnamed.
#[derive(Debug, Clone)]
pub struct Announcement {
    id: EventId,
    public_key: PublicKey,
    client_name: Option<String>,
}

/// The text of an optional name.
pub open spec fn name_view(n: Option<String>) -> Option<Seq<char>> {
    match n {
        Some(n) => Some(n@),
        None => None,
    }
}

/// The name shown for an announcing client: its name, or `Unknown`.
pub open spec fn shown_client_name(name: Option<Seq<char>>) -> Seq<char> {
    match name {
        Some(n) => n,
        None => "Unknown"@,
    }
}

impl Announcement {
    /// The name of the announcing client, if it gave one.
    pub closed spec fn client_name_spec(self) -> Option<Seq<char>> {
        name_view(self.client_name)
    }

    /// The announcing event's id.
    pub closed spec fn id_spec(self) -> EventId {
        self.id
    }

    /// The announced public key.
    pub closed spec fn public_key_spec(self) -> PublicKey {
        self.public_key
    }

    /// Builds an announcement.
    pub fn new(id: EventId, client_name: Option<String>, public_key: PublicKey) -> (r:
        Announcement)
        ensures
            r.id_spec() == id,
            r.public_key_spec() == public_key,
            r.client_name_spec() == match client_name {
                Some(n) => Some(n@),
                None => None::<Seq<char>>,
            },
    {
        Announcement { id, client_name, public_key }
    }

    /// Returns the announcing event's id.
    pub fn id(&self) -> (r: EventId)
        ensures
            r == self.id_spec(),
    {
        self.id
    }

    /// Returns the announced public key.
    pub fn public_key(&self) -> (r: PublicKey)
        ensures
            r == self.public_key_spec(),
    {
        self.public_key
    }

    /// Returns the client's name, if it gave one.
    pub fn client_name_option(&self) -> (r: Option<String>)
        ensures
            name_view(r) == self.client_name_spec(),
    {
        match &self.client_name {
            Some(n) => Some(n.clone()),
            None => None,
        }
    }

    /// Returns the client's name, or `Unknown` when it gave none.
    pub fn client_name(&self) -> (r: String)
        ensures
            r@ == shown_client_name(self.client_name_spec()),
    {
        match &self.client_name {
            Some(n) => n.clone(),
            None => String::from_str("Unknown"),
        }
    }
}

} // verus!
