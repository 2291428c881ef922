//! Signers as the nostr registry sees them: which signer encrypts, the
//! announcement of an encryption key (NIP-4e) and the answer to a key
//! request.
use vstd::prelude::*;

use crate::ids::{EventId, PublicKey};

verus! {

/// Which signer is used to encrypt messages.
#[derive(Debug, Clone, Copy, PartialEq, Eq, PartialOrd, Ord)]
pub enum SignerKind {
    Encryption,
    User,
    Auto,
}

impl Default for SignerKind {
    fn default() -> (r: SignerKind)
        ensures
            r == SignerKind::User,
    {
        SignerKind::User
    }
}

/// The announcement of an encryption key by one of the user's clients.
#[derive(Debug, Clone)]
pub struct Announcement {
    id: EventId,
    client: String,
    public_key: PublicKey,
}

impl Announcement {
    /// The announcing event's id.
    pub closed spec fn id_spec(self) -> EventId {
        self.id
    }

    /// The name of the announcing client.
    pub closed spec fn client_spec(self) -> Seq<char> {
        self.client@
    }

    /// The announced public key.
    pub closed spec fn public_key_spec(self) -> PublicKey {
        self.public_key
    }

    /// Builds an announcement.
    pub fn new(id: EventId, client_name: String, public_key: PublicKey) -> (r: Announcement)
        ensures
            r.id_spec() == id,
            r.client_spec() == client_name@,
            r.public_key_spec() == public_key,
    {
        Announcement { id, client: client_name, public_key }
    }

    /// Returns the announcing event's id.
    pub fn id(&self) -> (r: EventId)
        ensures
            r == self.id_spec(),
    {
        self.id
    }

    /// Returns the announced public key.
    pub fn public_key(&self) -> (r: PublicKey)
        ensures
            r == self.public_key_spec(),
    {
        self.public_key
    }

    /// Returns the name of the announcing client.
    pub fn client(&self) -> (r: &str)
        ensures
            r@ == self.client_spec(),
    {
        self.client.as_str()
    }
}

/// A client's answer to a request for the encryption key.
#[derive(Debug, Clone)]
pub struct Response {
    payload: String,
    public_key: PublicKey,
}

impl Response {
    /// The encrypted payload.
    pub closed spec fn payload_spec(self) -> Seq<char> {
        self.payload@
    }

    /// The public key of the answering client.
    pub closed spec fn public_key_spec(self) -> PublicKey {
        self.public_key
    }

    /// Builds a response.
    pub fn new(payload: String, public_key: PublicKey) -> (r: Response)
        ensures
            r.payload_spec() == payload@,
            r.public_key_spec() == public_key,
    {
        Response { payload, public_key }
    }

    /// Returns the public key of the answering client.
    pub fn public_key(&self) -> (r: PublicKey)
        ensures
            r == self.public_key_spec(),
    {
        self.public_key
    }

    /// Returns the encrypted payload.
    pub fn payload(&self) -> (r: &str)
        ensures
            r@ == self.payload_spec(),
    {
        self.payload.as_str()
    }
}

} // verus!
