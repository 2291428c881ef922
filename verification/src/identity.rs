//! The signed-in user: their public key and what is known of their relay
//! lists.
use vstd::prelude::*;

use crate::ids::PublicKey;

verus! {

/// The signed-in user. Each relay status is `None` until the list has been
/// looked for, then whether it was found.
#[derive(Clone, Copy, Debug)]
pub struct Identity {
    public_key: PublicKey,
    nip17_relays: Option<bool>,
    nip65_relays: Option<bool>,
}

impl Identity {
    /// The user's public key.
    pub closed spec fn public_key_spec(self) -> PublicKey {
        self.public_key
    }

    /// Whether the messaging relay list (NIP-17) was found, once known.
    pub closed spec fn nip17_spec(self) -> Option<bool> {
        self.nip17_relays
    }

    /// Whether the relay list (NIP-65) was found, once known.
    pub closed spec fn nip65_spec(self) -> Option<bool> {
        self.nip65_relays
    }

    /// The identity of `public_key`, with neither relay list known yet.
    pub fn new(public_key: PublicKey) -> (r: Identity)
        ensures
            r.public_key_spec() == public_key,
            r.nip17_spec() is None,
            r.nip65_spec() is None,
    {
        Identity { public_key, nip17_relays: None, nip65_relays: None }
    }

    /// Returns the user's public key.
    pub fn public_key(&self) -> (r: PublicKey)
        ensures
            r == self.public_key_spec(),
    {
        self.public_key
    }

    /// Returns whether the messaging relay list was found, once known.
    pub fn nip17_relays(&self) -> (r: Option<bool>)
        ensures
            r == self.nip17_spec(),
    {
        self.nip17_relays
    }

    /// Returns whether the relay list was found, once known.
    pub fn nip65_relays(&self) -> (r: Option<bool>)
        ensures
            r == self.nip65_spec(),
    {
        self.nip65_relays
    }
}

} // verus!
