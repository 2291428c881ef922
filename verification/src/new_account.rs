//! Creating a new account: the credential it stores, the events it
//! publishes and the relays each goes to, and the form's submitting flag.
use vstd::prelude::*;
use vstd::string::StringSliceAdditionalSpecFns;

use crate::login::{key_credentials, StoredLogin};
use crate::relays::{write_relays, write_relays_spec, RelayMarker};
use crate::text::string_views;

verus! {

/// The kind of a relay list (NIP-65).
pub const KIND_RELAY_LIST: u16 = 10002;
/// The kind of a messaging relay list (NIP-17).
pub const KIND_INBOX_RELAYS: u16 = 10050;
/// The kind of a profile's metadata.
pub const KIND_METADATA: u16 = 0;

/// The relays that everyone's relay lists and profiles are looked for on.
pub open spec fn bootstrap_relays_spec() -> Seq<Seq<char>> {
    seq![
        "wss://relay.damus.io"@,
        "wss://relay.primal.net"@,
        "wss://user.kindpag.es"@,
        "wss://purplepag.es"@,
    ]
}

/// Returns the bootstrap relays.
pub fn bootstrap_relays() -> (r: Vec<String>)
    ensures
        string_views(r@) == bootstrap_relays_spec(),
{
    let mut r: Vec<String> = Vec::new();
    r.push(String::from_str("wss://relay.damus.io"));
    r.push(String::from_str("wss://relay.primal.net"));
    r.push(String::from_str("wss://user.kindpag.es"));
    r.push(String::from_str("wss://purplepag.es"));
    assert(string_views(r@) =~= bootstrap_relays_spec());
    r
}

/// An event to publish: its kind and the relays it is sent to.
#[derive(Debug)]
pub struct Publish {
    pub kind: u16,
    pub relays: Vec<String>,
}

/// What a new account does, in order: the credential to store (stored
/// whatever becomes of the publishing), then the events to publish.
#[derive(Debug)]
pub struct NewAccountPlan {
    pub credential: StoredLogin,
    pub publishes: Vec<Publish>,
}

/// Plans a new account of the key with these hex texts, whose relay list
/// is `relay_list`: the relay list goes to the bootstrap relays; the
/// messaging relay list to the relays written to; the metadata to the
/// relays written to and then to the bootstrap relays.
pub fn new_account_plan(
    public_key_hex: &str,
    secret_hex: &str,
    relay_list: &Vec<(String, Option<RelayMarker>)>,
) -> (r: NewAccountPlan)
    ensures
        r.credential.url@ == "coop-user"@,
        r.credential.username@ == public_key_hex@,
        r.credential.password@ == secret_hex.spec_bytes(),
        r.publishes@.len() == 4,
        r.publishes@[0].kind == KIND_RELAY_LIST,
        string_views(r.publishes@[0].relays@) == bootstrap_relays_spec(),
        r.publishes@[1].kind == KIND_INBOX_RELAYS,
        string_views(r.publishes@[1].relays@) == write_relays_spec(relay_list@),
        r.publishes@[2].kind == KIND_METADATA,
        string_views(r.publishes@[2].relays@) == write_relays_spec(relay_list@),
        r.publishes@[3].kind == KIND_METADATA,
        string_views(r.publishes@[3].relays@) == bootstrap_relays_spec(),
{
    let credential = key_credentials(public_key_hex, secret_hex);
    proof {
        reveal_strlit("coop-user");
    }
    let mut publishes: Vec<Publish> = Vec::new();
    publishes.push(Publish { kind: KIND_RELAY_LIST, relays: bootstrap_relays() });
    publishes.push(Publish { kind: KIND_INBOX_RELAYS, relays: write_relays(relay_list) });
    publishes.push(Publish { kind: KIND_METADATA, relays: write_relays(relay_list) });
    publishes.push(Publish { kind: KIND_METADATA, relays: bootstrap_relays() });
    NewAccountPlan { credential, publishes }
}

/// The new-account form's submitting flag.
#[derive(Debug)]
pub struct NewAccountForm {
    pub submitting: bool,
}

impl NewAccountForm {
    /// Nothing submitted.
    pub fn new() -> (r: NewAccountForm)
        ensures
            !r.submitting,
    {
        NewAccountForm { submitting: false }
    }

    /// The user creates the account: the form is submitting.
    pub fn create(&mut self)
        ensures
            final(self).submitting,
    {
        self.submitting = true;
    }

    /// Publishing finished: an error ends the submitting, which lets the
    /// user try again; success keeps it while the signer is set.
    pub fn on_published(&mut self, ok: bool)
        ensures
            !ok ==> !final(self).submitting,
            ok ==> final(self).submitting == old(self).submitting,
    {
        if !ok {
            self.submitting = false;
        }
    }
}

} // verus!
