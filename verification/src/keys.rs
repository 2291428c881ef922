//! Reading keys that the user types: public keys (hex, `npub1`, `nostr:`
//! uri, `nprofile1`) and secret keys (hex, `nsec1`, `ncryptsec1` with its
//! password). The decoding itself is done by the nostr library.
use nostr_sdk::prelude::{
    EncryptedSecretKey, FromBech32, Nip19Profile, PublicKey as NostrPublicKey,
    SecretKey as NostrSecretKey,
};
use vstd::prelude::*;

use crate::ids::{Key32, PublicKey};
use crate::text::{has_prefix, starts_with};

verus! {

/// The public key that `PublicKey::parse` reads from a text (hex, `npub1`
/// or a `nostr:` uri).
pub uninterp spec fn public_key_of_text(s: Seq<char>) -> Option<Seq<u8>>;

/// The public key of the profile that `Nip19Profile::from_bech32` reads
/// from an `nprofile1` text.
pub uninterp spec fn public_key_of_profile(s: Seq<char>) -> Option<Seq<u8>>;

/// The secret key that `SecretKey::parse` reads from a text (hex or
/// `nsec1`).
pub uninterp spec fn secret_key_of_text(s: Seq<char>) -> Option<Seq<u8>>;

/// `EncryptedSecretKey::from_bech32` accepts the text as an `ncryptsec1`
/// key.
pub uninterp spec fn ncryptsec_decodes(s: Seq<char>) -> bool;

/// The secret key that an `ncryptsec1` text holds, decrypted with a
/// password (`EncryptedSecretKey::decrypt`).
pub uninterp spec fn secret_key_of_ncryptsec(s: Seq<char>, password: Seq<char>) -> Option<Seq<u8>>;

/// Why an encrypted secret key could not be read.
#[derive(Debug, Clone, Copy, PartialEq, Eq)]
pub enum DecryptError {
    /// The text is not an `ncryptsec1` key.
    Format,
    /// The password does not decrypt it.
    Password,
}

/// The bytes of a key that a decoder may have produced.
pub open spec fn key_view(k: Option<Key32>) -> Option<Seq<u8>> {
    match k {
        Some(k) => Some(k@),
        None => None,
    }
}

/// Trusted: `nostr::PublicKey::parse`. The contract claims that the result
/// is `public_key_of_text` of the text.
#[verifier::external_body]
pub(crate) fn parse_public_key(s: &str) -> (r: Option<Key32>)
    ensures
        key_view(r) == public_key_of_text(s@),
{
    NostrPublicKey::parse(s).ok().map(|k| Key32 { bytes: k.to_bytes() })
}

/// Trusted: `nostr::nips::nip19::Nip19Profile::from_bech32`, keeping the
/// profile's public key. The contract claims that the result is
/// `public_key_of_profile` of the text.
#[verifier::external_body]
fn parse_profile(s: &str) -> (r: Option<Key32>)
    ensures
        key_view(r) == public_key_of_profile(s@),
{
    Nip19Profile::from_bech32(s).ok().map(|p| Key32 { bytes: p.public_key.to_bytes() })
}

/// Trusted: `nostr::SecretKey::parse`. The contract claims that the result
/// is `secret_key_of_text` of the text.
#[verifier::external_body]
fn parse_secret_key(s: &str) -> (r: Option<Key32>)
    ensures
        key_view(r) == secret_key_of_text(s@),
{
    NostrSecretKey::parse(s).ok().map(|k| Key32 { bytes: k.to_secret_bytes() })
}

/// Trusted: `nostr::nips::nip49::EncryptedSecretKey::from_bech32`, then
/// `EncryptedSecretKey::decrypt` with the password. The contract claims
/// that decoding fails exactly when `ncryptsec_decodes` is false, and that
/// otherwise the result is `secret_key_of_ncryptsec` of the text and the
/// password.
#[verifier::external_body]
fn decrypt_ncryptsec(s: &str, password: &str) -> (r: Result<Key32, DecryptError>)
    ensures
        (r matches Err(DecryptError::Format)) == !ncryptsec_decodes(s@),
        r is Ok ==> secret_key_of_ncryptsec(s@, password@) == Some(r->Ok_0@),
        (r matches Err(DecryptError::Password)) ==> secret_key_of_ncryptsec(s@, password@) is None,
{
    let enc = EncryptedSecretKey::from_bech32(s).map_err(|_| DecryptError::Format)?;
    enc.decrypt(password).map(|k| Key32 { bytes: k.to_secret_bytes() }).map_err(
        |_| DecryptError::Password,
    )
}

/// The public key that a typed text names: an `nprofile1` text is read as
/// a profile, anything else as a public key.
pub open spec fn typed_public_key(s: Seq<char>) -> Option<Seq<u8>> {
    if has_prefix(s, "nprofile1"@) {
        public_key_of_profile(s)
    } else {
        public_key_of_text(s)
    }
}

/// Reads the public key that the user typed.
pub fn to_public_key(s: &str) -> (r: Option<PublicKey>)
    ensures
        key_view(r) == typed_public_key(s@),
{
    if starts_with(s, "nprofile1") {
        parse_profile(s)
    } else {
        parse_public_key(s)
    }
}

/// Reads a secret key from its hex or `nsec1` text.
pub fn secret_key_from_text(s: &str) -> (r: Option<Key32>)
    ensures
        key_view(r) == secret_key_of_text(s@),
{
    parse_secret_key(s)
}

/// Decrypts the secret key of an `ncryptsec1` text with a password, and
/// says which step failed.
pub fn secret_key_from_ncryptsec(s: &str, password: &str) -> (r: Result<Key32, DecryptError>)
    ensures
        !ncryptsec_decodes(s@) ==> r == Err::<Key32, DecryptError>(DecryptError::Format),
        ncryptsec_decodes(s@) ==> match r {
            Ok(k) => secret_key_of_ncryptsec(s@, password@) == Some(k@),
            Err(e) => e == DecryptError::Password && secret_key_of_ncryptsec(s@, password@) is None,
        },
{
    decrypt_ncryptsec(s, password)
}

} // verus!
