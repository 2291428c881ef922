//! User profiles: a public key with its metadata (NIP-01 kind 0), and the
//! metadata that the profile editors and the new-account form build from
//! what the user typed.
use nostr_sdk::prelude::Url;
use vstd::prelude::*;

use crate::ids::PublicKey;

verus! {

/// `Url::parse` accepts the text.
pub uninterp spec fn url_parses(s: Seq<char>) -> bool;

/// The text of the url that `Url::parse` reads from a text (its
/// serialization, as `Display` and `String::from` give it).
pub uninterp spec fn url_text(s: Seq<char>) -> Seq<char>;

/// Trusted: `url::Url::parse` (also reached as `Url::from_str`), then the
/// url's text. The contract claims that it succeeds exactly when
/// `url_parses` holds of the text, and that the result is then `url_text`
/// of it.
#[verifier::external_body]
pub(crate) fn parse_url(s: &str) -> (r: Option<String>)
    ensures
        r is Some <==> url_parses(s@),
        r is Some ==> r->Some_0@ == url_text(s@),
{
    Url::parse(s).ok().map(|u| u.to_string())
}

/// The text of an optional field.
pub open spec fn opt_text(o: Option<String>) -> Option<Seq<char>> {
    match o {
        Some(s) => Some(s@),
        None => None,
    }
}

fn clone_text(o: &Option<String>) -> (r: Option<String>)
    ensures
        opt_text(r) == opt_text(*o),
{
    match o {
        Some(s) => Some(s.clone()),
        None => None,
    }
}

/// A profile's metadata: each field is absent or a text.
#[derive(Debug)]
pub struct ProfileFields {
    pub name: Option<String>,
    pub display_name: Option<String>,
    pub about: Option<String>,
    pub website: Option<String>,
    pub picture: Option<String>,
    pub banner: Option<String>,
    pub nip05: Option<String>,
    pub lud06: Option<String>,
    pub lud16: Option<String>,
    /// Fields outside the standard ones: each name with its JSON value as
    /// text.
    pub custom: Vec<(String, String)>,
}

/// The other fields as plain values.
pub open spec fn custom_view(c: Seq<(String, String)>) -> Seq<(Seq<char>, Seq<char>)> {
    c.map_values(|p: (String, String)| (p.0@, p.1@))
}

fn clone_custom(c: &Vec<(String, String)>) -> (r: Vec<(String, String)>)
    ensures
        custom_view(r@) == custom_view(c@),
{
    let mut r: Vec<(String, String)> = Vec::new();
    let mut i: usize = 0;
    while i < c.len()
        invariant
            i <= c.len(),
            custom_view(r@) == custom_view(c@.subrange(0, i as int)),
        decreases c.len() - i,
    {
        let ghost before = r@;
        r.push((c[i].0.clone(), c[i].1.clone()));
        proof {
            assert(custom_view(r@) =~= custom_view(before).push((c@[i as int].0@, c@[i as int].1@)));
            assert(custom_view(c@.subrange(0, i + 1)) =~= custom_view(c@.subrange(0, i as int)).push(
                (c@[i as int].0@, c@[i as int].1@),
            ));
        }
        i = i + 1;
    }
    assert(c@.subrange(0, c@.len() as int) =~= c@);
    r
}

/// The metadata as plain values, in the order of the fields: name, display
/// name, about, website, picture, banner, NIP-05 address, LUD-06 and
/// LUD-16 payment addresses, and the other fields.
pub type FieldsView = (
    Option<Seq<char>>,
    Option<Seq<char>>,
    Option<Seq<char>>,
    Option<Seq<char>>,
    Option<Seq<char>>,
    Option<Seq<char>>,
    Option<Seq<char>>,
    Option<Seq<char>>,
    Option<Seq<char>>,
    Seq<(Seq<char>, Seq<char>)>,
);

impl View for ProfileFields {
    type V = FieldsView;

    open spec fn view(&self) -> FieldsView {
        (
            opt_text(self.name),
            opt_text(self.display_name),
            opt_text(self.about),
            opt_text(self.website),
            opt_text(self.picture),
            opt_text(self.banner),
            opt_text(self.nip05),
            opt_text(self.lud06),
            opt_text(self.lud16),
            custom_view(self.custom@),
        )
    }
}

/// Metadata with no field set (`Metadata::default`).
pub open spec fn empty_fields() -> FieldsView {
    (None, None, None, None, None, None, None, None, None, Seq::empty())
}

/// The metadata that a profile editor saves: the display name and the
/// about text as typed; the picture and the website replaced by the typed
/// urls where they parse, and kept otherwise; the rest kept.
pub open spec fn edited_fields(
    old: FieldsView,
    name: Seq<char>,
    bio: Seq<char>,
    avatar: Seq<char>,
    website: Seq<char>,
) -> FieldsView {
    (
        old.0,
        Some(name),
        Some(bio),
        if url_parses(website) {
            Some(url_text(website))
        } else {
            old.3
        },
        if url_parses(avatar) {
            Some(url_text(avatar))
        } else {
            old.4
        },
        old.5,
        old.6,
        old.7,
        old.8,
        old.9,
    )
}

/// The metadata of a new account: the name as both name and display name,
/// and the picture when the typed url parses.
pub open spec fn new_account_fields(name: Seq<char>, avatar: Seq<char>) -> FieldsView {
    (
        Some(name),
        Some(name),
        None,
        None,
        if url_parses(avatar) {
            Some(url_text(avatar))
        } else {
            None
        },
        None,
        None,
        None,
        None,
        Seq::empty(),
    )
}

impl ProfileFields {
    /// No field set.
    pub fn new() -> (r: ProfileFields)
        ensures
            r@ == empty_fields(),
    {
        ProfileFields {
            name: None,
            display_name: None,
            about: None,
            website: None,
            picture: None,
            banner: None,
            nip05: None,
            lud06: None,
            lud16: None,
            custom: Vec::new(),
        }
    }
}

impl Clone for ProfileFields {
    fn clone(&self) -> (r: ProfileFields)
        ensures
            r@ == self@,
    {
        ProfileFields {
            name: clone_text(&self.name),
            display_name: clone_text(&self.display_name),
            about: clone_text(&self.about),
            website: clone_text(&self.website),
            picture: clone_text(&self.picture),
            banner: clone_text(&self.banner),
            nip05: clone_text(&self.nip05),
            lud06: clone_text(&self.lud06),
            lud16: clone_text(&self.lud16),
            custom: clone_custom(&self.custom),
        }
    }
}

/// Builds the metadata that a profile editor saves from the current
/// metadata and what the user typed.
pub fn edited_metadata(old: &ProfileFields, name: &str, bio: &str, avatar: &str, website: &str) -> (r:
    ProfileFields)
    ensures
        r@ == edited_fields(old@, name@, bio@, avatar@, website@),
{
    let mut r = old.clone();
    r.display_name = Some(String::from_str(name));
    r.about = Some(String::from_str(bio));
    match parse_url(avatar) {
        Some(url) => {
            r.picture = Some(url);
        },
        None => {},
    }
    match parse_url(website) {
        Some(url) => {
            r.website = Some(url);
        },
        None => {},
    }
    r
}

/// Builds the metadata of a new account from the typed name and avatar url.
pub fn new_account_metadata(name: &str, avatar: &str) -> (r: ProfileFields)
    ensures
        r@ == new_account_fields(name@, avatar@),
{
    let mut r = ProfileFields::new();
    r.display_name = Some(String::from_str(name));
    r.name = Some(String::from_str(name));
    match parse_url(avatar) {
        Some(url) => {
            r.picture = Some(url);
        },
        None => {},
    }
    r
}

/// A user's profile: a public key and its metadata.
#[derive(Debug)]
pub struct Profile {
    pub public_key: PublicKey,
    pub metadata: ProfileFields,
}

impl View for Profile {
    type V = (Seq<u8>, FieldsView);

    open spec fn view(&self) -> (Seq<u8>, FieldsView) {
        (self.public_key@, self.metadata@)
    }
}

impl Profile {
    /// The profile of `public_key` with `metadata`.
    pub fn new(public_key: PublicKey, metadata: ProfileFields) -> (r: Profile)
        ensures
            r@ == (public_key@, metadata@),
    {
        Profile { public_key, metadata }
    }

    /// Returns the profile's public key.
    pub fn public_key(&self) -> (r: PublicKey)
        ensures
            r == self.public_key,
    {
        self.public_key
    }

    /// Returns the profile's metadata.
    pub fn metadata(&self) -> (r: ProfileFields)
        ensures
            r@ == self.metadata@,
    {
        self.metadata.clone()
    }
}

impl Clone for Profile {
    fn clone(&self) -> (r: Profile)
        ensures
            r@ == self@,
    {
        Profile { public_key: self.public_key, metadata: self.metadata.clone() }
    }
}

} // verus!
