//! Credential storage: the keyring and the local credentials file.
//!
//! The file provider keeps a JSON object that maps a url to a username and
//! a password. Reading and writing the file is left to the caller, which
//! hands the file's bytes in and writes the returned text out.
use std::collections::HashMap;
use vstd::prelude::*;
use vstd::utf8::encode_utf8;

use crate::paths::{BaseDir, DirPath};

verus! {

#[verifier::external_type_specification]
#[verifier::external_body]
pub struct ExJsonError(serde_json::Error);

/// A kind of credential that Coop keeps in its key backend.
#[derive(Debug, Clone, Copy, PartialEq, Eq, Hash)]
pub enum KeyItem {
    User,
    Bunker,
}

/// The url under which a key item is stored.
pub open spec fn key_item_url(item: KeyItem) -> Seq<char> {
    match item {
        KeyItem::User => "coop-user"@,
        KeyItem::Bunker => "coop-bunker"@,
    }
}

impl KeyItem {
    /// Returns the url under which the item is stored.
    pub fn to_string(&self) -> (r: String)
        ensures
            r@ == key_item_url(*self),
    {
        match self {
            KeyItem::User => String::from_str("coop-user"),
            KeyItem::Bunker => String::from_str("coop-bunker"),
        }
    }
}

impl From<KeyItem> for String {
    /// The url under which the item is stored.
    fn from(item: KeyItem) -> (r: String)
        ensures
            r@ == key_item_url(item),
    {
        item.to_string()
    }
}

/// `from_spec` names a string with the item's url; two strings with one
/// text are not provably the same value, so `from` is specified by its own
/// `ensures` instead, and this impl does not claim to obey `from_spec`.
impl vstd::std_specs::convert::FromSpecImpl<KeyItem> for String {
    open spec fn obeys_from_spec() -> bool {
        false
    }

    open spec fn from_spec(item: KeyItem) -> String {
        choose|s: String| s@ == key_item_url(item)
    }
}

/// One stored credential.
#[derive(Debug)]
pub struct Credential {
    pub url: String,
    pub username: String,
    pub password: Vec<u8>,
}

/// A credential as plain values: url, username, password.
pub type CredentialView = (Seq<char>, Seq<char>, Seq<u8>);

/// The plain values of a credential.
pub open spec fn credential_view(c: Credential) -> CredentialView {
    (c.url@, c.username@, c.password@)
}

/// Some entry of `s` has the url `k`.
pub open spec fn has_url(s: Seq<CredentialView>, k: Seq<char>) -> bool {
    exists|i: int| 0 <= i < s.len() && (#[trigger] s[i]).0 == k
}

/// No two entries of `s` share a url.
pub open spec fn distinct_urls(s: Seq<CredentialView>) -> bool {
    forall|i: int, j: int|
        0 <= i < s.len() && 0 <= j < s.len() && i != j ==> (#[trigger] s[i]).0 != (#[trigger] s[j]).0
}

/// The position of an entry with the url `k`.
pub open spec fn url_index(s: Seq<CredentialView>, k: Seq<char>) -> int {
    choose|i: int| 0 <= i < s.len() && (#[trigger] s[i]).0 == k
}

/// The credentials that a list of entries holds, keyed by url.
pub open spec fn entries_map(s: Seq<CredentialView>) -> Map<Seq<char>, (Seq<char>, Seq<u8>)> {
    Map::new(
        |k: Seq<char>| has_url(s, k),
        |k: Seq<char>| (s[url_index(s, k)].1, s[url_index(s, k)].2),
    )
}

proof fn lemma_entries_map_at(s: Seq<CredentialView>, i: int)
    requires
        distinct_urls(s),
        0 <= i < s.len(),
    ensures
        entries_map(s).contains_key(s[i].0),
        entries_map(s)[s[i].0] == (s[i].1, s[i].2),
{
    assert(has_url(s, s[i].0));
    let j = url_index(s, s[i].0);
    assert(s[j].0 == s[i].0);
}

/// A set of credentials with at most one entry per url.
#[derive(Debug)]
pub struct Credentials {
    entries: Vec<Credential>,
}

impl Credentials {
    /// The entries as plain values.
    pub closed spec fn entry_views(self) -> Seq<CredentialView> {
        self.entries@.map_values(|c: Credential| credential_view(c))
    }

    #[verifier::type_invariant]
    closed spec fn inv(self) -> bool {
        distinct_urls(self.entry_views())
    }
}

impl View for Credentials {
    type V = Map<Seq<char>, (Seq<char>, Seq<u8>)>;

    closed spec fn view(&self) -> Map<Seq<char>, (Seq<char>, Seq<u8>)> {
        entries_map(self.entry_views())
    }
}

/// Why the credentials file could not be used.
#[derive(Debug, Clone, Copy, PartialEq, Eq)]
pub enum CredentialsError {
    /// The file could not be read.
    Io,
    /// The file is not a valid credentials object, or the credentials could
    /// not be encoded.
    Json,
}

/// The credentials that a JSON object of the form
/// `{"url": ["username", [password bytes]]}` holds, or `None` when the bytes
/// are not such an object (`serde_json::from_slice`).
pub uninterp spec fn credentials_from_json(bytes: Seq<u8>) -> Option<
    Map<Seq<char>, (Seq<char>, Seq<u8>)>,
>;

/// Decodes the credentials file.
///
/// Trusted: `serde_json::from_slice` into a map from url to username and
/// password. The contract claims that it succeeds exactly when
/// `credentials_from_json` is `Some` and that the entries then hold that
/// map; the order in which a `HashMap` is walked is left open.
#[verifier::external_body]
fn decode_credentials(bytes: &[u8]) -> (r: Result<Credentials, serde_json::Error>)
    ensures
        r is Ok <==> credentials_from_json(bytes@) is Some,
        r is Ok ==> r->Ok_0@ == credentials_from_json(bytes@)->Some_0,
{
    let map: HashMap<String, (String, Vec<u8>)> = serde_json::from_slice(bytes)?;
    Ok(
        Credentials {
            entries: map.into_iter().map(
                |(url, (username, password))| Credential { url, username, password },
            ).collect(),
        },
    )
}

/// Encodes a set of credentials as JSON.
///
/// Trusted: `serde_json::to_string` of the credentials as a `HashMap` from
/// url to username and password, as the file holds them. The contract
/// claims that it succeeds (its documentation says that it fails only for a
/// failing `Serialize` impl or a map with keys that are not strings, and
/// strings, byte vectors and pairs of them never fail), and that
/// `serde_json::from_slice` reads the same credentials back from the UTF-8
/// bytes of the text (strings and byte arrays survive a JSON round trip).
/// The text itself is left open: it depends on the order in which the
/// `HashMap` is walked.
#[verifier::external_body]
fn encode_credentials(creds: &Credentials) -> (r: Result<String, serde_json::Error>)
    ensures
        r is Ok,
        r is Ok ==> credentials_from_json(encode_utf8(r->Ok_0@)) == Some(creds@),
{
    let map: HashMap<&String, (&String, &Vec<u8>)> = creds.entries.iter().map(
        |c| (&c.url, (&c.username, &c.password)),
    ).collect();
    serde_json::to_string(&map)
}

/// The position of the entry for `url`, if there is one.
fn find_url(entries: &Vec<Credential>, url: &str) -> (r: Option<usize>)
    ensures
        match r {
            Some(i) => i < entries@.len() && entries@[i as int].url@ == url@,
            None => forall|j: int| 0 <= j < entries@.len() ==> (#[trigger] entries@[j]).url@ != url@,
        },
{
    let key = String::from_str(url);
    let mut i: usize = 0;
    while i < entries.len()
        invariant
            i <= entries.len(),
            key@ == url@,
            forall|j: int| 0 <= j < i ==> (#[trigger] entries@[j]).url@ != url@,
        decreases entries.len() - i,
    {
        if entries[i].url == key {
            return Some(i);
        }
        i = i + 1;
    }
    None
}

impl Credentials {
    /// An empty set of credentials.
    pub fn new() -> (r: Credentials)
        ensures
            r@ == Map::<Seq<char>, (Seq<char>, Seq<u8>)>::empty(),
    {
        let r = Credentials { entries: Vec::new() };
        assert(r@ =~= Map::<Seq<char>, (Seq<char>, Seq<u8>)>::empty());
        r
    }

    /// The number of stored credentials.
    pub fn len(&self) -> (r: usize)
        ensures
            r == self@.len(),
    {
        proof {
            use_type_invariant(self);
            let s = self.entry_views();
            let m = self@;
            let keys = s.map_values(|e: CredentialView| e.0);
            assert forall|k: Seq<char>| m.dom().contains(k) implies keys.contains(k) by {
                let i = url_index(s, k);
                assert(keys[i] == k);
            }
            assert forall|k: Seq<char>| keys.contains(k) implies m.dom().contains(k) by {
                let i = choose|i: int| 0 <= i < keys.len() && #[trigger] keys[i] == k;
                assert(s[i].0 == k);
            }
            assert(m.dom() =~= keys.to_set());
            assert(keys.no_duplicates()) by {
                assert forall|i: int, j: int|
                    0 <= i < keys.len() && 0 <= j < keys.len() && i != j implies keys[i]
                    != keys[j] by {
                    assert(s[i].0 != s[j].0);
                }
            }
            keys.unique_seq_to_set();
        }
        self.entries.len()
    }

    /// Looks up the username and password stored for `url`.
    pub fn get(&self, url: &str) -> (r: Option<(String, Vec<u8>)>)
        ensures
            r is Some <==> self@.contains_key(url@),
            r is Some ==> (r->Some_0.0@, r->Some_0.1@) == self@[url@],
    {
        proof {
            use_type_invariant(self);
        }
        let ghost s = self.entry_views();
        match find_url(&self.entries, url) {
            Some(i) => {
                assert(s[i as int] == credential_view(self.entries@[i as int]));
                proof {
                    lemma_entries_map_at(s, i as int);
                }
                let username = self.entries[i].username.clone();
                let password = self.entries[i].password.clone();
                Some((username, password))
            },
            None => {
                proof {
                    if has_url(s, url@) {
                        let j = url_index(s, url@);
                        assert(s[j] == credential_view(self.entries@[j]));
                    }
                }
                None
            },
        }
    }

    /// Stores `username` and `password` for `url`, replacing what was stored
    /// for it.
    pub fn insert(&mut self, url: String, username: String, password: Vec<u8>)
        ensures
            final(self)@ == old(self)@.insert(url@, (username@, password@)),
    {
        proof {
            use_type_invariant(&*self);
        }
        let mut entries: Vec<Credential> = Vec::new();
        std::mem::swap(&mut entries, &mut self.entries);
        let ghost s = entries@.map_values(|c: Credential| credential_view(c));
        assert(s == old(self).entry_views());
        let found = find_url(&entries, url.as_str());
        proof {
            match found {
                Some(i) => {
                    assert(s[i as int] == credential_view(entries@[i as int]));
                },
                None => {
                    assert forall|j: int| 0 <= j < s.len() implies (#[trigger] s[j]).0 != url@ by {
                        assert(s[j] == credential_view(entries@[j]));
                    }
                },
            }
        }
        let i: usize = match found {
            Some(i) => i,
            None => entries.len(),
        };
        let ghost v = (url@, username@, password@);
        let entry = Credential { url, username, password };
        if i < entries.len() {
            assert(s[i as int] == credential_view(entries@[i as int]));
            entries.set(i, entry);
            let ghost t = entries@.map_values(|c: Credential| credential_view(c));
            proof {
                assert(t =~= s.update(i as int, v));
                assert(distinct_urls(t)) by {
                    assert forall|a: int, b: int|
                        0 <= a < t.len() && 0 <= b < t.len() && a != b implies (#[trigger] t[a]).0
                        != (#[trigger] t[b]).0 by {
                        assert(s[a].0 != s[b].0);
                    }
                }
                let m = old(self)@.insert(v.0, (v.1, v.2));
                assert forall|k: Seq<char>| #[trigger]
                    entries_map(t).contains_key(k) == m.contains_key(k) by {
                    if has_url(t, k) {
                        let j = choose|j: int| 0 <= j < t.len() && t[j].0 == k;
                        if j != i {
                            assert(s[j].0 == k);
                        }
                    }
                    if has_url(s, k) {
                        let j = choose|j: int| 0 <= j < s.len() && s[j].0 == k;
                        if j != i {
                            assert(t[j].0 == k);
                        }
                    }
                    if k == v.0 {
                        assert(t[i as int].0 == k);
                    }
                }
                assert forall|k: Seq<char>| #[trigger]
                    entries_map(t).contains_key(k) implies entries_map(t)[k] == m[k] by {
                    let j = choose|j: int| 0 <= j < t.len() && t[j].0 == k;
                    lemma_entries_map_at(t, j);
                    if j != i {
                        assert(s[j] == t[j]);
                        lemma_entries_map_at(s, j);
                    }
                }
                assert(entries_map(t) =~= m);
            }
        } else {
            entries.push(entry);
            let ghost t = entries@.map_values(|c: Credential| credential_view(c));
            proof {
                assert(t =~= s.push(v));
                assert(distinct_urls(t)) by {
                    assert forall|a: int, b: int|
                        0 <= a < t.len() && 0 <= b < t.len() && a != b implies (#[trigger] t[a]).0
                        != (#[trigger] t[b]).0 by {
                        if a < s.len() && b < s.len() {
                            assert(s[a].0 != s[b].0);
                        } else if a < s.len() {
                            assert(s[a].0 != url@);
                        } else {
                            assert(s[b].0 != url@);
                        }
                    }
                }
                let m = old(self)@.insert(v.0, (v.1, v.2));
                assert forall|k: Seq<char>| #[trigger]
                    entries_map(t).contains_key(k) == m.contains_key(k) by {
                    if has_url(t, k) {
                        let j = choose|j: int| 0 <= j < t.len() && t[j].0 == k;
                        if j < s.len() {
                            assert(s[j].0 == k);
                        }
                    }
                    if has_url(s, k) {
                        let j = choose|j: int| 0 <= j < s.len() && s[j].0 == k;
                        assert(t[j].0 == k);
                    }
                    if k == v.0 {
                        assert(t[s.len() as int].0 == k);
                    }
                }
                assert forall|k: Seq<char>| #[trigger]
                    entries_map(t).contains_key(k) implies entries_map(t)[k] == m[k] by {
                    let j = choose|j: int| 0 <= j < t.len() && t[j].0 == k;
                    lemma_entries_map_at(t, j);
                    if j < s.len() {
                        assert(s[j] == t[j]);
                        lemma_entries_map_at(s, j);
                    }
                }
                assert(entries_map(t) =~= m);
            }
        }
        self.entries = entries;
    }

    /// Removes what is stored for `url`, if anything.
    pub fn remove(&mut self, url: &str)
        ensures
            final(self)@ == old(self)@.remove(url@),
    {
        proof {
            use_type_invariant(&*self);
        }
        let mut entries: Vec<Credential> = Vec::new();
        std::mem::swap(&mut entries, &mut self.entries);
        let ghost s = entries@.map_values(|c: Credential| credential_view(c));
        assert(s == old(self).entry_views());
        let found = find_url(&entries, url);
        proof {
            match found {
                Some(i) => {
                    assert(s[i as int] == credential_view(entries@[i as int]));
                },
                None => {
                    assert forall|j: int| 0 <= j < s.len() implies (#[trigger] s[j]).0 != url@ by {
                        assert(s[j] == credential_view(entries@[j]));
                    }
                },
            }
        }
        let i: usize = match found {
            Some(i) => i,
            None => entries.len(),
        };
        if i < entries.len() {
            assert(s[i as int] == credential_view(entries@[i as int]));
            entries.remove(i);
            let ghost t = entries@.map_values(|c: Credential| credential_view(c));
            proof {
                assert(t =~= s.remove(i as int));
                assert(distinct_urls(t)) by {
                    assert forall|a: int, b: int|
                        0 <= a < t.len() && 0 <= b < t.len() && a != b implies (#[trigger] t[a]).0
                        != (#[trigger] t[b]).0 by {
                        let a2 = if a < i { a } else { a + 1 };
                        let b2 = if b < i { b } else { b + 1 };
                        assert(t[a] == s[a2]);
                        assert(t[b] == s[b2]);
                        assert(s[a2].0 != s[b2].0);
                    }
                }
                let m = old(self)@.remove(url@);
                assert forall|k: Seq<char>| #[trigger]
                    entries_map(t).contains_key(k) == m.contains_key(k) by {
                    if has_url(t, k) {
                        let j = choose|j: int| 0 <= j < t.len() && t[j].0 == k;
                        let j2 = if j < i { j } else { j + 1 };
                        assert(s[j2].0 == k);
                        assert(s[j2].0 != s[i as int].0);
                    }
                    if has_url(s, k) && k != url@ {
                        let j = choose|j: int| 0 <= j < s.len() && s[j].0 == k;
                        assert(j != i);
                        let j2 = if j < i { j } else { j - 1 };
                        assert(t[j2].0 == k);
                    }
                }
                assert forall|k: Seq<char>| #[trigger]
                    entries_map(t).contains_key(k) implies entries_map(t)[k] == m[k] by {
                    let j = choose|j: int| 0 <= j < t.len() && t[j].0 == k;
                    let j2 = if j < i { j } else { j + 1 };
                    lemma_entries_map_at(t, j);
                    assert(s[j2] == t[j]);
                    lemma_entries_map_at(s, j2);
                }
                assert(entries_map(t) =~= m);
            }
        } else {
            proof {
                assert(!has_url(s, url@));
                assert(old(self)@.remove(url@) =~= old(self)@);
            }
        }
        self.entries = entries;
    }
}

/// The credentials that the file holds, where a missing or unreadable file
/// counts as empty.
pub open spec fn stored_or_empty(file: Option<Seq<u8>>) -> Map<Seq<char>, (Seq<char>, Seq<u8>)> {
    match file {
        Some(bytes) => match credentials_from_json(bytes) {
            Some(m) => m,
            None => Map::empty(),
        },
        None => Map::empty(),
    }
}

/// The view of the bytes of a file that may not have been readable.
pub open spec fn file_view(file: Option<&[u8]>) -> Option<Seq<u8>> {
    match file {
        Some(b) => Some(b@),
        None => None,
    }
}

/// A credentials provider that stores credentials in a local file.
#[derive(Debug)]
pub struct FileProvider {
    path: DirPath,
}

/// A credentials provider that stores credentials in the system keychain.
#[derive(Debug, Clone, Copy)]
pub struct KeyringProvider;

impl KeyringProvider {
    /// The backend's name.
    pub fn name(&self) -> (r: &'static str)
        ensures
            r@ == "keyring"@,
    {
        "keyring"
    }
}

impl FileProvider {
    /// The provider whose file is `.keys` in the configuration directory.
    pub fn new(config_dir: DirPath) -> (r: FileProvider)
        ensures
            r.path()@ == (config_dir@.0, config_dir@.1.push(".keys"@)),
    {
        FileProvider { path: config_dir.join(".keys") }
    }

    /// The path of the credentials file.
    pub closed spec fn path(self) -> DirPath {
        self.path
    }

    /// Returns the path of the credentials file.
    pub fn file_path(&self) -> (r: &DirPath)
        ensures
            r == self.path(),
    {
        &self.path
    }

    /// The backend's name.
    pub fn name(&self) -> (r: &'static str)
        ensures
            r@ == "file"@,
    {
        "file"
    }

    /// Decodes the credentials file, given its bytes, or `None` when it
    /// could not be read.
    pub fn load_credentials(&self, file: Option<&[u8]>) -> (r: Result<
        Credentials,
        CredentialsError,
    >)
        ensures
            file is None ==> r == Err::<Credentials, CredentialsError>(CredentialsError::Io),
            file is Some ==> (r is Ok <==> credentials_from_json(file->Some_0@) is Some),
            file is Some && r is Err ==> r->Err_0 == CredentialsError::Json,
            r is Ok ==> r->Ok_0@ == credentials_from_json(file->Some_0@)->Some_0,
    {
        match file {
            None => Err(CredentialsError::Io),
            Some(bytes) => match decode_credentials(bytes) {
                Ok(c) => Ok(c),
                Err(_) => Err(CredentialsError::Json),
            },
        }
    }

    /// Encodes the credentials as the text to write to the file.
    pub fn save_credentials(&self, credentials: &Credentials) -> (r: Result<
        String,
        CredentialsError,
    >)
        ensures
            r is Ok,
            r is Ok ==> credentials_from_json(encode_utf8(r->Ok_0@)) == Some(credentials@),
    {
        match encode_credentials(credentials) {
            Ok(text) => Ok(text),
            Err(_) => Err(CredentialsError::Json),
        }
    }

    /// The credentials held by the file, or none when the file is missing
    /// or unreadable.
    fn load_or_default(&self, file: Option<&[u8]>) -> (r: Credentials)
        ensures
            r@ == stored_or_empty(file_view(file)),
    {
        match self.load_credentials(file) {
            Ok(c) => c,
            Err(_) => Credentials::new(),
        }
    }

    /// Reads the username and password stored for `url`; a missing or
    /// unreadable file holds nothing.
    pub fn read_credentials(&self, file: Option<&[u8]>, url: &str) -> (r: Option<(String, Vec<u8>)>)
        ensures
            r is Some <==> stored_or_empty(file_view(file)).contains_key(url@),
            r is Some ==> (r->Some_0.0@, r->Some_0.1@) == stored_or_empty(file_view(file))[url@],
    {
        let creds = self.load_or_default(file);
        creds.get(url)
    }

    /// Stores `username` and `password` for `url` in the credentials that
    /// the file holds (none when it is missing or unreadable), and returns
    /// the text to write back.
    pub fn write_credentials(
        &self,
        file: Option<&[u8]>,
        url: &str,
        username: &str,
        password: &[u8],
    ) -> (r: Result<String, CredentialsError>)
        ensures
            r is Ok,
            r is Ok ==> stored_or_empty(Some(encode_utf8(r->Ok_0@))) == stored_or_empty(
                file_view(file),
            ).insert(url@, (username@, password@)),
    {
        let mut creds = self.load_or_default(file);
        creds.insert(String::from_str(url), String::from_str(username), vstd::slice::slice_to_vec(password));
        self.save_credentials(&creds)
    }

    /// Removes what is stored for `url` and returns the text to write back;
    /// fails when the file cannot be read or decoded.
    pub fn delete_credentials(&self, file: Option<&[u8]>, url: &str) -> (r: Result<
        String,
        CredentialsError,
    >)
        ensures
            file is None ==> r == Err::<String, CredentialsError>(CredentialsError::Io),
            file is Some && credentials_from_json(file->Some_0@) is None ==> r == Err::<
                String,
                CredentialsError,
            >(CredentialsError::Json),
            file is Some && credentials_from_json(file->Some_0@) is Some ==> r is Ok,
            r is Ok ==> file is Some && credentials_from_json(file->Some_0@) is Some,
            r is Ok ==> stored_or_empty(Some(encode_utf8(r->Ok_0@))) == credentials_from_json(
                file->Some_0@,
            )->Some_0.remove(url@),
            r is Err ==> r->Err_0 == CredentialsError::Io || r->Err_0 == CredentialsError::Json,
    {
        let mut creds = match self.load_credentials(file) {
            Ok(c) => c,
            Err(e) => {
                return Err(e);
            },
        };
        creds.remove(url);
        self.save_credentials(&creds)
    }
}

/// Reading back what a write returned gives the credential just written
/// for its url, and leaves every other url as the file held it before.
///
/// `written` is the file after the write: the UTF-8 bytes of the text that
/// `FileProvider::write_credentials` returned, whose contract states the
/// first requirement.
pub proof fn law_read_after_write(
    file: Option<Seq<u8>>,
    written: Seq<u8>,
    url: Seq<char>,
    username: Seq<char>,
    password: Seq<u8>,
    other: Seq<char>,
)
    requires
        stored_or_empty(Some(written)) == stored_or_empty(file).insert(url, (username, password)),
        other != url,
    ensures
        stored_or_empty(Some(written)).contains_key(url),
        stored_or_empty(Some(written))[url] == (username, password),
        stored_or_empty(Some(written)).contains_key(other) == stored_or_empty(file).contains_key(
            other,
        ),
        stored_or_empty(file).contains_key(other) ==> stored_or_empty(Some(written))[other]
            == stored_or_empty(file)[other],
{
}

/// After a delete, reading the url gives nothing, and every other url is
/// as the file held it before.
pub proof fn law_read_after_delete(file: Seq<u8>, written: Seq<u8>, url: Seq<char>, other: Seq<char>)
    requires
        credentials_from_json(file) is Some,
        stored_or_empty(Some(written)) == credentials_from_json(file)->Some_0.remove(url),
        other != url,
    ensures
        !stored_or_empty(Some(written)).contains_key(url),
        stored_or_empty(Some(written)).contains_key(other) == stored_or_empty(Some(file)).contains_key(
            other,
        ),
        stored_or_empty(Some(file)).contains_key(other) ==> stored_or_empty(Some(written))[other]
            == stored_or_empty(Some(file))[other],
{
}

} // verus!
