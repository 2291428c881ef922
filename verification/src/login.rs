//! Logging in: what the user typed, the password check, the countdown of a
//! remote-signer connection and the credentials that a connection stores.
use nostr_connect::prelude::NostrConnectURI;
use vstd::prelude::*;
use vstd::string::StrSliceExecFns;
use vstd::string::StringSliceAdditionalSpecFns;

use crate::ids::Key32;
use crate::key_store::backend::{key_item_url, KeyItem};
use crate::keys::{
    key_view, ncryptsec_decodes, secret_key_from_ncryptsec, secret_key_from_text,
    secret_key_of_ncryptsec, secret_key_of_text, DecryptError,
};
use crate::text::{has_prefix, remove_all, starts_with, without_all};

verus! {

#[verifier::external_type_specification]
#[verifier::external_body]
pub struct ExNostrConnectUri(NostrConnectURI);

/// `NostrConnectURI::parse` accepts the text as a remote-signer uri.
pub uninterp spec fn nostr_connect_uri_parses(s: Seq<char>) -> bool;

/// Trusted: `nostr::nips::nip46::NostrConnectURI::parse`. The contract
/// claims that it succeeds exactly when `nostr_connect_uri_parses` holds of
/// the text; nothing is claimed of the parsed value, which is handed on to
/// the signer.
#[verifier::external_body]
fn parse_nostr_connect_uri(s: &str) -> (r: Option<NostrConnectURI>)
    ensures
        r is Some == nostr_connect_uri_parses(s@),
{
    NostrConnectURI::parse(s).ok()
}


/// What the login input holds.
#[derive(Debug, Clone, Copy, PartialEq, Eq)]
pub enum LoginInput {
    /// A secret key in `nsec1` form.
    Secret,
    /// A password-encrypted secret key in `ncryptsec1` form.
    EncryptedSecret,
    /// A remote signer's `bunker://` uri.
    Bunker,
    /// Anything else.
    Invalid,
}

/// The kind of a login input.
pub open spec fn login_input_of(s: Seq<char>) -> LoginInput {
    if has_prefix(s, "nsec1"@) {
        LoginInput::Secret
    } else if has_prefix(s, "ncryptsec1"@) {
        LoginInput::EncryptedSecret
    } else if has_prefix(s, "bunker://"@) {
        LoginInput::Bunker
    } else {
        LoginInput::Invalid
    }
}

/// Returns the kind of a login input.
pub fn login_input(s: &str) -> (r: LoginInput)
    ensures
        r == login_input_of(s@),
{
    if starts_with(s, "nsec1") {
        LoginInput::Secret
    } else if starts_with(s, "ncryptsec1") {
        LoginInput::EncryptedSecret
    } else if starts_with(s, "bunker://") {
        LoginInput::Bunker
    } else {
        LoginInput::Invalid
    }
}

/// Why a login did not go through.
#[derive(Debug, Clone, Copy, PartialEq, Eq)]
pub enum LoginError {
    /// The input is neither a key nor a bunker uri.
    InvalidKey,
    /// No password was given.
    PasswordRequired,
    /// The password was not confirmed.
    MustConfirmPassword,
    /// The password and its confirmation differ.
    PasswordNotMatch,
    /// The key could not be read or decrypted.
    KeyInvalid,
    /// The bunker uri could not be read.
    BunkerInvalid,
}

impl LoginError {
    /// The translation key of the message shown.
    pub fn message_key(&self) -> (r: &'static str)
        ensures
            r@ == match *self {
                LoginError::InvalidKey => "login.invalid_key"@,
                LoginError::PasswordRequired => "login.password_is_required"@,
                LoginError::MustConfirmPassword => "login.must_confirm_password"@,
                LoginError::PasswordNotMatch => "login.password_not_match"@,
                LoginError::KeyInvalid => "login.key_invalid"@,
                LoginError::BunkerInvalid => "login.bunker_invalid"@,
            },
    {
        match self {
            LoginError::InvalidKey => {
                proof { reveal_strlit("login.invalid_key"); }
                "login.invalid_key"
            },
            LoginError::PasswordRequired => {
                proof { reveal_strlit("login.password_is_required"); }
                "login.password_is_required"
            },
            LoginError::MustConfirmPassword => {
                proof { reveal_strlit("login.must_confirm_password"); }
                "login.must_confirm_password"
            },
            LoginError::PasswordNotMatch => {
                proof { reveal_strlit("login.password_not_match"); }
                "login.password_not_match"
            },
            LoginError::KeyInvalid => {
                proof { reveal_strlit("login.key_invalid"); }
                "login.key_invalid"
            },
            LoginError::BunkerInvalid => {
                proof { reveal_strlit("login.bunker_invalid"); }
                "login.bunker_invalid"
            },
        }
    }
}

/// What a login request leads to.
#[derive(Debug, Clone, Copy, PartialEq, Eq)]
pub enum LoginStep {
    /// A login is already running: nothing happens.
    Busy,
    /// The user is asked for a password; `encrypted` tells whether it
    /// decrypts the key (otherwise it is a new password, to confirm).
    AskPassword { encrypted: bool },
    /// A remote signer is contacted.
    ConnectBunker,
    /// The login failed.
    Failed(LoginError),
}

/// The state of the login form.
#[derive(Debug, Clone, Copy)]
pub struct LoginForm {
    /// A login is running.
    pub logging_in: bool,
    /// Seconds left for the remote signer to answer.
    pub countdown: Option<u64>,
    /// The error shown to the user.
    pub error: Option<LoginError>,
}

/// The step that a login request takes.
pub open spec fn login_step_of(logging_in: bool, s: Seq<char>) -> LoginStep {
    if logging_in {
        LoginStep::Busy
    } else {
        match login_input_of(s) {
            LoginInput::Secret => LoginStep::AskPassword { encrypted: false },
            LoginInput::EncryptedSecret => LoginStep::AskPassword { encrypted: true },
            LoginInput::Bunker => LoginStep::ConnectBunker,
            LoginInput::Invalid => LoginStep::Failed(LoginError::InvalidKey),
        }
    }
}

impl LoginForm {
    /// A form with nothing running.
    pub fn new() -> (r: LoginForm)
        ensures
            !r.logging_in,
            r.countdown is None,
            r.error is None,
    {
        LoginForm { logging_in: false, countdown: None, error: None }
    }

    /// Starts a login with the text that the user typed.
    pub fn login(&mut self, value: &str) -> (r: LoginStep)
        ensures
            r == login_step_of(old(self).logging_in, value@),
            r == LoginStep::Busy ==> *final(self) == *old(self),
            r matches LoginStep::Failed(e) ==> !final(self).logging_in && final(self).countdown is None
                && final(self).error == Some(e),
            (r is AskPassword || r is ConnectBunker) ==> final(self).logging_in
                && final(self).countdown == old(self).countdown
                && final(self).error == old(self).error,
    {
        if self.logging_in {
            return LoginStep::Busy;
        }
        self.logging_in = true;
        match login_input(value) {
            LoginInput::Secret => LoginStep::AskPassword { encrypted: false },
            LoginInput::EncryptedSecret => LoginStep::AskPassword { encrypted: true },
            LoginInput::Bunker => LoginStep::ConnectBunker,
            LoginInput::Invalid => {
                self.set_error(LoginError::InvalidKey);
                LoginStep::Failed(LoginError::InvalidKey)
            },
        }
    }

    /// Shows an error: the login stops and the countdown is cleared.
    pub fn set_error(&mut self, error: LoginError)
        ensures
            !final(self).logging_in,
            final(self).countdown is None,
            final(self).error == Some(error),
    {
        self.logging_in = false;
        self.countdown = None;
        self.error = Some(error);
    }

    /// Clears the error once it has been shown.
    pub fn clear_error(&mut self)
        ensures
            final(self).error is None,
            final(self).logging_in == old(self).logging_in,
            final(self).countdown == old(self).countdown,
    {
        self.error = None;
    }

    /// Sets the seconds left for the remote signer.
    pub fn set_countdown(&mut self, i: Option<u64>)
        ensures
            final(self).countdown == i,
            final(self).logging_in == old(self).logging_in,
            final(self).error == old(self).error,
    {
        self.countdown = i;
    }
}

/// The text of an optional string, `None` staying `None`.
pub open spec fn opt_view(s: Option<&str>) -> Option<Seq<char>> {
    match s {
        Some(s) => Some(s@),
        None => None,
    }
}

/// The outcome of the password dialog.
pub open spec fn password_check(
    password: Option<Seq<char>>,
    confirm: Option<Seq<char>>,
    encrypted: bool,
) -> Result<(), LoginError> {
    match password {
        None => Err(LoginError::PasswordRequired),
        Some(p) => if p.len() == 0 {
            Err(LoginError::PasswordRequired)
        } else if encrypted {
            Ok(())
        } else {
            match confirm {
                None => Err(LoginError::MustConfirmPassword),
                Some(c) => if c.len() == 0 {
                    Err(LoginError::MustConfirmPassword)
                } else if p != c {
                    Err(LoginError::PasswordNotMatch)
                } else {
                    Ok(())
                },
            }
        },
    }
}

/// Setting a password for a key that is not encrypted goes on only with a
/// confirmation equal to the password character for character: with a
/// password and a confirmation both given, the dialog passes exactly when
/// they have the same length and the same character at every position, and
/// any other confirmation gives `PasswordNotMatch`. An encrypted key needs
/// only a non-empty password.
pub proof fn law_password_needs_exact_confirmation(p: Seq<char>, c: Seq<char>)
    requires
        p.len() > 0,
        c.len() > 0,
    ensures
        password_check(Some(p), Some(c), false) is Ok <==> (p.len() == c.len() && forall|i: int|
            0 <= i < p.len() ==> p[i] == c[i]),
        !(password_check(Some(p), Some(c), false) is Ok) ==> password_check(
            Some(p),
            Some(c),
            false,
        ) == Err::<(), LoginError>(LoginError::PasswordNotMatch),
        password_check(Some(p), Some(c), false) is Ok ==> p == c,
        password_check(Some(p), None, true) is Ok,
        password_check(Some(p), None, false) == Err::<(), LoginError>(
            LoginError::MustConfirmPassword,
        ),
{
    if p.len() == c.len() && forall|i: int| 0 <= i < p.len() ==> p[i] == c[i] {
        assert(p =~= c);
    }
}

/// Checks the password dialog: a password is required; a key that is not
/// encrypted needs the password confirmed, and both must match.
pub fn verify_password(password: Option<&str>, confirm: Option<&str>, encrypted: bool) -> (r:
    Result<(), LoginError>)
    ensures
        r == password_check(opt_view(password), opt_view(confirm), encrypted),
{
    let p = match password {
        None => {
            return Err(LoginError::PasswordRequired);
        },
        Some(p) => p,
    };
    if p.unicode_len() == 0 {
        return Err(LoginError::PasswordRequired);
    }
    if encrypted {
        return Ok(());
    }
    let c = match confirm {
        None => {
            return Err(LoginError::MustConfirmPassword);
        },
        Some(c) => c,
    };
    if c.unicode_len() == 0 {
        return Err(LoginError::MustConfirmPassword);
    }
    if String::from_str(p) != String::from_str(c) {
        return Err(LoginError::PasswordNotMatch);
    }
    Ok(())
}

/// The secret key that a login input gives with a password: an `nsec1` key
/// as it is, an `ncryptsec1` key decrypted with the password.
pub open spec fn login_secret_of(value: Seq<char>, password: Seq<char>) -> Option<Seq<u8>> {
    if has_prefix(value, "nsec1"@) {
        secret_key_of_text(value)
    } else if has_prefix(value, "ncryptsec1"@) {
        if ncryptsec_decodes(value) {
            secret_key_of_ncryptsec(value, password)
        } else {
            None
        }
    } else {
        None
    }
}

/// Reads the secret key of a login input; `None` means the key is invalid.
pub fn login_secret(value: &str, password: &str) -> (r: Option<Key32>)
    ensures
        key_view(r) == login_secret_of(value@, password@),
{
    if starts_with(value, "nsec1") {
        secret_key_from_text(value)
    } else if starts_with(value, "ncryptsec1") {
        match secret_key_from_ncryptsec(value, password) {
            Ok(k) => Some(k),
            Err(_) => None,
        }
    } else {
        None
    }
}

/// What an `ncryptsec1` login with a password gives.
#[derive(Debug, Clone, Copy, PartialEq, Eq)]
pub enum PasswordLoginError {
    /// No password was given.
    PasswordRequired,
    /// The text is not an encrypted secret key.
    SecretKeyInvalid,
    /// The password does not decrypt the key.
    InvalidPassword,
}

impl PasswordLoginError {
    /// The message shown.
    pub fn message(&self) -> (r: String)
        ensures
            r@ == match *self {
                PasswordLoginError::PasswordRequired => "Password is required"@,
                PasswordLoginError::SecretKeyInvalid => "Secret Key is invalid"@,
                PasswordLoginError::InvalidPassword => "Invalid password"@,
            },
    {
        match self {
            PasswordLoginError::PasswordRequired => String::from_str("Password is required"),
            PasswordLoginError::SecretKeyInvalid => String::from_str("Secret Key is invalid"),
            PasswordLoginError::InvalidPassword => String::from_str("Invalid password"),
        }
    }
}

/// Decrypts an `ncryptsec1` login: an empty password is refused before
/// anything else.
pub fn login_with_password(content: &str, password: &str) -> (r: Result<
    Key32,
    PasswordLoginError,
>)
    ensures
        password@.len() == 0 ==> r == Err::<Key32, PasswordLoginError>(
            PasswordLoginError::PasswordRequired,
        ),
        password@.len() > 0 && !ncryptsec_decodes(content@) ==> r == Err::<
            Key32,
            PasswordLoginError,
        >(PasswordLoginError::SecretKeyInvalid),
        password@.len() > 0 && ncryptsec_decodes(content@) ==> match r {
            Ok(k) => secret_key_of_ncryptsec(content@, password@) == Some(k@),
            Err(e) => e == PasswordLoginError::InvalidPassword && secret_key_of_ncryptsec(
                content@,
                password@,
            ) is None,
        },
{
    if password.unicode_len() == 0 {
        return Err(PasswordLoginError::PasswordRequired);
    }
    match secret_key_from_ncryptsec(content, password) {
        Ok(k) => Ok(k),
        Err(DecryptError::Format) => Err(PasswordLoginError::SecretKeyInvalid),
        Err(DecryptError::Password) => Err(PasswordLoginError::InvalidPassword),
    }
}

/// What the key login form does with its input: a bunker uri first, then
/// an encrypted key, then a plain one.
#[derive(Debug, Clone, Copy, PartialEq, Eq)]
pub enum KeyLoginStep {
    Busy,
    ConnectBunker,
    DecryptWithPassword,
    UseSecret(Key32),
    Invalid,
}

/// The step that the key login form takes for a text when no login runs.
pub open spec fn key_login_matches(value: Seq<char>, r: KeyLoginStep) -> bool {
    if has_prefix(value, "bunker://"@) {
        r == KeyLoginStep::ConnectBunker
    } else if has_prefix(value, "ncryptsec1"@) {
        r == KeyLoginStep::DecryptWithPassword
    } else if has_prefix(value, "nsec1"@) {
        match r {
            KeyLoginStep::UseSecret(k) => secret_key_of_text(value) == Some(k@),
            KeyLoginStep::Invalid => secret_key_of_text(value) is None,
            _ => false,
        }
    } else {
        r == KeyLoginStep::Invalid
    }
}

/// Handles the key login form's input.
pub fn key_login(logging_in: bool, value: &str) -> (r: KeyLoginStep)
    ensures
        logging_in ==> r == KeyLoginStep::Busy,
        !logging_in ==> key_login_matches(value@, r),
        !logging_in && has_prefix(value@, "bunker://"@) ==> r == KeyLoginStep::ConnectBunker,
        !logging_in && !has_prefix(value@, "bunker://"@) && has_prefix(value@, "ncryptsec1"@) ==> r
            == KeyLoginStep::DecryptWithPassword,
        !logging_in && !has_prefix(value@, "bunker://"@) && !has_prefix(value@, "ncryptsec1"@)
            && has_prefix(value@, "nsec1"@) ==> match r {
            KeyLoginStep::UseSecret(k) => secret_key_of_text(value@) == Some(k@),
            KeyLoginStep::Invalid => secret_key_of_text(value@) is None,
            _ => false,
        },
        !logging_in && !has_prefix(value@, "bunker://"@) && !has_prefix(value@, "ncryptsec1"@)
            && !has_prefix(value@, "nsec1"@) ==> r == KeyLoginStep::Invalid,
{
    if logging_in {
        KeyLoginStep::Busy
    } else if starts_with(value, "bunker://") {
        KeyLoginStep::ConnectBunker
    } else if starts_with(value, "ncryptsec1") {
        KeyLoginStep::DecryptWithPassword
    } else if starts_with(value, "nsec1") {
        match secret_key_from_text(value) {
            Some(k) => KeyLoginStep::UseSecret(k),
            None => KeyLoginStep::Invalid,
        }
    } else {
        KeyLoginStep::Invalid
    }
}

/// The state of the key login form: whether a login runs, the countdown
/// of a remote-signer connection, and the message shown.
#[derive(Debug)]
pub struct KeyLoginForm {
    pub logging_in: bool,
    pub countdown: Option<u64>,
    pub error: Option<String>,
}

/// The message shown when the key login form's input is not a key.
pub open spec fn invalid_input_text() -> Seq<char> {
    "Invalid"@
}

/// The message shown when a remote-signer uri does not parse.
pub open spec fn bunker_invalid_text() -> Seq<char> {
    "Bunker is not valid"@
}

impl KeyLoginForm {
    /// Nothing running, nothing shown.
    pub fn new() -> (r: KeyLoginForm)
        ensures
            !r.logging_in,
            r.countdown is None,
            r.error is None,
    {
        KeyLoginForm { logging_in: false, countdown: None, error: None }
    }

    /// Shows an error: the login stops and the countdown is cleared.
    pub fn set_error(&mut self, message: String)
        ensures
            !final(self).logging_in,
            final(self).countdown is None,
            final(self).error matches Some(m) && m@ == message@,
    {
        self.logging_in = false;
        self.countdown = None;
        self.error = Some(message);
    }

    /// Clears the message shown (three seconds after it appeared).
    pub fn clear_error(&mut self)
        ensures
            final(self).logging_in == old(self).logging_in,
            final(self).countdown == old(self).countdown,
            final(self).error is None,
    {
        self.error = None;
    }

    /// Starts a login with the typed text: nothing happens while one runs;
    /// otherwise the form is marked as logging in, and an input that is
    /// not a usable key shows "Invalid", which ends the login.
    pub fn login(&mut self, value: &str) -> (r: KeyLoginStep)
        ensures
            old(self).logging_in ==> r == KeyLoginStep::Busy && final(self).logging_in
                && final(self).countdown == old(self).countdown && final(self).error == old(self).error,
            !old(self).logging_in ==> key_login_matches(value@, r),
            !old(self).logging_in && r == KeyLoginStep::Invalid ==> !final(self).logging_in
                && final(self).countdown is None && (final(self).error matches Some(m) && m@
                == invalid_input_text()),
            !old(self).logging_in && r != KeyLoginStep::Invalid ==> final(self).logging_in
                && final(self).countdown == old(self).countdown && final(self).error == old(self).error,
    {
        if self.logging_in {
            return KeyLoginStep::Busy;
        }
        self.logging_in = true;
        let step = key_login(false, value);
        match step {
            KeyLoginStep::Invalid => {
                self.set_error(String::from_str("Invalid"));
            },
            _ => {},
        }
        step
    }

    /// A remote-signer uri that the user gave: the parsed uri, or the form
    /// shows "Bunker is not valid" and the login ends.
    pub fn connect_bunker(&mut self, value: &str) -> (r: Option<NostrConnectURI>)
        ensures
            r is Some == nostr_connect_uri_parses(value@),
            r is Some ==> final(self).logging_in == old(self).logging_in
                && final(self).countdown == old(self).countdown && final(self).error == old(self).error,
            r is None ==> !final(self).logging_in && final(self).countdown is None
                && (final(self).error matches Some(m) && m@ == bunker_invalid_text()),
    {
        match parse_nostr_connect_uri(value) {
            Some(uri) => Some(uri),
            None => {
                self.set_error(String::from_str("Bunker is not valid"));
                None
            },
        }
    }
}

/// The countdown shown while a remote signer is contacted: `secs`, ...,
/// `1`, then nothing.
pub open spec fn countdown_of(secs: nat) -> Seq<Option<u64>> {
    Seq::new(secs + 1, |k: int| if k < secs { Some((secs - k) as u64) } else { None })
}

/// Returns the countdown shown, second by second, while a remote signer is
/// contacted.
pub fn countdown_steps(secs: u64) -> (r: Vec<Option<u64>>)
    requires
        secs < usize::MAX,
    ensures
        r@ == countdown_of(secs as nat),
{
    let mut out: Vec<Option<u64>> = Vec::new();
    let mut i: u64 = secs;
    while i > 0
        invariant
            i <= secs,
            out@.len() == secs - i,
            forall|k: int| 0 <= k < out@.len() ==> out@[k] == Some((secs - k) as u64),
        decreases i,
    {
        out.push(Some(i));
        i = i - 1;
    }
    out.push(None);
    assert(out@ =~= countdown_of(secs as nat));
    out
}

/// The bunker uri without its secret, as it is stored for later logins
/// (every occurrence of the secret is removed).
pub open spec fn clean_uri_of(uri: Seq<char>, secret: Option<Seq<char>>) -> Seq<char> {
    match secret {
        Some(s) => without_all(uri, s),
        None => uri,
    }
}

/// Returns the bunker uri without its secret.
pub fn clean_bunker_uri(uri: &str, secret: Option<&str>) -> (r: String)
    ensures
        r@ == clean_uri_of(uri@, opt_view(secret)),
{
    match secret {
        Some(s) => remove_all(uri, s),
        None => String::from_str(uri),
    }
}

/// A credential that a login stores: url, username and password.
#[derive(Debug)]
pub struct StoredLogin {
    pub url: String,
    pub username: String,
    pub password: Vec<u8>,
}

/// The credentials that a bunker connection stores: the cleaned uri under
/// the user item, and the app keys under the bunker item.
pub fn connection_credentials(clean_uri: &str, app_public_key_hex: &str, app_secret: &[u8]) -> (r: (
    StoredLogin,
    StoredLogin,
))
    ensures
        r.0.url@ == key_item_url(KeyItem::User),
        r.0.username@ == "bunker"@,
        r.0.password@ == clean_uri.spec_bytes(),
        r.1.url@ == key_item_url(KeyItem::Bunker),
        r.1.username@ == app_public_key_hex@,
        r.1.password@ == app_secret@,
{
    let user = StoredLogin {
        url: KeyItem::User.to_string(),
        username: String::from_str("bunker"),
        password: clean_uri.as_bytes_vec(),
    };
    let bunker = StoredLogin {
        url: KeyItem::Bunker.to_string(),
        username: String::from_str(app_public_key_hex),
        password: vstd::slice::slice_to_vec(app_secret),
    };
    (user, bunker)
}

/// The credential that a login with keys stores: the public key and the
/// secret key's hex text under the user item.
pub fn key_credentials(public_key_hex: &str, secret_hex: &str) -> (r: StoredLogin)
    ensures
        r.url@ == key_item_url(KeyItem::User),
        r.username@ == public_key_hex@,
        r.password@ == secret_hex.spec_bytes(),
{
    StoredLogin {
        url: KeyItem::User.to_string(),
        username: String::from_str(public_key_hex),
        password: secret_hex.as_bytes_vec(),
    }
}

/// Reads the remote-signer uri that the user gave: `BunkerInvalid` when it
/// does not parse.
pub fn bunker_login(value: &str) -> (r: Result<NostrConnectURI, LoginError>)
    ensures
        r is Ok == nostr_connect_uri_parses(value@),
        r is Err ==> r->Err_0 == LoginError::BunkerInvalid,
{
    match parse_nostr_connect_uri(value) {
        Some(uri) => Ok(uri),
        None => Err(LoginError::BunkerInvalid),
    }
}

/// How the stored user signs in again at start.
#[derive(Debug)]
pub enum StartupLogin {
    /// Through the remote signer of this uri.
    Bunker(NostrConnectURI),
    /// With this secret key.
    Keys(Key32),
    /// The stored secret is neither: the user is told, nothing happens.
    Failed,
}

/// Decides how the stored secret signs the user in: a `bunker://` uri
/// through its remote signer, anything else as a secret key.
pub fn startup_login(secret: &str) -> (r: StartupLogin)
    ensures
        has_prefix(secret@, "bunker://"@) ==> (r is Bunker <==> nostr_connect_uri_parses(secret@))
            && (r is Bunker || r is Failed),
        !has_prefix(secret@, "bunker://"@) ==> match secret_key_of_text(secret@) {
            Some(k) => r matches StartupLogin::Keys(key) && key@ == k,
            None => r is Failed,
        },
{
    if starts_with(secret, "bunker://") {
        match parse_nostr_connect_uri(secret) {
            Some(uri) => StartupLogin::Bunker(uri),
            None => StartupLogin::Failed,
        }
    } else {
        match secret_key_from_text(secret) {
            Some(k) => StartupLogin::Keys(k),
            None => StartupLogin::Failed,
        }
    }
}

} // verus!
