//! Application-wide values: the tags under which Coop stores its own data,
//! relay notices, authentication requests and the gift-wrap status.
use vstd::prelude::*;

verus! {

/// The identifier under which an application data event is stored.
#[derive(Debug, Clone, Copy, PartialEq, Eq, PartialOrd, Ord)]
pub enum AppIdentifierTag {
    Master,
    Client,
    Bunker,
    User,
    Setting,
}

/// The text of an identifier tag.
pub open spec fn identifier_text(tag: AppIdentifierTag) -> Seq<char> {
    match tag {
        AppIdentifierTag::Master => "coop:master"@,
        AppIdentifierTag::Client => "coop:client"@,
        AppIdentifierTag::Bunker => "coop:bunker"@,
        AppIdentifierTag::User => "coop:user"@,
        AppIdentifierTag::Setting => "coop:setting"@,
    }
}

impl AppIdentifierTag {
    /// Returns the tag's text.
    pub fn to_string(&self) -> (r: String)
        ensures
            r@ == identifier_text(*self),
    {
        match self {
            AppIdentifierTag::Master => String::from_str("coop:master"),
            AppIdentifierTag::Client => String::from_str("coop:client"),
            AppIdentifierTag::Bunker => String::from_str("coop:bunker"),
            AppIdentifierTag::User => String::from_str("coop:user"),
            AppIdentifierTag::Setting => String::from_str("coop:setting"),
        }
    }
}

impl From<AppIdentifierTag> for String {
    /// The item's text.
    fn from(item: AppIdentifierTag) -> (r: String)
        ensures
            r@ == identifier_text(item),
    {
        item.to_string()
    }
}

/// `from_spec` names a string with the item's text; two strings with one
/// text are not provably the same value, so `from` is specified by its own
/// `ensures` instead, and this impl does not claim to obey `from_spec`.
impl vstd::std_specs::convert::FromSpecImpl<AppIdentifierTag> for String {
    open spec fn obeys_from_spec() -> bool {
        false
    }

    open spec fn from_spec(item: AppIdentifierTag) -> String {
        choose|s: String| s@ == identifier_text(item)
    }
}

/// A relay that asks the client to authenticate.
#[derive(Debug, Clone)]
pub struct AuthRequest {
    /// The relay's url.
    pub url: String,
    /// The challenge that the relay sent.
    pub challenge: String,
    /// Whether the answer is being sent.
    pub sending: bool,
}

impl AuthRequest {
    /// A request that is not being answered yet.
    pub fn new(challenge: String, url: String) -> (r: AuthRequest)
        ensures
            r.url@ == url@,
            r.challenge@ == challenge@,
            !r.sending,
    {
        AuthRequest { challenge, sending: false, url }
    }
}

/// A notice shown to the user.
#[derive(Debug, Clone)]
pub enum Notice {
    /// Coop could not connect to the relay with this url.
    RelayFailed(String),
    /// Authentication failed for the relay with this url.
    AuthFailed(String),
    /// Any other message.
    Custom(String),
}

/// The text shown for a notice.
pub open spec fn notice_text(n: Notice) -> Seq<char> {
    match n {
        Notice::AuthFailed(url) => "Authenticate failed for relay "@ + url@,
        Notice::RelayFailed(url) => "Failed to connect the relay "@ + url@,
        Notice::Custom(msg) => msg@,
    }
}

impl Notice {
    /// Returns the text shown for the notice.
    pub fn as_str(&self) -> (r: String)
        ensures
            r@ == notice_text(*self),
    {
        match self {
            Notice::AuthFailed(url) => String::from_str("Authenticate failed for relay ").concat(
                url.as_str(),
            ),
            Notice::RelayFailed(url) => String::from_str("Failed to connect the relay ").concat(
                url.as_str(),
            ),
            Notice::Custom(msg) => msg.clone(),
        }
    }
}

/// How far the processing of gift-wrapped messages has come.
#[derive(Debug, Clone, Copy, PartialEq, Eq, PartialOrd, Ord)]
pub enum UnwrappingStatus {
    Initialized,
    Processing,
    Complete,
}

impl Default for UnwrappingStatus {
    fn default() -> (r: UnwrappingStatus)
        ensures
            r == UnwrappingStatus::Initialized,
    {
        UnwrappingStatus::Initialized
    }
}

} // verus!
