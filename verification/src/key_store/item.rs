//! The names under which Coop files its keys.
use vstd::prelude::*;

verus! {

/// A kind of key that Coop stores.
#[derive(Debug, Clone, Copy, PartialEq, Eq, PartialOrd, Ord, Hash)]
pub enum KeyItem {
    Encryption,
    Client,
    Bunker,
    User,
}

/// The name of a key item.
pub open spec fn key_item_name(item: KeyItem) -> Seq<char> {
    match item {
        KeyItem::Encryption => "encryption"@,
        KeyItem::Client => "client"@,
        KeyItem::Bunker => "bunker"@,
        KeyItem::User => "user"@,
    }
}

impl KeyItem {
    /// Returns the item's name.
    pub fn to_string(&self) -> (r: String)
        ensures
            r@ == key_item_name(*self),
    {
        match self {
            KeyItem::Encryption => String::from_str("encryption"),
            KeyItem::Client => String::from_str("client"),
            KeyItem::Bunker => String::from_str("bunker"),
            KeyItem::User => String::from_str("user"),
        }
    }
}

impl From<KeyItem> for String {
    /// The item's text.
    fn from(item: KeyItem) -> (r: String)
        ensures
            r@ == key_item_name(item),
    {
        item.to_string()
    }
}

/// `from_spec` names a string with the item's text; two strings with one
/// text are not provably the same value, so `from` is specified by its own
/// `ensures` instead, and this impl does not claim to obey `from_spec`.
impl vstd::std_specs::convert::FromSpecImpl<KeyItem> for String {
    open spec fn obeys_from_spec() -> bool {
        false
    }

    open spec fn from_spec(item: KeyItem) -> String {
        choose|s: String| s@ == key_item_name(item)
    }
}

} // verus!
