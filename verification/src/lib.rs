//! Verified core of the Coop nostr messaging client.
pub mod chat;
pub mod compose;
pub mod device;
pub mod encryption;
pub mod encryption_ui;
pub mod i18n;
pub mod identity;
pub mod ids;
pub mod key_store;
pub mod keys;
pub mod login;
pub mod new_account;
pub mod onboarding;
pub mod paths;
pub mod person;
pub mod profile;
pub mod relays;
pub mod screening;
pub mod search;
pub mod settings;
pub mod signer;
pub mod state;
pub mod text;
pub mod tracker;
pub mod workspace;
