use coop::chat::{ChatReports, RoomKind};
use coop::compose::ComposeError;
use coop::encryption::EncryptionError;
use coop::ids::Key32;
use coop::login::{KeyLoginForm, KeyLoginStep, LoginError, PasswordLoginError};
use coop::new_account::{
    bootstrap_relays, new_account_plan, NewAccountForm, KIND_INBOX_RELAYS, KIND_METADATA,
    KIND_RELAY_LIST,
};
use coop::paths::{BaseDir, DirPath, PathCache, SystemDirs, TargetOs};
use coop::profile::{edited_metadata, ProfileFields};
use coop::relays::RelayMarker;
use coop::screening::{closes_room, screen_on_open, ScreeningAnswer};
use coop::search::{empty_state, loading_rows, EmptyState, RoomFilter, SearchError};
use coop::settings::{media_server_update, Settings};
use coop::tracker::SeenOn;

const NSEC: &str = "nsec1vl029mgpspedva04g90vltkh6fvh240zqtv9k0t9af8935ke9laqsnlfe5";

fn key(n: u8) -> Key32 {
    Key32::from_bytes([n; 32])
}

fn linux(flatpak: bool) -> SystemDirs {
    SystemDirs {
        os: TargetOs::Linux,
        has_home: true,
        has_config: true,
        has_data_local: true,
        has_flatpak_config: flatpak,
        has_flatpak_data: flatpak,
    }
}

fn segments(p: &DirPath) -> Vec<&str> {
    p.segments.iter().map(|s| s.as_str()).collect()
}

#[test]
fn sidebar_empty_state_by_filter() {
    let mut f = RoomFilter::new();
    assert_eq!(empty_state(false, 0, &f), Some(EmptyState::NoConversations));
    assert_eq!(empty_state(true, 0, &f), None);
    assert_eq!(empty_state(false, 2, &f), None);
    f.set_filter(RoomKind::Request);
    assert_eq!(empty_state(false, 0, &f), Some(EmptyState::NoRequests));
    assert_eq!(empty_state(true, 1, &f), None);
}

#[test]
fn sidebar_rows_while_loading() {
    assert_eq!(loading_rows(4, true), 7);
    assert_eq!(loading_rows(4, false), 4);
    assert_eq!(loading_rows(0, true), 3);
}

#[test]
fn error_messages() {
    assert_eq!(SearchError::NoResults.message("alice"), "No results for query alice");
    assert_eq!(ComposeError::AlreadyAdded.message(), "Contact already added");
    assert_eq!(EncryptionError::ClientSignerRequired.message(), "Client Signer is required");
    assert_eq!(PasswordLoginError::PasswordRequired.message(), "Password is required");
    assert_eq!(PasswordLoginError::SecretKeyInvalid.message(), "Secret Key is invalid");
    assert_eq!(PasswordLoginError::InvalidPassword.message(), "Invalid password");
    assert_eq!(LoginError::InvalidKey.message_key(), "login.invalid_key");
    assert_eq!(LoginError::PasswordRequired.message_key(), "login.password_is_required");
    assert_eq!(LoginError::MustConfirmPassword.message_key(), "login.must_confirm_password");
    assert_eq!(LoginError::PasswordNotMatch.message_key(), "login.password_not_match");
    assert_eq!(LoginError::KeyInvalid.message_key(), "login.key_invalid");
    assert_eq!(LoginError::BunkerInvalid.message_key(), "login.bunker_invalid");
}

#[test]
fn key_login_form_sets_and_clears_the_busy_flag() {
    let mut form = KeyLoginForm::new();
    assert!(!form.logging_in);
    assert_eq!(form.login("hello"), KeyLoginStep::Invalid);
    assert!(!form.logging_in);
    assert_eq!(form.error.as_deref(), Some("Invalid"));
    form.clear_error();
    assert_eq!(form.error, None);

    assert_eq!(form.login("bunker://abc"), KeyLoginStep::ConnectBunker);
    assert!(form.logging_in);
    assert_eq!(form.login(NSEC), KeyLoginStep::Busy);
    assert!(form.logging_in);

    assert!(form.connect_bunker("not a bunker").is_none());
    assert!(!form.logging_in);
    assert_eq!(form.error.as_deref(), Some("Bunker is not valid"));

    let mut form = KeyLoginForm::new();
    match form.login(NSEC) {
        KeyLoginStep::UseSecret(_) => {}
        other => panic!("unexpected {:?}", other),
    }
    assert!(form.logging_in);
    assert_eq!(form.login("ncryptsec1xyz"), KeyLoginStep::Busy);
}

#[test]
fn chat_keeps_reports_by_message() {
    let mut chat = ChatReports::new(RoomKind::Request);
    assert_eq!(chat.is_sent_success(&key(1)), None);
    assert!(!chat.is_sent_failed(&key(1)));
    chat.on_sent(key(1), vec![false, false]);
    assert_eq!(chat.kind(), RoomKind::Request);
    assert!(chat.is_sent_failed(&key(1)));
    assert_eq!(chat.is_sent_success(&key(1)), Some(false));
    chat.on_sent(key(2), vec![true, false]);
    assert_eq!(chat.kind(), RoomKind::Ongoing);
    assert!(!chat.is_sent_failed(&key(2)));
    assert_eq!(chat.is_sent_success(&key(2)), Some(false));
    chat.on_sent(key(1), vec![true]);
    assert_eq!(chat.is_sent_success(&key(1)), Some(true));
    assert!(!chat.is_sent_failed(&key(1)));
}

#[test]
fn new_account_publishes_in_order() {
    let list = vec![
        ("wss://a".to_string(), None),
        ("wss://b".to_string(), Some(RelayMarker::Read)),
        ("wss://c".to_string(), Some(RelayMarker::Write)),
    ];
    let plan = new_account_plan("ab12", "cd34", &list);
    assert_eq!(plan.credential.url, "coop-user");
    assert_eq!(plan.credential.username, "ab12");
    assert_eq!(plan.credential.password, b"cd34".to_vec());
    let kinds: Vec<u16> = plan.publishes.iter().map(|p| p.kind).collect();
    assert_eq!(kinds, vec![KIND_RELAY_LIST, KIND_INBOX_RELAYS, KIND_METADATA, KIND_METADATA]);
    assert_eq!(kinds, vec![10002, 10050, 0, 0]);
    let boot = bootstrap_relays();
    assert_eq!(
        boot,
        vec!["wss://relay.damus.io", "wss://relay.primal.net", "wss://user.kindpag.es", "wss://purplepag.es"]
    );
    assert_eq!(plan.publishes[0].relays, boot);
    assert_eq!(plan.publishes[1].relays, vec!["wss://a", "wss://c"]);
    assert_eq!(plan.publishes[2].relays, vec!["wss://a", "wss://c"]);
    assert_eq!(plan.publishes[3].relays, boot);

    let mut form = NewAccountForm::new();
    assert!(!form.submitting);
    form.create();
    assert!(form.submitting);
    form.on_published(true);
    assert!(form.submitting);
    form.on_published(false);
    assert!(!form.submitting);
}

#[test]
fn screening_when_a_room_opens() {
    assert!(screen_on_open(RoomKind::Request, true));
    assert!(!screen_on_open(RoomKind::Request, false));
    assert!(!screen_on_open(RoomKind::Ongoing, true));
    assert!(closes_room(ScreeningAnswer::Ignore));
    assert!(!closes_room(ScreeningAnswer::Respond));
}

#[test]
fn media_server_is_stored_only_when_it_parses() {
    assert_eq!(media_server_update("https://files.example"), Some("https://files.example/".to_string()));
    assert_eq!(media_server_update("not a url"), None);
    let mut s = Settings::new();
    assert_eq!(s.media_server(), "https://nostrmedia.com");
    assert!(!s.update_media_server("not a url"));
    assert_eq!(s.media_server(), "https://nostrmedia.com");
    assert!(s.update_media_server("https://files.example"));
    assert_eq!(s.media_server(), "https://files.example/");
    assert!(!s.update_media_server(""));
    assert_eq!(s.media_server(), "https://files.example/");
}

#[test]
fn edited_metadata_keeps_custom_fields() {
    let mut old = ProfileFields::new();
    old.custom = vec![("pronouns".to_string(), "\"they\"".to_string())];
    let new = edited_metadata(&old, "Al", "", "", "");
    assert_eq!(new.custom, old.custom);
}

#[test]
fn paths_are_computed_once() {
    let mut cache = PathCache::new();
    let first = cache.nostr_file(&linux(false));
    assert_eq!(first.base, BaseDir::DataLocal);
    assert_eq!(segments(&first), vec!["coop", "nostr"]);
    let again = cache.nostr_file(&linux(true));
    assert_eq!(again.base, BaseDir::DataLocal);
    assert_eq!(segments(&again), vec!["coop", "nostr"]);
    let support = cache.support_dir(&linux(true));
    assert_eq!(support.base, BaseDir::DataLocal);
    let config = cache.config_dir(&linux(true));
    assert_eq!(config.base, BaseDir::FlatpakConfig);
    assert_eq!(cache.config_dir(&linux(false)).base, BaseDir::FlatpakConfig);
    let home = cache.home_dir(&linux(false));
    assert_eq!(home.base, BaseDir::Home);
    assert!(home.segments.is_empty());
}

#[test]
fn seen_on_lists_each_relay_once() {
    let mut seen = SeenOn::new();
    assert!(seen.relays_for(&key(1)).is_empty());
    seen.on_seen(key(1), "wss://a".to_string());
    seen.on_seen(key(2), "wss://b".to_string());
    seen.on_seen(key(1), "wss://c".to_string());
    seen.on_seen(key(1), "wss://a".to_string());
    assert_eq!(seen.relays_for(&key(1)), vec!["wss://a", "wss://c"]);
    assert_eq!(seen.relays_for(&key(2)), vec!["wss://b"]);
    assert!(seen.relays_for(&key(3)).is_empty());
}
