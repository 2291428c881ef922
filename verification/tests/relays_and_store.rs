use coop::key_store::backend::{
    Credentials, CredentialsError, FileProvider, KeyItem as BackendKeyItem, KeyringProvider,
};
use coop::key_store::item::KeyItem;
use coop::key_store::{BackendKind, KeyStore};
use coop::paths::{BaseDir, DirPath};
use coop::relays::{
    first_three, relay_address, relays_from_tags, AddRelay, RelayList, RelayListError, RelaySet,
    SetupAdd,
};

fn texts(list: &RelayList) -> Vec<String> {
    list.relays().iter().map(|r| r.text().to_string()).collect()
}

#[test]
fn relay_addresses_are_parsed() {
    let r = relay_address("wss://relay.damus.io").unwrap();
    assert_eq!(r.text(), "wss://relay.damus.io");
    let r = relay_address("wss://Relay.Damus.io/").unwrap();
    assert_eq!(r.text(), "wss://relay.damus.io/");
    assert!(relay_address("https://relay.damus.io").is_none());
    assert!(relay_address("relay.damus.io").is_none());
    assert!(relay_address("wss://a://b").is_none());
}

#[test]
fn relay_list_add_outcomes() {
    let mut list = RelayList::new();
    assert_eq!(list.add("relay.damus.io"), AddRelay::NotWebSocket);
    assert_eq!(list.add("ws"), AddRelay::Invalid);
    assert_eq!(list.add("wss://relay.damus.io"), AddRelay::Added);
    assert_eq!(list.add("wss://relay.damus.io/"), AddRelay::AlreadyListed);
    assert_eq!(list.add("wss://nos.lol"), AddRelay::Added);
    assert_eq!(texts(&list), vec!["wss://relay.damus.io", "wss://nos.lol"]);
    assert_eq!(list.len(), 2);
    list.remove(0);
    assert_eq!(texts(&list), vec!["wss://nos.lol"]);
    assert_eq!(list.check_saveable(), Ok(()));
    list.remove(0);
    assert_eq!(list.check_saveable(), Err(RelayListError::Empty));
}

#[test]
fn relays_from_tags_skips_invalid_and_keeps_order() {
    let tags: Vec<String> = vec![
        "wss://a.example".into(),
        "not a url".into(),
        "wss://b.example".into(),
        "https://c.example".into(),
        "wss://c.example".into(),
        "wss://d.example".into(),
    ];
    let list = relays_from_tags(&tags);
    assert_eq!(texts(&list), vec!["wss://a.example", "wss://b.example", "wss://c.example", "wss://d.example"]);
    let three = first_three(&list);
    assert_eq!(texts(&three), vec!["wss://a.example", "wss://b.example", "wss://c.example"]);
    let two = first_three(&relays_from_tags(&vec!["wss://x.example".into(), "wss://y.example".into()]));
    assert_eq!(texts(&two), vec!["wss://x.example", "wss://y.example"]);
}

#[test]
fn relay_set_add_and_remove() {
    let mut set = RelaySet::new();
    assert_eq!(set.check_saveable(), Err(RelayListError::Empty));
    assert_eq!(set.add("nos.lol"), SetupAdd::Invalid);
    assert_eq!(set.add("wss://nos.lol"), SetupAdd::Added);
    assert_eq!(set.add("wss://nos.lol/"), SetupAdd::AlreadyListed);
    assert_eq!(set.relays().len(), 1);
    assert_eq!(set.check_saveable(), Ok(()));
    let r = relay_address("wss://nos.lol").unwrap();
    set.remove(&r);
    assert_eq!(set.relays().len(), 0);
}

#[test]
fn credentials_map() {
    let mut c = Credentials::new();
    assert_eq!(c.len(), 0);
    c.insert("coop-user".into(), "alice".into(), vec![1, 2]);
    c.insert("coop-bunker".into(), "app".into(), vec![3]);
    c.insert("coop-user".into(), "bob".into(), vec![4]);
    assert_eq!(c.len(), 2);
    assert_eq!(c.get("coop-user"), Some(("bob".to_string(), vec![4])));
    c.remove("coop-user");
    assert_eq!(c.get("coop-user"), None);
    assert_eq!(c.len(), 1);
}

fn provider() -> FileProvider {
    FileProvider::new(DirPath { base: BaseDir::Config, segments: vec!["coop".into()] })
}

#[test]
fn file_provider_path_and_names() {
    let p = provider();
    assert_eq!(p.file_path().base, BaseDir::Config);
    assert_eq!(p.file_path().segments, vec!["coop".to_string(), ".keys".to_string()]);
    assert_eq!(p.name(), "file");
    assert_eq!(KeyringProvider.name(), "keyring");
    assert_eq!(BackendKeyItem::User.to_string(), "coop-user");
    assert_eq!(BackendKeyItem::Bunker.to_string(), "coop-bunker");
    assert_eq!(KeyItem::Encryption.to_string(), "encryption");
    assert_eq!(KeyItem::Client.to_string(), "client");
    assert_eq!(KeyItem::Bunker.to_string(), "bunker");
    assert_eq!(KeyItem::User.to_string(), "user");
}

#[test]
fn read_after_write_gives_back_the_credential() {
    let p = provider();
    let text = p.write_credentials(None, "coop-user", "alice", &[7, 8, 9]).unwrap();
    let file = text.as_bytes();
    assert_eq!(p.read_credentials(Some(file), "coop-user"), Some(("alice".to_string(), vec![7, 8, 9])));
    assert_eq!(p.read_credentials(Some(file), "coop-bunker"), None);

    let text2 = p.write_credentials(Some(file), "coop-bunker", "app", &[1]).unwrap();
    let file2 = text2.as_bytes();
    assert_eq!(p.read_credentials(Some(file2), "coop-user"), Some(("alice".to_string(), vec![7, 8, 9])));
    assert_eq!(p.read_credentials(Some(file2), "coop-bunker"), Some(("app".to_string(), vec![1])));

    let text3 = p.delete_credentials(Some(file2), "coop-user").unwrap();
    let file3 = text3.as_bytes();
    assert_eq!(p.read_credentials(Some(file3), "coop-user"), None);
    assert_eq!(p.read_credentials(Some(file3), "coop-bunker"), Some(("app".to_string(), vec![1])));
}

#[test]
fn file_provider_errors() {
    let p = provider();
    assert_eq!(p.load_credentials(None).unwrap_err(), CredentialsError::Io);
    assert_eq!(p.load_credentials(Some(b"not json")).unwrap_err(), CredentialsError::Json);
    assert_eq!(p.delete_credentials(None, "coop-user").unwrap_err(), CredentialsError::Io);
    assert_eq!(p.delete_credentials(Some(b"[1,2]"), "coop-user").unwrap_err(), CredentialsError::Json);
    assert_eq!(p.read_credentials(Some(b"garbage"), "coop-user"), None);
    let loaded = p.load_credentials(Some(br#"{"coop-user":["alice",[1,2,3]]}"#)).unwrap();
    assert_eq!(loaded.get("coop-user"), Some(("alice".to_string(), vec![1, 2, 3])));
    let saved = p.save_credentials(&loaded).unwrap();
    assert_eq!(saved, r#"{"coop-user":["alice",[1,2,3]]}"#);
}

#[test]
fn key_store_backend_choice() {
    let ks = KeyStore::new(false, None);
    assert_eq!(ks.backend(), BackendKind::Keyring);
    assert!(!ks.initialized());
    assert!(!ks.is_using_file_keystore());
    assert_eq!(KeyStore::new(false, Some("")).backend(), BackendKind::Keyring);
    assert_eq!(KeyStore::new(false, Some("1")).backend(), BackendKind::File);
    assert_eq!(KeyStore::new(true, None).backend(), BackendKind::File);

    let mut ks = KeyStore::new(false, None);
    ks.on_keyring_checked(true);
    assert!(ks.initialized());
    assert_eq!(ks.backend(), BackendKind::Keyring);
    ks.on_keyring_checked(false);
    assert_eq!(ks.backend(), BackendKind::File);
    assert!(ks.is_using_file_keystore());
    assert_eq!(BackendKind::File.name(), "file");
    assert_eq!(BackendKind::Keyring.name(), "keyring");
}
