use coop::chat::RoomKind;
use coop::ids::Key32;
use coop::key_store::backend::KeyItem as BackendKeyItem;
use coop::key_store::item::KeyItem;
use coop::profile::{edited_metadata, new_account_metadata, ProfileFields};
use coop::relays::{write_relays, RelayMarker};
use coop::search::{nip50_results, shown_rows, RoomFilter, RoomSource, SearchError, SearchState};
use coop::state::{AppIdentifierTag, UnwrappingStatus};

fn key(n: u8) -> Key32 {
    Key32::from_bytes([n; 32])
}

#[test]
fn edited_metadata_keeps_what_does_not_parse() {
    let mut old = ProfileFields::new();
    old.name = Some("alice".into());
    old.picture = Some("https://old.example/a.png".into());
    old.website = Some("https://old.example/".into());
    old.nip05 = Some("alice@old.example".into());
    let new = edited_metadata(&old, "Alice", "hi there", "not a url", "https://alice.example");
    assert_eq!(new.name.as_deref(), Some("alice"));
    assert_eq!(new.display_name.as_deref(), Some("Alice"));
    assert_eq!(new.about.as_deref(), Some("hi there"));
    assert_eq!(new.picture.as_deref(), Some("https://old.example/a.png"));
    assert_eq!(new.website.as_deref(), Some("https://alice.example/"));
    assert_eq!(new.nip05.as_deref(), Some("alice@old.example"));

    let new = edited_metadata(&old, "", "", "https://cdn.example/b.png", "");
    assert_eq!(new.display_name.as_deref(), Some(""));
    assert_eq!(new.picture.as_deref(), Some("https://cdn.example/b.png"));
    assert_eq!(new.website.as_deref(), Some("https://old.example/"));
}

#[test]
fn new_account_metadata_uses_the_name_twice() {
    let m = new_account_metadata("bob", "https://img.example/bob.jpg");
    assert_eq!(m.name.as_deref(), Some("bob"));
    assert_eq!(m.display_name.as_deref(), Some("bob"));
    assert_eq!(m.picture.as_deref(), Some("https://img.example/bob.jpg"));
    assert_eq!(m.about, None);
    let m = new_account_metadata("bob", "bob.jpg");
    assert_eq!(m.picture, None);
}

#[test]
fn write_relays_keep_unmarked_and_write() {
    let list = vec![
        ("wss://a".to_string(), None),
        ("wss://b".to_string(), Some(RelayMarker::Read)),
        ("wss://c".to_string(), Some(RelayMarker::Write)),
        ("wss://d".to_string(), None),
    ];
    assert_eq!(write_relays(&list), vec!["wss://a", "wss://c", "wss://d"]);
    assert!(write_relays(&vec![]).is_empty());
}

#[test]
fn items_convert_to_strings() {
    assert_eq!(String::from(BackendKeyItem::Bunker), "coop-bunker");
    assert_eq!(String::from(BackendKeyItem::User), "coop-user");
    assert_eq!(String::from(KeyItem::User), "user");
    assert_eq!(String::from(KeyItem::Encryption), "encryption");
    assert_eq!(String::from(AppIdentifierTag::Setting), "coop:setting");
    assert_eq!(String::from(AppIdentifierTag::Client), "coop:client");
}

#[test]
fn relay_search_follow_up() {
    let me = key(0);
    assert_eq!(nip50_results(&vec![me, me], &me).unwrap_err(), SearchError::NoResults);
    assert_eq!(nip50_results(&vec![], &me).unwrap_err(), SearchError::NoResults);
    let fetch = nip50_results(&vec![key(1), me, key(2), key(1)], &me).unwrap();
    assert_eq!(fetch.authors, vec![key(1), key(2)]);
    assert_eq!(fetch.limit, 4);
}

#[test]
fn room_list_source_and_rows() {
    let mut st = SearchState::new();
    let mut f = RoomFilter::new();
    assert_eq!(st.room_source(&f), RoomSource::Ongoing);
    f.set_filter(RoomKind::Request);
    assert_eq!(st.room_source(&f), RoomSource::Requests);
    st.global_result = Some(vec![1]);
    assert_eq!(st.room_source(&f), RoomSource::GlobalResults);
    st.local_result = Some(vec![2]);
    assert_eq!(st.room_source(&f), RoomSource::LocalResults);
    assert_eq!(shown_rows(5, UnwrappingStatus::Complete), 5);
    assert_eq!(shown_rows(5, UnwrappingStatus::Processing), 8);
    assert_eq!(shown_rows(0, UnwrappingStatus::Initialized), 3);
}
