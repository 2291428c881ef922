use coop::chat::{
    check_message, input_content, members_without_relays, is_sent_failed, is_sent_success, join, compact_input_content,
    message_position, prevent_duplicate_message, room_kind_after_send, Attachments, ChatError,
    MessageSummary, Replies, RoomKind,
};
use coop::compose::{
    member_input, submit, ComposeError, Contact, ContactList, MemberInput, SubmitAction,
};
use coop::ids::Key32;
use coop::search::{
    find_char, is_nip05, on_input_change, query_kind, search_candidates, InputChange,
    LocalOutcome, OpenRoom, QueryKind, RoomFilter, SearchAction, SearchState,
};

const NPUB: &str = "npub10elfcs4fr0l0r8af98jlmgdh9c8tcxjvz9qkw038js35mp4dma8qzvjptg";

fn key(n: u8) -> Key32 {
    Key32::from_bytes([n; 32])
}

fn s(v: &[&str]) -> Vec<String> {
    v.iter().map(|x| x.to_string()).collect()
}

#[test]
fn join_and_message_content() {
    assert_eq!(join(&s(&["a", "b", "c"]), ", "), "a, b, c");
    assert_eq!(join(&s(&[]), "\n"), "");
    assert_eq!(join(&s(&["only"]), "\n"), "only");
    assert_eq!(input_content("  hi  ", &s(&[])), "hi");
    assert_eq!(input_content("  hi  ", &s(&["https://x/1.png", "https://x/2.png"])), "hi\nhttps://x/1.png\nhttps://x/2.png");
    assert_eq!(input_content("   ", &s(&["https://x/1.png"])), "https://x/1.png");
    assert_eq!(compact_input_content(" hi ", None), "hi");
    assert_eq!(compact_input_content(" hi ", Some(&s(&[]))), "hi");
    assert_eq!(compact_input_content("", Some(&s(&["u"]))), "\nu");
}

#[test]
fn empty_messages_are_refused() {
    assert_eq!(check_message(" \n\t "), Err(ChatError::EmptyMessage));
    assert_eq!(check_message(""), Err(ChatError::EmptyMessage));
    assert_eq!(check_message(" ok "), Ok(()));
}

#[test]
fn send_reports() {
    assert!(!is_sent_failed(None));
    assert!(is_sent_failed(Some(&vec![false, false])));
    assert!(!is_sent_failed(Some(&vec![false, true])));
    assert!(is_sent_failed(Some(&vec![])));
    assert_eq!(is_sent_success(None), None);
    assert_eq!(is_sent_success(Some(&vec![true, true])), Some(true));
    assert_eq!(is_sent_success(Some(&vec![true, false])), Some(false));
}

#[test]
fn request_becomes_ongoing_after_a_send_that_reached_a_relay() {
    assert_eq!(room_kind_after_send(RoomKind::Request, &vec![false, true]), RoomKind::Ongoing);
    assert_eq!(room_kind_after_send(RoomKind::Request, &vec![false, false]), RoomKind::Request);
    assert_eq!(room_kind_after_send(RoomKind::Ongoing, &vec![false]), RoomKind::Ongoing);
}

#[test]
fn replies_and_attachments() {
    let mut r = Replies::new();
    r.reply_to(key(1), true);
    r.reply_to(key(2), false);
    r.reply_to(key(3), true);
    r.reply_to(key(1), true);
    assert_eq!(r.ids(), &vec![key(1), key(3), key(1)]);
    r.remove_reply(&key(1));
    assert_eq!(r.ids(), &vec![key(3), key(1)]);
    r.remove_reply(&key(9));
    assert_eq!(r.ids().len(), 2);
    r.remove_all_replies();
    assert!(r.ids().is_empty());

    let mut a = Attachments::new();
    a.add_attachment("u1".into());
    a.add_attachment("u2".into());
    a.add_attachment("u1".into());
    a.remove_attachment("u1");
    assert_eq!(a.urls(), &s(&["u2", "u1"]));
    a.remove_attachment("zz");
    assert_eq!(a.urls().len(), 2);
    a.remove_all_attachments();
    assert!(a.urls().is_empty());
}

#[test]
fn duplicate_messages_within_ten_seconds() {
    let me = key(7);
    let old = MessageSummary { author: Some(me), created_at: 100, content: "hi".into() };
    let existing = vec![old];
    let same = MessageSummary { author: Some(me), created_at: 110, content: "hi".into() };
    assert!(prevent_duplicate_message(Some(me), &same, &existing));
    let later = MessageSummary { author: Some(me), created_at: 111, content: "hi".into() };
    assert!(!prevent_duplicate_message(Some(me), &later, &existing));
    let other_text = MessageSummary { author: Some(me), created_at: 105, content: "ho".into() };
    assert!(!prevent_duplicate_message(Some(me), &other_text, &existing));
    assert!(!prevent_duplicate_message(None, &same, &existing));
    let other = MessageSummary { author: Some(key(8)), created_at: 105, content: "hi".into() };
    assert!(!prevent_duplicate_message(Some(me), &other, &existing));
}

#[test]
fn message_positions() {
    let ids = vec![None, Some(key(1)), Some(key(2)), Some(key(1))];
    assert_eq!(message_position(&ids, &key(1)), Some(1));
    assert_eq!(message_position(&ids, &key(2)), Some(2));
    assert_eq!(message_position(&ids, &key(3)), None);
}

#[test]
fn contacts_stay_unique() {
    let mut list = ContactList::new();
    assert_eq!(list.push_contact(Contact::new(key(1))), Ok(()));
    assert_eq!(list.push_contact(Contact::new(key(2)).selected()), Ok(()));
    assert_eq!(list.push_contact(Contact::new(key(1)).selected()), Err(ComposeError::AlreadyAdded));
    assert_eq!(list.contacts().len(), 2);
    assert_eq!(list.selected(), vec![key(2)]);
    assert_eq!(list.contacts()[0].public_key, key(2));
    list.select_contact(&key(1));
    assert_eq!(list.selected(), vec![key(2), key(1)]);
    list.select_contact(&key(1));
    assert_eq!(list.selected(), vec![key(2), key(1)]);
    list.select_contact(&key(9));
    assert_eq!(list.selected(), vec![key(2), key(1)]);
    list.extend_contacts(vec![Contact::new(key(3))]);
    assert_eq!(list.contacts().len(), 3);
}

#[test]
fn member_input_and_submit() {
    match member_input(NPUB) {
        MemberInput::Add(c) => assert!(c.selected),
        other => panic!("unexpected {other:?}"),
    }
    assert_eq!(member_input("alice@example.com"), MemberInput::LookupAddress);
    assert_eq!(member_input("alice"), MemberInput::Nothing);

    let mut list = ContactList::new();
    list.push_contact(Contact::new(key(1)).selected()).unwrap();
    list.push_contact(Contact::new(key(2))).unwrap();
    assert!(matches!(submit(&list, "Trip", "npub1..."), SubmitAction::AddTypedMember));
    match submit(&list, "Trip", "") {
        SubmitAction::CreateRoom { subject, receivers } => {
            assert_eq!(subject.as_deref(), Some("Trip"));
            assert_eq!(receivers, vec![key(1)]);
        }
        _ => panic!("expected a room"),
    }
    match submit(&list, "", "") {
        SubmitAction::CreateRoom { subject, .. } => assert_eq!(subject, None),
        _ => panic!("expected a room"),
    }
}

#[test]
fn query_kinds() {
    assert_eq!(query_kind("npub1abc"), QueryKind::PublicKey);
    assert_eq!(query_kind("nprofile1abc"), QueryKind::PublicKey);
    assert_eq!(query_kind("alice@example.com"), QueryKind::Nip05);
    assert_eq!(query_kind("@example.com"), QueryKind::Text);
    assert_eq!(query_kind("alice@example"), QueryKind::Text);
    assert_eq!(query_kind("a@b@c.com"), QueryKind::Text);
    assert_eq!(query_kind("alice@example."), QueryKind::Nip05);
    assert_eq!(query_kind("alice@"), QueryKind::Text);
    assert_eq!(query_kind("hello"), QueryKind::Text);
    assert!(is_nip05("bob@nostr.com"));
    assert_eq!(find_char("ab@c", '@'), Some(2));
    assert_eq!(find_char("abc", '@'), None);
}

#[test]
fn search_state_flow() {
    let mut st = SearchState::new();
    assert_eq!(st.search(""), SearchAction::Ignore);
    assert_eq!(st.search("bob"), SearchAction::Start { kind: QueryKind::Text, cancel_running: false });
    assert!(st.finding);
    assert_eq!(st.search("bob"), SearchAction::AlreadySearching);
    assert_eq!(st.on_local_search(vec![]), LocalOutcome::SearchRelays);
    assert!(st.cancellable);
    assert_eq!(st.search("bob"), SearchAction::Start { kind: QueryKind::Text, cancel_running: true });
    st.results(vec![5, 6], true);
    assert!(!st.finding);
    assert_eq!(st.global_result, Some(vec![5, 6]));
    assert_eq!(st.open_room(5, true), OpenRoom::Existing);
    assert_eq!(st.open_room(9, false), OpenRoom::NotFound);
    assert_eq!(st.open_room(6, false), OpenRoom::FromSearch);
    assert_eq!(st.global_result, None);

    let mut st = SearchState::new();
    st.search("x");
    assert_eq!(st.on_local_search(vec![3]), LocalOutcome::ShowLocal);
    assert_eq!(st.local_result, Some(vec![3]));
    assert!(!st.finding);
    st.search("y");
    st.search_failed();
    assert!(!st.finding && !st.cancellable);
    assert_eq!(st.local_result, Some(vec![3]));
    st.clear_search_results();
    assert_eq!(st.local_result, None);
}

#[test]
fn search_candidates_unique_without_user() {
    let me = key(0);
    let authors = vec![key(1), me, key(2), key(1), key(3), key(2)];
    assert_eq!(search_candidates(&authors, &me), vec![key(1), key(2), key(3)]);
    assert_eq!(search_candidates(&vec![], &me), vec![]);
}

#[test]
fn members_without_messaging_relays_are_warned_about() {
    let members = vec![(key(1), 2), (key(2), 0), (key(3), 1), (key(4), 0)];
    assert_eq!(members_without_relays(&members), vec![key(2), key(4)]);
    assert!(members_without_relays(&vec![(key(1), 1)]).is_empty());
}

#[test]
fn sidebar_filter_and_input() {
    let mut f = RoomFilter::new();
    assert!(f.filter(RoomKind::Ongoing));
    assert!(!f.filter(RoomKind::Request));
    assert_eq!(f.indicator(), None);
    f.on_new_request(RoomKind::Request);
    assert_eq!(f.indicator(), Some(RoomKind::Request));
    assert!(f.filter(RoomKind::Ongoing));
    f.set_filter(RoomKind::Request);
    assert!(f.filter(RoomKind::Request));
    assert_eq!(f.indicator(), None);
    assert_eq!(on_input_change(""), InputChange::ClearResults);
    assert_eq!(on_input_change("a"), InputChange::SearchSoon);
}
