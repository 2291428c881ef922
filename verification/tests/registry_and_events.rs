use coop::device::{
    check_stored_key, device_step, root_device_key, DeviceAction, DeviceEvent, DeviceInbox, DeviceKeyError,
    DeviceState, KIND_DEVICE_KEY_APPROVAL, KIND_DEVICE_KEY_REQUEST,
};
use coop::encryption::announcement::Announcement as DeviceAnnouncement;
use coop::encryption::{Encryption, EncryptionError};
use coop::encryption_ui::{EncryptionPanel, PanelStep, PanelView, RequestOutcome};
use coop::signer::{Announcement, Response, SignerKind};
use coop::i18n::{I18nBackend, Translation};
use coop::identity::Identity;
use coop::ids::Key32;
use coop::onboarding::NostrConnectApp;
use coop::profile::{Profile, ProfileFields};
use coop::person::{
    metadata_request, MetadataBatcher, MetadataError, PersonRegistry, ProfileLookup,
    METADATA_BATCH_SIZE,
};
use coop::screening::{
    is_followed, latest_activity, mutual_contacts_of, AddressStatus, Badges, Screening,
};
use coop::settings::Settings;
use coop::state::{AppIdentifierTag, AuthRequest, Notice, UnwrappingStatus};
use coop::tracker::{
    EventAction, EventTracker, IncomingEvent, NotificationHandler, KIND_CONTACT_LIST,
    KIND_INBOX_RELAYS, KIND_RELAY_LIST,
};
use coop::workspace::{
    panel_room_ids, start_layout, title_bar_parts, ChatSpace, StartLayout, TitleBarParts,
};

fn key(n: u8) -> Key32 {
    Key32::from_bytes([n; 32])
}

fn tr(l: &str, k: &str, v: &str) -> Translation {
    Translation { locale: l.into(), key: k.into(), value: v.into() }
}

#[test]
fn translations_fall_back_to_english() {
    let b = I18nBackend::new(vec![
        tr("en", "hello", "Hello"),
        tr("vi", "hello", "Xin chào"),
        tr("en", "bye", "Bye"),
        tr("vi", "hello", "Chào"),
    ]);
    assert_eq!(b.translate("vi", "hello"), Some("Xin chào".to_string()));
    assert_eq!(b.translate("vi", "bye"), Some("Bye".to_string()));
    assert_eq!(b.translate("fr", "hello"), Some("Hello".to_string()));
    assert_eq!(b.translate("vi", "missing"), None);
    assert_eq!(b.available_locales(), vec!["en".to_string(), "vi".to_string()]);
}

#[test]
fn metadata_batches_hold_each_key_once() {
    assert_eq!(metadata_request(vec![]).unwrap_err(), MetadataError::NoPublicKey);
    let req = metadata_request(vec![key(1), key(2)]).unwrap();
    assert_eq!(req.limit, 2);
    assert_eq!(req.authors, vec![key(1), key(2)]);

    let mut b = MetadataBatcher::new();
    assert_eq!(b.on_received(key(1)), None);
    assert_eq!(b.on_received(key(1)), None);
    assert_eq!(b.len(), 1);
    let mut out = None;
    for n in 2..=(METADATA_BATCH_SIZE as u8) {
        out = b.on_received(key(n));
        if n < METADATA_BATCH_SIZE as u8 {
            assert!(out.is_none());
        }
    }
    let batch = out.expect("a full batch is handed out");
    assert_eq!(batch.len(), METADATA_BATCH_SIZE);
    assert_eq!(b.len(), 0);
    b.on_received(key(200));
    assert_eq!(b.on_timeout(), vec![key(200)]);
    assert!(b.on_timeout().is_empty());
}

#[test]
fn profiles_are_requested_once() {
    let mut reg = PersonRegistry::new();
    let (p, lookup) = reg.get(&key(1));
    assert_eq!(lookup, ProfileLookup::Requested);
    assert_eq!(p.public_key(), key(1));
    assert_eq!(p.metadata.name, None);
    assert_eq!(p.metadata.display_name, None);
    assert_eq!(reg.get(&key(1)).1, ProfileLookup::Pending);

    let mut alice = ProfileFields::new();
    alice.name = Some("alice".into());
    reg.insert(Profile::new(key(1), alice));
    let mut bob = ProfileFields::new();
    bob.name = Some("bob".into());
    reg.insert(Profile::new(key(2), bob));
    let (p, lookup) = reg.get(&key(1));
    assert_eq!(lookup, ProfileLookup::Known);
    assert_eq!(p.metadata.name.as_deref(), Some("alice"));

    let mut alice2 = ProfileFields::new();
    alice2.name = Some("alice 2".into());
    reg.insert(Profile::new(key(1), alice2));
    assert_eq!(reg.get(&key(1)).0.metadata.name.as_deref(), Some("alice 2"));
    assert_eq!(reg.get(&key(2)).0.metadata.name.as_deref(), Some("bob"));

    let mut carol = ProfileFields::new();
    carol.name = Some("carol".into());
    reg.bulk_inserts(vec![Profile::new(key(3), carol), Profile::new(key(2), ProfileFields::new())]);
    assert_eq!(reg.get(&key(3)).0.metadata.name.as_deref(), Some("carol"));
    assert_eq!(reg.get(&key(2)).0.metadata.name, None);
    assert_eq!(reg.get(&key(2)).1, ProfileLookup::Known);
}

#[test]
fn relay_answers_are_tracked() {
    let mut t = EventTracker::new();
    t.on_ok(key(1), "wss://a".into(), "auth-required: please authenticate");
    assert!(!t.is_sent(&key(1)));
    t.on_ok(key(2), "wss://a".into(), "");
    assert!(t.is_sent(&key(2)));
    t.on_ok(key(3), "wss://a".into(), "blocked: spam");
    assert!(t.is_sent(&key(3)));
}

fn event(id: u8, kind: u16, self_authored: bool) -> IncomingEvent {
    IncomingEvent {
        id: key(id),
        kind,
        author: key(50),
        self_authored,
        relay_tags: vec![
            "wss://a.example".into(),
            "junk".into(),
            "wss://b.example".into(),
            "wss://c.example".into(),
            "wss://d.example".into(),
        ],
        mentioned: vec![key(60), key(61)],
    }
}

#[test]
fn each_event_is_handled_once() {
    let mut h = NotificationHandler::new();
    assert!(matches!(h.handle_event(event(1, KIND_RELAY_LIST, true)), EventAction::FetchOwnProfile(k) if k == key(50)));
    assert!(matches!(h.handle_event(event(1, KIND_RELAY_LIST, true)), EventAction::AlreadyProcessed));
    assert!(matches!(h.handle_event(event(2, KIND_RELAY_LIST, false)), EventAction::Nothing));
    match h.handle_event(event(3, KIND_INBOX_RELAYS, false)) {
        EventAction::CacheMessagingRelays { author, relays, fetch_messages } => {
            assert_eq!(author, key(50));
            assert!(!fetch_messages);
            let texts: Vec<&str> = relays.relays().iter().map(|r| r.text()).collect();
            assert_eq!(texts, vec!["wss://a.example", "wss://b.example", "wss://c.example"]);
        }
        _ => panic!("expected relays"),
    }
    match h.handle_event(event(4, KIND_CONTACT_LIST, true)) {
        EventAction::FetchContacts { contacts, limit } => {
            assert_eq!(contacts, vec![key(60), key(61)]);
            assert_eq!(limit, 16);
        }
        _ => panic!("expected contacts"),
    }
    let mut empty = event(5, KIND_CONTACT_LIST, true);
    empty.mentioned = vec![];
    assert!(matches!(h.handle_event(empty), EventAction::NoContacts));
    assert!(matches!(h.handle_event(event(6, KIND_CONTACT_LIST, false)), EventAction::Nothing));
    assert!(matches!(h.handle_event(event(7, 1, true)), EventAction::Nothing));
}

#[test]
fn device_key_steps() {
    let (s, a) = device_step(
        DeviceState::default(),
        DeviceEvent::IdentityChanged { has_public_key: true, relay_list_set: true, messaging_relays_set: true },
    );
    assert_eq!(s, DeviceState::Initial);
    assert_eq!(a, vec![DeviceAction::FetchAnnouncement, DeviceAction::FetchMessages]);
    let (_, a) = device_step(
        s,
        DeviceEvent::IdentityChanged { has_public_key: false, relay_list_set: true, messaging_relays_set: true },
    );
    assert!(a.is_empty());
    let (_, a) = device_step(s, DeviceEvent::AnnouncementFound(key(9)));
    assert_eq!(a, vec![DeviceAction::LoadStoredKey(key(9))]);
    let (_, a) = device_step(s, DeviceEvent::AnnouncementMissing);
    assert_eq!(a, vec![DeviceAction::AnnounceNewKey]);
    let (s2, a) = device_step(s, DeviceEvent::Announced(true));
    assert_eq!(s2, DeviceState::Installed);
    assert_eq!(a, vec![DeviceAction::UseDeviceKey, DeviceAction::ListenRequests]);
    let (s2, a) = device_step(s, DeviceEvent::Announced(false));
    assert_eq!((s2, a.len()), (DeviceState::Initial, 0));
    let (s2, a) = device_step(s, DeviceEvent::StoredKeyRead { announced: key(9), stored: Some(key(9)) });
    assert_eq!(s2, DeviceState::Installed);
    assert_eq!(a, vec![DeviceAction::UseDeviceKey, DeviceAction::ListenRequests]);
    let (s2, a) = device_step(s, DeviceEvent::StoredKeyRead { announced: key(9), stored: Some(key(8)) });
    assert_eq!(s2, DeviceState::Initial);
    assert_eq!(a, vec![DeviceAction::RequestKey, DeviceAction::ListenApprovals]);
    let (_, a) = device_step(s, DeviceEvent::StoredKeyRead { announced: key(9), stored: None });
    assert_eq!(a, vec![DeviceAction::RequestKey, DeviceAction::ListenApprovals]);
    let (s2, _) = device_step(s, DeviceEvent::RequestSent);
    assert_eq!(s2, DeviceState::Requesting);
    let (s3, a) = device_step(s2, DeviceEvent::KeyReceived);
    assert_eq!((s3, a), (DeviceState::Installed, vec![DeviceAction::UseDeviceKey]));
    let (s3, a) = device_step(s2, DeviceEvent::RequestFailed);
    assert_eq!((s3, a.len()), (DeviceState::Requesting, 0));
}

#[test]
fn stored_device_key_check() {
    assert_eq!(check_stored_key(&key(1), None), Err(DeviceKeyError::NotFound));
    assert_eq!(check_stored_key(&key(1), Some(key(2))), Err(DeviceKeyError::Mismatch));
    assert_eq!(check_stored_key(&key(1), Some(key(1))), Ok(key(1)));
}

#[test]
fn device_inbox_passes_each_user_key_message_once() {
    let mut inbox = DeviceInbox::new();
    assert!(inbox.accept(key(1), KIND_DEVICE_KEY_REQUEST, true));
    assert!(!inbox.accept(key(1), KIND_DEVICE_KEY_REQUEST, true));
    assert!(inbox.accept(key(2), KIND_DEVICE_KEY_APPROVAL, true));
    assert!(!inbox.accept(key(3), KIND_DEVICE_KEY_APPROVAL, false));
    assert!(!inbox.accept(key(3), KIND_DEVICE_KEY_APPROVAL, true));
    assert!(!inbox.accept(key(4), 1, true));
}

#[test]
fn state_texts() {
    assert_eq!(AppIdentifierTag::User.to_string(), "coop:user");
    assert_eq!(AppIdentifierTag::Setting.to_string(), "coop:setting");
    assert_eq!(AppIdentifierTag::Master.to_string(), "coop:master");
    assert_eq!(Notice::RelayFailed("wss://a".into()).as_str(), "Failed to connect the relay wss://a");
    assert_eq!(Notice::AuthFailed("wss://a".into()).as_str(), "Authenticate failed for relay wss://a");
    assert_eq!(Notice::Custom("hi".into()).as_str(), "hi");
    let a = AuthRequest::new("chal".into(), "wss://a".into());
    assert_eq!((a.challenge.as_str(), a.url.as_str(), a.sending), ("chal", "wss://a", false));
    assert_eq!(UnwrappingStatus::default(), UnwrappingStatus::Initialized);
}

#[test]
fn encryption_values() {
    assert_eq!(SignerKind::default(), SignerKind::User);
    let a = Announcement::new(key(1), "Coop".into(), key(2));
    assert_eq!((a.id(), a.public_key(), a.client()), (key(1), key(2), "Coop"));
    let r = Response::new("payload".into(), key(3));
    assert_eq!((r.payload(), r.public_key()), ("payload", key(3)));
    let d = DeviceAnnouncement::new(key(4), None, key(5));
    assert_eq!(d.client_name(), "Unknown");
    let d = DeviceAnnouncement::new(key(4), Some("Amethyst".into()), key(5));
    assert_eq!((d.client_name().as_str(), d.id(), d.public_key()), ("Amethyst", key(4), key(5)));
}

#[test]
fn identity_and_settings() {
    let id = Identity::new(key(9));
    assert_eq!(id.public_key(), key(9));
    assert_eq!(id.nip17_relays(), None);
    assert_eq!(id.nip65_relays(), None);
    let _ = Settings::new();
}

#[test]
fn workspace_decisions() {
    let panels: Vec<String> = vec!["12".into(), "Onboarding".into(), "+3".into(), "-4".into(), "7".into()];
    assert_eq!(panel_room_ids(&panels), vec![12, 3, 7]);
    assert!(matches!(start_layout(None), StartLayout::Onboarding));
    match start_layout(Some(("bunker".into(), vec![1, 2]))) {
        StartLayout::Startup { username, secret } => {
            assert_eq!(username, "bunker");
            assert_eq!(secret, vec![1, 2]);
        }
        _ => panic!("expected the startup screen"),
    }
    let mut cs = ChatSpace::new();
    assert!(!cs.on_account_changed(false));
    assert!(cs.on_account_changed(true));
    assert!(cs.ready());
    assert!(!cs.on_account_changed(true));
    assert_eq!(title_bar_parts(false, "Onboarding"), TitleBarParts::LeftAndRight);
    assert_eq!(title_bar_parts(true, "Onboarding"), TitleBarParts::Empty);
    assert_eq!(title_bar_parts(true, "Login"), TitleBarParts::TitleWithBack);
}

#[test]
fn screening_checks() {
    let contacts = vec![key(1), key(2)];
    assert!(is_followed(&contacts, &key(2)));
    assert!(!is_followed(&contacts, &key(3)));
    assert_eq!(mutual_contacts_of(&vec![key(5), key(0), key(6)], &key(0)), vec![key(5), key(6)]);
    assert_eq!(latest_activity(&vec![]), None);
    assert_eq!(latest_activity(&vec![30, 10, 20]), Some(20));

    let mut s = Screening::new(true);
    assert_eq!(
        s.badges(),
        Badges { contact: Some(false), activity: None, address: Some(false), mutuals: Some(false) }
    );
    assert_eq!(s.address_status(), AddressStatus::DoesNotMatch);
    s.on_contacts_checked(true, vec![key(5)]);
    s.on_activity_checked(Some(1700000000));
    s.on_address_checked(true);
    assert_eq!(s.total_mutuals(), 1);
    assert_eq!(s.address_status(), AddressStatus::Matches);
    assert_eq!(
        s.badges(),
        Badges { contact: Some(true), activity: Some(true), address: Some(true), mutuals: Some(true) }
    );
    assert_eq!(Screening::new(false).address_status(), AddressStatus::NoAddress);
}

#[test]
fn remote_signer_apps() {
    let apps = NostrConnectApp::all();
    let shown: Vec<(String, &str)> = apps.iter().map(|a| (a.as_str(), a.url())).collect();
    assert_eq!(
        shown,
        vec![
            ("nsec.app (Desktop)".to_string(), "https://nsec.app"),
            ("Amber (Android)".to_string(), "https://github.com/greenart7c3/Amber"),
            ("Aegis (iOS)".to_string(), "https://github.com/ZharlieW/Aegis"),
        ]
    );
}

fn tag(v: &[&str]) -> Vec<String> {
    v.iter().map(|x| x.to_string()).collect()
}

#[test]
fn root_device_from_the_first_p_tag() {
    let pk = "7e7e9c42a91bfef19fa929e5fda1b72e0ebc1a4c1141673e2794234d86addf4e";
    let tags = vec![tag(&["client", "Coop"]), tag(&["p", "ab"]), tag(&["P", pk])];
    let k = root_device_key(&tags).expect("a root device");
    assert_eq!(k.bytes[0], 0x7e);
    assert_eq!(k.bytes[31], 0x4e);
    assert!(root_device_key(&vec![tag(&["P"])]).is_none());
    assert!(root_device_key(&vec![tag(&["P", "zz"]), tag(&["P", pk])]).is_none());
    assert!(root_device_key(&vec![]).is_none());
}

#[test]
fn encryption_panel_flow() {
    let mut p = EncryptionPanel::new();
    assert!(p.request());
    assert!(!p.request());
    assert!(!p.new_encryption());
    assert_eq!(p.on_request_result(RequestOutcome::Sent), PanelStep::WaitForApproval);
    assert!(p.requesting());
    assert_eq!(p.on_approval_result(Err("Timeout".into())), PanelStep::Nothing);
    assert_eq!(p.error().as_deref(), Some("Timeout"));
    assert!(p.requesting());
    assert_eq!(p.on_approval_result(Ok(())), PanelStep::InstallKey);
    assert!(!p.requesting());

    assert!(p.request());
    assert_eq!(p.on_request_result(RequestOutcome::Failed("Client Signer is required".into())), PanelStep::Nothing);
    assert!(!p.requesting());
    assert_eq!(p.error().as_deref(), Some("Client Signer is required"));
    assert!(p.request());
    assert_eq!(p.on_request_result(RequestOutcome::KeyReceived), PanelStep::InstallKey);

    let mut p = EncryptionPanel::new();
    assert!(p.new_encryption());
    assert!(p.creating());
    assert_eq!(p.on_create_result(Ok(())), PanelStep::InstallKey);
    assert!(!p.creating());
    assert!(p.new_encryption());
    assert_eq!(p.on_create_result(Err("offline".into())), PanelStep::Nothing);
    assert_eq!(p.error().as_deref(), Some("offline"));
}

#[test]
fn encryption_manager() {
    let mut e = Encryption::new();
    assert!(e.on_account_changed(true));
    assert!(!e.on_account_changed(false));
    assert_eq!(e.check_can_send(), Err(EncryptionError::ClientSignerRequired));
    e.set_client();
    assert_eq!(e.check_can_send(), Ok(()));
    assert!(e.announcement().is_none());
    e.set_announcement(DeviceAnnouncement::new(key(1), Some("Coop".into()), key(2)));
    assert_eq!(e.announcement().unwrap().public_key(), key(2));
    assert!(!e.on_stored_key(&key(2), Some(key(3))));
    assert!(!e.on_stored_key(&key(2), None));
    assert!(!e.has_encryption());
    assert!(e.on_stored_key(&key(2), Some(key(2))));
    assert!(e.has_encryption());
    assert_eq!(e.encryption_key(), Some(key(2)));
    assert!(!e.on_account_changed(true));

    e.set_request(DeviceAnnouncement::new(key(5), Some("Amethyst".into()), key(6)));
    e.set_request(DeviceAnnouncement::new(key(5), Some("Amethyst".into()), key(6)));
    e.set_request(DeviceAnnouncement::new(key(5), None, key(6)));
    assert_eq!(e.requests().len(), 2);
    e.set_encryption(key(7));
    assert_eq!(e.encryption_key(), Some(key(7)));
}

#[test]
fn encryption_panel_view() {
    let mut p = EncryptionPanel::new();
    assert_eq!(p.panel_view(true, true), PanelView::KeySet);
    assert_eq!(p.panel_view(false, false), PanelView::Setup { busy: false });
    assert_eq!(
        p.panel_view(false, true),
        PanelView::Announced { show_reset: true, reset_busy: false, show_request: true, request_busy: false }
    );
    p.request();
    assert_eq!(
        p.panel_view(false, true),
        PanelView::Announced { show_reset: false, reset_busy: false, show_request: true, request_busy: true }
    );
    let mut p = EncryptionPanel::new();
    p.new_encryption();
    assert_eq!(p.panel_view(false, false), PanelView::Setup { busy: true });
}
