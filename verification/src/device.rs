//! Per-device encryption keys (NIP-4e): what the device registry does next
//! as the user's announcement, the stored key and the other devices answer.
//! The registry itself performs the network and database work and reports
//! each outcome as a [`DeviceEvent`].
use vstd::prelude::*;

use crate::ids::{contains_key, Key32, PublicKey};
use crate::keys::{key_view, parse_public_key, public_key_of_text};
use crate::person::{key_views, lemma_key_set_push};
use crate::text::{same_text, string_views};

verus! {

/// A request for the device key, sent by a new device.
pub const KIND_DEVICE_KEY_REQUEST: u16 = 4454;
/// An answer carrying the device key, sent by a device that holds it.
pub const KIND_DEVICE_KEY_APPROVAL: u16 = 4455;
/// The announcement of the device key's public key.
pub const KIND_DEVICE_ANNOUNCEMENT: u16 = 10044;

/// Where this device stands with the user's device key.
#[derive(Clone, Copy, Debug, PartialEq, Eq, Structural)]
pub enum DeviceState {
    /// Nothing decided yet.
    Initial,
    /// The key was asked for from another device.
    Requesting,
    /// The key is in use on this device.
    Installed,
}

impl Default for DeviceState {
    fn default() -> (r: DeviceState)
        ensures
            r == DeviceState::Initial,
    {
        DeviceState::Initial
    }
}

/// Why a stored device key cannot be used.
#[derive(Clone, Copy, Debug, PartialEq, Eq, Structural)]
pub enum DeviceKeyError {
    /// No key was stored on this device.
    NotFound,
    /// The stored key is not the announced one.
    Mismatch,
}

/// The stored key when it is the announced one, else why not.
pub open spec fn stored_key_outcome(announced: PublicKey, stored: Option<PublicKey>) -> Result<
    PublicKey,
    DeviceKeyError,
> {
    match stored {
        None => Err(DeviceKeyError::NotFound),
        Some(k) => if k@ == announced@ {
            Ok(k)
        } else {
            Err(DeviceKeyError::Mismatch)
        },
    }
}

/// Accepts the key stored on this device only when it is the announced one.
pub fn check_stored_key(announced: &PublicKey, stored: Option<PublicKey>) -> (r: Result<
    PublicKey,
    DeviceKeyError,
>)
    ensures
        r == stored_key_outcome(*announced, stored),
{
    match stored {
        None => Err(DeviceKeyError::NotFound),
        Some(k) => {
            if k.same(announced) {
                Ok(k)
            } else {
                Err(DeviceKeyError::Mismatch)
            }
        },
    }
}

/// An outcome the registry reports.
#[derive(Clone, Copy, Debug)]
pub enum DeviceEvent {
    /// The user's identity changed.
    IdentityChanged { has_public_key: bool, relay_list_set: bool, messaging_relays_set: bool },
    /// The user's device announcement was found, naming this public key.
    AnnouncementFound(PublicKey),
    /// No device announcement could be found.
    AnnouncementMissing,
    /// A fresh device key was announced and stored (`true`), or that failed.
    Announced(bool),
    /// The key stored on this device was read (`None` where there was none
    /// or the read failed), for the announced public key.
    StoredKeyRead { announced: PublicKey, stored: Option<PublicKey> },
    /// Another device's answer held the key.
    KeyReceived,
    /// No answer was there yet, and a request was sent.
    RequestSent,
    /// Asking for the key failed.
    RequestFailed,
}

/// A step the registry performs.
#[derive(Clone, Copy, Debug, PartialEq, Eq)]
pub enum DeviceAction {
    /// Look for the user's device announcement.
    FetchAnnouncement,
    /// Subscribe to the device-key messages addressed to this device.
    FetchMessages,
    /// Read the key stored on this device and check it against the
    /// announced one.
    LoadStoredKey(PublicKey),
    /// Make a fresh device key, announce it and store it.
    AnnounceNewKey,
    /// Use the key just obtained as this device's key.
    UseDeviceKey,
    /// Listen for other devices asking for the key.
    ListenRequests,
    /// Ask another device for the key.
    RequestKey,
    /// Listen for other devices' answers.
    ListenApprovals,
}

/// The state after an outcome, and the steps it calls for.
pub open spec fn device_next(state: DeviceState, event: DeviceEvent) -> (DeviceState, Seq<
    DeviceAction,
>) {
    match event {
        DeviceEvent::IdentityChanged { has_public_key, relay_list_set, messaging_relays_set } => {
            let a: Seq<DeviceAction> = if has_public_key && relay_list_set {
                seq![DeviceAction::FetchAnnouncement]
            } else {
                seq![]
            };
            let b: Seq<DeviceAction> = if has_public_key && messaging_relays_set {
                seq![DeviceAction::FetchMessages]
            } else {
                seq![]
            };
            (state, a + b)
        },
        DeviceEvent::AnnouncementFound(k) => (state, seq![DeviceAction::LoadStoredKey(k)]),
        DeviceEvent::AnnouncementMissing => (state, seq![DeviceAction::AnnounceNewKey]),
        DeviceEvent::Announced(ok) => if ok {
            (DeviceState::Installed, seq![DeviceAction::UseDeviceKey, DeviceAction::ListenRequests])
        } else {
            (state, seq![])
        },
        DeviceEvent::StoredKeyRead { announced, stored } => if stored matches Some(k) && k@
            == announced@ {
            (DeviceState::Installed, seq![DeviceAction::UseDeviceKey, DeviceAction::ListenRequests])
        } else {
            (state, seq![DeviceAction::RequestKey, DeviceAction::ListenApprovals])
        },
        DeviceEvent::KeyReceived => (DeviceState::Installed, seq![DeviceAction::UseDeviceKey]),
        DeviceEvent::RequestSent => (DeviceState::Requesting, seq![]),
        DeviceEvent::RequestFailed => (state, seq![]),
    }
}

/// Decides what follows an outcome.
pub fn device_step(state: DeviceState, event: DeviceEvent) -> (r: (DeviceState, Vec<DeviceAction>))
    ensures
        r.0 == device_next(state, event).0,
        r.1@ == device_next(state, event).1,
{
    let mut actions: Vec<DeviceAction> = Vec::new();
    match event {
        DeviceEvent::IdentityChanged { has_public_key, relay_list_set, messaging_relays_set } => {
            if has_public_key && relay_list_set {
                actions.push(DeviceAction::FetchAnnouncement);
            }
            if has_public_key && messaging_relays_set {
                actions.push(DeviceAction::FetchMessages);
            }
            (state, actions)
        },
        DeviceEvent::AnnouncementFound(k) => {
            actions.push(DeviceAction::LoadStoredKey(k));
            (state, actions)
        },
        DeviceEvent::AnnouncementMissing => {
            actions.push(DeviceAction::AnnounceNewKey);
            (state, actions)
        },
        DeviceEvent::Announced(ok) => {
            if ok {
                actions.push(DeviceAction::UseDeviceKey);
                actions.push(DeviceAction::ListenRequests);
                (DeviceState::Installed, actions)
            } else {
                (state, actions)
            }
        },
        DeviceEvent::StoredKeyRead { announced, stored } => {
            match check_stored_key(&announced, stored) {
                Ok(_) => {
                    actions.push(DeviceAction::UseDeviceKey);
                    actions.push(DeviceAction::ListenRequests);
                    (DeviceState::Installed, actions)
                },
                Err(_) => {
                    actions.push(DeviceAction::RequestKey);
                    actions.push(DeviceAction::ListenApprovals);
                    (state, actions)
                },
            }
        },
        DeviceEvent::KeyReceived => {
            actions.push(DeviceAction::UseDeviceKey);
            (DeviceState::Installed, actions)
        },
        DeviceEvent::RequestSent => (DeviceState::Requesting, actions),
        DeviceEvent::RequestFailed => (state, actions),
    }
}

/// A change of identity only starts lookups, each decided by its own flag:
/// the device announcement is fetched exactly when there is a public key
/// and the relay list is set, the device-key messages exactly when there
/// is a public key and the messaging relays are set; nothing else is done,
/// nothing twice, and the state stays as it was.
pub proof fn law_identity_flags_decide_own_actions(
    state: DeviceState,
    has_public_key: bool,
    relay_list_set: bool,
    messaging_relays_set: bool,
)
    ensures
        ({
            let (s, acts) = device_next(
                state,
                DeviceEvent::IdentityChanged { has_public_key, relay_list_set, messaging_relays_set },
            );
            &&& s == state
            &&& acts.contains(DeviceAction::FetchAnnouncement) <==> (has_public_key && relay_list_set)
            &&& acts.contains(DeviceAction::FetchMessages) <==> (has_public_key
                && messaging_relays_set)
            &&& forall|j: int|
                0 <= j < acts.len() ==> (#[trigger] acts[j] == DeviceAction::FetchAnnouncement
                    || acts[j] == DeviceAction::FetchMessages)
            &&& acts.no_duplicates()
        }),
{
    let (s, acts) = device_next(
        state,
        DeviceEvent::IdentityChanged { has_public_key, relay_list_set, messaging_relays_set },
    );
    let a: Seq<DeviceAction> = if has_public_key && relay_list_set {
        seq![DeviceAction::FetchAnnouncement]
    } else {
        seq![]
    };
    let b: Seq<DeviceAction> = if has_public_key && messaging_relays_set {
        seq![DeviceAction::FetchMessages]
    } else {
        seq![]
    };
    assert(acts == a + b);
    if has_public_key && relay_list_set {
        assert(acts[0] == DeviceAction::FetchAnnouncement);
    }
    if has_public_key && messaging_relays_set {
        assert(acts[acts.len() - 1] == DeviceAction::FetchMessages);
    }
    if acts.contains(DeviceAction::FetchAnnouncement) {
        let j = choose|j: int| 0 <= j < acts.len() && acts[j] == DeviceAction::FetchAnnouncement;
        if j < a.len() {
            assert(acts[j] == a[j]);
        } else {
            assert(acts[j] == b[j - a.len()]);
        }
    }
    if acts.contains(DeviceAction::FetchMessages) {
        let j = choose|j: int| 0 <= j < acts.len() && acts[j] == DeviceAction::FetchMessages;
        if j < a.len() {
            assert(acts[j] == a[j]);
        } else {
            assert(acts[j] == b[j - a.len()]);
        }
    }
}

/// The device key is in use exactly when a step installs it: an outcome
/// that installs the key leaves the state `Installed`, and the state changes
/// only when the key is installed or a request was sent.
pub proof fn law_device_state_follows_key(state: DeviceState, event: DeviceEvent)
    ensures
        device_next(state, event).1.contains(DeviceAction::UseDeviceKey) ==> device_next(
            state,
            event,
        ).0 == DeviceState::Installed,
        device_next(state, event).0 != state ==> device_next(state, event).1.contains(
            DeviceAction::UseDeviceKey,
        ) || (event is RequestSent && device_next(state, event).0 == DeviceState::Requesting),
{
    let (s, acts) = device_next(state, event);
    match event {
        DeviceEvent::IdentityChanged { has_public_key, relay_list_set, messaging_relays_set } => {
            if acts.contains(DeviceAction::UseDeviceKey) {
                let j = choose|j: int| 0 <= j < acts.len() && acts[j] == DeviceAction::UseDeviceKey;
                assert(acts[j] == DeviceAction::FetchAnnouncement || acts[j]
                    == DeviceAction::FetchMessages);
            }
        },
        DeviceEvent::AnnouncementFound(k) => {
            if acts.contains(DeviceAction::UseDeviceKey) {
                let j = choose|j: int| 0 <= j < acts.len() && acts[j] == DeviceAction::UseDeviceKey;
                assert(acts[j] == DeviceAction::LoadStoredKey(k));
            }
        },
        DeviceEvent::AnnouncementMissing => {
            if acts.contains(DeviceAction::UseDeviceKey) {
                let j = choose|j: int| 0 <= j < acts.len() && acts[j] == DeviceAction::UseDeviceKey;
                assert(acts[j] == DeviceAction::AnnounceNewKey);
            }
        },
        DeviceEvent::Announced(ok) => {
            if ok {
                assert(acts[0] == DeviceAction::UseDeviceKey);
            }
        },
        DeviceEvent::StoredKeyRead { announced, stored } => {
            if stored matches Some(k) && k@ == announced@ {
                assert(acts[0] == DeviceAction::UseDeviceKey);
            } else if acts.contains(DeviceAction::UseDeviceKey) {
                let j = choose|j: int| 0 <= j < acts.len() && acts[j] == DeviceAction::UseDeviceKey;
                assert(acts[j] == DeviceAction::RequestKey || acts[j]
                    == DeviceAction::ListenApprovals);
            }
        },
        DeviceEvent::KeyReceived => {
            assert(acts[0] == DeviceAction::UseDeviceKey);
        },
        DeviceEvent::RequestSent => {},
        DeviceEvent::RequestFailed => {},
    }
}

/// Filters the events relays send to the device registry: each event is
/// looked at once, and only key requests and answers that the user wrote
/// are passed on.
#[derive(Debug)]
pub struct DeviceInbox {
    processed: Vec<Key32>,
}

impl DeviceInbox {
    /// The ids of the events looked at so far.
    pub closed spec fn seen(self) -> Set<Seq<u8>> {
        key_views(self.processed@).to_set()
    }

    /// Nothing seen yet.
    pub fn new() -> (r: DeviceInbox)
        ensures
            r.seen() == Set::<Seq<u8>>::empty(),
    {
        let r = DeviceInbox { processed: Vec::new() };
        assert(key_views(r.processed@) =~= Seq::<Seq<u8>>::empty());
        assert(r.seen() =~= Set::<Seq<u8>>::empty());
        r
    }

    /// Looks at an event and returns whether to pass it on: an event seen
    /// before is not; otherwise it is recorded, and passed on when it is a
    /// key request or answer written by the user.
    pub fn accept(&mut self, id: Key32, kind: u16, by_user: bool) -> (r: bool)
        ensures
            final(self).seen() == old(self).seen().insert(id@),
            r == (!old(self).seen().contains(id@) && (kind == KIND_DEVICE_KEY_REQUEST || kind
                == KIND_DEVICE_KEY_APPROVAL) && by_user),
    {
        if contains_key(&self.processed, &id) {
            assert(old(self).seen().insert(id@) =~= old(self).seen());
            return false;
        }
        proof {
            lemma_key_set_push(self.processed@, id);
        }
        self.processed.push(id);
        (kind == KIND_DEVICE_KEY_REQUEST || kind == KIND_DEVICE_KEY_APPROVAL) && by_user
    }
}

/// An event's tags as text: each tag is its name followed by its values.
pub open spec fn tag_views(tags: Seq<Vec<String>>) -> Seq<Seq<Seq<char>>> {
    tags.map_values(|t: Vec<String>| string_views(t@))
}

/// The first tag named `name` (`Tags::find`).
pub open spec fn first_tag(tags: Seq<Seq<Seq<char>>>, name: Seq<char>) -> Option<Seq<Seq<char>>>
    decreases tags.len(),
{
    if tags.len() == 0 {
        None
    } else if tags[0].len() > 0 && tags[0][0] == name {
        Some(tags[0])
    } else {
        first_tag(tags.subrange(1, tags.len() as int), name)
    }
}

/// The public key of the device that answered a key request: the value of
/// the first `P` tag, read as a public key.
pub open spec fn root_device_of(tags: Seq<Seq<Seq<char>>>) -> Option<Seq<u8>> {
    match first_tag(tags, "P"@) {
        Some(t) => if t.len() > 1 {
            public_key_of_text(t[1])
        } else {
            None
        },
        None => None,
    }
}

/// Returns the public key of the device that answered a key request, read
/// from the answer's tags; `None` means the tags are invalid.
pub fn root_device_key(tags: &Vec<Vec<String>>) -> (r: Option<PublicKey>)
    ensures
        key_view(r) == root_device_of(tag_views(tags@)),
{
    let ghost all = tag_views(tags@);
    assert(all.subrange(0, all.len() as int) =~= all);
    let mut i: usize = 0;
    while i < tags.len()
        invariant
            i <= tags.len(),
            all == tag_views(tags@),
            first_tag(all, "P"@) == first_tag(all.subrange(i as int, all.len() as int), "P"@),
        decreases tags.len() - i,
    {
        let ghost rest = all.subrange(i as int, all.len() as int);
        proof {
            assert(rest[0] == string_views(tags@[i as int]@));
            assert(rest.subrange(1, rest.len() as int) =~= all.subrange(i + 1, all.len() as int));
        }
        let tag = &tags[i];
        if tag.len() > 0 && same_text(tag[0].as_str(), "P") {
            proof {
                reveal_strlit("P");
            }
            if tag.len() > 1 {
                return parse_public_key(tag[1].as_str());
            } else {
                return None;
            }
        }
        proof {
            reveal_strlit("P");
        }
        i = i + 1;
    }
    None
}

} // verus!
