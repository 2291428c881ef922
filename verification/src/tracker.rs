//! Handling what relays send: each event is handled once, relay answers to
//! published events are tracked, and the user's own relay lists and
//! contact list lead to further subscriptions.
use vstd::prelude::*;

use crate::ids::{contains_key, EventId, Key32, PublicKey};
use crate::person::{key_views, lemma_key_set_push, lemma_push_to_set};
use crate::relays::{first_three, relays_from_tags, relays_from_tags_spec, RelayList};
use crate::text::{has_prefix, same_text, starts_with, string_views};

verus! {

/// Returns whether a relay's answer asks for authentication: its message
/// starts with the `auth-required:` prefix (NIP-01), the test that
/// `MachineReadablePrefix::parse` makes for `AuthRequired`.
fn is_auth_required(message: &str) -> (r: bool)
    ensures
        r == has_prefix(message@, "auth-required:"@),
{
    starts_with(message, "auth-required:")
}

/// Events published by Coop in this session, and those to publish again
/// once a relay has authenticated the user.
#[derive(Debug)]
pub struct EventTracker {
    sent_ids: Vec<EventId>,
    resend_queue: Vec<(EventId, String)>,
}

impl EventTracker {
    /// The ids of the events that relays accepted or refused for another
    /// reason than authentication.
    pub closed spec fn sent(self) -> Set<Seq<u8>> {
        key_views(self.sent_ids@).to_set()
    }

    /// The events to publish again, with the relay that asked for
    /// authentication (the last one recorded for each event).
    pub closed spec fn resend(self) -> Map<Seq<u8>, Seq<char>> {
        resend_map(self.resend_queue@)
    }

    /// Nothing tracked.
    pub fn new() -> (r: EventTracker)
        ensures
            r.sent() == Set::<Seq<u8>>::empty(),
            r.resend() == Map::<Seq<u8>, Seq<char>>::empty(),
    {
        let r = EventTracker { sent_ids: Vec::new(), resend_queue: Vec::new() };
        assert(key_views(r.sent_ids@) =~= Seq::<Seq<u8>>::empty());
        assert(r.sent() =~= Set::<Seq<u8>>::empty());
        r
    }

    /// Records a relay's answer to an event that Coop published: an answer
    /// asking for authentication queues the event for that relay; any other
    /// marks it as sent.
    pub fn on_ok(&mut self, event_id: EventId, relay_url: String, message: &str)
        ensures
            has_prefix(message@, "auth-required:"@) ==> final(self).resend() == old(
                self,
            ).resend().insert(event_id@, relay_url@) && final(self).sent() == old(self).sent(),
            !has_prefix(message@, "auth-required:"@) ==> final(self).sent() == old(
                self,
            ).sent().insert(event_id@) && final(self).resend() == old(self).resend(),
    {
        if is_auth_required(message) {
            let ghost before = self.resend_queue@;
            self.resend_queue.push((event_id, relay_url));
            assert(self.resend_queue@.drop_last() =~= before);
        } else {
            proof {
                lemma_key_set_push(self.sent_ids@, event_id);
            }
            self.sent_ids.push(event_id);
        }
    }

    /// Returns whether Coop published the event in this session.
    pub fn is_sent(&self, id: &EventId) -> (r: bool)
        ensures
            r == self.sent().contains(id@),
    {
        contains_key(&self.sent_ids, id)
    }
}

/// The queued events as a map, later entries replacing earlier ones.
pub open spec fn resend_map(q: Seq<(EventId, String)>) -> Map<Seq<u8>, Seq<char>>
    decreases q.len(),
{
    if q.len() == 0 {
        Map::empty()
    } else {
        resend_map(q.drop_last()).insert(q.last().0@, q.last().1@)
    }
}

/// The (event id, relay) pairs of a list of sightings.
pub open spec fn seen_pairs(s: Seq<(EventId, String)>) -> Seq<(Seq<u8>, Seq<char>)> {
    s.map_values(|p: (EventId, String)| (p.0@, p.1@))
}

/// The relays that an event was seen on, in the order they were recorded.
pub open spec fn relays_seen(s: Seq<(Seq<u8>, Seq<char>)>, id: Seq<u8>) -> Seq<Seq<char>>
    decreases s.len(),
{
    if s.len() == 0 {
        Seq::empty()
    } else if s.last().0 == id {
        relays_seen(s.drop_last(), id).push(s.last().1)
    } else {
        relays_seen(s.drop_last(), id)
    }
}

proof fn lemma_push_no_duplicates<A>(s: Seq<A>, x: A)
    ensures
        forall|y: A| s.push(x).contains(y) <==> (s.contains(y) || y == x),
        s.no_duplicates() && !s.contains(x) ==> s.push(x).no_duplicates(),
{
    let t = s.push(x);
    assert forall|y: A| t.contains(y) <==> (s.contains(y) || y == x) by {
        if t.contains(y) {
            let j = choose|j: int| 0 <= j < t.len() && t[j] == y;
            if j < s.len() {
                assert(s[j] == y);
            }
        }
        if s.contains(y) {
            let j = choose|j: int| 0 <= j < s.len() && s[j] == y;
            assert(t[j] == y);
        }
        if y == x {
            assert(t[s.len() as int] == y);
        }
    }
    if s.no_duplicates() && !s.contains(x) {
        assert forall|a: int, b: int| 0 <= a < t.len() && 0 <= b < t.len() && a != b implies t[a]
            != t[b] by {
            if a < s.len() && b < s.len() {
            } else if a < s.len() {
                assert(s.contains(t[a]));
            } else {
                assert(s.contains(t[b]));
            }
        }
    }
}

proof fn lemma_relays_seen(s: Seq<(Seq<u8>, Seq<char>)>, id: Seq<u8>)
    ensures
        forall|u: Seq<char>| relays_seen(s, id).contains(u) <==> s.contains((id, u)),
        s.no_duplicates() ==> relays_seen(s, id).no_duplicates(),
    decreases s.len(),
{
    if s.len() > 0 {
        let rest = s.drop_last();
        let rr = relays_seen(rest, id);
        lemma_relays_seen(rest, id);
        assert(s =~= rest.push(s.last()));
        lemma_push_no_duplicates(rest, s.last());
        if s.no_duplicates() {
            assert(rest.no_duplicates());
            assert(!rest.contains(s.last())) by {
                if rest.contains(s.last()) {
                    let j = choose|j: int| 0 <= j < rest.len() && rest[j] == s.last();
                    assert(s[j] == s[s.len() - 1]);
                }
            }
        }
        if s.last().0 == id {
            lemma_push_no_duplicates(rr, s.last().1);
            assert(relays_seen(s, id) == rr.push(s.last().1));
            assert forall|u: Seq<char>| relays_seen(s, id).contains(u) <==> s.contains((id, u)) by {
                assert(rr.push(s.last().1).contains(u) <==> (rr.contains(u) || u == s.last().1));
                assert(rr.contains(u) <==> rest.contains((id, u)));
                assert(rest.push(s.last()).contains((id, u)) <==> (rest.contains((id, u)) || (id, u)
                    == s.last()));
                assert((id, u) == s.last() <==> u == s.last().1);
            }
            if s.no_duplicates() {
                assert(!rr.contains(s.last().1));
            }
        } else {
            assert(relays_seen(s, id) == rr);
            assert forall|u: Seq<char>| relays_seen(s, id).contains(u) <==> s.contains((id, u)) by {
                assert(rest.push(s.last()).contains((id, u)) <==> (rest.contains((id, u)) || (id, u)
                    == s.last()));
            }
        }
    }
}

/// On which relays the events of this session were seen.
#[derive(Debug)]
pub struct SeenOn {
    pairs: Vec<(EventId, String)>,
}

impl SeenOn {
    /// The (event id, relay) pairs recorded.
    pub closed spec fn seen(self) -> Set<(Seq<u8>, Seq<char>)> {
        seen_pairs(self.pairs@).to_set()
    }

    /// Each pair is recorded once.
    pub closed spec fn wf(self) -> bool {
        seen_pairs(self.pairs@).no_duplicates()
    }

    /// Nothing seen.
    pub fn new() -> (r: SeenOn)
        ensures
            r.wf(),
            r.seen() == Set::<(Seq<u8>, Seq<char>)>::empty(),
    {
        let r = SeenOn { pairs: Vec::new() };
        assert(seen_pairs(r.pairs@) =~= Seq::<(Seq<u8>, Seq<char>)>::empty());
        assert(r.seen() =~= Set::<(Seq<u8>, Seq<char>)>::empty());
        r
    }

    /// Records that a relay sent the event.
    pub fn on_seen(&mut self, id: EventId, relay: String)
        requires
            old(self).wf(),
        ensures
            final(self).wf(),
            final(self).seen() == old(self).seen().insert((id@, relay@)),
    {
        let ghost s = seen_pairs(self.pairs@);
        let mut i: usize = 0;
        while i < self.pairs.len()
            invariant
                i <= self.pairs@.len(),
                s == seen_pairs(self.pairs@),
                s.no_duplicates(),
                forall|j: int| 0 <= j < i ==> s[j] != (id@, relay@),
            decreases self.pairs@.len() - i,
        {
            if self.pairs[i].0.same(&id) && same_text(self.pairs[i].1.as_str(), relay.as_str()) {
                assert(s[i as int] == (id@, relay@));
                assert(s.to_set().insert((id@, relay@)) =~= s.to_set());
                return;
            }
            i = i + 1;
        }
        proof {
            assert(!s.contains((id@, relay@)));
            lemma_push_to_set(s, (id@, relay@));
        }
        self.pairs.push((id, relay));
        assert(seen_pairs(self.pairs@) =~= s.push((id@, relay@)));
        proof {
            lemma_push_no_duplicates(s, (id@, relay@));
        }
    }

    /// Returns the relays the event was seen on, each once (none for an
    /// event not seen).
    pub fn relays_for(&self, id: &EventId) -> (r: Vec<String>)
        requires
            self.wf(),
        ensures
            forall|u: Seq<char>| string_views(r@).contains(u) <==> self.seen().contains((id@, u)),
            string_views(r@).no_duplicates(),
    {
        let ghost s = seen_pairs(self.pairs@);
        let mut out: Vec<String> = Vec::new();
        let mut i: usize = 0;
        while i < self.pairs.len()
            invariant
                i <= self.pairs@.len(),
                s == seen_pairs(self.pairs@),
                string_views(out@) == relays_seen(s.subrange(0, i as int), id@),
            decreases self.pairs@.len() - i,
        {
            assert(s.subrange(0, i + 1).drop_last() =~= s.subrange(0, i as int));
            if self.pairs[i].0.same(id) {
                let ghost before = out@;
                out.push(self.pairs[i].1.clone());
                assert(string_views(out@) =~= string_views(before).push(s[i as int].1));
            }
            i = i + 1;
        }
        assert(s.subrange(0, s.len() as int) =~= s);
        proof {
            lemma_relays_seen(s, id@);
        }
        out
    }
}

/// The kinds of event that the handler looks at.
pub const KIND_CONTACT_LIST: u16 = 3;
/// The user's relay list (NIP-65).
pub const KIND_RELAY_LIST: u16 = 10002;
/// The user's messaging relays (NIP-17).
pub const KIND_INBOX_RELAYS: u16 = 10050;

/// An event received from a relay, as the handler needs it.
#[derive(Debug)]
pub struct IncomingEvent {
    pub id: EventId,
    pub kind: u16,
    pub author: PublicKey,
    /// The event is by the user signed in.
    pub self_authored: bool,
    /// The contents of its relay tags.
    pub relay_tags: Vec<String>,
    /// The public keys of its `p` tags.
    pub mentioned: Vec<PublicKey>,
}

/// What handling an event leads to.
#[derive(Debug)]
pub enum EventAction {
    /// The event was handled before: it is skipped.
    AlreadyProcessed,
    /// The user's relay list: their metadata, contact list and messaging
    /// relays are fetched.
    FetchOwnProfile(PublicKey),
    /// Someone's messaging relays (at most three) are cached; for the user
    /// their messages are fetched too.
    CacheMessagingRelays { author: PublicKey, relays: RelayList, fetch_messages: bool },
    /// The user's contact list: the contacts' metadata, contact lists and
    /// relay lists are fetched, with this many events at most.
    FetchContacts { contacts: Vec<PublicKey>, limit: usize },
    /// The user's contact list is empty: nothing can be fetched.
    NoContacts,
    /// Nothing to do.
    Nothing,
}

/// The event limit of a request for the metadata, contact lists and relay
/// lists of `n` contacts.
pub open spec fn contacts_limit(n: int) -> int {
    n * 3 + 10
}

/// Which reaction an event that was not handled before gets.
#[derive(Debug, Clone, Copy, PartialEq, Eq)]
pub enum Reaction {
    FetchOwnProfile,
    CacheMessagingRelays,
    FetchContacts,
    NoContacts,
    Nothing,
}

/// Decides what an event leads to, given that it was not handled before.
pub open spec fn event_reaction(kind: u16, self_authored: bool, mentioned: int) -> Reaction {
    if kind == KIND_RELAY_LIST {
        if self_authored {
            Reaction::FetchOwnProfile
        } else {
            Reaction::Nothing
        }
    } else if kind == KIND_INBOX_RELAYS {
        Reaction::CacheMessagingRelays
    } else if kind == KIND_CONTACT_LIST && self_authored {
        if mentioned > 0 {
            Reaction::FetchContacts
        } else {
            Reaction::NoContacts
        }
    } else {
        Reaction::Nothing
    }
}

/// A messaging relay list (kind 10050) that was not handled before is
/// always cached, whoever wrote it; the user's messages are fetched exactly
/// when the list is the user's own (what `handle_event` returns as
/// `fetch_messages` is the event's `self_authored`).
pub proof fn law_inbox_relays_always_cached(self_authored: bool, mentioned: int)
    ensures
        event_reaction(10050u16, self_authored, mentioned) == Reaction::CacheMessagingRelays,
        event_reaction(10050u16, true, mentioned) == Reaction::CacheMessagingRelays,
{
}

/// What each kind of new event leads to: a relay list (10002) fetches the
/// user's own profile only when it is the user's; a contact list (3) of the
/// user fetches the contacts when it names any and reports none otherwise;
/// every other kind, and others' contact lists, lead to nothing.
pub proof fn law_event_reactions_by_kind(kind: u16, self_authored: bool, mentioned: int)
    requires
        mentioned >= 0,
    ensures
        kind == 10002u16 ==> (event_reaction(kind, self_authored, mentioned)
            == Reaction::FetchOwnProfile <==> self_authored),
        kind == 10002u16 && !self_authored ==> event_reaction(kind, self_authored, mentioned)
            == Reaction::Nothing,
        kind == 3u16 && self_authored ==> (event_reaction(kind, self_authored, mentioned)
            == Reaction::FetchContacts <==> mentioned > 0),
        kind == 3u16 && self_authored && mentioned == 0 ==> event_reaction(
            kind,
            self_authored,
            mentioned,
        ) == Reaction::NoContacts,
        kind == 3u16 && !self_authored ==> event_reaction(kind, self_authored, mentioned)
            == Reaction::Nothing,
        kind != 10002u16 && kind != 10050u16 && kind != 3u16 ==> event_reaction(
            kind,
            self_authored,
            mentioned,
        ) == Reaction::Nothing,
{
}

/// Handles the events that relays send, each event once.
#[derive(Debug)]
pub struct NotificationHandler {
    processed: Vec<EventId>,
}

impl NotificationHandler {
    /// The ids of the events handled so far.
    pub closed spec fn processed_ids(self) -> Set<Seq<u8>> {
        key_views(self.processed@).to_set()
    }

    /// Nothing handled yet.
    pub fn new() -> (r: NotificationHandler)
        ensures
            r.processed_ids() == Set::<Seq<u8>>::empty(),
    {
        let r = NotificationHandler { processed: Vec::new() };
        assert(key_views(r.processed@) =~= Seq::<Seq<u8>>::empty());
        assert(r.processed_ids() =~= Set::<Seq<u8>>::empty());
        r
    }

    /// Handles an event: one handled before is skipped; otherwise it is
    /// recorded and its kind decides what follows.
    pub fn handle_event(&mut self, event: IncomingEvent) -> (r: EventAction)
        requires
            event.mentioned@.len() <= (usize::MAX - 10) / 3,
        ensures
            old(self).processed_ids().contains(event.id@) ==> r is AlreadyProcessed
                && final(self).processed_ids() == old(self).processed_ids(),
            !old(self).processed_ids().contains(event.id@) ==> final(self).processed_ids() == old(
                self,
            ).processed_ids().insert(event.id@) && match event_reaction(
                event.kind,
                event.self_authored,
                event.mentioned@.len() as int,
            ) {
                Reaction::FetchOwnProfile => r matches EventAction::FetchOwnProfile(k) && k@ == event.author@,
                Reaction::CacheMessagingRelays => r matches EventAction::CacheMessagingRelays { author, relays, fetch_messages }
                    && author@ == event.author@ && fetch_messages == event.self_authored && (
                relays_from_tags_spec(string_views(event.relay_tags@)).len() <= 3 ==> relays@
                    == relays_from_tags_spec(string_views(event.relay_tags@))) && (
                relays_from_tags_spec(string_views(event.relay_tags@)).len() > 3 ==> relays@
                    == relays_from_tags_spec(string_views(event.relay_tags@)).subrange(0, 3)),
                Reaction::FetchContacts => r matches EventAction::FetchContacts { contacts, limit } && contacts@
                    == event.mentioned@ && limit == contacts_limit(event.mentioned@.len() as int),
                Reaction::NoContacts => r is NoContacts,
                Reaction::Nothing => r is Nothing,
            },
    {
        if contains_key(&self.processed, &event.id) {
            return EventAction::AlreadyProcessed;
        }
        proof {
            lemma_key_set_push(self.processed@, event.id);
        }
        self.processed.push(event.id);
        if event.kind == KIND_RELAY_LIST {
            if event.self_authored {
                EventAction::FetchOwnProfile(event.author)
            } else {
                EventAction::Nothing
            }
        } else if event.kind == KIND_INBOX_RELAYS {
            let all = relays_from_tags(&event.relay_tags);
            let relays = first_three(&all);
            EventAction::CacheMessagingRelays {
                author: event.author,
                relays,
                fetch_messages: event.self_authored,
            }
        } else if event.kind == KIND_CONTACT_LIST && event.self_authored {
            let n = event.mentioned.len();
            if n == 0 {
                EventAction::NoContacts
            } else {
                EventAction::FetchContacts { contacts: event.mentioned, limit: n * 3 + 10 }
            }
        } else {
            EventAction::Nothing
        }
    }
}

/// The ids recorded after handling the events with the ids `ids`, in
/// order, starting from the ids `before` (each handled event's id is
/// recorded, whether it was new or not).
pub open spec fn recorded_after(before: Set<Seq<u8>>, ids: Seq<Seq<u8>>) -> Set<Seq<u8>>
    decreases ids.len(),
{
    if ids.len() == 0 {
        before
    } else {
        recorded_after(before, ids.drop_last()).insert(ids.last())
    }
}

/// An event is acted on at most once: once its id has been recorded, it
/// stays recorded whatever events come after, so every later copy of it is
/// answered `AlreadyProcessed`.
pub proof fn law_handled_events_stay_handled(before: Set<Seq<u8>>, id: Seq<u8>, later: Seq<Seq<u8>>)
    requires
        before.contains(id),
    ensures
        recorded_after(before, later).contains(id),
    decreases later.len(),
{
    if later.len() > 0 {
        law_handled_events_stay_handled(before, id, later.drop_last());
    }
}

} // verus!
