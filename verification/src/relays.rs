//! Editing relay lists: the user's messaging relays and the relays of a new
//! account, with the urls checked by the nostr library.
use nostr_sdk::prelude::RelayUrl;
use vstd::prelude::*;

use crate::text::{has_prefix, starts_with, string_views};

verus! {

#[verifier::external_type_specification]
#[verifier::external_body]
pub struct ExRelayUrl(RelayUrl);

/// The url that `RelayUrl::parse` reads from a text, or `None` when the
/// text is not a relay url. Two relay urls are the same relay exactly when
/// these are equal.
pub uninterp spec fn relay_url_key(s: Seq<char>) -> Option<Seq<char>>;

/// The text that a relay url parsed from `s` is shown as
/// (`RelayUrl`'s `Display`).
pub uninterp spec fn relay_url_text(s: Seq<char>) -> Seq<char>;

/// A relay url, with the text it was read from.
#[derive(Debug)]
pub struct RelayAddress {
    source: String,
    text: String,
    url: RelayUrl,
}

impl RelayAddress {
    /// The text the url was read from.
    pub closed spec fn source(self) -> Seq<char> {
        self.source@
    }

    /// What identifies the relay.
    pub open spec fn key(self) -> Seq<char> {
        relay_url_key(self.source())->Some_0
    }

    /// The text the relay is shown as.
    pub closed spec fn text_spec(self) -> Seq<char> {
        self.text@
    }

    /// The url the text was parsed into.
    pub closed spec fn url_spec(self) -> RelayUrl {
        self.url
    }

    #[verifier::type_invariant]
    closed spec fn inv(self) -> bool {
        &&& relay_url_key(self.source@) is Some
        &&& self.text@ == relay_url_text(self.source@)
    }

    /// Returns the text the relay is shown as.
    pub fn text(&self) -> (r: &str)
        ensures
            r@ == self.text_spec(),
            r@ == relay_url_text(self.source()),
    {
        proof {
            use_type_invariant(self);
        }
        self.text.as_str()
    }

    /// Returns the url the text was parsed into, for the nostr client.
    pub fn url(&self) -> (r: &RelayUrl)
        ensures
            *r == self.url_spec(),
    {
        &self.url
    }
}

/// Trusted: `RelayUrl::parse`, then its `Display` text. The contract claims
/// that it succeeds exactly when `relay_url_key` of the text is `Some`, and
/// that the result keeps the text and shows as `relay_url_text` of it.
#[verifier::external_body]
fn parse_relay_url(s: &str) -> (r: Option<RelayAddress>)
    ensures
        r is Some <==> relay_url_key(s@) is Some,
        r is Some ==> r->Some_0.source() == s@ && r->Some_0.text_spec() == relay_url_text(s@),
{
    RelayUrl::parse(s).ok().map(
        |url| RelayAddress { source: s.to_string(), text: url.to_string(), url },
    )
}

/// Trusted: `RelayUrl`'s derived `Clone`. Nothing is claimed of the copy.
#[verifier::external_body]
fn clone_relay_url(u: &RelayUrl) -> RelayUrl {
    u.clone()
}

impl Clone for RelayAddress {
    fn clone(&self) -> (r: RelayAddress)
        ensures
            r.source() == self.source(),
            r.text_spec() == self.text_spec(),
    {
        proof {
            use_type_invariant(self);
        }
        RelayAddress {
            source: self.source.clone(),
            text: self.text.clone(),
            url: clone_relay_url(&self.url),
        }
    }
}

/// Trusted: `RelayUrl`'s `PartialEq`, which compares the parsed urls. The
/// contract claims that it holds exactly when the keys are equal.
#[verifier::external_body]
fn same_relay(a: &RelayAddress, b: &RelayAddress) -> (r: bool)
    ensures
        r == (a.key() == b.key()),
{
    a.url == b.url
}

/// Reads a relay url.
pub fn relay_address(s: &str) -> (r: Option<RelayAddress>)
    ensures
        r is Some <==> relay_url_key(s@) is Some,
        r is Some ==> r->Some_0.source() == s@ && r->Some_0.key() == relay_url_key(s@)->Some_0,
{
    parse_relay_url(s)
}

/// The keys of a list of relays.
pub open spec fn relay_keys(s: Seq<RelayAddress>) -> Seq<Seq<char>> {
    s.map_values(|r: RelayAddress| r.key())
}

/// What adding a typed relay did.
#[derive(Debug, Clone, Copy, PartialEq, Eq)]
pub enum AddRelay {
    /// The text does not start with `ws`: it is ignored.
    NotWebSocket,
    /// The text is not a relay url: it is ignored.
    Invalid,
    /// The relay was appended; the input is cleared.
    Added,
    /// The relay was listed already; the input is cleared.
    AlreadyListed,
}

/// Why a relay list cannot be saved.
#[derive(Debug, Clone, Copy, PartialEq, Eq)]
pub enum RelayListError {
    /// The list is empty.
    Empty,
}

/// An ordered list of relays; `add` never lists a relay twice.
#[derive(Debug)]
pub struct RelayList {
    relays: Vec<RelayAddress>,
}

impl View for RelayList {
    type V = Seq<Seq<char>>;

    closed spec fn view(&self) -> Seq<Seq<char>> {
        relay_keys(self.relays@)
    }
}

/// The texts that a list of relays was read from.
pub open spec fn relay_sources(s: Seq<RelayAddress>) -> Seq<Seq<char>> {
    s.map_values(|r: RelayAddress| r.source())
}

/// What adding the text `value` does to a list with the keys `s`.
pub open spec fn add_relay_outcome(s: Seq<Seq<char>>, value: Seq<char>) -> AddRelay {
    if !has_prefix(value, "ws"@) {
        AddRelay::NotWebSocket
    } else if relay_url_key(value) is None {
        AddRelay::Invalid
    } else if s.contains(relay_url_key(value)->Some_0) {
        AddRelay::AlreadyListed
    } else {
        AddRelay::Added
    }
}

impl RelayList {
    /// The texts the relays were read from, in order; each relay's key and
    /// shown text are those of its text.
    pub closed spec fn sources(self) -> Seq<Seq<char>> {
        relay_sources(self.relays@)
    }

    /// The texts the relays are shown as, in order.
    pub open spec fn shown_texts(self) -> Seq<Seq<char>> {
        self.sources().map_values(|t: Seq<char>| relay_url_text(t))
    }

    /// An empty list.
    pub fn new() -> (r: RelayList)
        ensures
            r@ == Seq::<Seq<char>>::empty(),
            r.sources() == Seq::<Seq<char>>::empty(),
    {
        let r = RelayList { relays: Vec::new() };
        assert(r@ =~= Seq::<Seq<char>>::empty());
        assert(r.sources() =~= Seq::<Seq<char>>::empty());
        r
    }

    /// A list of relays, in order.
    pub fn from_relays(relays: Vec<RelayAddress>) -> (r: RelayList)
        ensures
            r@ == relay_keys(relays@),
            r.sources() == relay_sources(relays@),
    {
        RelayList { relays }
    }

    /// Returns the relays, in order.
    pub fn relays(&self) -> (r: &Vec<RelayAddress>)
        ensures
            relay_keys(r@) == self@,
            relay_sources(r@) == self.sources(),
    {
        &self.relays
    }

    /// Each relay's key is the key of the text it was read from.
    pub proof fn lemma_keys_of_sources(self)
        ensures
            self@.len() == self.sources().len(),
            forall|i: int|
                0 <= i < self@.len() ==> #[trigger] self@[i] == relay_url_key(
                    self.sources()[i],
                )->Some_0,
    {
    }

    /// Returns the number of relays.
    pub fn len(&self) -> (r: usize)
        ensures
            r == self@.len(),
    {
        self.relays.len()
    }

    fn contains(&self, relay: &RelayAddress) -> (r: bool)
        ensures
            r == self@.contains(relay.key()),
    {
        let mut i: usize = 0;
        while i < self.relays.len()
            invariant
                i <= self.relays.len(),
                self@.len() == self.relays.len(),
                forall|j: int| 0 <= j < i ==> self@[j] != relay.key(),
            decreases self.relays.len() - i,
        {
            assert(self@[i as int] == self.relays@[i as int].key());
            if same_relay(&self.relays[i], relay) {
                return true;
            }
            i = i + 1;
        }
        false
    }

    /// Adds the relay that the user typed: a text that does not start with
    /// `ws` or is not a relay url is ignored, and a relay already listed is
    /// not added twice.
    pub fn add(&mut self, value: &str) -> (r: AddRelay)
        ensures
            r == add_relay_outcome(old(self)@, value@),
            r == AddRelay::Added ==> final(self)@ == old(self)@.push(relay_url_key(value@)->Some_0)
                && final(self).sources() == old(self).sources().push(value@),
            r != AddRelay::Added ==> final(self)@ == old(self)@ && final(self).sources() == old(
                self,
            ).sources(),
    {
        if !starts_with(value, "ws") {
            return AddRelay::NotWebSocket;
        }
        match relay_address(value) {
            None => AddRelay::Invalid,
            Some(url) => {
                if self.contains(&url) {
                    AddRelay::AlreadyListed
                } else {
                    let ghost before = self.relays@;
                    self.relays.push(url);
                    assert(relay_keys(self.relays@) =~= relay_keys(before).push(
                        relay_url_key(value@)->Some_0,
                    ));
                    assert(relay_sources(self.relays@) =~= relay_sources(before).push(value@));
                    AddRelay::Added
                }
            },
        }
    }

    /// Removes the relay at position `ix`.
    pub fn remove(&mut self, ix: usize)
        requires
            ix < old(self)@.len(),
        ensures
            final(self)@ == old(self)@.remove(ix as int),
            final(self).sources() == old(self).sources().remove(ix as int),
    {
        let ghost before = self.relays@;
        self.relays.remove(ix);
        assert(relay_keys(self.relays@) =~= relay_keys(before).remove(ix as int));
        assert(relay_sources(self.relays@) =~= relay_sources(before).remove(ix as int));
    }

    /// Checks that the list can be saved: it must not be empty.
    pub fn check_saveable(&self) -> (r: Result<(), RelayListError>)
        ensures
            r is Ok <==> self@.len() > 0,
    {
        if self.relays.len() == 0 {
            Err(RelayListError::Empty)
        } else {
            Ok(())
        }
    }
}

/// Adding relays never lists one twice.
pub proof fn law_relay_list_stays_distinct(s: Seq<Seq<char>>, value: Seq<char>)
    requires
        s.no_duplicates(),
        add_relay_outcome(s, value) == AddRelay::Added,
    ensures
        s.push(relay_url_key(value)->Some_0).no_duplicates(),
{
    let k = relay_url_key(value)->Some_0;
    let t = s.push(k);
    assert forall|i: int, j: int| 0 <= i < t.len() && 0 <= j < t.len() && i != j implies t[i]
        != t[j] by {
        if i < s.len() && j < s.len() {
        } else if i < s.len() {
            assert(s[i] != k);
        } else {
            assert(s[j] != k);
        }
    }
}

/// The relays that a list of relay tag contents names: the contents that
/// are relay urls, in order.
pub open spec fn relays_from_tags_spec(contents: Seq<Seq<char>>) -> Seq<Seq<char>>
    decreases contents.len(),
{
    if contents.len() == 0 {
        Seq::empty()
    } else {
        let prev = relays_from_tags_spec(contents.drop_last());
        match relay_url_key(contents.last()) {
            Some(k) => prev.push(k),
            None => prev,
        }
    }
}

/// The relay tag contents that are relay urls, in order.
pub open spec fn relay_tag_sources(contents: Seq<Seq<char>>) -> Seq<Seq<char>>
    decreases contents.len(),
{
    if contents.len() == 0 {
        Seq::empty()
    } else {
        let prev = relay_tag_sources(contents.drop_last());
        if relay_url_key(contents.last()) is Some {
            prev.push(contents.last())
        } else {
            prev
        }
    }
}

/// Reads the relays of a relay list event from its relay tags' contents,
/// skipping what is not a relay url.
pub fn relays_from_tags(contents: &Vec<String>) -> (r: RelayList)
    ensures
        r@ == relays_from_tags_spec(contents@.map_values(|s: String| s@)),
        r.sources() == relay_tag_sources(contents@.map_values(|s: String| s@)),
{
    let ghost c = contents@.map_values(|s: String| s@);
    let mut out: Vec<RelayAddress> = Vec::new();
    let mut i: usize = 0;
    assert(c.subrange(0, 0) =~= Seq::<Seq<char>>::empty());
    assert(relay_keys(out@) =~= Seq::<Seq<char>>::empty());
    assert(relay_sources(out@) =~= Seq::<Seq<char>>::empty());
    while i < contents.len()
        invariant
            i <= contents.len(),
            c == contents@.map_values(|s: String| s@),
            relay_keys(out@) == relays_from_tags_spec(c.subrange(0, i as int)),
            relay_sources(out@) == relay_tag_sources(c.subrange(0, i as int)),
        decreases contents.len() - i,
    {
        assert(c.subrange(0, i + 1).drop_last() =~= c.subrange(0, i as int));
        assert(c.subrange(0, i + 1).last() == contents@[i as int]@);
        match relay_address(contents[i].as_str()) {
            Some(url) => {
                let ghost before = out@;
                out.push(url);
                assert(relay_keys(out@) =~= relay_keys(before).push(
                    relay_url_key(contents@[i as int]@)->Some_0,
                ));
                assert(relay_sources(out@) =~= relay_sources(before).push(contents@[i as int]@));
            },
            None => {},
        }
        i = i + 1;
    }
    assert(c.subrange(0, contents.len() as int) =~= c);
    RelayList { relays: out }
}

/// The messaging relays taken from a relay list: at most the first three.
pub fn first_three(list: &RelayList) -> (r: RelayList)
    ensures
        list@.len() <= 3 ==> r@ == list@ && r.sources() == list.sources(),
        list@.len() > 3 ==> r@ == list@.subrange(0, 3) && r.sources() == list.sources().subrange(
            0,
            3,
        ),
{
    let n = if list.relays.len() < 3 {
        list.relays.len()
    } else {
        3
    };
    let mut out: Vec<RelayAddress> = Vec::new();
    let mut i: usize = 0;
    while i < n
        invariant
            i <= n,
            n <= list.relays.len(),
            n <= 3,
            relay_keys(out@) == list@.subrange(0, i as int),
            relay_sources(out@) == list.sources().subrange(0, i as int),
        decreases n - i,
    {
        let c = list.relays[i].clone();
        assert(list@[i as int] == list.relays@[i as int].key());
        assert(c.key() == list.relays@[i as int].key());
        let ghost before = out@;
        out.push(c);
        assert(relay_keys(out@) =~= relay_keys(before).push(c.key()));
        assert(relay_keys(out@) =~= list@.subrange(0, i + 1));
        assert(relay_sources(out@) =~= list.sources().subrange(0, i + 1));
        i = i + 1;
    }
    assert(list@.len() <= 3 ==> list@.subrange(0, n as int) =~= list@);
    assert(list@.len() <= 3 ==> list.sources().subrange(0, n as int) =~= list.sources());
    RelayList { relays: out }
}

/// What adding a relay to a new account's relay set did.
#[derive(Debug, Clone, Copy, PartialEq, Eq)]
pub enum SetupAdd {
    /// The text is not a relay url (or does not start with `ws`): an error
    /// is shown.
    Invalid,
    /// The relay was added; the input keeps its text.
    Added,
    /// The relay was in the set already; the input is cleared.
    AlreadyListed,
}

/// The relays of a new account, as a set.
#[derive(Debug)]
pub struct RelaySet {
    relays: RelayList,
}

impl View for RelaySet {
    type V = Set<Seq<char>>;

    closed spec fn view(&self) -> Set<Seq<char>> {
        self.relays@.to_set()
    }
}

impl RelaySet {
    /// An empty set.
    pub fn new() -> (r: RelaySet)
        ensures
            r@ == Set::<Seq<char>>::empty(),
    {
        let r = RelaySet { relays: RelayList::new() };
        assert(r@ =~= Set::<Seq<char>>::empty());
        r
    }

    /// Adds a typed relay. Note that the input is cleared only when the
    /// relay was in the set already.
    pub fn add(&mut self, value: &str) -> (r: SetupAdd)
        ensures
            !has_prefix(value@, "ws"@) || relay_url_key(value@) is None ==> r == SetupAdd::Invalid
                && final(self)@ == old(self)@,
            has_prefix(value@, "ws"@) && relay_url_key(value@) is Some ==> final(self)@ == old(self)@.insert(relay_url_key(value@)->Some_0) && (r == SetupAdd::AlreadyListed <==> old(self)@.contains(relay_url_key(value@)->Some_0)) && r != SetupAdd::Invalid,
    {
        let ghost before = self.relays@;
        match self.relays.add(value) {
            AddRelay::NotWebSocket | AddRelay::Invalid => SetupAdd::Invalid,
            AddRelay::Added => {
                assert(self.relays@.to_set() =~= before.to_set().insert(
                    relay_url_key(value@)->Some_0,
                )) by {
                    let k = relay_url_key(value@)->Some_0;
                    assert forall|x: Seq<char>| self.relays@.contains(x) <==> (before.contains(x)
                        || x == k) by {
                        if self.relays@.contains(x) {
                            let j = choose|j: int| 0 <= j < self.relays@.len() && self.relays@[j] == x;
                            if j < before.len() {
                                assert(before[j] == x);
                            }
                        }
                        if before.contains(x) {
                            let j = choose|j: int| 0 <= j < before.len() && before[j] == x;
                            assert(self.relays@[j] == x);
                        }
                        assert(self.relays@[before.len() as int] == k);
                    }
                }
                SetupAdd::Added
            },
            AddRelay::AlreadyListed => {
                assert(before.to_set().insert(relay_url_key(value@)->Some_0) =~= before.to_set());
                SetupAdd::AlreadyListed
            },
        }
    }

    /// Removes a relay, if present.
    pub fn remove(&mut self, relay: &RelayAddress)
        ensures
            final(self)@ == old(self)@.remove(relay.key()),
    {
        let ghost before = self.relays@;
        let mut kept: Vec<RelayAddress> = Vec::new();
        let mut i: usize = 0;
        while i < self.relays.relays.len()
            invariant
                i <= self.relays.relays.len(),
                before == self.relays@,
                forall|x: Seq<char>| #[trigger] relay_keys(kept@).contains(x) <==> (x != relay.key()
                    && before.subrange(0, i as int).contains(x)),
            decreases self.relays.relays.len() - i,
        {
            let ghost k0 = kept@;
            assert(before[i as int] == self.relays.relays@[i as int].key());
            if !same_relay(&self.relays.relays[i], relay) {
                kept.push(self.relays.relays[i].clone());
            }
            proof {
                assert(before.subrange(0, i + 1) =~= before.subrange(0, i as int).push(
                    before[i as int],
                ));
                assert forall|x: Seq<char>| #[trigger] relay_keys(kept@).contains(x) <==> (x
                    != relay.key() && before.subrange(0, i + 1).contains(x)) by {
                    let p = before.subrange(0, i as int);
                    let q = before.subrange(0, i + 1);
                    if q.contains(x) {
                        let j = choose|j: int| 0 <= j < q.len() && q[j] == x;
                        if j < i {
                            assert(p[j] == x);
                        }
                    }
                    if p.contains(x) {
                        let j = choose|j: int| 0 <= j < p.len() && p[j] == x;
                        assert(q[j] == x);
                    }
                    assert(q[i as int] == before[i as int]);
                    if kept@.len() > k0.len() {
                        assert(relay_keys(kept@) =~= relay_keys(k0).push(before[i as int]));
                        if relay_keys(kept@).contains(x) {
                            let j = choose|j: int|
                                0 <= j < relay_keys(kept@).len() && relay_keys(kept@)[j] == x;
                            if j < k0.len() {
                                assert(relay_keys(k0)[j] == x);
                            }
                        }
                        if relay_keys(k0).contains(x) {
                            let j = choose|j: int|
                                0 <= j < relay_keys(k0).len() && relay_keys(k0)[j] == x;
                            assert(relay_keys(kept@)[j] == x);
                        }
                        assert(relay_keys(kept@)[k0.len() as int] == before[i as int]);
                    } else {
                        assert(kept@ == k0);
                    }
                }
            }
            i = i + 1;
        }
        self.relays = RelayList { relays: kept };
        proof {
            assert(before.subrange(0, before.len() as int) =~= before);
            assert(self.relays@.to_set() =~= before.to_set().remove(relay.key()));
        }
    }

    /// Checks that the set can be saved: it must not be empty.
    pub fn check_saveable(&self) -> (r: Result<(), RelayListError>)
        ensures
            r is Ok <==> self@.len() > 0,
    {
        proof {
            self.relays@.lemma_cardinality_of_empty_set_is_0();
        }
        self.relays.check_saveable()
    }

    /// Returns the relays.
    pub fn relays(&self) -> (r: &RelayList)
        ensures
            r@.to_set() == self@,
    {
        &self.relays
    }
}

/// How a relay list entry marks a relay (NIP-65): an unmarked relay is
/// both read from and written to.
#[derive(Debug, Clone, Copy, PartialEq, Eq, Structural)]
pub enum RelayMarker {
    Read,
    Write,
}

/// The urls of the entries that are written to: unmarked or marked `Write`,
/// in order.
pub open spec fn write_relays_spec(relays: Seq<(String, Option<RelayMarker>)>) -> Seq<Seq<char>>
    decreases relays.len(),
{
    if relays.len() == 0 {
        Seq::empty()
    } else {
        let rest = write_relays_spec(relays.drop_last());
        match relays.last().1 {
            Some(RelayMarker::Read) => rest,
            _ => rest.push(relays.last().0@),
        }
    }
}

/// Returns the urls of a relay list that are written to, in order.
pub fn write_relays(relays: &Vec<(String, Option<RelayMarker>)>) -> (r: Vec<String>)
    ensures
        string_views(r@) == write_relays_spec(relays@),
{
    let mut out: Vec<String> = Vec::new();
    let mut i: usize = 0;
    while i < relays.len()
        invariant
            i <= relays.len(),
            string_views(out@) == write_relays_spec(relays@.subrange(0, i as int)),
        decreases relays.len() - i,
    {
        proof {
            assert(relays@.subrange(0, i + 1).drop_last() =~= relays@.subrange(0, i as int));
        }
        let read_only = match relays[i].1 {
            Some(RelayMarker::Read) => true,
            _ => false,
        };
        if !read_only {
            let ghost before = out@;
            out.push(relays[i].0.clone());
            proof {
                assert(string_views(out@) =~= string_views(before).push(relays@[i as int].0@));
            }
        }
        i = i + 1;
    }
    assert(relays@.subrange(0, relays@.len() as int) =~= relays@);
    out
}

} // verus!
