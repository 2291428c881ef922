//! The sidebar's search: what a query is, which search it starts, and how
//! the results and the room that the user opens are handled.
use vstd::prelude::*;

use crate::chat::RoomKind;
use crate::state::UnwrappingStatus;
use crate::ids::{contains_key, Key32, PublicKey};
use crate::text::{char_count, contains_char, count_char, has_prefix, starts_with};

verus! {

/// What a search query asks for.
#[derive(Debug, Clone, Copy, PartialEq, Eq)]
pub enum QueryKind {
    /// A public key in `npub1` or `nprofile1` form.
    PublicKey,
    /// A NIP-05 address `name@domain.tld`.
    Nip05,
    /// Any other text.
    Text,
}

/// `q` is a NIP-05 address: exactly one `@`, something before it, and a
/// domain after it that holds a `.`.
pub open spec fn is_nip05_address(q: Seq<char>) -> bool {
    char_count(q, '@') == 1 && exists|i: int|
        0 < i && i + 1 < q.len() && #[trigger] q[i] == '@' && q.subrange(i + 1, q.len() as int).contains(
            '.',
        )
}

/// The kind of a query.
pub open spec fn kind_of_query(q: Seq<char>) -> QueryKind {
    if has_prefix(q, "npub1"@) || has_prefix(q, "nprofile1"@) {
        QueryKind::PublicKey
    } else if is_nip05_address(q) {
        QueryKind::Nip05
    } else {
        QueryKind::Text
    }
}

/// The index of the first `c` in `s`.
pub open spec fn first_index(s: Seq<char>, c: char) -> int {
    choose|i: int| 0 <= i < s.len() && s[i] == c && forall|j: int| 0 <= j < i ==> s[j] != c
}

proof fn lemma_count_zero(s: Seq<char>, c: char)
    requires
        !s.contains(c),
    ensures
        char_count(s, c) == 0,
    decreases s.len(),
{
    if s.len() > 0 {
        assert(!s.drop_last().contains(c)) by {
            if s.drop_last().contains(c) {
                let k = choose|k: int| 0 <= k < s.drop_last().len() && s.drop_last()[k] == c;
                assert(s[k] == c);
            }
        }
        lemma_count_zero(s.drop_last(), c);
        assert(s[s.len() - 1] != c);
    }
}

proof fn lemma_count_split(s: Seq<char>, t: Seq<char>, c: char)
    ensures
        char_count(s + t, c) == char_count(s, c) + char_count(t, c),
    decreases t.len(),
{
    if t.len() == 0 {
        assert(s + t =~= s);
    } else {
        lemma_count_split(s, t.drop_last(), c);
        assert((s + t).drop_last() =~= s + t.drop_last());
    }
}

proof fn lemma_count_one(s: Seq<char>, i: int, c: char)
    requires
        0 <= i < s.len(),
        s[i] == c,
        char_count(s, c) == 1,
    ensures
        forall|j: int| 0 <= j < s.len() && j != i ==> s[j] != c,
{
    assert forall|j: int| 0 <= j < s.len() && j != i implies s[j] != c by {
        if s[j] == c {
            let (a, b) = if i < j { (i, j) } else { (j, i) };
            let p1 = s.subrange(0, a + 1);
            let p2 = s.subrange(a + 1, b + 1);
            let p3 = s.subrange(b + 1, s.len() as int);
            assert(s =~= p1 + p2 + p3);
            lemma_count_split(p1 + p2, p3, c);
            lemma_count_split(p1, p2, c);
            assert(p1.drop_last() + seq![c] =~= p1);
            assert(p2.drop_last() + seq![c] =~= p2);
            lemma_count_split(p1.drop_last(), seq![c], c);
            lemma_count_split(p2.drop_last(), seq![c], c);
            assert(char_count(seq![c], c) == 1) by {
                assert(seq![c].drop_last() =~= Seq::<char>::empty());
            }
        }
    }
}

/// Returns the index of the first `c` in `s`, if any.
pub fn find_char(s: &str, c: char) -> (r: Option<usize>)
    ensures
        match r {
            Some(i) => i < s@.len() && s@[i as int] == c && forall|j: int|
                0 <= j < i ==> s@[j] != c,
            None => !s@.contains(c),
        },
{
    let n = s.unicode_len();
    let mut i: usize = 0;
    while i < n
        invariant
            n == s@.len(),
            i <= n,
            forall|j: int| 0 <= j < i ==> s@[j] != c,
        decreases n - i,
    {
        if s.get_char(i) == c {
            return Some(i);
        }
        i = i + 1;
    }
    None
}

/// Returns whether `q` is a NIP-05 address (`name@domain.tld`).
pub fn is_nip05(q: &str) -> (r: bool)
    ensures
        r == is_nip05_address(q@),
{
    if count_char(q, '@') != 1 {
        return false;
    }
    let n = q.unicode_len();
    match find_char(q, '@') {
        None => {
            proof {
                lemma_count_zero(q@, '@');
            }
            false
        },
        Some(i) => {
            proof {
                lemma_count_one(q@, i as int, '@');
            }
            if i == 0 || i + 1 >= n {
                proof {
                    if is_nip05_address(q@) {
                        let k = choose|k: int|
                            0 < k && k + 1 < q@.len() && #[trigger] q@[k] == '@' && q@.subrange(
                                k + 1,
                                q@.len() as int,
                            ).contains('.');
                        assert(k == i);
                    }
                }
                return false;
            }
            let domain = q.substring_char(i + 1, n);
            let r = contains_char(domain, '.');
            proof {
                if is_nip05_address(q@) {
                    let k = choose|k: int|
                        0 < k && k + 1 < q@.len() && #[trigger] q@[k] == '@' && q@.subrange(
                            k + 1,
                            q@.len() as int,
                        ).contains('.');
                    assert(k == i);
                }
            }
            r
        },
    }
}

/// Returns the kind of a search query.
pub fn query_kind(q: &str) -> (r: QueryKind)
    ensures
        r == kind_of_query(q@),
{
    if starts_with(q, "npub1") || starts_with(q, "nprofile1") {
        QueryKind::PublicKey
    } else if is_nip05(q) {
        QueryKind::Nip05
    } else {
        QueryKind::Text
    }
}

/// The search that a query starts.
#[derive(Debug, Clone, Copy, PartialEq, Eq)]
pub enum SearchAction {
    /// The query is empty: nothing happens.
    Ignore,
    /// Another search is running and cannot be cancelled: the user is told.
    AlreadySearching,
    /// A search starts; a running one is cancelled first when
    /// `cancel_running` holds.
    Start { kind: QueryKind, cancel_running: bool },
}

/// Where the results of a search go.
#[derive(Debug, Clone, Copy, PartialEq, Eq)]
pub enum LocalOutcome {
    /// Rooms that the user already has match: they are shown.
    ShowLocal,
    /// Nothing local matches: a relay (NIP-50) search starts, which can be
    /// cancelled.
    SearchRelays,
}

/// The state of the sidebar's search.
#[derive(Debug, Clone)]
pub struct SearchState {
    /// A search is running and the input is blocked.
    pub finding: bool,
    /// The running search can be cancelled.
    pub cancellable: bool,
    /// The ids of the rooms found among the user's rooms.
    pub local_result: Option<Vec<u64>>,
    /// The ids of the rooms found on relays.
    pub global_result: Option<Vec<u64>>,
}

/// The action that a query starts in a given state.
pub open spec fn search_action(finding: bool, cancellable: bool, q: Seq<char>) -> SearchAction {
    if q.len() == 0 {
        SearchAction::Ignore
    } else if finding && !cancellable {
        SearchAction::AlreadySearching
    } else {
        SearchAction::Start { kind: kind_of_query(q), cancel_running: finding }
    }
}

impl SearchState {
    /// No search, no results.
    pub fn new() -> (r: SearchState)
        ensures
            !r.finding,
            !r.cancellable,
            r.local_result is None,
            r.global_result is None,
    {
        SearchState { finding: false, cancellable: false, local_result: None, global_result: None }
    }

    /// Handles a query: decides the search and blocks the input when one
    /// starts.
    pub fn search(&mut self, query: &str) -> (r: SearchAction)
        ensures
            r == search_action(old(self).finding, old(self).cancellable, query@),
            r is Start ==> final(self).finding,
            !(r is Start) ==> final(self).finding == old(self).finding,
            final(self).cancellable == old(self).cancellable,
            final(self).local_result == old(self).local_result,
            final(self).global_result == old(self).global_result,
    {
        if query.unicode_len() == 0 {
            return SearchAction::Ignore;
        }
        if self.finding && !self.cancellable {
            return SearchAction::AlreadySearching;
        }
        let cancel_running = self.finding;
        self.finding = true;
        let kind = query_kind(query);
        SearchAction::Start { kind, cancel_running }
    }

    /// Handles the outcome of a search among the user's rooms.
    pub fn on_local_search(&mut self, found_rooms: Vec<u64>) -> (r: LocalOutcome)
        ensures
            found_rooms@.len() > 0 ==> r == LocalOutcome::ShowLocal && !final(self).finding
                && !final(self).cancellable && final(self).local_result == Some(found_rooms)
                && final(self).global_result == old(self).global_result,
            found_rooms@.len() == 0 ==> r == LocalOutcome::SearchRelays && final(self).cancellable
                && final(self).finding == old(self).finding && final(self).local_result == old(self).local_result && final(self).global_result == old(self).global_result,
    {
        if found_rooms.len() > 0 {
            self.results(found_rooms, false);
            LocalOutcome::ShowLocal
        } else {
            self.cancellable = true;
            LocalOutcome::SearchRelays
        }
    }

    /// Records the rooms that a search found: the search ends, and a
    /// non-empty list replaces the local (or, for a relay search, global)
    /// result.
    pub fn results(&mut self, rooms: Vec<u64>, global: bool)
        ensures
            !final(self).finding,
            !final(self).cancellable,
            rooms@.len() > 0 && global ==> final(self).global_result == Some(rooms)
                && final(self).local_result == old(self).local_result,
            rooms@.len() > 0 && !global ==> final(self).local_result == Some(rooms)
                && final(self).global_result == old(self).global_result,
            rooms@.len() == 0 ==> final(self).local_result == old(self).local_result
                && final(self).global_result == old(self).global_result,
    {
        self.finding = false;
        self.cancellable = false;
        if rooms.len() > 0 {
            if global {
                self.global_result = Some(rooms);
            } else {
                self.local_result = Some(rooms);
            }
        }
    }

    /// Ends a search that failed or was cancelled, keeping the results.
    pub fn search_failed(&mut self)
        ensures
            !final(self).finding,
            !final(self).cancellable,
            final(self).local_result == old(self).local_result,
            final(self).global_result == old(self).global_result,
    {
        self.finding = false;
        self.cancellable = false;
    }

    /// Clears both results and unblocks the input.
    pub fn clear_search_results(&mut self)
        ensures
            !final(self).finding,
            final(self).cancellable == old(self).cancellable,
            final(self).local_result is None,
            final(self).global_result is None,
    {
        self.finding = false;
        self.local_result = None;
        self.global_result = None;
    }

    /// Decides what opening the room `id` does: a room that the user has is
    /// opened (`Existing`); otherwise a room of the relay results is opened
    /// and the results are cleared (`FromSearch`); otherwise it fails.
    pub fn open_room(&mut self, id: u64, in_registry: bool) -> (r: OpenRoom)
        ensures
            in_registry ==> r == OpenRoom::Existing && *final(self) == *old(self),
            !in_registry && global_has(old(self).global_result, id) ==> r
                == OpenRoom::FromSearch && !final(self).finding && final(self).local_result is None
                && final(self).global_result is None,
            !in_registry && !global_has(old(self).global_result, id) ==> r
                == OpenRoom::NotFound && *final(self) == *old(self),
    {
        if in_registry {
            return OpenRoom::Existing;
        }
        let found = match &self.global_result {
            None => false,
            Some(g) => {
                let mut i: usize = 0;
                let mut hit = false;
                while i < g.len()
                    invariant
                        i <= g.len(),
                        hit <==> exists|j: int| 0 <= j < i && g@[j] == id,
                    decreases g.len() - i,
                {
                    if g[i] == id {
                        hit = true;
                    }
                    i = i + 1;
                }
                proof {
                    if g@.contains(id) {
                        let j = choose|j: int| 0 <= j < g@.len() && g@[j] == id;
                        assert(g@[j] == id);
                    }
                }
                hit
            },
        };
        if found {
            self.clear_search_results();
            OpenRoom::FromSearch
        } else {
            OpenRoom::NotFound
        }
    }
}

/// The relay results hold the room `id`.
pub open spec fn global_has(result: Option<Vec<u64>>, id: u64) -> bool {
    match result {
        Some(g) => g@.contains(id),
        None => false,
    }
}

/// What opening a room does.
#[derive(Debug, Clone, Copy, PartialEq, Eq)]
pub enum OpenRoom {
    Existing,
    FromSearch,
    NotFound,
}

/// The authors of relay search results to open rooms with: each author
/// once, at its first occurrence (`unique_by`), without the user.
pub open spec fn candidates_of(authors: Seq<Seq<u8>>, identity: Seq<u8>) -> Seq<Seq<u8>>
    decreases authors.len(),
{
    if authors.len() == 0 {
        authors
    } else {
        let prev = candidates_of(authors.drop_last(), identity);
        if authors.last() != identity && !authors.drop_last().contains(authors.last()) {
            prev.push(authors.last())
        } else {
            prev
        }
    }
}

proof fn lemma_candidates_contains(s: Seq<Seq<u8>>, identity: Seq<u8>, x: Seq<u8>)
    ensures
        candidates_of(s, identity).contains(x) == (x != identity && s.contains(x)),
    decreases s.len(),
{
    if s.len() > 0 {
        let d = s.drop_last();
        lemma_candidates_contains(d, identity, x);
        let prev = candidates_of(d, identity);
        if d.contains(x) {
            let k = choose|k: int| 0 <= k < d.len() && d[k] == x;
            assert(s[k] == x);
        }
        if s.contains(x) {
            let k = choose|k: int| 0 <= k < s.len() && s[k] == x;
            if k < d.len() {
                assert(d[k] == x);
            }
        }
        if s.last() != identity && !d.contains(s.last()) {
            let c = prev.push(s.last());
            if c.contains(x) {
                let k = choose|k: int| 0 <= k < c.len() && c[k] == x;
                if k < prev.len() {
                    assert(prev[k] == x);
                }
            }
            if prev.contains(x) {
                let k = choose|k: int| 0 <= k < prev.len() && prev[k] == x;
                assert(c[k] == x);
            }
            assert(c[prev.len() as int] == s.last());
        }
    }
}

/// Returns the authors of relay search results to open rooms with: each
/// author once, in the order found, without the user.
pub fn search_candidates(authors: &Vec<PublicKey>, identity: &PublicKey) -> (r: Vec<PublicKey>)
    ensures
        r@.map_values(|k: Key32| k@) == candidates_of(
            authors@.map_values(|k: Key32| k@),
            identity@,
        ),
{
    let ghost s = authors@.map_values(|k: Key32| k@);
    let mut out: Vec<PublicKey> = Vec::new();
    let mut i: usize = 0;
    assert(s.subrange(0, 0) =~= Seq::<Seq<u8>>::empty());
    assert(out@.map_values(|k: Key32| k@) =~= candidates_of(s.subrange(0, 0), identity@));
    while i < authors.len()
        invariant
            i <= authors.len(),
            s == authors@.map_values(|k: Key32| k@),
            out@.map_values(|k: Key32| k@) == candidates_of(s.subrange(0, i as int), identity@),
        decreases authors.len() - i,
    {
        let ghost p = s.subrange(0, i as int);
        let ghost q = s.subrange(0, i + 1);
        assert(q.drop_last() =~= p);
        assert(q.last() == authors@[i as int]@);
        let k = authors[i];
        let seen = contains_key(&out, &k);
        proof {
            lemma_candidates_contains(p, identity@, k@);
        }
        if !k.same(identity) && !seen {
            out.push(k);
            proof {
                assert(out@.map_values(|x: Key32| x@) =~= out@.drop_last().map_values(
                    |x: Key32| x@,
                ).push(k@));
            }
        }
        i = i + 1;
    }
    assert(s.subrange(0, authors.len() as int) =~= s);
    out
}

/// Why a relay search has no outcome.
#[derive(Debug, Clone, Copy, PartialEq, Eq)]
pub enum SearchError {
    /// No author other than the user was found.
    NoResults,
}

impl SearchError {
    /// The message shown for the query that had no outcome.
    pub fn message(&self, query: &str) -> (r: String)
        ensures
            r@ == "No results for query "@ + query@,
    {
        String::from_str("No results for query ").concat(query)
    }
}

/// What a relay search asks for next: the metadata and contact lists of
/// the authors found.
#[derive(Debug)]
pub struct ProfileFetch {
    /// The authors found, each once, without the user.
    pub authors: Vec<PublicKey>,
    /// How many events to ask for: two per author.
    pub limit: usize,
}

/// Handles the authors of a relay (NIP-50) search's results: an error when
/// none other than the user is found, else the authors to open rooms with
/// and to fetch profiles of.
pub fn nip50_results(authors: &Vec<PublicKey>, identity: &PublicKey) -> (r: Result<
    ProfileFetch,
    SearchError,
>)
    requires
        authors@.len() <= usize::MAX / 2,
    ensures
        r is Err <==> candidates_of(authors@.map_values(|k: Key32| k@), identity@).len() == 0,
        r is Err ==> r->Err_0 == SearchError::NoResults,
        r is Ok ==> r->Ok_0.authors@.map_values(|k: Key32| k@) == candidates_of(
            authors@.map_values(|k: Key32| k@),
            identity@,
        ) && r->Ok_0.limit == 2 * r->Ok_0.authors@.len(),
{
    let found = search_candidates(authors, identity);
    proof {
        lemma_candidates_len(authors@.map_values(|k: Key32| k@), identity@);
        assert(found@.map_values(|k: Key32| k@).len() == found@.len());
    }
    if found.len() == 0 {
        return Err(SearchError::NoResults);
    }
    let limit = found.len() * 2;
    Ok(ProfileFetch { authors: found, limit })
}

proof fn lemma_candidates_len(s: Seq<Seq<u8>>, identity: Seq<u8>)
    ensures
        candidates_of(s, identity).len() <= s.len(),
    decreases s.len(),
{
    if s.len() > 0 {
        lemma_candidates_len(s.drop_last(), identity);
    }
}

/// What a change of the search input does.
#[derive(Debug, Clone, Copy, PartialEq, Eq)]
pub enum InputChange {
    /// The input was emptied: the results are cleared.
    ClearResults,
    /// A search runs once the user stops typing.
    SearchSoon,
}

/// Decides what a change of the search input does.
pub fn on_input_change(text: &str) -> (r: InputChange)
    ensures
        text@.len() == 0 <==> r == InputChange::ClearResults,
{
    if text.unicode_len() == 0 {
        InputChange::ClearResults
    } else {
        InputChange::SearchSoon
    }
}

/// Which rooms the sidebar lists, and the kind of room that a new request
/// arrived in while another list was shown.
#[derive(Debug, Clone, Copy)]
pub struct RoomFilter {
    active: RoomKind,
    indicator: Option<RoomKind>,
}

impl RoomFilter {
    /// The kind of room listed.
    pub closed spec fn active_spec(self) -> RoomKind {
        self.active
    }

    /// The kind of room flagged as having news.
    pub closed spec fn indicator_spec(self) -> Option<RoomKind> {
        self.indicator
    }

    /// Ongoing conversations are listed; nothing is flagged.
    pub fn new() -> (r: RoomFilter)
        ensures
            r.active_spec() == RoomKind::Ongoing,
            r.indicator_spec() is None,
    {
        RoomFilter { active: RoomKind::Ongoing, indicator: None }
    }

    /// Returns whether rooms of `kind` are listed.
    pub fn filter(&self, kind: RoomKind) -> (r: bool)
        ensures
            r == (self.active_spec() == kind),
    {
        self.active == kind
    }

    /// Returns the kind of room flagged as having news.
    pub fn indicator(&self) -> (r: Option<RoomKind>)
        ensures
            r == self.indicator_spec(),
    {
        self.indicator
    }

    /// Lists rooms of `kind`, which clears the flag.
    pub fn set_filter(&mut self, kind: RoomKind)
        ensures
            final(self).active_spec() == kind,
            final(self).indicator_spec() is None,
    {
        self.indicator = None;
        self.active = kind;
    }

    /// A new request arrived in a room of `kind`: that kind is flagged.
    pub fn on_new_request(&mut self, kind: RoomKind)
        ensures
            final(self).active_spec() == old(self).active_spec(),
            final(self).indicator_spec() == Some(kind),
    {
        self.indicator = Some(kind);
    }
}

/// Where the rooms listed in the sidebar come from.
#[derive(Debug, Clone, Copy, PartialEq, Eq)]
pub enum RoomSource {
    /// The rooms found among the user's rooms.
    LocalResults,
    /// The rooms found on relays.
    GlobalResults,
    /// The user's ongoing conversations.
    Ongoing,
    /// The user's message requests.
    Requests,
}

impl SearchState {
    /// Returns where the listed rooms come from: the local results, else
    /// the relay results, else the user's rooms of the kind the filter
    /// shows.
    pub fn room_source(&self, filter: &RoomFilter) -> (r: RoomSource)
        ensures
            self.local_result is Some ==> r == RoomSource::LocalResults,
            self.local_result is None && self.global_result is Some ==> r
                == RoomSource::GlobalResults,
            self.local_result is None && self.global_result is None && filter.active_spec()
                == RoomKind::Ongoing ==> r == RoomSource::Ongoing,
            self.local_result is None && self.global_result is None && filter.active_spec()
                != RoomKind::Ongoing ==> r == RoomSource::Requests,
    {
        if self.local_result.is_some() {
            RoomSource::LocalResults
        } else if self.global_result.is_some() {
            RoomSource::GlobalResults
        } else if filter.filter(RoomKind::Ongoing) {
            RoomSource::Ongoing
        } else {
            RoomSource::Requests
        }
    }
}

/// The number of rows the room list shows: the rooms, and three
/// placeholder rows while messages are still being unwrapped.
pub fn shown_rows(rooms: usize, status: UnwrappingStatus) -> (r: usize)
    requires
        rooms <= usize::MAX - 3,
    ensures
        status == UnwrappingStatus::Complete ==> r == rooms,
        status != UnwrappingStatus::Complete ==> r == rooms + 3,
{
    match status {
        UnwrappingStatus::Complete => rooms,
        _ => rooms + 3,
    }
}

/// What the sidebar shows where its room list is empty.
#[derive(Debug, Clone, Copy, PartialEq, Eq)]
pub enum EmptyState {
    /// No conversation yet (`sidebar.no_conversations`).
    NoConversations,
    /// No message request (`sidebar.no_requests`).
    NoRequests,
}

/// Decides the sidebar's empty state: shown exactly when nothing is loading
/// and there is no room, with the label of the kind of room listed.
pub fn empty_state(loading: bool, rooms: usize, filter: &RoomFilter) -> (r: Option<EmptyState>)
    ensures
        r is Some <==> (!loading && rooms == 0),
        r is Some && filter.active_spec() == RoomKind::Ongoing ==> r == Some(
            EmptyState::NoConversations,
        ),
        r is Some && filter.active_spec() != RoomKind::Ongoing ==> r == Some(
            EmptyState::NoRequests,
        ),
{
    if loading || rooms != 0 {
        None
    } else if filter.filter(RoomKind::Ongoing) {
        Some(EmptyState::NoConversations)
    } else {
        Some(EmptyState::NoRequests)
    }
}

/// The number of rows the room list shows while the chat registry loads:
/// the rooms, and three placeholder rows while it is loading.
pub fn loading_rows(rooms: usize, loading: bool) -> (r: usize)
    requires
        rooms <= usize::MAX - 3,
    ensures
        loading ==> r == rooms + 3,
        !loading ==> r == rooms,
{
    if loading {
        rooms + 3
    } else {
        rooms
    }
}

} // verus!
