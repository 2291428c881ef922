//! The chat panel: the message being written with its attachments and
//! replies, the delivery reports of sent messages, and the check against
//! showing a sent message twice.
use vstd::prelude::*;

use crate::ids::{EventId, Key32, PublicKey};
use crate::text::{string_views, trim, trimmed};

verus! {

/// The texts of `parts` joined with `sep` between them.
pub open spec fn joined_with(parts: Seq<Seq<char>>, sep: Seq<char>) -> Seq<char>
    decreases parts.len(),
{
    if parts.len() == 0 {
        Seq::empty()
    } else if parts.len() == 1 {
        parts[0]
    } else {
        joined_with(parts.drop_last(), sep) + sep + parts.last()
    }
}

/// Returns the texts joined with `sep` between them.
pub fn join(parts: &Vec<String>, sep: &str) -> (r: String)
    ensures
        r@ == joined_with(string_views(parts@), sep@),
{
    let ghost p = string_views(parts@);
    let mut out = String::new();
    let mut i: usize = 0;
    assert(p.subrange(0, 0) =~= Seq::<Seq<char>>::empty());
    while i < parts.len()
        invariant
            i <= parts.len(),
            p == string_views(parts@),
            out@ == joined_with(p.subrange(0, i as int), sep@),
        decreases parts.len() - i,
    {
        let ghost q = p.subrange(0, i + 1);
        assert(q.drop_last() =~= p.subrange(0, i as int));
        assert(q.last() == parts@[i as int]@);
        if i > 0 {
            out.append(sep);
        } else {
            assert(out@ =~= Seq::<char>::empty());
        }
        out.append(parts[i].as_str());
        proof {
            if i == 0 {
                assert(out@ =~= q[0]);
            }
        }
        i = i + 1;
    }
    assert(p.subrange(0, parts.len() as int) =~= p);
    out
}

/// The message that the panel sends: the typed text without surrounding
/// white space, then the attachment urls, one per line.
pub open spec fn message_content(input: Seq<char>, attachments: Seq<Seq<char>>) -> Seq<char> {
    let content = trimmed(input);
    if attachments.len() == 0 {
        content
    } else if content.len() == 0 {
        joined_with(attachments, "\n"@)
    } else {
        content + "\n"@ + joined_with(attachments, "\n"@)
    }
}

/// Returns the message to send: the trimmed input, then the attachments'
/// urls one per line.
pub fn input_content(input: &str, attachments: &Vec<String>) -> (r: String)
    ensures
        r@ == message_content(input@, string_views(attachments@)),
{
    let content = trim(input);
    if attachments.len() == 0 {
        return content;
    }
    let urls = join(attachments, "\n");
    if content.as_str().unicode_len() == 0 {
        urls
    } else {
        content.concat("\n").concat(urls.as_str())
    }
}

/// The message of the compact chat panel, whose attachment list may be
/// missing: the trimmed input and, when there are attachments, a line break and their urls one per line (even
/// after an empty input).
pub open spec fn compact_message_content(input: Seq<char>, attachments: Option<Seq<Seq<char>>>) -> Seq<
    char,
> {
    match attachments {
        Some(a) => if a.len() > 0 {
            trimmed(input) + "\n"@ + joined_with(a, "\n"@)
        } else {
            trimmed(input)
        },
        None => trimmed(input),
    }
}

/// Returns the message of the compact chat panel.
pub fn compact_input_content(input: &str, attachments: Option<&Vec<String>>) -> (r: String)
    ensures
        r@ == compact_message_content(
            input@,
            match attachments {
                Some(a) => Some(string_views(a@)),
                None => None,
            },
        ),
{
    let content = trim(input);
    match attachments {
        Some(a) => {
            if a.len() > 0 {
                let urls = join(a, "\n");
                content.concat("\n").concat(urls.as_str())
            } else {
                content
            }
        },
        None => content,
    }
}

/// Why a message is not sent.
#[derive(Debug, Clone, Copy, PartialEq, Eq)]
pub enum ChatError {
    /// The message is empty or white space.
    EmptyMessage,
}

/// Checks a message before it is sent: only white space is refused.
pub fn check_message(content: &str) -> (r: Result<(), ChatError>)
    ensures
        r is Ok <==> trimmed(content@).len() > 0,
{
    let t = trim(content);
    if t.as_str().unicode_len() == 0 {
        Err(ChatError::EmptyMessage)
    } else {
        Ok(())
    }
}

/// Every delivery of a message failed. With no report this holds.
pub open spec fn all_failed(reports: Seq<bool>) -> bool {
    forall|i: int| 0 <= i < reports.len() ==> !reports[i]
}

/// Every delivery of a message succeeded. With no report this holds.
pub open spec fn all_succeeded(reports: Seq<bool>) -> bool {
    forall|i: int| 0 <= i < reports.len() ==> reports[i]
}

fn all_are(reports: &Vec<bool>, value: bool) -> (r: bool)
    ensures
        r == forall|i: int| 0 <= i < reports@.len() ==> reports@[i] == value,
{
    let mut i: usize = 0;
    while i < reports.len()
        invariant
            i <= reports.len(),
            forall|j: int| 0 <= j < i ==> reports@[j] == value,
        decreases reports.len() - i,
    {
        if reports[i] != value {
            return false;
        }
        i = i + 1;
    }
    true
}

/// Returns whether a message failed to send: it has reports, and none of
/// them is a success. The reports say for each relay whether it accepted.
pub fn is_sent_failed(reports: Option<&Vec<bool>>) -> (r: bool)
    ensures
        r == match reports {
            Some(v) => all_failed(v@),
            None => false,
        },
{
    match reports {
        Some(v) => all_are(v, false),
        None => false,
    }
}

/// Returns whether a message was delivered everywhere, or `None` when it
/// has no reports.
pub fn is_sent_success(reports: Option<&Vec<bool>>) -> (r: Option<bool>)
    ensures
        r == match reports {
            Some(v) => Some(all_succeeded(v@)),
            None => None,
        },
{
    match reports {
        Some(v) => Some(all_are(v, true)),
        None => None,
    }
}

/// The kind of a chat room.
#[derive(Debug, Clone, Copy, PartialEq, Eq, Structural)]
pub enum RoomKind {
    /// A conversation that the user takes part in.
    Ongoing,
    /// A conversation that someone else started and the user has not
    /// answered.
    Request,
}

/// The kind of a room after the user sent a message to it: it becomes
/// ongoing, unless every delivery failed.
pub open spec fn kind_after_send(kind: RoomKind, reports: Seq<bool>) -> RoomKind {
    if kind != RoomKind::Ongoing && !all_failed(reports) {
        RoomKind::Ongoing
    } else {
        kind
    }
}

/// Returns the kind of a room after the user sent a message to it.
pub fn room_kind_after_send(kind: RoomKind, reports: &Vec<bool>) -> (r: RoomKind)
    ensures
        r == kind_after_send(kind, reports@),
{
    if kind != RoomKind::Ongoing && !all_are(reports, false) {
        RoomKind::Ongoing
    } else {
        kind
    }
}

/// The messages that the message being written replies to.
#[derive(Debug)]
pub struct Replies {
    ids: Vec<EventId>,
}

/// The position of the first `x` in `s`.
pub open spec fn first_position(s: Seq<Seq<u8>>, x: Seq<u8>) -> int {
    choose|i: int| 0 <= i < s.len() && s[i] == x && forall|j: int| 0 <= j < i ==> s[j] != x
}

impl View for Replies {
    type V = Seq<Seq<u8>>;

    closed spec fn view(&self) -> Seq<Seq<u8>> {
        self.ids@.map_values(|k: Key32| k@)
    }
}

impl Replies {
    /// No replies.
    pub fn new() -> (r: Replies)
        ensures
            r@ == Seq::<Seq<u8>>::empty(),
    {
        let r = Replies { ids: Vec::new() };
        assert(r@ =~= Seq::<Seq<u8>>::empty());
        r
    }

    /// Returns the ids, in order.
    pub fn ids(&self) -> (r: &Vec<EventId>)
        ensures
            r@.map_values(|k: Key32| k@) == self@,
    {
        &self.ids
    }

    /// Replies to the message `id` as well, when the panel shows it.
    pub fn reply_to(&mut self, id: EventId, shown: bool)
        ensures
            shown ==> final(self)@ == old(self)@.push(id@),
            !shown ==> final(self)@ == old(self)@,
    {
        if shown {
            let ghost before = self.ids@;
            self.ids.push(id);
            assert(self@ =~= before.map_values(|k: Key32| k@).push(id@));
        }
    }

    /// Stops replying to the first occurrence of `id`, if any.
    pub fn remove_reply(&mut self, id: &EventId)
        ensures
            !old(self)@.contains(id@) ==> final(self)@ == old(self)@,
            old(self)@.contains(id@) ==> final(self)@ == old(self)@.remove(
                first_position(old(self)@, id@),
            ),
    {
        let mut i: usize = 0;
        let ghost s = self@;
        while i < self.ids.len()
            invariant
                i <= self.ids.len(),
                s == self@,
                s == old(self)@,
                s.len() == self.ids.len(),
                forall|j: int| 0 <= j < i ==> s[j] != id@,
            decreases self.ids.len() - i,
        {
            assert(s[i as int] == self.ids@[i as int]@);
            if self.ids[i].same(id) {
                let ghost before = self.ids@;
                self.ids.remove(i);
                proof {
                    let f = first_position(s, id@);
                    assert(s.contains(id@)) by {
                        assert(s[i as int] == id@);
                    }
                    if f != i {
                        if f < i {
                            assert(s[f] != id@);
                        } else {
                            assert(s[i as int] != id@);
                        }
                    }
                    assert(self@ =~= s.remove(i as int));
                }
                return;
            }
            i = i + 1;
        }
    }

    /// Stops replying to anything.
    pub fn remove_all_replies(&mut self)
        ensures
            final(self)@ == Seq::<Seq<u8>>::empty(),
    {
        self.ids = Vec::new();
        assert(self@ =~= Seq::<Seq<u8>>::empty());
    }
}

/// The files attached to the message being written, by url.
#[derive(Debug)]
pub struct Attachments {
    urls: Vec<String>,
}

/// The position of the first `x` in `s`.
pub open spec fn first_text(s: Seq<Seq<char>>, x: Seq<char>) -> int {
    choose|i: int| 0 <= i < s.len() && s[i] == x && forall|j: int| 0 <= j < i ==> s[j] != x
}

impl View for Attachments {
    type V = Seq<Seq<char>>;

    closed spec fn view(&self) -> Seq<Seq<char>> {
        string_views(self.urls@)
    }
}

impl Attachments {
    /// No attachments.
    pub fn new() -> (r: Attachments)
        ensures
            r@ == Seq::<Seq<char>>::empty(),
    {
        let r = Attachments { urls: Vec::new() };
        assert(r@ =~= Seq::<Seq<char>>::empty());
        r
    }

    /// Returns the urls, in order.
    pub fn urls(&self) -> (r: &Vec<String>)
        ensures
            string_views(r@) == self@,
    {
        &self.urls
    }

    /// Attaches an uploaded file.
    pub fn add_attachment(&mut self, url: String)
        ensures
            final(self)@ == old(self)@.push(url@),
    {
        let ghost before = self.urls@;
        self.urls.push(url);
        assert(self@ =~= string_views(before).push(url@));
    }

    /// Removes the first attachment with this url, if any.
    pub fn remove_attachment(&mut self, url: &str)
        ensures
            !old(self)@.contains(url@) ==> final(self)@ == old(self)@,
            old(self)@.contains(url@) ==> final(self)@ == old(self)@.remove(
                first_text(old(self)@, url@),
            ),
    {
        let key = String::from_str(url);
        let mut i: usize = 0;
        let ghost s = self@;
        while i < self.urls.len()
            invariant
                i <= self.urls.len(),
                s == self@,
                s == old(self)@,
                s.len() == self.urls.len(),
                key@ == url@,
                forall|j: int| 0 <= j < i ==> s[j] != url@,
            decreases self.urls.len() - i,
        {
            assert(s[i as int] == self.urls@[i as int]@);
            if self.urls[i] == key {
                self.urls.remove(i);
                proof {
                    let f = first_text(s, url@);
                    assert(s.contains(url@)) by {
                        assert(s[i as int] == url@);
                    }
                    if f != i {
                        if f < i {
                            assert(s[f] != url@);
                        } else {
                            assert(s[i as int] != url@);
                        }
                    }
                    assert(self@ =~= s.remove(i as int));
                }
                return;
            }
            i = i + 1;
        }
    }

    /// Removes every attachment.
    pub fn remove_all_attachments(&mut self)
        ensures
            final(self)@ == Seq::<Seq<char>>::empty(),
    {
        self.urls = Vec::new();
        assert(self@ =~= Seq::<Seq<char>>::empty());
    }
}

/// A message as the duplicate check sees it.
#[derive(Debug)]
pub struct MessageSummary {
    /// The author, when known.
    pub author: Option<PublicKey>,
    /// When it was created, in seconds.
    pub created_at: u64,
    /// Its text.
    pub content: String,
}

/// The key of an author that may be unknown.
pub open spec fn author_view(a: Option<PublicKey>) -> Option<Seq<u8>> {
    match a {
        Some(k) => Some(k@),
        None => None,
    }
}

/// `m` is the same message as `new_msg` sent by `account` in the last ten
/// seconds before it.
pub open spec fn is_recent_copy(m: MessageSummary, new_msg: MessageSummary, account: Seq<u8>) -> bool {
    &&& author_view(m.author) == Some(account)
    &&& m.created_at >= (if new_msg.created_at >= 10 {
        new_msg.created_at - 10
    } else {
        0
    })
    &&& m.content@ == new_msg.content@
    &&& author_view(m.author) == author_view(new_msg.author)
}

/// A message that the user just sent is already shown: it is by the user,
/// and a message by the user with the same text was created at most ten
/// seconds before it.
pub open spec fn is_duplicate(
    account: Option<Seq<u8>>,
    new_msg: MessageSummary,
    existing: Seq<MessageSummary>,
) -> bool {
    match account {
        None => false,
        Some(acc) => match author_view(new_msg.author) {
            None => false,
            Some(a) => a == acc && exists|i: int|
                0 <= i < existing.len() && is_recent_copy(#[trigger] existing[i], new_msg, acc),
        },
    }
}

fn same_author(a: &Option<PublicKey>, b: &Option<PublicKey>) -> (r: bool)
    ensures
        r == (author_view(*a) == author_view(*b)),
{
    match (a, b) {
        (Some(x), Some(y)) => x.same(y),
        (None, None) => true,
        _ => false,
    }
}

/// Returns whether a newly received message is one that the user sent a
/// moment ago and that the panel already shows.
pub fn prevent_duplicate_message(
    account: Option<PublicKey>,
    new_msg: &MessageSummary,
    existing: &Vec<MessageSummary>,
) -> (r: bool)
    ensures
        r == is_duplicate(author_view(account), *new_msg, existing@),
{
    let acc = match account {
        None => {
            return false;
        },
        Some(a) => a,
    };
    let author = match new_msg.author {
        None => {
            return false;
        },
        Some(a) => a,
    };
    if !acc.same(&author) {
        return false;
    }
    let min_timestamp = new_msg.created_at.saturating_sub(10);
    let mut i: usize = 0;
    while i < existing.len()
        invariant
            i <= existing.len(),
            author_view(new_msg.author) == Some(acc@),
            author_view(account) == Some(acc@),
            min_timestamp == (if new_msg.created_at >= 10 {
                new_msg.created_at - 10
            } else {
                0
            }),
            forall|j: int| 0 <= j < i ==> !is_recent_copy(#[trigger] existing@[j], *new_msg, acc@),
        decreases existing.len() - i,
    {
        let m = &existing[i];
        let by_user = match m.author {
            Some(a) => a.same(&acc),
            None => false,
        };
        if by_user && m.created_at >= min_timestamp && m.content == new_msg.content && same_author(
            &m.author,
            &new_msg.author,
        ) {
            assert(is_recent_copy(existing@[i as int], *new_msg, acc@));
            assert(author_view(account) == Some(acc@));
            assert(exists|j: int|
                0 <= j < existing@.len() && is_recent_copy(#[trigger] existing@[j], *new_msg, acc@));
            return true;
        }
        i = i + 1;
    }
    false
}

/// Only the signed-in user's own messages make a new message a duplicate:
/// a message is hidden exactly when it is by the user and an earlier shown
/// message, also by the user, has the same text and was created at most ten
/// seconds before it (or after it).
pub proof fn law_duplicate_needs_own_recent_copy(
    account: Option<Seq<u8>>,
    new_msg: MessageSummary,
    existing: Seq<MessageSummary>,
)
    ensures
        is_duplicate(account, new_msg, existing) <==> (account is Some && author_view(new_msg.author)
            == account && exists|i: int|
            0 <= i < existing.len() && author_view((#[trigger] existing[i]).author) == account
                && existing[i].content@ == new_msg.content@ && existing[i].created_at + 10
                >= new_msg.created_at),
{
    if account is Some && author_view(new_msg.author) == account {
        let acc = account->Some_0;
        assert forall|i: int| 0 <= i < existing.len() implies (is_recent_copy(
            #[trigger] existing[i],
            new_msg,
            acc,
        ) <==> (author_view(existing[i].author) == account && existing[i].content@
            == new_msg.content@ && existing[i].created_at + 10 >= new_msg.created_at)) by {}
    }
}

/// A message by someone other than the user never decides whether the
/// user's new message is a duplicate: adding it to the shown messages
/// leaves the answer as it was.
pub proof fn law_others_messages_never_duplicate(
    account: Seq<u8>,
    new_msg: MessageSummary,
    existing: Seq<MessageSummary>,
    other: MessageSummary,
)
    requires
        author_view(other.author) != Some(account),
    ensures
        is_duplicate(Some(account), new_msg, existing.push(other)) == is_duplicate(
            Some(account),
            new_msg,
            existing,
        ),
        !is_duplicate(Some(account), new_msg, seq![other]),
{
    let t = existing.push(other);
    law_duplicate_needs_own_recent_copy(Some(account), new_msg, existing);
    law_duplicate_needs_own_recent_copy(Some(account), new_msg, t);
    law_duplicate_needs_own_recent_copy(Some(account), new_msg, seq![other]);
    if is_duplicate(Some(account), new_msg, t) {
        let i = choose|i: int|
            0 <= i < t.len() && author_view((#[trigger] t[i]).author) == Some(account)
                && t[i].content@ == new_msg.content@ && t[i].created_at + 10 >= new_msg.created_at;
        assert(i < existing.len());
        assert(existing[i] == t[i]);
    }
    if is_duplicate(Some(account), new_msg, existing) {
        let i = choose|i: int|
            0 <= i < existing.len() && author_view((#[trigger] existing[i]).author) == Some(account)
                && existing[i].content@ == new_msg.content@ && existing[i].created_at + 10
                >= new_msg.created_at;
        assert(t[i] == existing[i]);
    }
    if is_duplicate(Some(account), new_msg, seq![other]) {
        let i = choose|i: int|
            0 <= i < seq![other].len() && author_view((#[trigger] seq![other][i]).author) == Some(
                account,
            ) && seq![other][i].content@ == new_msg.content@ && seq![other][i].created_at + 10
                >= new_msg.created_at;
        assert(seq![other][i] == other);
    }
}

/// Returns the position of the first shown message with this id, if any
/// (`None` marks notices, which have no id).
pub fn message_position(ids: &Vec<Option<EventId>>, id: &EventId) -> (r: Option<usize>)
    ensures
        match r {
            Some(i) => i < ids@.len() && author_view(ids@[i as int]) == Some(id@) && forall|j: int|
                0 <= j < i ==> author_view(#[trigger] ids@[j]) != Some(id@),
            None => forall|j: int| 0 <= j < ids@.len() ==> author_view(#[trigger] ids@[j]) != Some(
                id@,
            ),
        },
{
    let mut i: usize = 0;
    while i < ids.len()
        invariant
            i <= ids.len(),
            forall|j: int| 0 <= j < i ==> author_view(#[trigger] ids@[j]) != Some(id@),
        decreases ids.len() - i,
    {
        match &ids[i] {
            Some(k) => {
                if k.same(id) {
                    return Some(i);
                }
            },
            None => {},
        }
        i = i + 1;
    }
    None
}

/// The members whose messaging relay list is empty, of a list of members
/// with the number of relays found for each.
pub open spec fn members_without_relays_spec(members: Seq<(PublicKey, usize)>) -> Seq<PublicKey>
    decreases members.len(),
{
    if members.len() == 0 {
        Seq::empty()
    } else {
        let rest = members_without_relays_spec(members.drop_last());
        if members.last().1 == 0 {
            rest.push(members.last().0)
        } else {
            rest
        }
    }
}

/// Returns the members who cannot receive messages because they have no
/// messaging relays; the chat warns about each of them.
pub fn members_without_relays(members: &Vec<(PublicKey, usize)>) -> (r: Vec<PublicKey>)
    ensures
        r@ == members_without_relays_spec(members@),
{
    let mut out: Vec<PublicKey> = Vec::new();
    let mut i: usize = 0;
    while i < members.len()
        invariant
            i <= members.len(),
            out@ == members_without_relays_spec(members@.subrange(0, i as int)),
        decreases members.len() - i,
    {
        proof {
            assert(members@.subrange(0, i + 1).drop_last() =~= members@.subrange(0, i as int));
        }
        if members[i].1 == 0 {
            out.push(members[i].0);
        }
        i = i + 1;
    }
    assert(members@.subrange(0, members@.len() as int) =~= members@);
    out
}

/// The delivery reports of sent messages: for each message id, the
/// reports of its last send.
pub open spec fn reports_map(s: Seq<(EventId, Vec<bool>)>) -> Map<Seq<u8>, Seq<bool>>
    decreases s.len(),
{
    if s.len() == 0 {
        Map::empty()
    } else {
        reports_map(s.drop_last()).insert(s.last().0@, s.last().1@)
    }
}

/// A chat's room kind and the delivery reports of the messages sent in it.
#[derive(Debug)]
pub struct ChatReports {
    kind: RoomKind,
    reports: Vec<(EventId, Vec<bool>)>,
}

impl ChatReports {
    /// The room's kind.
    pub closed spec fn kind_spec(self) -> RoomKind {
        self.kind
    }

    /// The delivery reports by message id.
    pub closed spec fn reports(self) -> Map<Seq<u8>, Seq<bool>> {
        reports_map(self.reports@)
    }

    /// A chat in a room of `kind`, with nothing sent.
    pub fn new(kind: RoomKind) -> (r: ChatReports)
        ensures
            r.kind_spec() == kind,
            r.reports() == Map::<Seq<u8>, Seq<bool>>::empty(),
    {
        ChatReports { kind, reports: Vec::new() }
    }

    /// Returns the room's kind.
    pub fn kind(&self) -> (r: RoomKind)
        ensures
            r == self.kind_spec(),
    {
        self.kind
    }

    /// A message was sent: its reports are kept under its id, and the room
    /// becomes ongoing unless every relay refused it.
    pub fn on_sent(&mut self, id: EventId, reports: Vec<bool>)
        ensures
            final(self).reports() == old(self).reports().insert(id@, reports@),
            final(self).kind_spec() == kind_after_send(old(self).kind_spec(), reports@),
    {
        let kind = room_kind_after_send(self.kind, &reports);
        let ghost before = self.reports@;
        self.reports.push((id, reports));
        proof {
            assert(self.reports@.drop_last() =~= before);
        }
        self.kind = kind;
    }

    fn find(&self, id: &EventId) -> (r: Option<usize>)
        ensures
            match r {
                Some(i) => i < self.reports@.len() && self.reports().contains_key(id@)
                    && self.reports()[id@] == self.reports@[i as int].1@,
                None => !self.reports().contains_key(id@),
            },
    {
        let ghost s = self.reports@;
        let mut i: usize = self.reports.len();
        assert(s.subrange(0, s.len() as int) =~= s);
        while i > 0
            invariant
                i <= s.len(),
                s == self.reports@,
                reports_map(s).contains_key(id@) == reports_map(s.subrange(0, i as int)).contains_key(
                    id@,
                ),
                reports_map(s).contains_key(id@) ==> reports_map(s)[id@] == reports_map(
                    s.subrange(0, i as int),
                )[id@],
            decreases i,
        {
            proof {
                assert(s.subrange(0, i as int).drop_last() =~= s.subrange(0, i - 1));
            }
            if self.reports[i - 1].0.same(id) {
                return Some(i - 1);
            }
            i = i - 1;
        }
        None
    }

    /// Returns whether the message failed to reach every relay (false when
    /// it has no reports).
    pub fn is_sent_failed(&self, id: &EventId) -> (r: bool)
        ensures
            r == (self.reports().contains_key(id@) && all_failed(self.reports()[id@])),
    {
        match self.find(id) {
            Some(i) => is_sent_failed(Some(&self.reports[i].1)),
            None => false,
        }
    }

    /// Returns whether the message reached every relay, if it has reports.
    pub fn is_sent_success(&self, id: &EventId) -> (r: Option<bool>)
        ensures
            self.reports().contains_key(id@) ==> r == Some(all_succeeded(self.reports()[id@])),
            !self.reports().contains_key(id@) ==> r is None,
    {
        match self.find(id) {
            Some(i) => is_sent_success(Some(&self.reports[i].1)),
            None => None,
        }
    }
}

} // verus!
