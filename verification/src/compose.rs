//! Composing a new conversation: the contact list, its selection, and what
//! the typed member input and the submit button do.
use vstd::prelude::*;

use crate::ids::{Key32, PublicKey};
use crate::keys::{key_view, to_public_key, typed_public_key};
use crate::text::contains_char;

verus! {

/// A contact that can be added to the new conversation.
#[derive(Debug, Clone, Copy, PartialEq, Eq)]
pub struct Contact {
    pub public_key: PublicKey,
    pub selected: bool,
}

impl Contact {
    /// A contact that is not selected.
    pub fn new(public_key: PublicKey) -> (r: Contact)
        ensures
            r.public_key == public_key,
            !r.selected,
    {
        Contact { public_key, selected: false }
    }

    /// The same contact, selected.
    pub fn selected(self) -> (r: Contact)
        ensures
            r.public_key == self.public_key,
            r.selected,
    {
        Contact { public_key: self.public_key, selected: true }
    }
}

/// A contact as plain values: its key and whether it is selected.
pub open spec fn contact_view(c: Contact) -> (Seq<u8>, bool) {
    (c.public_key@, c.selected)
}

/// Some contact of `s` has the key `k`.
pub open spec fn has_contact(s: Seq<(Seq<u8>, bool)>, k: Seq<u8>) -> bool {
    exists|i: int| 0 <= i < s.len() && (#[trigger] s[i]).0 == k
}

/// No two contacts of `s` share a key.
pub open spec fn unique_contacts(s: Seq<(Seq<u8>, bool)>) -> bool {
    forall|i: int, j: int|
        0 <= i < s.len() && 0 <= j < s.len() && i != j ==> (#[trigger] s[i]).0 != (#[trigger] s[j]).0
}

/// The keys of the selected contacts, in order.
pub open spec fn selected_keys(s: Seq<(Seq<u8>, bool)>) -> Seq<Seq<u8>>
    decreases s.len(),
{
    if s.len() == 0 {
        Seq::empty()
    } else if s.last().1 {
        selected_keys(s.drop_last()).push(s.last().0)
    } else {
        selected_keys(s.drop_last())
    }
}

/// The index of the first contact with key `k`.
pub open spec fn first_contact(s: Seq<(Seq<u8>, bool)>, k: Seq<u8>) -> int {
    choose|i: int|
        0 <= i < s.len() && s[i].0 == k && forall|j: int| 0 <= j < i ==> (#[trigger] s[j]).0 != k
}

/// Why a contact could not be added.
#[derive(Debug, Clone, Copy, PartialEq, Eq)]
pub enum ComposeError {
    /// The contact is already in the list.
    AlreadyAdded,
}

impl ComposeError {
    /// The message shown.
    pub fn message(&self) -> (r: String)
        ensures
            r@ == "Contact already added"@,
    {
        String::from_str("Contact already added")
    }
}

/// The contacts of the compose dialog.
#[derive(Debug)]
pub struct ContactList {
    contacts: Vec<Contact>,
}

impl View for ContactList {
    type V = Seq<(Seq<u8>, bool)>;

    closed spec fn view(&self) -> Seq<(Seq<u8>, bool)> {
        self.contacts@.map_values(|c: Contact| contact_view(c))
    }
}

impl ContactList {
    /// An empty list.
    pub fn new() -> (r: ContactList)
        ensures
            r@ == Seq::<(Seq<u8>, bool)>::empty(),
    {
        let r = ContactList { contacts: Vec::new() };
        assert(r@ =~= Seq::<(Seq<u8>, bool)>::empty());
        r
    }

    /// Returns the contacts in order.
    pub fn contacts(&self) -> (r: &Vec<Contact>)
        ensures
            r@.map_values(|c: Contact| contact_view(c)) == self@,
    {
        &self.contacts
    }

    /// Appends contacts loaded from the database.
    pub fn extend_contacts(&mut self, more: Vec<Contact>)
        ensures
            final(self)@ == old(self)@ + more@.map_values(|c: Contact| contact_view(c)),
    {
        let mut i: usize = 0;
        let ghost start = self.contacts@;
        while i < more.len()
            invariant
                i <= more.len(),
                self.contacts@ == start + more@.subrange(0, i as int),
            decreases more.len() - i,
        {
            self.contacts.push(more[i]);
            assert(self.contacts@ =~= start + more@.subrange(0, i + 1));
            i = i + 1;
        }
        assert(more@.subrange(0, more.len() as int) =~= more@);
        assert(self@ =~= old(self)@ + more@.map_values(|c: Contact| contact_view(c)));
    }

    fn find(&self, public_key: &PublicKey) -> (r: Option<usize>)
        ensures
            match r {
                Some(i) => i < self@.len() && self@[i as int].0 == public_key@ && forall|j: int|
                    0 <= j < i ==> (#[trigger] self@[j]).0 != public_key@,
                None => !has_contact(self@, public_key@),
            },
    {
        let mut i: usize = 0;
        while i < self.contacts.len()
            invariant
                i <= self.contacts.len(),
                self@.len() == self.contacts.len(),
                forall|j: int| 0 <= j < i ==> (#[trigger] self@[j]).0 != public_key@,
            decreases self.contacts.len() - i,
        {
            assert(self@[i as int] == contact_view(self.contacts@[i as int]));
            if self.contacts[i].public_key.same(public_key) {
                return Some(i);
            }
            i = i + 1;
        }
        None
    }

    /// Adds a contact at the front, unless one with its key is listed.
    pub fn push_contact(&mut self, contact: Contact) -> (r: Result<(), ComposeError>)
        ensures
            has_contact(old(self)@, contact.public_key@) ==> r == Err::<(), ComposeError>(
                ComposeError::AlreadyAdded,
            ) && final(self)@ == old(self)@,
            !has_contact(old(self)@, contact.public_key@) ==> r is Ok && final(self)@ == seq![
                contact_view(contact),
            ] + old(self)@,
    {
        match self.find(&contact.public_key) {
            Some(_) => Err(ComposeError::AlreadyAdded),
            None => {
                let ghost before = self@;
                self.contacts.insert(0, contact);
                assert(self@ =~= seq![contact_view(contact)] + before);
                Ok(())
            },
        }
    }

    /// Selects the first contact with the key, if any.
    pub fn select_contact(&mut self, public_key: &PublicKey)
        ensures
            !has_contact(old(self)@, public_key@) ==> final(self)@ == old(self)@,
            has_contact(old(self)@, public_key@) ==> final(self)@ == old(self)@.update(
                first_contact(old(self)@, public_key@),
                (public_key@, true),
            ),
    {
        match self.find(public_key) {
            None => {},
            Some(i) => {
                let ghost before = self@;
                let c = self.contacts[i].selected();
                self.contacts.set(i, c);
                proof {
                    let f = first_contact(before, public_key@);
                    if f != i {
                        if f < i {
                            assert(before[f].0 != public_key@);
                        } else {
                            assert(before[i as int].0 != public_key@);
                        }
                    }
                    assert(self@ =~= before.update(i as int, (public_key@, true)));
                }
            },
        }
    }

    /// Returns the keys of the selected contacts, in order.
    pub fn selected(&self) -> (r: Vec<PublicKey>)
        ensures
            r@.map_values(|k: Key32| k@) == selected_keys(self@),
    {
        let mut out: Vec<PublicKey> = Vec::new();
        let mut i: usize = 0;
        let ghost s = self@;
        assert(s.subrange(0, 0) =~= Seq::<(Seq<u8>, bool)>::empty());
        assert(out@.map_values(|k: Key32| k@) =~= Seq::<Seq<u8>>::empty());
        while i < self.contacts.len()
            invariant
                s == self@,
                s.len() == self.contacts.len(),
                i <= self.contacts.len(),
                out@.map_values(|k: Key32| k@) == selected_keys(s.subrange(0, i as int)),
            decreases self.contacts.len() - i,
        {
            assert(s.subrange(0, i + 1).drop_last() =~= s.subrange(0, i as int));
            assert(s[i as int] == contact_view(self.contacts@[i as int]));
            if self.contacts[i].selected {
                out.push(self.contacts[i].public_key);
                assert(out@.map_values(|k: Key32| k@) =~= out@.drop_last().map_values(
                    |k: Key32| k@,
                ).push(self.contacts@[i as int].public_key@));
            }
            i = i + 1;
        }
        assert(s.subrange(0, s.len() as int) =~= s);
        out
    }
}

/// Adding a contact keeps the keys of the list distinct.
pub proof fn law_push_keeps_contacts_unique(s: Seq<(Seq<u8>, bool)>, c: (Seq<u8>, bool))
    requires
        unique_contacts(s),
        !has_contact(s, c.0),
    ensures
        unique_contacts(seq![c] + s),
{
    let t = seq![c] + s;
    assert forall|i: int, j: int|
        0 <= i < t.len() && 0 <= j < t.len() && i != j implies (#[trigger] t[i]).0 != (
        #[trigger] t[j]).0 by {
        if i == 0 {
            assert(t[j] == s[j - 1]);
        } else if j == 0 {
            assert(t[i] == s[i - 1]);
        } else {
            assert(t[i] == s[i - 1] && t[j] == s[j - 1]);
        }
    }
}

/// What the typed member input does.
#[derive(Debug, Clone, Copy, PartialEq, Eq)]
pub enum MemberInput {
    /// The input names a public key: that contact is added, selected.
    Add(Contact),
    /// The input looks like a NIP-05 address: it is looked up first.
    LookupAddress,
    /// The input is neither: nothing is added.
    Nothing,
}

/// Reads the member input of the compose dialog.
pub fn member_input(content: &str) -> (r: MemberInput)
    ensures
        typed_public_key(content@) is Some ==> (r matches MemberInput::Add(c)
            && typed_public_key(content@) == Some(c.public_key@) && c.selected),
        typed_public_key(content@) is None && content@.contains('@') ==> r
            == MemberInput::LookupAddress,
        typed_public_key(content@) is None && !content@.contains('@') ==> r
            == MemberInput::Nothing,
{
    match to_public_key(content) {
        Some(pk) => MemberInput::Add(Contact::new(pk).selected()),
        None => {
            if contains_char(content, '@') {
                MemberInput::LookupAddress
            } else {
                MemberInput::Nothing
            }
        },
    }
}

/// What the submit button does.
#[derive(Debug)]
pub enum SubmitAction {
    /// The member input still holds text: it is added first.
    AddTypedMember,
    /// A room is created with the subject (when one was typed) and the
    /// selected contacts.
    CreateRoom { subject: Option<String>, receivers: Vec<PublicKey> },
}

/// Handles the submit button of the compose dialog.
pub fn submit(list: &ContactList, title: &str, member_input: &str) -> (r: SubmitAction)
    ensures
        member_input@.len() > 0 ==> r is AddTypedMember,
        member_input@.len() == 0 ==> match r {
            SubmitAction::CreateRoom { subject, receivers } => receivers@.map_values(
                |k: Key32| k@,
            ) == selected_keys(list@) && (title@.len() == 0 ==> subject is None) && (title@.len()
                > 0 ==> subject is Some && subject->Some_0@ == title@),
            _ => false,
        },
{
    if member_input.unicode_len() > 0 {
        return SubmitAction::AddTypedMember;
    }
    let receivers = list.selected();
    let subject = if title.unicode_len() == 0 {
        None
    } else {
        Some(String::from_str(title))
    };
    SubmitAction::CreateRoom { subject, receivers }
}

} // verus!
