//! The main window's decisions: which layout to show at start, when the
//! chat layout replaces it, which open panels are chat rooms, and what the
//! title bar holds.
use vstd::prelude::*;

use crate::text::{parse_u64, parse_u64_spec, same_text, string_views};

verus! {

/// The room ids among the ids of the open panels: those that read as a
/// decimal `u64`, in order.
pub open spec fn room_ids_of(panels: Seq<Seq<char>>) -> Seq<u64>
    decreases panels.len(),
{
    if panels.len() == 0 {
        Seq::empty()
    } else {
        let rest = room_ids_of(panels.drop_last());
        match parse_u64_spec(panels.last()) {
            Some(n) => rest.push(n),
            None => rest,
        }
    }
}

/// Returns the room ids among the ids of the open panels.
pub fn panel_room_ids(panels: &Vec<String>) -> (r: Vec<u64>)
    ensures
        r@ == room_ids_of(string_views(panels@)),
{
    let mut ids: Vec<u64> = Vec::new();
    let mut i: usize = 0;
    while i < panels.len()
        invariant
            i <= panels.len(),
            ids@ == room_ids_of(string_views(panels@.subrange(0, i as int))),
        decreases panels.len() - i,
    {
        proof {
            assert(string_views(panels@.subrange(0, i + 1)).drop_last() =~= string_views(
                panels@.subrange(0, i as int),
            ));
        }
        match parse_u64(panels[i].as_str()) {
            Some(n) => ids.push(n),
            None => {},
        }
        i = i + 1;
    }
    assert(panels@.subrange(0, panels@.len() as int) =~= panels@);
    ids
}

/// What the window shows before the user's account is loaded.
#[derive(Debug)]
pub enum StartLayout {
    /// The first-run screen: no user was stored.
    Onboarding,
    /// The screen that signs the stored user in again.
    Startup { username: String, secret: Vec<u8> },
}

/// The start layout for what the credential store holds for the user
/// (`None` where nothing was stored or reading failed).
pub fn start_layout(stored_user: Option<(String, Vec<u8>)>) -> (r: StartLayout)
    ensures
        stored_user is None ==> r is Onboarding,
        stored_user matches Some(c) ==> r matches StartLayout::Startup { username, secret }
            && username@ == c.0@ && secret@ == c.1@,
{
    match stored_user {
        Some((username, secret)) => StartLayout::Startup { username, secret },
        None => StartLayout::Onboarding,
    }
}

/// Whether the chat layout has replaced the start layout.
#[derive(Debug)]
pub struct ChatSpace {
    ready: bool,
}

impl ChatSpace {
    /// Whether the chat layout is in place.
    pub closed spec fn ready_spec(self) -> bool {
        self.ready
    }

    /// The start layout is shown.
    pub fn new() -> (r: ChatSpace)
        ensures
            !r.ready_spec(),
    {
        ChatSpace { ready: false }
    }

    /// Returns whether the chat layout is in place.
    pub fn ready(&self) -> (r: bool)
        ensures
            r == self.ready_spec(),
    {
        self.ready
    }

    /// The account changed: returns whether to put the chat layout in place
    /// and load the rooms, which happens once, on the first change that
    /// brings an account.
    pub fn on_account_changed(&mut self, has_account: bool) -> (r: bool)
        ensures
            r == (!old(self).ready_spec() && has_account),
            final(self).ready_spec() == (old(self).ready_spec() || has_account),
    {
        if !self.ready && has_account {
            self.ready = true;
            true
        } else {
            false
        }
    }
}

/// What the title bar holds.
#[derive(Clone, Copy, Debug, PartialEq, Eq, Structural)]
pub enum TitleBarParts {
    /// Nothing: the onboarding screen fills the window.
    Empty,
    /// The open screen's title, with a button back to onboarding.
    TitleWithBack,
    /// The account menu on the left, the status buttons on the right.
    LeftAndRight,
}

/// The id of the onboarding panel.
pub open spec fn onboarding_panel_id() -> Seq<char> {
    "Onboarding"@
}

/// Decides what the title bar holds, from whether the dock has no panels
/// (a single screen fills the window) and the id of the panel shown.
pub fn title_bar_parts(no_panels: bool, shown_panel_id: &str) -> (r: TitleBarParts)
    ensures
        !no_panels ==> r == TitleBarParts::LeftAndRight,
        no_panels && shown_panel_id@ == onboarding_panel_id() ==> r == TitleBarParts::Empty,
        no_panels && shown_panel_id@ != onboarding_panel_id() ==> r
            == TitleBarParts::TitleWithBack,
{
    if !no_panels {
        TitleBarParts::LeftAndRight
    } else if same_text(shown_panel_id, "Onboarding") {
        TitleBarParts::Empty
    } else {
        TitleBarParts::TitleWithBack
    }
}

} // verus!
