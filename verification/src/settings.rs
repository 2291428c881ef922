//! The application's settings that the preferences screen edits: the
//! media server that uploads go to.
use vstd::prelude::*;

use crate::profile::{parse_url, url_parses, url_text};

verus! {

/// The media server used until the user picks one (a NIP-96 server).
pub open spec fn default_media_server() -> Seq<char> {
    "https://nostrmedia.com"@
}

/// Reads the media server the user typed: its url when the text parses as
/// one, else nothing, and the setting is left as it was.
pub fn media_server_update(text: &str) -> (r: Option<String>)
    ensures
        r is Some <==> url_parses(text@),
        r is Some ==> r->Some_0@ == url_text(text@),
{
    parse_url(text)
}

/// The settings.
#[derive(Clone, Debug)]
pub struct Settings {
    media_server: Option<String>,
}

impl Settings {
    /// The media server the user picked, if any.
    pub closed spec fn media_server_spec(self) -> Option<Seq<char>> {
        match self.media_server {
            Some(s) => Some(s@),
            None => None,
        }
    }

    /// Settings as they start: no media server picked.
    pub fn new() -> (r: Settings)
        ensures
            r.media_server_spec() is None,
    {
        Settings { media_server: None }
    }

    /// The user submitted a media server: it is stored when the text is a
    /// url; returns whether it was.
    pub fn update_media_server(&mut self, text: &str) -> (r: bool)
        ensures
            r == url_parses(text@),
            r ==> final(self).media_server_spec() == Some(url_text(text@)),
            !r ==> final(self).media_server_spec() == old(self).media_server_spec(),
    {
        match media_server_update(text) {
            Some(url) => {
                self.media_server = Some(url);
                true
            },
            None => false,
        }
    }

    /// Returns the media server uploads go to: the one picked, else the
    /// default one.
    pub fn media_server(&self) -> (r: String)
        ensures
            r@ == match self.media_server_spec() {
                Some(s) => s,
                None => default_media_server(),
            },
    {
        match &self.media_server {
            Some(s) => s.clone(),
            None => String::from_str("https://nostrmedia.com"),
        }
    }
}

} // verus!
