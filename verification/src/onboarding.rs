//! The first-run screen: the remote-signer apps it points the user to.
use vstd::prelude::*;

verus! {

/// A remote-signer app, with the address where it can be had.
#[derive(Debug, Clone)]
pub enum NostrConnectApp {
    Nsec(String),
    Amber(String),
    Aegis(String),
}

/// The address of an app.
pub open spec fn app_url(app: NostrConnectApp) -> Seq<char> {
    match app {
        NostrConnectApp::Nsec(url) => url@,
        NostrConnectApp::Amber(url) => url@,
        NostrConnectApp::Aegis(url) => url@,
    }
}

/// The label of an app.
pub open spec fn app_label(app: NostrConnectApp) -> Seq<char> {
    match app {
        NostrConnectApp::Nsec(_) => "nsec.app (Desktop)"@,
        NostrConnectApp::Amber(_) => "Amber (Android)"@,
        NostrConnectApp::Aegis(_) => "Aegis (iOS)"@,
    }
}

impl NostrConnectApp {
    /// The apps shown, in order: nsec.app, Amber, Aegis.
    pub fn all() -> (r: Vec<NostrConnectApp>)
        ensures
            r@.len() == 3,
            r@[0] is Nsec && app_url(r@[0]) == "https://nsec.app"@,
            r@[1] is Amber && app_url(r@[1]) == "https://github.com/greenart7c3/Amber"@,
            r@[2] is Aegis && app_url(r@[2]) == "https://github.com/ZharlieW/Aegis"@,
    {
        let mut v: Vec<NostrConnectApp> = Vec::new();
        v.push(NostrConnectApp::Nsec(String::from_str("https://nsec.app")));
        v.push(NostrConnectApp::Amber(String::from_str("https://github.com/greenart7c3/Amber")));
        v.push(NostrConnectApp::Aegis(String::from_str("https://github.com/ZharlieW/Aegis")));
        v
    }

    /// Returns the app's address.
    pub fn url(&self) -> (r: &str)
        ensures
            r@ == app_url(*self),
    {
        match self {
            NostrConnectApp::Nsec(url) => url.as_str(),
            NostrConnectApp::Amber(url) => url.as_str(),
            NostrConnectApp::Aegis(url) => url.as_str(),
        }
    }

    /// Returns the app's label.
    pub fn as_str(&self) -> (r: String)
        ensures
            r@ == app_label(*self),
    {
        match self {
            NostrConnectApp::Nsec(_) => String::from_str("nsec.app (Desktop)"),
            NostrConnectApp::Amber(_) => String::from_str("Amber (Android)"),
            NostrConnectApp::Aegis(_) => String::from_str("Aegis (iOS)"),
        }
    }
}

} // verus!
