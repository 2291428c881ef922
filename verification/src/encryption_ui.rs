//! The encryption panel: asking another device for the encryption key, or
//! creating a new one, and what the panel shows meanwhile.
use vstd::prelude::*;

verus! {

/// What a finished key request returned.
#[derive(Debug, Clone)]
pub enum RequestOutcome {
    /// Another device had already answered: its key came back.
    KeyReceived,
    /// The request was sent; an answer is awaited.
    Sent,
    /// The request failed with this message.
    Failed(String),
}

/// What the panel does next.
#[derive(Debug, Clone, Copy, PartialEq, Eq)]
pub enum PanelStep {
    /// Use the key that came back as the encryption key.
    InstallKey,
    /// Wait (at most half a minute) for another device's answer.
    WaitForApproval,
    /// Nothing more: an error is shown, or nothing was started.
    Nothing,
}

/// The encryption panel: whether a key is being requested or created, and
/// the last error shown.
#[derive(Debug)]
pub struct EncryptionPanel {
    requesting: bool,
    creating: bool,
    error: Option<String>,
}

/// The error shown, as text.
pub open spec fn error_view(e: Option<String>) -> Option<Seq<char>> {
    match e {
        Some(m) => Some(m@),
        None => None,
    }
}

impl EncryptionPanel {
    /// Whether a key request is running.
    pub closed spec fn requesting_spec(self) -> bool {
        self.requesting
    }

    /// Whether a new key is being created.
    pub closed spec fn creating_spec(self) -> bool {
        self.creating
    }

    /// The error shown.
    pub closed spec fn error_spec(self) -> Option<Seq<char>> {
        error_view(self.error)
    }

    /// Nothing running, no error.
    pub fn new() -> (r: EncryptionPanel)
        ensures
            !r.requesting_spec(),
            !r.creating_spec(),
            r.error_spec() is None,
    {
        EncryptionPanel { requesting: false, creating: false, error: None }
    }

    /// Returns whether a key request is running.
    pub fn requesting(&self) -> (r: bool)
        ensures
            r == self.requesting_spec(),
    {
        self.requesting
    }

    /// Returns whether a new key is being created.
    pub fn creating(&self) -> (r: bool)
        ensures
            r == self.creating_spec(),
    {
        self.creating
    }

    /// Returns the error shown.
    pub fn error(&self) -> (r: Option<String>)
        ensures
            error_view(r) == self.error_spec(),
    {
        match &self.error {
            Some(m) => Some(m.clone()),
            None => None,
        }
    }

    /// The user asks another device for the key: returns whether the
    /// request is sent, which it is unless one is running already.
    pub fn request(&mut self) -> (r: bool)
        ensures
            r == !old(self).requesting_spec(),
            final(self).requesting_spec(),
            final(self).creating_spec() == old(self).creating_spec(),
            final(self).error_spec() == old(self).error_spec(),
    {
        if self.requesting {
            return false;
        }
        self.requesting = true;
        true
    }

    /// The user asks for a new key: returns whether it is created, which it
    /// is unless a key request is running.
    pub fn new_encryption(&mut self) -> (r: bool)
        ensures
            r == !old(self).requesting_spec(),
            r ==> final(self).creating_spec(),
            !r ==> final(self).creating_spec() == old(self).creating_spec(),
            final(self).requesting_spec() == old(self).requesting_spec(),
            final(self).error_spec() == old(self).error_spec(),
    {
        if self.requesting {
            return false;
        }
        self.creating = true;
        true
    }

    /// A key request finished.
    pub fn on_request_result(&mut self, outcome: RequestOutcome) -> (r: PanelStep)
        ensures
            final(self).creating_spec() == old(self).creating_spec(),
            match outcome {
                RequestOutcome::KeyReceived => r == PanelStep::InstallKey
                    && !final(self).requesting_spec() && final(self).error_spec() == old(
                    self,
                ).error_spec(),
                RequestOutcome::Sent => r == PanelStep::WaitForApproval
                    && final(self).requesting_spec() == old(self).requesting_spec()
                    && final(self).error_spec() == old(self).error_spec(),
                RequestOutcome::Failed(m) => r == PanelStep::Nothing
                    && !final(self).requesting_spec() && final(self).error_spec() == Some(m@),
            },
    {
        match outcome {
            RequestOutcome::KeyReceived => {
                self.requesting = false;
                PanelStep::InstallKey
            },
            RequestOutcome::Sent => PanelStep::WaitForApproval,
            RequestOutcome::Failed(m) => {
                self.requesting = false;
                self.error = Some(m);
                PanelStep::Nothing
            },
        }
    }

    /// Creating a new key finished: `Ok` installs it (and requests from
    /// other devices are listened for), an error is shown.
    pub fn on_create_result(&mut self, result: Result<(), String>) -> (r: PanelStep)
        ensures
            !final(self).creating_spec(),
            final(self).requesting_spec() == old(self).requesting_spec(),
            match result {
                Ok(_) => r == PanelStep::InstallKey && final(self).error_spec() == old(
                    self,
                ).error_spec(),
                Err(m) => r == PanelStep::Nothing && final(self).error_spec() == Some(m@),
            },
    {
        self.creating = false;
        match result {
            Ok(_) => PanelStep::InstallKey,
            Err(m) => {
                self.error = Some(m);
                PanelStep::Nothing
            },
        }
    }

    /// Waiting for another device's answer finished: `Ok` installs the key;
    /// an error (the wait timed out) is shown and the request stays marked
    /// as running.
    pub fn on_approval_result(&mut self, result: Result<(), String>) -> (r: PanelStep)
        ensures
            final(self).creating_spec() == old(self).creating_spec(),
            match result {
                Ok(_) => r == PanelStep::InstallKey && !final(self).requesting_spec()
                    && final(self).error_spec() == old(self).error_spec(),
                Err(m) => r == PanelStep::Nothing && final(self).requesting_spec() == old(
                    self,
                ).requesting_spec() && final(self).error_spec() == Some(m@),
            },
    {
        match result {
            Ok(_) => {
                self.requesting = false;
                PanelStep::InstallKey
            },
            Err(m) => {
                self.error = Some(m);
                PanelStep::Nothing
            },
        }
    }
}

/// What the panel shows.
#[derive(Debug, Clone, Copy, PartialEq, Eq)]
pub enum PanelView {
    /// The encryption key is set.
    KeySet,
    /// Another device announced a key: its client and public key are shown,
    /// with a button to reset the key (when no request runs; busy while a
    /// key is created) and a button to ask for it (when no key is created;
    /// it reads "Wait for approval" and is busy while a request runs).
    Announced { show_reset: bool, reset_busy: bool, show_request: bool, request_busy: bool },
    /// No key was announced: a button to set one up, busy while a key is
    /// created.
    Setup { busy: bool },
}

impl EncryptionPanel {
    /// Returns what the panel shows, given whether an encryption key is in
    /// use and whether the user's announcement is known.
    pub fn panel_view(&self, has_encryption: bool, has_announcement: bool) -> (r: PanelView)
        ensures
            has_encryption ==> r == PanelView::KeySet,
            !has_encryption && has_announcement ==> r == (PanelView::Announced {
                show_reset: !self.requesting_spec(),
                reset_busy: self.creating_spec(),
                show_request: !self.creating_spec(),
                request_busy: self.requesting_spec(),
            }),
            !has_encryption && !has_announcement ==> r == (PanelView::Setup {
                busy: self.creating_spec(),
            }),
    {
        if has_encryption {
            PanelView::KeySet
        } else if has_announcement {
            PanelView::Announced {
                show_reset: !self.requesting,
                reset_busy: self.creating,
                show_request: !self.creating,
                request_busy: self.requesting,
            }
        } else {
            PanelView::Setup { busy: self.creating }
        }
    }
}

} // verus!
