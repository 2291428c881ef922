//! Storage of the user's keys and credentials, and the choice of where they
//! are kept: the system keyring, or a file when the keyring is disabled or
//! cannot be reached.
use vstd::prelude::*;

pub mod backend;
pub mod item;

verus! {

/// Where credentials are kept.
#[derive(Clone, Copy, Debug, PartialEq, Eq, Structural)]
pub enum BackendKind {
    /// The system keyring.
    Keyring,
    /// The credentials file in Coop's configuration directory.
    File,
}

/// The name a backend reports.
pub open spec fn backend_name(kind: BackendKind) -> Seq<char> {
    match kind {
        BackendKind::Keyring => "keyring"@,
        BackendKind::File => "file"@,
    }
}

impl BackendKind {
    /// Returns the backend's name: `keyring` or `file`.
    pub fn name(&self) -> (r: &'static str)
        ensures
            r@ == backend_name(*self),
    {
        match self {
            BackendKind::Keyring => {
                proof {
                    reveal_strlit("keyring");
                }
                "keyring"
            },
            BackendKind::File => {
                proof {
                    reveal_strlit("file");
                }
                "file"
            },
        }
    }
}

/// The `DISABLE_KEYRING` setting turns the keyring off when it is set to a
/// non-empty value.
pub open spec fn keyring_disabled(setting: Option<Seq<char>>) -> bool {
    setting matches Some(v) && v.len() > 0
}

/// The backend chosen at start: the file in a development build or when the
/// keyring is disabled, else the keyring.
pub open spec fn initial_backend(development: bool, setting: Option<Seq<char>>) -> BackendKind {
    if development || keyring_disabled(setting) {
        BackendKind::File
    } else {
        BackendKind::Keyring
    }
}

/// The choice of credential storage, and whether it has been checked.
#[derive(Debug)]
pub struct KeyStore {
    backend: BackendKind,
    initialized: bool,
}

impl KeyStore {
    /// The backend in use.
    pub closed spec fn backend_spec(self) -> BackendKind {
        self.backend
    }

    /// Whether the keyring check has finished.
    pub closed spec fn initialized_spec(self) -> bool {
        self.initialized
    }

    /// Chooses the backend for a development build or not, and the value of
    /// the `DISABLE_KEYRING` setting (`None` when it is not set).
    pub fn new(development: bool, disable_keyring: Option<&str>) -> (r: KeyStore)
        ensures
            r.backend_spec() == initial_backend(
                development,
                match disable_keyring {
                    Some(v) => Some(v@),
                    None => None,
                },
            ),
            !r.initialized_spec(),
    {
        let disabled = match disable_keyring {
            Some(v) => v.unicode_len() > 0,
            None => false,
        };
        let backend = if development || disabled {
            BackendKind::File
        } else {
            BackendKind::Keyring
        };
        KeyStore { backend, initialized: false }
    }

    /// Records the outcome of a trial read from the keyring: when it failed
    /// (no secret service on the system), credentials go to the file.
    pub fn on_keyring_checked(&mut self, keyring_works: bool)
        ensures
            final(self).initialized_spec(),
            final(self).backend_spec() == (if keyring_works {
                old(self).backend_spec()
            } else {
                BackendKind::File
            }),
    {
        if !keyring_works {
            self.backend = BackendKind::File;
        }
        self.initialized = true;
    }

    /// Returns the backend in use.
    pub fn backend(&self) -> (r: BackendKind)
        ensures
            r == self.backend_spec(),
    {
        self.backend
    }

    /// Returns whether the keyring check has finished.
    pub fn initialized(&self) -> (r: bool)
        ensures
            r == self.initialized_spec(),
    {
        self.initialized
    }

    /// Returns whether credentials go to the file.
    pub fn is_using_file_keystore(&self) -> (r: bool)
        ensures
            r == (backend_name(self.backend_spec()) == "file"@),
    {
        proof {
            reveal_strlit("file");
            reveal_strlit("keyring");
            assert("keyring"@[0] != "file"@[0]);
        }
        crate::text::same_text(self.backend.name(), "file")
    }
}

} // verus!
