//! Where Coop keeps its files: the configuration directory, the support
//! directory and the nostr database file, chosen by platform.
//!
//! The directories that the operating system reports (home, configuration,
//! local data) and the Flatpak overrides are looked up by the caller; this
//! module decides which of them is used and what is appended to it.
use vstd::prelude::*;

verus! {

/// The platform that the application was built for.
#[derive(Clone, Copy, Debug, PartialEq, Eq)]
pub enum TargetOs {
    Windows,
    Linux,
    FreeBsd,
    MacOs,
    Other,
}

/// A directory that the operating system or the environment provides.
#[derive(Clone, Copy, Debug, PartialEq, Eq)]
pub enum BaseDir {
    /// The user's home directory.
    Home,
    /// The platform's configuration directory (`RoamingAppData`,
    /// `XDG_CONFIG_HOME`).
    Config,
    /// The platform's local data directory (`LocalAppData`,
    /// `XDG_DATA_HOME`).
    DataLocal,
    /// The value of `FLATPAK_XDG_CONFIG_HOME`.
    FlatpakConfig,
    /// The value of `FLATPAK_XDG_DATA_HOME`.
    FlatpakData,
}

/// Which of the base directories could be determined on this system.
#[derive(Clone, Copy, Debug)]
pub struct SystemDirs {
    pub os: TargetOs,
    pub has_home: bool,
    pub has_config: bool,
    pub has_data_local: bool,
    pub has_flatpak_config: bool,
    pub has_flatpak_data: bool,
}

/// A path: a base directory followed by the segments joined onto it.
#[derive(Clone, Debug)]
pub struct DirPath {
    pub base: BaseDir,
    pub segments: Vec<String>,
}

/// A directory that was needed and could not be determined.
#[derive(Clone, Copy, Debug, PartialEq, Eq)]
pub enum DirError {
    HomeDir,
    RoamingAppData,
    XdgConfigHome,
    XdgDataHome,
    LocalAppData,
}

impl View for DirPath {
    type V = (BaseDir, Seq<Seq<char>>);

    open spec fn view(&self) -> (BaseDir, Seq<Seq<char>>) {
        (self.base, self.segments@.map_values(|s: String| s@))
    }
}

/// The home directory.
pub open spec fn home_dir_spec(env: SystemDirs) -> Result<(BaseDir, Seq<Seq<char>>), DirError> {
    if env.has_home {
        Ok((BaseDir::Home, Seq::<Seq<char>>::empty()))
    } else {
        Err(DirError::HomeDir)
    }
}

/// Appends segments to a path, passing an error through.
pub open spec fn joined(
    p: Result<(BaseDir, Seq<Seq<char>>), DirError>,
    more: Seq<Seq<char>>,
) -> Result<(BaseDir, Seq<Seq<char>>), DirError> {
    match p {
        Ok((b, s)) => Ok((b, s + more)),
        Err(e) => Err(e),
    }
}

/// The configuration directory: `<RoamingAppData>/Coop` on Windows,
/// `<Flatpak or XDG config>/coop` on Linux and FreeBSD, and
/// `<home>/.config/coop` elsewhere.
pub open spec fn config_dir_spec(env: SystemDirs) -> Result<(BaseDir, Seq<Seq<char>>), DirError> {
    match env.os {
        TargetOs::Windows => if env.has_config {
            Ok((BaseDir::Config, seq!["Coop"@]))
        } else {
            Err(DirError::RoamingAppData)
        },
        TargetOs::Linux | TargetOs::FreeBsd => if env.has_flatpak_config {
            Ok((BaseDir::FlatpakConfig, seq!["coop"@]))
        } else if env.has_config {
            Ok((BaseDir::Config, seq!["coop"@]))
        } else {
            Err(DirError::XdgConfigHome)
        },
        _ => joined(home_dir_spec(env), seq![".config"@, "coop"@]),
    }
}

/// The support directory: `<home>/Library/Application Support/Coop` on
/// macOS, `<Flatpak or XDG data>/coop` on Linux and FreeBSD,
/// `<LocalAppData>/coop` on Windows, and the configuration directory
/// elsewhere.
pub open spec fn support_dir_spec(env: SystemDirs) -> Result<(BaseDir, Seq<Seq<char>>), DirError> {
    match env.os {
        TargetOs::MacOs => joined(home_dir_spec(env), seq!["Library/Application Support/Coop"@]),
        TargetOs::Linux | TargetOs::FreeBsd => if env.has_flatpak_data {
            Ok((BaseDir::FlatpakData, seq!["coop"@]))
        } else if env.has_data_local {
            Ok((BaseDir::DataLocal, seq!["coop"@]))
        } else {
            Err(DirError::XdgDataHome)
        },
        TargetOs::Windows => if env.has_data_local {
            Ok((BaseDir::DataLocal, seq!["coop"@]))
        } else {
            Err(DirError::LocalAppData)
        },
        TargetOs::Other => config_dir_spec(env),
    }
}

/// The nostr database file: `nostr` in the support directory.
pub open spec fn nostr_file_spec(env: SystemDirs) -> Result<(BaseDir, Seq<Seq<char>>), DirError> {
    joined(support_dir_spec(env), seq!["nostr"@])
}

impl DirPath {
    /// A copy of the path.
    pub fn copy(&self) -> (r: DirPath)
        ensures
            r@ == self@,
    {
        let mut segments: Vec<String> = Vec::new();
        let mut i: usize = 0;
        while i < self.segments.len()
            invariant
                i <= self.segments.len(),
                segments@.map_values(|s: String| s@) == self.segments@.subrange(0, i as int).map_values(
                    |s: String| s@,
                ),
            decreases self.segments.len() - i,
        {
            let ghost before = segments@;
            segments.push(self.segments[i].clone());
            proof {
                assert(segments@.map_values(|s: String| s@) =~= before.map_values(|s: String| s@).push(
                    self.segments@[i as int]@,
                ));
                assert(self.segments@.subrange(0, i + 1).map_values(|s: String| s@)
                    =~= self.segments@.subrange(0, i as int).map_values(|s: String| s@).push(
                    self.segments@[i as int]@,
                ));
            }
            i = i + 1;
        }
        assert(self.segments@.subrange(0, self.segments@.len() as int) =~= self.segments@);
        DirPath { base: self.base, segments }
    }

    /// A path made of a base directory and one segment.
    pub fn with_segment(base: BaseDir, segment: &str) -> (r: DirPath)
        ensures
            r@ == (base, seq![segment@]),
    {
        let mut segments: Vec<String> = Vec::new();
        segments.push(String::from_str(segment));
        let r = DirPath { base, segments };
        assert(r@.1 =~= seq![segment@]);
        r
    }

    /// Appends one segment (`PathBuf::join` of a relative segment).
    pub fn join(self, segment: &str) -> (r: DirPath)
        ensures
            r@ == (self@.0, self@.1.push(segment@)),
    {
        let mut segments = self.segments;
        let ghost before = segments@;
        segments.push(String::from_str(segment));
        let r = DirPath { base: self.base, segments };
        assert(r@.1 =~= self@.1.push(segment@));
        r
    }
}

impl DirError {
    /// The message that Coop reports when the directory is missing.
    pub fn message(&self) -> (r: String)
        ensures
            r@ == match self {
                DirError::HomeDir => "failed to determine home directory"@,
                DirError::RoamingAppData => "failed to determine RoamingAppData directory"@,
                DirError::XdgConfigHome => "failed to determine XDG_CONFIG_HOME directory"@,
                DirError::XdgDataHome => "failed to determine XDG_DATA_HOME directory"@,
                DirError::LocalAppData => "failed to determine LocalAppData directory"@,
            },
    {
        match self {
            DirError::HomeDir => String::from_str("failed to determine home directory"),
            DirError::RoamingAppData => String::from_str(
                "failed to determine RoamingAppData directory",
            ),
            DirError::XdgConfigHome => String::from_str(
                "failed to determine XDG_CONFIG_HOME directory",
            ),
            DirError::XdgDataHome => String::from_str("failed to determine XDG_DATA_HOME directory"),
            DirError::LocalAppData => String::from_str("failed to determine LocalAppData directory"),
        }
    }
}

/// Returns the user's home directory.
pub fn home_dir(env: &SystemDirs) -> (r: DirPath)
    requires
        home_dir_spec(*env) is Ok,
    ensures
        r@ == home_dir_spec(*env)->Ok_0,
{
    let r = DirPath { base: BaseDir::Home, segments: Vec::new() };
    assert(r@.1 =~= Seq::<Seq<char>>::empty());
    r
}

/// Returns the configuration directory used by Coop.
pub fn config_dir(env: &SystemDirs) -> (r: DirPath)
    requires
        config_dir_spec(*env) is Ok,
    ensures
        r@ == config_dir_spec(*env)->Ok_0,
{
    match env.os {
        TargetOs::Windows => DirPath::with_segment(BaseDir::Config, "Coop"),
        TargetOs::Linux | TargetOs::FreeBsd => {
            if env.has_flatpak_config {
                DirPath::with_segment(BaseDir::FlatpakConfig, "coop")
            } else {
                DirPath::with_segment(BaseDir::Config, "coop")
            }
        },
        _ => {
            let r = home_dir(env).join(".config").join("coop");
            assert(r@.1 =~= seq![".config"@, "coop"@]);
            r
        },
    }
}

/// Returns the support directory used by Coop.
pub fn support_dir(env: &SystemDirs) -> (r: DirPath)
    requires
        support_dir_spec(*env) is Ok,
    ensures
        r@ == support_dir_spec(*env)->Ok_0,
{
    match env.os {
        TargetOs::MacOs => {
            let r = home_dir(env).join("Library/Application Support/Coop");
            assert(r@.1 =~= seq!["Library/Application Support/Coop"@]);
            r
        },
        TargetOs::Linux | TargetOs::FreeBsd => {
            if env.has_flatpak_data {
                DirPath::with_segment(BaseDir::FlatpakData, "coop")
            } else {
                DirPath::with_segment(BaseDir::DataLocal, "coop")
            }
        },
        TargetOs::Windows => DirPath::with_segment(BaseDir::DataLocal, "coop"),
        TargetOs::Other => config_dir(env),
    }
}

/// Returns the path to the `nostr` database file.
pub fn nostr_file(env: &SystemDirs) -> (r: DirPath)
    requires
        nostr_file_spec(*env) is Ok,
    ensures
        r@ == nostr_file_spec(*env)->Ok_0,
{
    let dir = support_dir(env);
    let r = dir.join("nostr");
    assert(r@.1 =~= dir@.1 + seq!["nostr"@]);
    r
}

/// The directory that is missing for a computed path, if any.
pub open spec fn missing_of(p: Result<(BaseDir, Seq<Seq<char>>), DirError>) -> Option<DirError> {
    match p {
        Ok(_) => None,
        Err(e) => Some(e),
    }
}

/// Tells which directory Coop needs for its home directory and cannot
/// determine, if any; Coop stops with its message.
pub fn missing_home_dir(env: &SystemDirs) -> (r: Option<DirError>)
    ensures
        r == missing_of(home_dir_spec(*env)),
{
    if env.has_home {
        None
    } else {
        Some(DirError::HomeDir)
    }
}

/// Tells which directory Coop needs for its configuration directory and
/// cannot determine, if any.
pub fn missing_config_dir(env: &SystemDirs) -> (r: Option<DirError>)
    ensures
        r == missing_of(config_dir_spec(*env)),
{
    match env.os {
        TargetOs::Windows => if env.has_config {
            None
        } else {
            Some(DirError::RoamingAppData)
        },
        TargetOs::Linux | TargetOs::FreeBsd => if env.has_flatpak_config || env.has_config {
            None
        } else {
            Some(DirError::XdgConfigHome)
        },
        _ => missing_home_dir(env),
    }
}

/// Tells which directory Coop needs for its support directory (and so for
/// the nostr file) and cannot determine, if any.
pub fn missing_support_dir(env: &SystemDirs) -> (r: Option<DirError>)
    ensures
        r == missing_of(support_dir_spec(*env)),
        r == missing_of(nostr_file_spec(*env)),
{
    match env.os {
        TargetOs::MacOs => missing_home_dir(env),
        TargetOs::Linux | TargetOs::FreeBsd => if env.has_flatpak_data || env.has_data_local {
            None
        } else {
            Some(DirError::XdgDataHome)
        },
        TargetOs::Windows => if env.has_data_local {
            None
        } else {
            Some(DirError::LocalAppData)
        },
        TargetOs::Other => missing_config_dir(env),
    }
}

/// Under Flatpak on Linux and FreeBSD the Flatpak directories win: when
/// `FLATPAK_XDG_DATA_HOME` is set the support directory is `coop` in it and
/// the nostr file is `coop/nostr` there, whether or not the local data
/// directory exists; likewise `FLATPAK_XDG_CONFIG_HOME` for the
/// configuration directory. Without the override the XDG directory is
/// used, and without either the directory is missing.
pub proof fn law_flatpak_overrides_win(env: SystemDirs)
    requires
        env.os == TargetOs::Linux || env.os == TargetOs::FreeBsd,
    ensures
        env.has_flatpak_data ==> support_dir_spec(env) == Ok::<(BaseDir, Seq<Seq<char>>), DirError>(
            (BaseDir::FlatpakData, seq!["coop"@]),
        ),
        env.has_flatpak_data ==> nostr_file_spec(env) == Ok::<(BaseDir, Seq<Seq<char>>), DirError>(
            (BaseDir::FlatpakData, seq!["coop"@, "nostr"@]),
        ),
        !env.has_flatpak_data && env.has_data_local ==> support_dir_spec(env) == Ok::<
            (BaseDir, Seq<Seq<char>>),
            DirError,
        >((BaseDir::DataLocal, seq!["coop"@])),
        !env.has_flatpak_data && !env.has_data_local ==> support_dir_spec(env) == Err::<
            (BaseDir, Seq<Seq<char>>),
            DirError,
        >(DirError::XdgDataHome),
        env.has_flatpak_config ==> config_dir_spec(env) == Ok::<(BaseDir, Seq<Seq<char>>), DirError>(
            (BaseDir::FlatpakConfig, seq!["coop"@]),
        ),
        !env.has_flatpak_config && env.has_config ==> config_dir_spec(env) == Ok::<
            (BaseDir, Seq<Seq<char>>),
            DirError,
        >((BaseDir::Config, seq!["coop"@])),
{
    if env.has_flatpak_data {
        assert(seq!["coop"@] + seq!["nostr"@] =~= seq!["coop"@, "nostr"@]);
    }
}

/// The same environment on another platform.
pub open spec fn with_os(env: SystemDirs, os: TargetOs) -> SystemDirs {
    SystemDirs { os, ..env }
}

/// Linux and FreeBSD place every file the same way for the same
/// environment.
pub proof fn law_linux_and_freebsd_agree(env: SystemDirs)
    ensures
        support_dir_spec(with_os(env, TargetOs::Linux)) == support_dir_spec(
            with_os(env, TargetOs::FreeBsd),
        ),
        config_dir_spec(with_os(env, TargetOs::Linux)) == config_dir_spec(
            with_os(env, TargetOs::FreeBsd),
        ),
        nostr_file_spec(with_os(env, TargetOs::Linux)) == nostr_file_spec(
            with_os(env, TargetOs::FreeBsd),
        ),
{
}

/// The nostr database file is always the support directory with `nostr`
/// appended, and it is missing exactly when the support directory is.
pub proof fn law_nostr_file_in_support_dir(env: SystemDirs)
    ensures
        nostr_file_spec(env) is Ok <==> support_dir_spec(env) is Ok,
        nostr_file_spec(env) is Ok ==> nostr_file_spec(env)->Ok_0.0 == support_dir_spec(
            env,
        )->Ok_0.0 && nostr_file_spec(env)->Ok_0.1 == support_dir_spec(env)->Ok_0.1.push(
            "nostr"@,
        ),
{
    let s = support_dir_spec(env);
    if let Ok((b, segs)) = s {
        assert(segs + seq!["nostr"@] =~= segs.push("nostr"@));
    }
}

/// The view of a cached path.
pub open spec fn cached_view(p: Option<DirPath>) -> Option<(BaseDir, Seq<Seq<char>>)> {
    match p {
        Some(p) => Some(p@),
        None => None,
    }
}

/// Coop's directories, each computed on its first use and then kept for the
/// rest of the process, whatever the environment says later.
#[derive(Debug)]
pub struct PathCache {
    home: Option<DirPath>,
    config: Option<DirPath>,
    support: Option<DirPath>,
    nostr: Option<DirPath>,
}

impl PathCache {
    /// The home directory, once computed.
    pub closed spec fn home_cached(self) -> Option<(BaseDir, Seq<Seq<char>>)> {
        cached_view(self.home)
    }

    /// The configuration directory, once computed.
    pub closed spec fn config_cached(self) -> Option<(BaseDir, Seq<Seq<char>>)> {
        cached_view(self.config)
    }

    /// The support directory, once computed.
    pub closed spec fn support_cached(self) -> Option<(BaseDir, Seq<Seq<char>>)> {
        cached_view(self.support)
    }

    /// The nostr file, once computed.
    pub closed spec fn nostr_cached(self) -> Option<(BaseDir, Seq<Seq<char>>)> {
        cached_view(self.nostr)
    }

    /// The home directory a call gives: the kept one, else the computed one.
    pub open spec fn home_value(self, env: SystemDirs) -> Result<(BaseDir, Seq<Seq<char>>), DirError> {
        match self.home_cached() {
            Some(p) => Ok(p),
            None => home_dir_spec(env),
        }
    }

    /// The configuration directory a call gives.
    pub open spec fn config_value(self, env: SystemDirs) -> Result<(BaseDir, Seq<Seq<char>>), DirError> {
        match self.config_cached() {
            Some(p) => Ok(p),
            None => match env.os {
                TargetOs::Windows | TargetOs::Linux | TargetOs::FreeBsd => config_dir_spec(env),
                _ => joined(self.home_value(env), seq![".config"@, "coop"@]),
            },
        }
    }

    /// The support directory a call gives.
    pub open spec fn support_value(self, env: SystemDirs) -> Result<(BaseDir, Seq<Seq<char>>), DirError> {
        match self.support_cached() {
            Some(p) => Ok(p),
            None => match env.os {
                TargetOs::MacOs => joined(
                    self.home_value(env),
                    seq!["Library/Application Support/Coop"@],
                ),
                TargetOs::Other => self.config_value(env),
                _ => support_dir_spec(env),
            },
        }
    }

    /// The nostr file a call gives.
    pub open spec fn nostr_value(self, env: SystemDirs) -> Result<(BaseDir, Seq<Seq<char>>), DirError> {
        match self.nostr_cached() {
            Some(p) => Ok(p),
            None => joined(self.support_value(env), seq!["nostr"@]),
        }
    }

    /// `later` keeps every path that `self` kept, and any path it newly
    /// keeps is the one `self` gives for `env`.
    pub open spec fn filled_from(self, later: PathCache, env: SystemDirs) -> bool {
        &&& (self.home_cached() is Some ==> later.home_cached() == self.home_cached())
        &&& (later.home_cached() is Some ==> later.home_cached() == Some(
            self.home_value(env)->Ok_0,
        ))
        &&& (self.config_cached() is Some ==> later.config_cached() == self.config_cached())
        &&& (later.config_cached() is Some ==> later.config_cached() == Some(
            self.config_value(env)->Ok_0,
        ))
        &&& (self.support_cached() is Some ==> later.support_cached() == self.support_cached())
        &&& (later.support_cached() is Some ==> later.support_cached() == Some(
            self.support_value(env)->Ok_0,
        ))
        &&& (self.nostr_cached() is Some ==> later.nostr_cached() == self.nostr_cached())
        &&& (later.nostr_cached() is Some ==> later.nostr_cached() == Some(
            self.nostr_value(env)->Ok_0,
        ))
    }

    /// Nothing computed yet.
    pub fn new() -> (r: PathCache)
        ensures
            r.home_cached() is None,
            r.config_cached() is None,
            r.support_cached() is None,
            r.nostr_cached() is None,
    {
        PathCache { home: None, config: None, support: None, nostr: None }
    }

    /// Returns the home directory, computing it on the first call.
    pub fn home_dir(&mut self, env: &SystemDirs) -> (r: DirPath)
        requires
            old(self).home_value(*env) is Ok,
        ensures
            r@ == old(self).home_value(*env)->Ok_0,
            final(self).home_cached() == Some(r@),
            old(self).filled_from(*final(self), *env),
    {
        match &self.home {
            Some(p) => {
                return p.copy();
            },
            None => {},
        }
        let p = home_dir(env);
        self.home = Some(p.copy());
        p
    }

    /// Returns the configuration directory, computing it on the first call.
    pub fn config_dir(&mut self, env: &SystemDirs) -> (r: DirPath)
        requires
            old(self).config_value(*env) is Ok,
        ensures
            r@ == old(self).config_value(*env)->Ok_0,
            final(self).config_cached() == Some(r@),
            old(self).filled_from(*final(self), *env),
    {
        match &self.config {
            Some(p) => {
                return p.copy();
            },
            None => {},
        }
        let p = match env.os {
            TargetOs::Windows | TargetOs::Linux | TargetOs::FreeBsd => config_dir(env),
            _ => {
                let h = self.home_dir(env);
                let r = h.join(".config").join("coop");
                assert(r@.1 =~= old(self).home_value(*env)->Ok_0.1 + seq![".config"@, "coop"@]);
                r
            },
        };
        self.config = Some(p.copy());
        p
    }

    /// Returns the support directory, computing it on the first call.
    pub fn support_dir(&mut self, env: &SystemDirs) -> (r: DirPath)
        requires
            old(self).support_value(*env) is Ok,
        ensures
            r@ == old(self).support_value(*env)->Ok_0,
            final(self).support_cached() == Some(r@),
            old(self).filled_from(*final(self), *env),
    {
        match &self.support {
            Some(p) => {
                return p.copy();
            },
            None => {},
        }
        let p = match env.os {
            TargetOs::MacOs => {
                let h = self.home_dir(env);
                let r = h.join("Library/Application Support/Coop");
                assert(r@.1 =~= old(self).home_value(*env)->Ok_0.1 + seq![
                    "Library/Application Support/Coop"@,
                ]);
                r
            },
            TargetOs::Other => self.config_dir(env),
            _ => support_dir(env),
        };
        self.support = Some(p.copy());
        p
    }

    /// Returns the nostr file, computing it on the first call.
    pub fn nostr_file(&mut self, env: &SystemDirs) -> (r: DirPath)
        requires
            old(self).nostr_value(*env) is Ok,
        ensures
            r@ == old(self).nostr_value(*env)->Ok_0,
            final(self).nostr_cached() == Some(r@),
            old(self).filled_from(*final(self), *env),
    {
        match &self.nostr {
            Some(p) => {
                return p.copy();
            },
            None => {},
        }
        let s = self.support_dir(env);
        let p = s.join("nostr");
        assert(p@.1 =~= old(self).support_value(*env)->Ok_0.1 + seq!["nostr"@]);
        self.nostr = Some(p.copy());
        p
    }
}

/// Each directory is computed once: once a path is kept, every later call
/// gives it, whatever environment the call is given.
pub proof fn law_paths_computed_once(cache: PathCache, env: SystemDirs)
    ensures
        cache.home_cached() matches Some(p) ==> cache.home_value(env) == Ok::<
            (BaseDir, Seq<Seq<char>>),
            DirError,
        >(p),
        cache.config_cached() matches Some(p) ==> cache.config_value(env) == Ok::<
            (BaseDir, Seq<Seq<char>>),
            DirError,
        >(p),
        cache.support_cached() matches Some(p) ==> cache.support_value(env) == Ok::<
            (BaseDir, Seq<Seq<char>>),
            DirError,
        >(p),
        cache.nostr_cached() matches Some(p) ==> cache.nostr_value(env) == Ok::<
            (BaseDir, Seq<Seq<char>>),
            DirError,
        >(p),
{
}

/// Paths kept stay kept: after any call, the kept paths give the same
/// values as before, for every environment.
pub proof fn law_kept_paths_stay(before: PathCache, after: PathCache, env: SystemDirs, later: SystemDirs)
    requires
        before.filled_from(after, env),
    ensures
        before.nostr_cached() is Some ==> after.nostr_value(later) == before.nostr_value(later),
        before.support_cached() is Some ==> after.support_value(later) == before.support_value(
            later,
        ),
        before.config_cached() is Some ==> after.config_value(later) == before.config_value(
            later,
        ),
        before.home_cached() is Some ==> after.home_value(later) == before.home_value(later),
{
}

} // verus!
