//! Opening a search result at its place: a line in a text file, a page in a
//! PDF, or just the file.
//!
//! Opening runs programs, which happens outside the library. The navigator
//! decides what to run: either the application configured for the file's
//! extension, or a list of commands to try in turn (an editor that can jump to
//! the line or a viewer that can jump to the page, then the desktop's default
//! opener). It then turns what happened into the result. The commands are
//! those of a Linux desktop.

use vstd::prelude::*;
use crate::text::{str_eq, string_from_chars};
use crate::launcher::{is_one_of, owned, Platform};
use crate::chunk::ChunkLocation;

verus! {

/// Errors of opening a file.
#[derive(Debug)]
pub enum NavigationError {
    FileNotFound { path: String },
    OpenFailed { reason: String },
    UnsupportedFileType { extension: String },
    AppNotFound { app: String },
    Io(std::io::Error),
    LocationNavigationFailed { reason: String },
}

impl From<std::io::Error> for NavigationError {
    fn from(e: std::io::Error) -> (r: Self) {
        NavigationError::Io(e)
    }
}

impl vstd::std_specs::convert::FromSpecImpl<std::io::Error> for NavigationError {
    open spec fn obeys_from_spec() -> bool {
        true
    }

    open spec fn from_spec(e: std::io::Error) -> Self {
        NavigationError::Io(e)
    }
}

/// Settings of the navigator.
#[derive(Debug, Clone)]
pub struct NavigatorConfig {
    /// Whether to use the system's default applications.
    pub use_system_default: bool,
    /// Applications chosen by the user, by extension: `(extension, program)`,
    /// each extension at most once.
    pub app_overrides: Vec<(String, String)>,
    /// Whether opened files are logged.
    pub track_sessions: bool,
    /// How long a launch may take, in milliseconds.
    pub launch_timeout_ms: u64,
}

/// The overrides as values.
pub open spec fn override_views(v: Seq<(String, String)>) -> Seq<(Seq<char>, Seq<char>)> {
    v.map_values(|p: (String, String)| (p.0@, p.1@))
}

/// The program configured for `ext`: that of the last entry for it, if any.
pub open spec fn override_of(v: Seq<(Seq<char>, Seq<char>)>, ext: Seq<char>) -> Option<Seq<char>>
    decreases v.len(),
{
    if v.len() == 0 {
        None
    } else if v.last().0 == ext {
        Some(v.last().1)
    } else {
        override_of(v.drop_last(), ext)
    }
}

/// The position of the last entry for `ext`, or -1.
pub open spec fn override_index(v: Seq<(Seq<char>, Seq<char>)>, ext: Seq<char>) -> int
    decreases v.len(),
{
    if v.len() == 0 {
        -1
    } else if v.last().0 == ext {
        v.len() - 1
    } else {
        override_index(v.drop_last(), ext)
    }
}

proof fn lemma_override_index(v: Seq<(Seq<char>, Seq<char>)>, ext: Seq<char>)
    ensures
        -1 <= override_index(v, ext) < v.len(),
        override_index(v, ext) >= 0 ==> v[override_index(v, ext)].0 == ext && override_of(v, ext) == Some(v[override_index(v, ext)].1),
        override_index(v, ext) < 0 ==> override_of(v, ext) is None && forall|i: int| 0 <= i < v.len() ==> (#[trigger] v[i]).0 != ext,
        forall|i: int| override_index(v, ext) < i < v.len() ==> (#[trigger] v[i]).0 != ext,
    decreases v.len(),
{
    if v.len() > 0 {
        let p = v.drop_last();
        lemma_override_index(p, ext);
        assert(forall|i: int| 0 <= i < p.len() ==> p[i] == v[i]);
    }
}

impl NavigatorConfig {
    /// Whether an application is configured for `extension`.
    pub fn has_override(&self, extension: &str) -> (r: bool)
        ensures
            r == override_of(override_views(self.app_overrides@), extension@) is Some,
    {
        proof {
            lemma_override_index(override_views(self.app_overrides@), extension@);
        }
        self.find_override(extension).is_some()
    }

    /// The position of the entry for `extension`.
    fn find_override(&self, extension: &str) -> (r: Option<usize>)
        ensures
            match r {
                Some(i) => i as int == override_index(override_views(self.app_overrides@), extension@),
                None => override_index(override_views(self.app_overrides@), extension@) < 0,
            },
    {
        let ghost v = override_views(self.app_overrides@);
        proof {
            lemma_override_index(v, extension@);
        }
        let mut i: usize = self.app_overrides.len();
        while i > 0
            invariant
                v == override_views(self.app_overrides@),
                i <= v.len(),
                forall|j: int| i <= j < v.len() ==> (#[trigger] v[j]).0 != extension@,
                -1 <= override_index(v, extension@) < v.len(),
                override_index(v, extension@) >= 0 ==> v[override_index(v, extension@)].0 == extension@,
                forall|j: int| override_index(v, extension@) < j < v.len() ==> (#[trigger] v[j]).0 != extension@,
            decreases i,
        {
            if str_eq(self.app_overrides[i - 1].0.as_str(), extension) {
                proof {
                    assert(v[i - 1].0 == extension@);
                }
                return Some(i - 1);
            }
            proof {
                assert(v[i - 1].0 != extension@);
            }
            i = i - 1;
        }
        None
    }
}

impl Default for NavigatorConfig {
    fn default() -> (c: Self)
        ensures
            c.use_system_default,
            c.app_overrides@.len() == 0,
            c.track_sessions,
            c.launch_timeout_ms == 5000,
    {
        NavigatorConfig { use_system_default: true, app_overrides: Vec::new(), track_sessions: true, launch_timeout_ms: 5000 }
    }
}

/// Where to go: a file, and maybe a place in it.
#[derive(Debug, Clone)]
pub struct NavigationTarget {
    /// The file.
    pub path: String,
    /// Its identifier (a UUID's 128 bits), for tracking.
    pub file_id: Option<u128>,
    /// The place in it.
    pub location: Option<ChunkLocation>,
    /// The search that led here, for highlighting.
    pub query: Option<String>,
}

impl NavigationTarget {
    /// The file at `path`, with no place in it.
    pub fn new(path: &str) -> (t: Self)
        ensures
            t.path@ == path@,
            t.file_id is None,
            t.location is None,
            t.query is None,
    {
        NavigationTarget { path: owned(path), file_id: None, location: None, query: None }
    }

    /// The same target with a file identifier.
    pub fn with_file_id(self, file_id: u128) -> (t: Self)
        ensures
            t.path == self.path,
            t.file_id == Some(file_id),
            t.location == self.location,
            t.query == self.query,
    {
        NavigationTarget { file_id: Some(file_id), ..self }
    }

    /// The same target with a place.
    pub fn with_location(self, location: ChunkLocation) -> (t: Self)
        ensures
            t.path == self.path,
            t.file_id == self.file_id,
            t.location == Some(location),
            t.query == self.query,
    {
        NavigationTarget { location: Some(location), ..self }
    }

    /// The same target with the search query.
    pub fn with_query(self, query: &str) -> (t: Self)
        ensures
            t.path == self.path,
            t.file_id == self.file_id,
            t.location == self.location,
            t.query matches Some(q) && q@ == query@,
    {
        NavigationTarget { query: Some(owned(query)), ..self }
    }
}

/// The outcome of opening a file.
#[derive(Debug, Clone)]
pub struct NavigationResult {
    /// Whether the file was opened.
    pub success: bool,
    /// The application that opened it.
    pub app_used: Option<String>,
    /// Whether a place in the file was asked for.
    pub location_navigated: bool,
    /// A note.
    pub message: Option<String>,
}

/// How a file is opened.
#[derive(Debug, Clone, Copy, PartialEq, Eq, Structural)]
pub enum FileOpenMode {
    SystemDefault,
    SpecificApp,
    InternalViewer,
}

/// A program to run: its name, its arguments, and the application it is.
#[derive(Debug)]
pub struct LaunchCommand {
    pub program: String,
    pub args: Vec<String>,
    pub app_name: String,
}

/// A command as values.
pub open spec fn command_view(c: LaunchCommand) -> (Seq<char>, Seq<Seq<char>>, Seq<char>) {
    (c.program@, c.args@.map_values(|a: String| a@), c.app_name@)
}

/// What to do to open a file.
#[derive(Debug)]
pub enum NavigationPlan {
    /// Run the application configured for the extension, once it is found to
    /// exist.
    WithApp { app_path: String, path: String, location_navigated: bool },
    /// Run the commands in turn until one starts; when the last one fails,
    /// opening fails.
    Commands { commands: Vec<LaunchCommand>, location_navigated: bool },
}

/// What happened when the plan was carried out.
#[derive(Debug)]
pub enum LaunchOutcome {
    /// The command at `index` started (for `WithApp`, the application).
    Launched { index: usize },
    /// The configured application does not exist.
    AppMissing,
    /// The last command (or the application) failed to start.
    Failed { reason: String },
}

/// The extensions of text and source files.
pub open spec fn text_exts() -> Seq<Seq<char>> {
    seq![
        "txt"@, "md"@, "rs"@, "py"@, "js"@, "ts"@, "java"@, "c"@, "cpp"@, "h"@, "hpp"@,
        "go"@, "rb"@, "json"@, "yaml"@, "yml"@, "toml"@, "xml"@, "html"@, "css"@, "sh"@, "ps1"@,
    ]
}

/// The system's default opener: `cmd /C start "" path` on Windows,
/// `open path` on macOS, `xdg-open path` on Linux.
pub open spec fn default_open(platform: Platform, path: Seq<char>) -> (Seq<char>, Seq<Seq<char>>, Seq<char>) {
    match platform {
        Platform::Windows => ("cmd"@, seq!["/C"@, "start"@, ""@, path], "System Default"@),
        Platform::MacOs => ("open"@, seq![path], "System Default"@),
        Platform::Linux => ("xdg-open"@, seq![path], "System Default"@),
    }
}

/// Adobe Acrobat at `exe` opening `path` at `page` (`/A page=N path`).
pub open spec fn acrobat_at(exe: Seq<char>, page: u32, path: Seq<char>) -> (Seq<char>, Seq<Seq<char>>, Seq<char>) {
    (exe, seq!["/A"@, "page="@ + crate::utils::dec_str(page as nat), path], "Adobe Acrobat"@)
}

/// The commands tried, in turn, for a file of extension `ext` on
/// `platform`: for a text file with a line, VS Code at that line (`code
/// --goto path:line`); for a PDF, on Windows with a page Adobe Acrobat at that
/// page from each of its usual places, on macOS `open path` (Preview), on
/// Linux with a page Evince at that page (`evince --page-index page path`);
/// then, except for a PDF on macOS, the default opener.
pub open spec fn commands_for(platform: Platform, path: Seq<char>, ext: Seq<char>, location: Option<ChunkLocation>) -> Seq<(Seq<char>, Seq<Seq<char>>, Seq<char>)> {
    let line = match location {
        Some(l) => l.start_line,
        None => None,
    };
    let page = match location {
        Some(l) => l.page_number,
        None => None,
    };
    if text_exts().contains(ext) && line is Some {
        seq![
            ("code"@, seq!["--goto"@, path + seq![':'] + crate::utils::dec_str(line->0 as nat)], "Visual Studio Code"@),
            default_open(platform, path),
        ]
    } else if ext == "pdf"@ && platform == Platform::MacOs {
        seq![("open"@, seq![path], "Preview"@)]
    } else if ext == "pdf"@ && page is Some && platform == Platform::Windows {
        seq![
            acrobat_at(r"C:\Program Files\Adobe\Acrobat DC\Acrobat\Acrobat.exe"@, page->0, path),
            acrobat_at(r"C:\Program Files (x86)\Adobe\Acrobat Reader DC\Reader\AcroRd32.exe"@, page->0, path),
            acrobat_at(r"C:\Program Files\Adobe\Reader 11.0\Reader\AcroRd32.exe"@, page->0, path),
            default_open(platform, path),
        ]
    } else if ext == "pdf"@ && page is Some && platform == Platform::Linux {
        seq![
            ("evince"@, seq!["--page-index"@, crate::utils::dec_str(page->0 as nat), path], "Evince"@),
            default_open(platform, path),
        ]
    } else {
        seq![default_open(platform, path)]
    }
}

/// The extension of a path as the navigator reads it: lowercase, empty when
/// there is none.
pub open spec fn extension_key(path: Seq<char>) -> Seq<char> {
    match crate::utils::path_extension(path) {
        Some(e) => crate::utils::lowercase(e),
        None => Seq::empty(),
    }
}

/// The navigator.
pub struct HighlightNavigator {
    config: NavigatorConfig,
    platform: Platform,
}

/// The decimal digits of `n`, as a string.
fn decimal(n: u32) -> (r: String)
    ensures
        r@ == crate::utils::dec_str(n as nat),
{
    let mut v: Vec<char> = Vec::new();
    crate::utils::push_decimal(&mut v, n as u128);
    proof {
        assert(v@ =~= crate::utils::dec_str(n as nat));
    }
    string_from_chars(v.as_slice())
}

/// The default opener for `path` (see `default_open`).
fn default_open_command(platform: Platform, path: &str) -> (c: LaunchCommand)
    ensures
        command_view(c) == default_open(platform, path@),
{
    let mut args: Vec<String> = Vec::new();
    let program = match platform {
        Platform::Windows => {
            args.push(owned("/C"));
            args.push(owned("start"));
            args.push(owned(""));
            owned("cmd")
        },
        Platform::MacOs => owned("open"),
        Platform::Linux => owned("xdg-open"),
    };
    args.push(owned(path));
    let c = LaunchCommand { program, args, app_name: owned("System Default") };
    proof {
        if platform == Platform::Windows {
            assert(command_view(c).1 =~= seq!["/C"@, "start"@, ""@, path@]);
        } else {
            assert(command_view(c).1 =~= seq![path@]);
        }
    }
    c
}

/// Adobe Acrobat at `exe` opening `path` at `page` (see `acrobat_at`).
fn acrobat_command(exe: &str, page: u32, path: &str) -> (c: LaunchCommand)
    ensures
        command_view(c) == acrobat_at(exe@, page, path@),
{
    let mut arg: Vec<char> = crate::text::chars_of("page=");
    crate::utils::push_decimal(&mut arg, page as u128);
    let mut args: Vec<String> = Vec::new();
    args.push(owned("/A"));
    args.push(string_from_chars(arg.as_slice()));
    args.push(owned(path));
    let c = LaunchCommand { program: owned(exe), args, app_name: owned("Adobe Acrobat") };
    proof {
        assert(command_view(c).1 =~= seq!["/A"@, "page="@ + crate::utils::dec_str(page as nat), path@]);
    }
    c
}

impl HighlightNavigator {
    /// The settings.
    pub closed spec fn spec_config(&self) -> NavigatorConfig {
        self.config
    }

    /// The operating system.
    pub closed spec fn spec_platform(&self) -> Platform {
        self.platform
    }

    /// A navigator for Linux with the default settings.
    pub fn new() -> (n: Self)
        ensures
            n.spec_config().use_system_default,
            n.spec_config().app_overrides@.len() == 0,
            n.spec_config().track_sessions,
            n.spec_config().launch_timeout_ms == 5000,
            n.spec_platform() == Platform::Linux,
    {
        Self::with_config(NavigatorConfig::default())
    }

    /// A navigator for Linux with the given settings.
    pub fn with_config(config: NavigatorConfig) -> (n: Self)
        ensures
            n.spec_config() == config,
            n.spec_platform() == Platform::Linux,
    {
        Self::for_platform(config, Platform::Linux)
    }

    /// A navigator for `platform` with the given settings.
    pub fn for_platform(config: NavigatorConfig, platform: Platform) -> (n: Self)
        ensures
            n.spec_config() == config,
            n.spec_platform() == platform,
    {
        HighlightNavigator { config, platform }
    }

    /// The settings.
    pub fn config(&self) -> (c: &NavigatorConfig)
        ensures
            *c == self.spec_config(),
    {
        &self.config
    }

    /// Replaces the settings.
    pub fn set_config(&mut self, config: NavigatorConfig)
        ensures
            final(self).spec_config() == config,
    {
        self.config = config;
    }

    /// Configures `app_path` for `extension`, replacing an earlier choice.
    pub fn add_app_override(&mut self, extension: &str, app_path: &str)
        ensures
            override_of(override_views(final(self).spec_config().app_overrides@), extension@) == Some(app_path@),
            forall|e: Seq<char>| e != extension@ ==> override_of(override_views(final(self).spec_config().app_overrides@), e) == override_of(override_views(old(self).spec_config().app_overrides@), e),
            final(self).spec_config().use_system_default == old(self).spec_config().use_system_default,
            final(self).spec_config().track_sessions == old(self).spec_config().track_sessions,
            final(self).spec_config().launch_timeout_ms == old(self).spec_config().launch_timeout_ms,
    {
        let ghost before = override_views(self.config.app_overrides@);
        match self.config.find_override(extension) {
            Some(i) => {
                proof {
                    lemma_override_index(before, extension@);
                }
                self.config.app_overrides.set(i, (owned(extension), owned(app_path)));
                proof {
                    let after = override_views(self.config.app_overrides@);
                    assert(after =~= before.update(i as int, (extension@, app_path@)));
                    lemma_override_update(before, i as int, extension@, app_path@);
                }
            },
            None => {
                self.config.app_overrides.push((owned(extension), owned(app_path)));
                proof {
                    let after = override_views(self.config.app_overrides@);
                    assert(after =~= before.push((extension@, app_path@)));
                    assert(after.drop_last() =~= before);
                }
            },
        }
    }

    /// Drops the application configured for `extension` and gives it back.
    pub fn remove_app_override(&mut self, extension: &str) -> (r: Option<String>)
        ensures
            match r {
                Some(p) => override_of(override_views(old(self).spec_config().app_overrides@), extension@) == Some(p@),
                None => override_of(override_views(old(self).spec_config().app_overrides@), extension@) is None,
            },
            override_of(override_views(final(self).spec_config().app_overrides@), extension@) is None,
            forall|e: Seq<char>| e != extension@ ==> override_of(override_views(final(self).spec_config().app_overrides@), e) == override_of(override_views(old(self).spec_config().app_overrides@), e),
            final(self).spec_config().use_system_default == old(self).spec_config().use_system_default,
            final(self).spec_config().track_sessions == old(self).spec_config().track_sessions,
            final(self).spec_config().launch_timeout_ms == old(self).spec_config().launch_timeout_ms,
    {
        let ghost before = override_views(self.config.app_overrides@);
        let mut kept: Vec<(String, String)> = Vec::new();
        let mut found: Option<String> = None;
        let mut i: usize = 0;
        while i < self.config.app_overrides.len()
            invariant
                before == override_views(self.config.app_overrides@),
                i <= before.len(),
                override_views(kept@) == drop_key(before.take(i as int), extension@),
                match found {
                    Some(p) => override_of(before.take(i as int), extension@) == Some(p@),
                    None => override_of(before.take(i as int), extension@) is None,
                },
            decreases before.len() - i,
        {
            proof {
                assert(before.take(i + 1).drop_last() =~= before.take(i as int));
                assert(before.take(i + 1).last() == before[i as int]);
            }
            let entry = &self.config.app_overrides[i];
            if str_eq(entry.0.as_str(), extension) {
                found = Some(entry.1.clone());
            } else {
                let ghost k0 = override_views(kept@);
                kept.push((entry.0.clone(), entry.1.clone()));
                proof {
                    assert(override_views(kept@) =~= k0.push(before[i as int]));
                }
            }
            i = i + 1;
        }
        proof {
            assert(before.take(before.len() as int) =~= before);
            lemma_drop_key(before, extension@);
        }
        self.config.app_overrides = kept;
        found
    }
}

/// The entries that are not for `ext`, in order.
pub open spec fn drop_key(v: Seq<(Seq<char>, Seq<char>)>, ext: Seq<char>) -> Seq<(Seq<char>, Seq<char>)>
    decreases v.len(),
{
    if v.len() == 0 {
        Seq::empty()
    } else if v.last().0 == ext {
        drop_key(v.drop_last(), ext)
    } else {
        drop_key(v.drop_last(), ext).push(v.last())
    }
}

/// Dropping the entries for `ext` drops the choice for `ext` and keeps the
/// others.
proof fn lemma_drop_key(v: Seq<(Seq<char>, Seq<char>)>, ext: Seq<char>)
    ensures
        override_of(drop_key(v, ext), ext) is None,
        forall|e: Seq<char>| e != ext ==> override_of(drop_key(v, ext), e) == override_of(v, e),
    decreases v.len(),
{
    if v.len() > 0 {
        lemma_drop_key(v.drop_last(), ext);
        let d = drop_key(v, ext);
        let dk = drop_key(v.drop_last(), ext);
        if v.last().0 != ext {
            assert(d.drop_last() =~= dk);
            assert(d.last() == v.last());
        }
        assert forall|e: Seq<char>| e != ext implies override_of(d, e) == override_of(v, e) by {
            assert(override_of(dk, e) == override_of(v.drop_last(), e));
            if v.last().0 != ext {
                assert(d.drop_last() =~= dk);
            }
        }
    }
}

/// Replacing the last entry for `ext` changes the choice for `ext` only.
proof fn lemma_override_update(v: Seq<(Seq<char>, Seq<char>)>, i: int, ext: Seq<char>, p: Seq<char>)
    requires
        0 <= i < v.len(),
        i == override_index(v, ext),
    ensures
        override_of(v.update(i, (ext, p)), ext) == Some(p),
        forall|e: Seq<char>| e != ext ==> override_of(v.update(i, (ext, p)), e) == override_of(v, e),
    decreases v.len(),
{
    let w = v.update(i, (ext, p));
    lemma_override_index(v, ext);
    if i == v.len() - 1 {
        assert(w.drop_last() =~= v.drop_last());
        assert forall|e: Seq<char>| e != ext implies override_of(w, e) == override_of(v, e) by {
            if v.last().0 == e {
                assert(false);
            }
        }
    } else {
        assert(w.drop_last() =~= v.drop_last().update(i, (ext, p)));
        assert(v.last().0 != ext);
        lemma_override_update(v.drop_last(), i, ext, p);
        assert(w.last() == v.last());
        assert forall|e: Seq<char>| e != ext implies override_of(w, e) == override_of(v, e) by {
            assert(w.last() == v.last());
            if v.last().0 != e {
                assert(override_of(w.drop_last(), e) == override_of(v.drop_last(), e));
            }
        }
    }
}


/// The plan for opening `target` under `config` on `platform`, when the
/// file exists.
pub open spec fn plan_ok(config: NavigatorConfig, platform: Platform, target: NavigationTarget, plan: NavigationPlan) -> bool {
    let ext = extension_key(target.path@);
    match override_of(override_views(config.app_overrides@), ext) {
        Some(app) => plan matches NavigationPlan::WithApp { app_path, path, location_navigated }
            && app_path@ == app && path@ == target.path@ && location_navigated == target.location is Some,
        None => config.use_system_default && (plan matches NavigationPlan::Commands { commands, location_navigated }
            && commands@.map_values(|c: LaunchCommand| command_view(c)) == commands_for(platform, target.path@, ext, target.location)
            && location_navigated == target.location is Some),
    }
}

/// An outcome that can come of a plan: a launched command is one of the
/// plan's, and only a configured application can be missing.
pub open spec fn outcome_fits(plan: NavigationPlan, outcome: LaunchOutcome) -> bool {
    match plan {
        NavigationPlan::WithApp { .. } => true,
        NavigationPlan::Commands { commands, .. } => match outcome {
            LaunchOutcome::Launched { index } => index < commands@.len(),
            LaunchOutcome::AppMissing => false,
            LaunchOutcome::Failed { .. } => true,
        },
    }
}

impl HighlightNavigator {
    /// What to do to open `target`: fail when the file does not exist; run the
    /// application configured for its extension when there is one; otherwise,
    /// when system defaults are in use, try the commands for its type in turn;
    /// otherwise fail.
    pub fn plan_navigation(&self, target: &NavigationTarget, file_exists: bool) -> (r: Result<NavigationPlan, NavigationError>)
        ensures
            !file_exists ==> (r matches Err(e) && e matches NavigationError::FileNotFound { path } && path@ == target.path@),
            file_exists && override_of(override_views(self.spec_config().app_overrides@), extension_key(target.path@)) is None
                && !self.spec_config().use_system_default ==> (r matches Err(e) && e matches NavigationError::OpenFailed { reason }
                && reason@ == "No application configured for this file type"@),
            r matches Ok(p) ==> file_exists && plan_ok(self.spec_config(), self.spec_platform(), *target, p),
            file_exists && (override_of(override_views(self.spec_config().app_overrides@), extension_key(target.path@)) is Some
                || self.spec_config().use_system_default) ==> r is Ok,
    {
        if !file_exists {
            return Err(NavigationError::FileNotFound { path: target.path.clone() });
        }
        let extension = crate::utils::get_extension(target.path.as_str());
        let location_navigated = target.location.is_some();
        proof {
            lemma_override_index(override_views(self.config.app_overrides@), extension@);
        }
        match self.config.find_override(extension.as_str()) {
            Some(i) => {
                let app_path = self.config.app_overrides[i].1.clone();
                return Ok(NavigationPlan::WithApp { app_path, path: target.path.clone(), location_navigated });
            },
            None => {},
        }
        if self.config.use_system_default {
            let commands = self.system_default_commands(target.path.as_str(), extension.as_str(), target.location);
            return Ok(NavigationPlan::Commands { commands, location_navigated });
        }
        Err(NavigationError::OpenFailed { reason: owned("No application configured for this file type") })
    }

    /// The commands tried for a file of the given extension (see
    /// `commands_for`).
    fn system_default_commands(&self, path: &str, extension: &str, location: Option<ChunkLocation>) -> (r: Vec<LaunchCommand>)
        ensures
            r@.map_values(|c: LaunchCommand| command_view(c)) == commands_for(self.spec_platform(), path@, extension@, location),
    {
        let text: [&str; 22] = [
            "txt", "md", "rs", "py", "js", "ts", "java", "c", "cpp", "h", "hpp",
            "go", "rb", "json", "yaml", "yml", "toml", "xml", "html", "css", "sh", "ps1",
        ];
        proof {
            assert(text@.map_values(|o: &str| o@) =~= text_exts());
        }
        let platform = self.platform;
        let line = match location {
            Some(l) => l.start_line,
            None => None,
        };
        let page = match location {
            Some(l) => l.page_number,
            None => None,
        };
        let is_text = is_one_of(&text, extension);
        let is_pdf = str_eq(extension, "pdf");
        let mut r: Vec<LaunchCommand> = Vec::new();
        if is_text && line.is_some() {
            let n = line.unwrap();
            let mut target: Vec<char> = crate::text::chars_of(path);
            target.push(':');
            let ghost t0 = target@;
            crate::utils::push_decimal(&mut target, n as u128);
            proof {
                assert(t0 =~= path@ + seq![':']);
                assert(target@ =~= path@ + seq![':'] + crate::utils::dec_str(n as nat));
            }
            let mut args: Vec<String> = Vec::new();
            args.push(owned("--goto"));
            args.push(string_from_chars(target.as_slice()));
            proof {
                assert(args@.map_values(|a: String| a@) =~= seq!["--goto"@, path@ + seq![':'] + crate::utils::dec_str(line->0 as nat)]);
            }
            r.push(LaunchCommand { program: owned("code"), args, app_name: owned("Visual Studio Code") });
            r.push(default_open_command(platform, path));
        } else if is_pdf && platform == Platform::MacOs {
            let mut args: Vec<String> = Vec::new();
            args.push(owned(path));
            r.push(LaunchCommand { program: owned("open"), args, app_name: owned("Preview") });
            proof {
                assert(args@.map_values(|a: String| a@) =~= seq![path@]);
            }
        } else if is_pdf && page.is_some() && platform == Platform::Windows {
            let n = page.unwrap();
            r.push(acrobat_command(r"C:\Program Files\Adobe\Acrobat DC\Acrobat\Acrobat.exe", n, path));
            r.push(acrobat_command(r"C:\Program Files (x86)\Adobe\Acrobat Reader DC\Reader\AcroRd32.exe", n, path));
            r.push(acrobat_command(r"C:\Program Files\Adobe\Reader 11.0\Reader\AcroRd32.exe", n, path));
            r.push(default_open_command(platform, path));
        } else if is_pdf && page.is_some() && platform == Platform::Linux {
            let n = page.unwrap();
            let mut args: Vec<String> = Vec::new();
            args.push(owned("--page-index"));
            args.push(decimal(n));
            args.push(owned(path));
            proof {
                assert(args@.map_values(|a: String| a@) =~= seq!["--page-index"@, crate::utils::dec_str(page->0 as nat), path@]);
            }
            r.push(LaunchCommand { program: owned("evince"), args, app_name: owned("Evince") });
            r.push(default_open_command(platform, path));
        } else {
            r.push(default_open_command(platform, path));
        }
        proof {
            assert(r@.map_values(|c: LaunchCommand| command_view(c)) =~= commands_for(platform, path@, extension@, location));
        }
        r
    }
}

/// The file was opened by `app`, with the given note.
pub open spec fn opened_with(r: Result<NavigationResult, NavigationError>, app: Seq<char>, location_navigated: bool, message: Option<Seq<char>>) -> bool {
    match r {
        Ok(n) => {
            &&& n.success
            &&& n.location_navigated == location_navigated
            &&& match n.app_used {
                Some(a) => a@ == app,
                None => false,
            }
            &&& match n.message {
                Some(m) => message == Some(m@),
                None => message is None,
            }
        },
        Err(_) => false,
    }
}

/// What opening came to, given the plan and what happened: the application
/// that started, or the error.
pub fn navigation_outcome(plan: &NavigationPlan, outcome: LaunchOutcome) -> (r: Result<NavigationResult, NavigationError>)
    requires
        outcome_fits(*plan, outcome),
    ensures
        match (*plan, outcome) {
            (NavigationPlan::WithApp { app_path, location_navigated, .. }, LaunchOutcome::Launched { .. }) =>
                opened_with(r, app_path@, location_navigated, Some("Opened with custom application"@)),
            (NavigationPlan::WithApp { app_path, .. }, LaunchOutcome::AppMissing) =>
                r matches Err(e) && e matches NavigationError::AppNotFound { app } && app@ == app_path@,
            (NavigationPlan::Commands { commands, location_navigated }, LaunchOutcome::Launched { index }) =>
                opened_with(r, commands@[index as int].app_name@, location_navigated, None),
            (_, LaunchOutcome::Failed { reason }) =>
                r matches Err(e) && e matches NavigationError::OpenFailed { reason: x } && x@ == reason@,
            _ => true,
        },
{
    match plan {
        NavigationPlan::WithApp { app_path, location_navigated, .. } => match outcome {
            LaunchOutcome::Launched { .. } => Ok(NavigationResult {
                success: true,
                app_used: Some(app_path.clone()),
                location_navigated: *location_navigated,
                message: Some(owned("Opened with custom application")),
            }),
            LaunchOutcome::AppMissing => Err(NavigationError::AppNotFound { app: app_path.clone() }),
            LaunchOutcome::Failed { reason } => Err(NavigationError::OpenFailed { reason }),
        },
        NavigationPlan::Commands { commands, location_navigated } => match outcome {
            LaunchOutcome::Launched { index } => Ok(NavigationResult {
                success: true,
                app_used: Some(commands[index].app_name.clone()),
                location_navigated: *location_navigated,
                message: None,
            }),
            LaunchOutcome::AppMissing => Err(NavigationError::OpenFailed { reason: String::new() }),
            LaunchOutcome::Failed { reason } => Err(NavigationError::OpenFailed { reason }),
        },
    }
}


/// Text and source files open in VS Code at their line: for a file whose
/// extension is one of `txt`, `md`, `rs`, `py`, `js`, `ts`, `java`, `c`,
/// `cpp`, `h`, `hpp`, `go`, `rb`, `json`, `yaml`, `yml`, `toml`, `xml`, `html`,
/// `css`, `sh`, `ps1` and a location with a line, the first command tried is
/// `code --goto path:line`, and the system's default opener comes second.
pub proof fn lemma_text_files_open_at_line(platform: Platform, path: Seq<char>, ext: Seq<char>, location: Option<ChunkLocation>)
    requires
        ext == "txt"@ || ext == "md"@ || ext == "rs"@ || ext == "py"@ || ext == "js"@ || ext == "ts"@
            || ext == "java"@ || ext == "c"@ || ext == "cpp"@ || ext == "h"@ || ext == "hpp"@ || ext == "go"@
            || ext == "rb"@ || ext == "json"@ || ext == "yaml"@ || ext == "yml"@ || ext == "toml"@
            || ext == "xml"@ || ext == "html"@ || ext == "css"@ || ext == "sh"@ || ext == "ps1"@,
        location matches Some(l) && l.start_line is Some,
    ensures
        commands_for(platform, path, ext, location).len() == 2,
        commands_for(platform, path, ext, location)[0] == (
            "code"@,
            seq!["--goto"@, path + seq![':'] + crate::utils::dec_str(location->0.start_line->0 as nat)],
            "Visual Studio Code"@,
        ),
        commands_for(platform, path, ext, location)[1] == default_open(platform, path),
{
    let t = text_exts();
    let k: int = if ext == "txt"@ { 0 } else if ext == "md"@ { 1 } else if ext == "rs"@ { 2 } else if ext == "py"@ { 3 }
        else if ext == "js"@ { 4 } else if ext == "ts"@ { 5 } else if ext == "java"@ { 6 } else if ext == "c"@ { 7 }
        else if ext == "cpp"@ { 8 } else if ext == "h"@ { 9 } else if ext == "hpp"@ { 10 } else if ext == "go"@ { 11 }
        else if ext == "rb"@ { 12 } else if ext == "json"@ { 13 } else if ext == "yaml"@ { 14 } else if ext == "yml"@ { 15 }
        else if ext == "toml"@ { 16 } else if ext == "xml"@ { 17 } else if ext == "html"@ { 18 } else if ext == "css"@ { 19 }
        else if ext == "sh"@ { 20 } else { 21 };
    assert(t[k] == ext);
    assert(t.contains(ext));
}

} // verus!
