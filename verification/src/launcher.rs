//! Opening files with applications: MIME types, the applications offered in
//! an "Open with" menu, and the checks made before a launch.
//!
//! The applications offered are those of a Linux desktop. Whether an editor
//! or viewer is installed is found outside the library (by looking it up on
//! the `PATH`); the functions here take the list of installed commands.

use vstd::prelude::*;
use crate::text::{str_eq, string_from_chars};

verus! {

/// Errors of launching an application.
#[derive(Debug)]
pub enum LaunchError {
    FileNotFound { path: String },
    AppNotFound { app: String },
    LaunchFailed { reason: String },
    Io(std::io::Error),
    RegistryError { reason: String },
    UnsupportedPlatform,
}

impl From<std::io::Error> for LaunchError {
    fn from(e: std::io::Error) -> (r: Self) {
        LaunchError::Io(e)
    }
}

impl vstd::std_specs::convert::FromSpecImpl<std::io::Error> for LaunchError {
    open spec fn obeys_from_spec() -> bool {
        true
    }

    open spec fn from_spec(e: std::io::Error) -> Self {
        LaunchError::Io(e)
    }
}

/// An installed application.
#[derive(Debug, Clone)]
pub struct InstalledApp {
    /// Its name.
    pub name: String,
    /// Its executable.
    pub path: String,
    /// Its icon, when known.
    pub icon_path: Option<String>,
    /// The extensions it opens.
    pub supported_extensions: Vec<String>,
    /// Whether it is the default for some extension.
    pub is_default: bool,
}

/// An application as offered to the user.
#[derive(Debug)]
pub struct AppInfo {
    /// Its name.
    pub name: String,
    /// Its executable.
    pub path: String,
    /// Whether it is the default for the file type.
    pub is_default: bool,
}

impl Clone for AppInfo {
    fn clone(&self) -> (r: Self)
        ensures
            app_view(r) == app_view(*self),
    {
        AppInfo { name: self.name.clone(), path: self.path.clone(), is_default: self.is_default }
    }
}

/// An application as values: name, executable, default.
pub open spec fn app_view(a: AppInfo) -> (Seq<char>, Seq<char>, bool) {
    (a.name@, a.path@, a.is_default)
}

/// The applications as values.
pub open spec fn app_views(s: Seq<AppInfo>) -> Seq<(Seq<char>, Seq<char>, bool)> {
    s.map_values(|a: AppInfo| app_view(a))
}

/// The applications for one file type.
#[derive(Debug)]
pub struct FileTypeAssociation {
    /// The extension, without the dot.
    pub extension: String,
    /// Its MIME type, when known.
    pub mime_type: Option<String>,
    /// Its default application, when known.
    pub default_app: Option<AppInfo>,
    /// Every application offered for it.
    pub available_apps: Vec<AppInfo>,
}

/// The outcome of a launch.
#[derive(Debug, Clone)]
pub struct LaunchResult {
    /// Whether it succeeded.
    pub success: bool,
    /// The application launched.
    pub app_name: String,
    /// Its process, when known.
    pub process_id: Option<u32>,
    /// A message or warning.
    pub message: Option<String>,
}

/// The MIME type of an extension, for the types known here.
pub open spec fn mime_of(e: Seq<char>) -> Option<Seq<char>> {
    if e == "txt"@ {
        Some("text/plain"@)
    } else if e == "html"@ || e == "htm"@ {
        Some("text/html"@)
    } else if e == "css"@ {
        Some("text/css"@)
    } else if e == "js"@ {
        Some("application/javascript"@)
    } else if e == "json"@ {
        Some("application/json"@)
    } else if e == "xml"@ {
        Some("application/xml"@)
    } else if e == "pdf"@ {
        Some("application/pdf"@)
    } else if e == "png"@ {
        Some("image/png"@)
    } else if e == "jpg"@ || e == "jpeg"@ {
        Some("image/jpeg"@)
    } else if e == "gif"@ {
        Some("image/gif"@)
    } else if e == "webp"@ {
        Some("image/webp"@)
    } else if e == "svg"@ {
        Some("image/svg+xml"@)
    } else if e == "mp3"@ {
        Some("audio/mpeg"@)
    } else if e == "mp4"@ {
        Some("video/mp4"@)
    } else if e == "zip"@ {
        Some("application/zip"@)
    } else {
        None
    }
}

/// The extensions of text and source files.
pub open spec fn text_editor_exts() -> Seq<Seq<char>> {
    seq![
        "txt"@, "md"@, "rs"@, "py"@, "js"@, "ts"@, "json"@, "yaml"@, "yml"@, "toml"@,
        "xml"@, "html"@, "css"@, "java"@, "c"@, "cpp"@, "h"@, "go"@,
    ]
}

/// The editors and viewers offered for an extension, as `(name, command)`:
/// text editors for text and source files, PDF viewers for PDFs, none
/// otherwise.
pub open spec fn app_candidates(e: Seq<char>) -> Seq<(Seq<char>, Seq<char>)> {
    if text_editor_exts().contains(e) {
        seq![("gedit"@, "gedit"@), ("kate"@, "kate"@), ("nano"@, "nano"@)]
    } else if e == "pdf"@ {
        seq![("Evince"@, "evince"@), ("Okular"@, "okular"@)]
    } else {
        Seq::empty()
    }
}


/// The candidates whose command is installed, as applications that are not
/// the default, in order.
pub open spec fn offered_apps(c: Seq<(Seq<char>, Seq<char>)>, installed: Seq<Seq<char>>) -> Seq<(Seq<char>, Seq<char>, bool)>
    decreases c.len(),
{
    if c.len() == 0 {
        Seq::empty()
    } else if installed.contains(c.last().1) {
        offered_apps(c.drop_last(), installed).push((c.last().0, c.last().1, false))
    } else {
        offered_apps(c.drop_last(), installed)
    }
}

/// The applications with every run of neighbours sharing an executable cut
/// to its first one (`Vec::dedup_by` on the path).
pub open spec fn dedup_paths(s: Seq<(Seq<char>, Seq<char>, bool)>) -> Seq<(Seq<char>, Seq<char>, bool)>
    decreases s.len(),
{
    if s.len() == 0 {
        Seq::empty()
    } else {
        let d = dedup_paths(s.drop_last());
        if d.len() > 0 && d.last().1 == s.last().1 {
            d
        } else {
            d.push(s.last())
        }
    }
}

/// The views of a list of strings.
pub open spec fn str_views(v: Seq<String>) -> Seq<Seq<char>> {
    v.map_values(|s: String| s@)
}

/// Whether `v` holds a string equal to `s`.
fn contains_string(v: &[String], s: &str) -> (r: bool)
    ensures
        r == str_views(v@).contains(s@),
{
    let mut i: usize = 0;
    while i < v.len()
        invariant
            i <= v@.len(),
            forall|k: int| 0 <= k < i ==> v@[k]@ != s@,
        decreases v@.len() - i,
    {
        if str_eq(v[i].as_str(), s) {
            proof {
                assert(str_views(v@)[i as int] == s@);
            }
            return true;
        }
        i = i + 1;
    }
    proof {
        if str_views(v@).contains(s@) {
            let k = choose|k: int| 0 <= k < str_views(v@).len() && str_views(v@)[k] == s@;
            assert(v@[k]@ == s@);
        }
    }
    false
}

/// Whether `s` is one of the literals in `opts`.
pub(crate) fn is_one_of(opts: &[&str], s: &str) -> (r: bool)
    ensures
        r == opts@.map_values(|o: &str| o@).contains(s@),
{
    let mut i: usize = 0;
    while i < opts.len()
        invariant
            i <= opts@.len(),
            forall|k: int| 0 <= k < i ==> opts@[k]@ != s@,
        decreases opts@.len() - i,
    {
        if str_eq(opts[i], s) {
            proof {
                assert(opts@.map_values(|o: &str| o@)[i as int] == s@);
            }
            return true;
        }
        i = i + 1;
    }
    proof {
        let views = opts@.map_values(|o: &str| o@);
        if views.contains(s@) {
            let k = choose|k: int| 0 <= k < views.len() && #[trigger] views[k] == s@;
            assert(opts@[k]@ == s@);
        }
    }
    false
}

/// A new string holding a literal.
pub(crate) fn owned(s: &str) -> (r: String)
    ensures
        r@ == s@,
{
    s.to_owned()
}

/// Appends the candidate `(name, cmd)` when `cmd` is installed.
fn offer_if_installed(apps: &mut Vec<AppInfo>, name: &str, cmd: &str, installed: &[String])
    ensures
        app_views(final(apps)@) == if str_views(installed@).contains(cmd@) {
            app_views(old(apps)@).push((name@, cmd@, false))
        } else {
            app_views(old(apps)@)
        },
{
    if contains_string(installed, cmd) {
        apps.push(AppInfo { name: owned(name), path: owned(cmd), is_default: false });
        proof {
            assert(app_views(apps@) =~= app_views(old(apps)@).push((name@, cmd@, false)));
        }
    }
}

/// The operating system the launcher works on.
#[derive(Debug, Clone, Copy, PartialEq, Eq, Structural)]
pub enum Platform {
    Windows,
    MacOs,
    Linux,
}

/// The extensions of images.
pub open spec fn image_exts() -> Seq<Seq<char>> {
    seq!["png"@, "jpg"@, "jpeg"@, "gif"@, "webp"@, "bmp"@, "ico"@]
}

/// A Windows path with `%USERNAME%` and `%USERPROFILE%` replaced by the
/// user's name and profile folder, each when known.
pub open spec fn expanded(path: Seq<char>, username: Option<Seq<char>>, profile: Option<Seq<char>>) -> Seq<char> {
    let a = match username {
        Some(u) => crate::text::replaced(path, "%USERNAME%"@, u),
        None => path,
    };
    match profile {
        Some(p) => crate::text::replaced(a, "%USERPROFILE%"@, p),
        None => a,
    }
}

/// The application `name` at the first of two paths that is present, if
/// either is.
pub open spec fn first_present(name: Seq<char>, p1: Seq<char>, p2: Seq<char>, present: Seq<Seq<char>>) -> Seq<(Seq<char>, Seq<char>, bool)> {
    if present.contains(p1) {
        seq![(name, p1, false)]
    } else if present.contains(p2) {
        seq![(name, p2, false)]
    } else {
        Seq::empty()
    }
}

/// The application `name` at `path` when that is present.
pub open spec fn if_present(name: Seq<char>, path: Seq<char>, present: Seq<Seq<char>>) -> Seq<(Seq<char>, Seq<char>, bool)> {
    if present.contains(path) {
        seq![(name, path, false)]
    } else {
        Seq::empty()
    }
}

/// The applications offered on Windows: Visual Studio Code (at its first
/// present place), Notepad++ when present, and Notepad for text and source
/// files; Photos and Paint for images; Adobe Acrobat (at its first present
/// place) and Microsoft Edge when present for PDFs.
pub open spec fn windows_apps(e: Seq<char>, present: Seq<Seq<char>>, username: Option<Seq<char>>, profile: Option<Seq<char>>) -> Seq<(Seq<char>, Seq<char>, bool)> {
    if text_editor_exts().contains(e) {
        first_present(
            "Visual Studio Code"@,
            expanded(r"C:\Program Files\Microsoft VS Code\Code.exe"@, username, profile),
            expanded(r"C:\Users\%USERNAME%\AppData\Local\Programs\Microsoft VS Code\Code.exe"@, username, profile),
            present,
        ) + if_present("Notepad++"@, r"C:\Program Files\Notepad++\notepad++.exe"@, present)
            + seq![("Notepad"@, r"C:\Windows\System32\notepad.exe"@, false)]
    } else if image_exts().contains(e) {
        seq![("Photos"@, "ms-photos:"@, false), ("Paint"@, r"C:\Windows\System32\mspaint.exe"@, false)]
    } else if e == "pdf"@ {
        first_present(
            "Adobe Acrobat"@,
            r"C:\Program Files\Adobe\Acrobat DC\Acrobat\Acrobat.exe"@,
            r"C:\Program Files (x86)\Adobe\Acrobat Reader DC\Reader\AcroRd32.exe"@,
            present,
        ) + if_present("Microsoft Edge"@, r"C:\Program Files (x86)\Microsoft\Edge\Application\msedge.exe"@, present)
    } else {
        Seq::empty()
    }
}

/// The applications offered on macOS: TextEdit for text and source files,
/// Preview for images and PDFs.
pub open spec fn macos_apps(e: Seq<char>) -> Seq<(Seq<char>, Seq<char>, bool)> {
    if text_editor_exts().contains(e) {
        seq![("TextEdit"@, "/Applications/TextEdit.app"@, false)]
    } else if image_exts().contains(e) || e == "pdf"@ {
        seq![("Preview"@, "/Applications/Preview.app"@, false)]
    } else {
        Seq::empty()
    }
}

/// The common applications offered on `platform` for an extension, among
/// the present programs (paths on Windows, commands on Linux).
pub open spec fn common_apps(
    platform: Platform,
    e: Seq<char>,
    present: Seq<Seq<char>>,
    username: Option<Seq<char>>,
    profile: Option<Seq<char>>,
) -> Seq<(Seq<char>, Seq<char>, bool)> {
    match platform {
        Platform::Windows => windows_apps(e, present, username, profile),
        Platform::MacOs => macos_apps(e),
        Platform::Linux => offered_apps(app_candidates(e), present),
    }
}

/// Offers `name` at the first of two paths that is present, if either is.
fn offer_first_present(apps: &mut Vec<AppInfo>, name: &str, p1: &str, p2: &str, present: &[String])
    ensures
        app_views(final(apps)@) == app_views(old(apps)@) + first_present(name@, p1@, p2@, str_views(present@)),
{
    if contains_string(present, p1) {
        apps.push(AppInfo { name: owned(name), path: owned(p1), is_default: false });
        proof {
            assert(app_views(apps@) =~= app_views(old(apps)@) + first_present(name@, p1@, p2@, str_views(present@)));
        }
    } else if contains_string(present, p2) {
        apps.push(AppInfo { name: owned(name), path: owned(p2), is_default: false });
        proof {
            assert(app_views(apps@) =~= app_views(old(apps)@) + first_present(name@, p1@, p2@, str_views(present@)));
        }
    } else {
        proof {
            assert(app_views(apps@) =~= app_views(old(apps)@) + first_present(name@, p1@, p2@, str_views(present@)));
        }
    }
}

/// Offers `name` at `path` when that is present.
fn offer_if_present(apps: &mut Vec<AppInfo>, name: &str, path: &str, present: &[String])
    ensures
        app_views(final(apps)@) == app_views(old(apps)@) + if_present(name@, path@, str_views(present@)),
{
    offer_if_installed(apps, name, path, present);
    proof {
        assert(app_views(apps@) =~= app_views(old(apps)@) + if_present(name@, path@, str_views(present@)));
    }
}

/// Offers `name` at `path`.
fn offer(apps: &mut Vec<AppInfo>, name: &str, path: &str)
    ensures
        app_views(final(apps)@) == app_views(old(apps)@).push((name@, path@, false)),
{
    apps.push(AppInfo { name: owned(name), path: owned(path), is_default: false });
    proof {
        assert(app_views(apps@) =~= app_views(old(apps)@).push((name@, path@, false)));
    }
}

/// Launches an application by hand.
pub struct AppLauncher {
    /// Applications found on the system, by extension.
    pub app_cache: Vec<(String, Vec<InstalledApp>)>,
    /// Whether the system was searched for applications.
    pub cache_populated: bool,
    /// The operating system.
    pub platform: Platform,
    /// The user's name (`USERNAME`), when known.
    pub username: Option<String>,
    /// The user's profile folder (`USERPROFILE`), when known.
    pub user_profile: Option<String>,
}

impl AppLauncher {
    /// The applications found on the system, by extension.
    pub closed spec fn cache(&self) -> Seq<(String, Vec<InstalledApp>)> {
        self.app_cache@
    }

    /// A launcher for Linux that has not searched the system yet.
    pub fn new() -> (l: Self)
        ensures
            !l.cache_populated,
            l.cache().len() == 0,
            l.platform == Platform::Linux,
            l.username is None,
            l.user_profile is None,
    {
        Self::for_platform(Platform::Linux, None, None)
    }

    /// A launcher for `platform`, with the user's name and profile folder
    /// when known, that has not searched the system yet.
    pub fn for_platform(platform: Platform, username: Option<String>, user_profile: Option<String>) -> (l: Self)
        ensures
            !l.cache_populated,
            l.cache().len() == 0,
            l.platform == platform,
            l.username == username,
            l.user_profile == user_profile,
    {
        AppLauncher { app_cache: Vec::new(), cache_populated: false, platform, username, user_profile }
    }

    /// The MIME type of an extension (already lowercase), for the types known
    /// here.
    pub fn get_mime_type(&self, extension: &str) -> (r: Option<String>)
        ensures
            match r {
                Some(m) => mime_of(extension@) == Some(m@),
                None => mime_of(extension@) is None,
            },
    {
        if str_eq(extension, "txt") {
            Some(owned("text/plain"))
        } else if str_eq(extension, "html") || str_eq(extension, "htm") {
            Some(owned("text/html"))
        } else if str_eq(extension, "css") {
            Some(owned("text/css"))
        } else if str_eq(extension, "js") {
            Some(owned("application/javascript"))
        } else if str_eq(extension, "json") {
            Some(owned("application/json"))
        } else if str_eq(extension, "xml") {
            Some(owned("application/xml"))
        } else if str_eq(extension, "pdf") {
            Some(owned("application/pdf"))
        } else if str_eq(extension, "png") {
            Some(owned("image/png"))
        } else if str_eq(extension, "jpg") || str_eq(extension, "jpeg") {
            Some(owned("image/jpeg"))
        } else if str_eq(extension, "gif") {
            Some(owned("image/gif"))
        } else if str_eq(extension, "webp") {
            Some(owned("image/webp"))
        } else if str_eq(extension, "svg") {
            Some(owned("image/svg+xml"))
        } else if str_eq(extension, "mp3") {
            Some(owned("audio/mpeg"))
        } else if str_eq(extension, "mp4") {
            Some(owned("video/mp4"))
        } else if str_eq(extension, "zip") {
            Some(owned("application/zip"))
        } else {
            None
        }
    }

    /// The path with environment variables expanded: on Windows
    /// `%USERNAME%` and `%USERPROFILE%` (see `expanded`); elsewhere the path
    /// comes back as it is.
    pub fn expand_env_vars(&self, path: &str) -> (r: String)
        ensures
            r@ == if self.platform == Platform::Windows {
                expanded(path@, opt_str(self.username), opt_str(self.user_profile))
            } else {
                path@
            },
    {
        if self.platform != Platform::Windows {
            return owned(path);
        }
        let a = match &self.username {
            Some(u) => crate::text::replace_text(path, "%USERNAME%", u.as_str()),
            None => owned(path),
        };
        match &self.user_profile {
            Some(p) => crate::text::replace_text(a.as_str(), "%USERPROFILE%", p.as_str()),
            None => a,
        }
    }

    /// The editors and viewers offered for an extension (already lowercase)
    /// among the present programs (see `common_apps`): on Linux gedit, kate
    /// and nano for text and source files and Evince and Okular for PDFs, each
    /// when its command is installed; on macOS and Windows those of
    /// `macos_apps` and `windows_apps`.
    pub fn get_common_apps_for_extension(&self, extension: &str, installed: &[String]) -> (r: Vec<AppInfo>)
        ensures
            app_views(r@) == common_apps(
                self.platform,
                extension@,
                str_views(installed@),
                opt_str(self.username),
                opt_str(self.user_profile),
            ),
    {
        match self.platform {
            Platform::Linux => linux_apps(extension, installed),
            Platform::MacOs => macos_apps_for(extension),
            Platform::Windows => self.windows_apps_for(extension, installed),
        }
    }

    /// The Windows applications for an extension (see `windows_apps`).
    fn windows_apps_for(&self, extension: &str, present: &[String]) -> (r: Vec<AppInfo>)
        requires
            self.platform == Platform::Windows,
        ensures
            app_views(r@) == windows_apps(extension@, str_views(present@), opt_str(self.username), opt_str(self.user_profile)),
    {
        let mut apps: Vec<AppInfo> = Vec::new();
        let text_exts: [&str; 18] = [
            "txt", "md", "rs", "py", "js", "ts", "json", "yaml", "yml", "toml",
            "xml", "html", "css", "java", "c", "cpp", "h", "go",
        ];
        let image: [&str; 7] = ["png", "jpg", "jpeg", "gif", "webp", "bmp", "ico"];
        proof {
            assert(text_exts@.map_values(|o: &str| o@) =~= text_editor_exts());
            assert(image@.map_values(|o: &str| o@) =~= image_exts());
            assert(app_views(apps@) =~= Seq::<(Seq<char>, Seq<char>, bool)>::empty());
        }
        if is_one_of(&text_exts, extension) {
            let p1 = self.expand_env_vars(r"C:\Program Files\Microsoft VS Code\Code.exe");
            let p2 = self.expand_env_vars(r"C:\Users\%USERNAME%\AppData\Local\Programs\Microsoft VS Code\Code.exe");
            offer_first_present(&mut apps, "Visual Studio Code", p1.as_str(), p2.as_str(), present);
            offer_if_present(&mut apps, "Notepad++", r"C:\Program Files\Notepad++\notepad++.exe", present);
            offer(&mut apps, "Notepad", r"C:\Windows\System32\notepad.exe");
            proof {
                assert(Seq::<(Seq<char>, Seq<char>, bool)>::empty() + first_present(
                    "Visual Studio Code"@, p1@, p2@, str_views(present@)) =~= first_present(
                    "Visual Studio Code"@, p1@, p2@, str_views(present@)));
                assert(app_views(apps@) =~= windows_apps(extension@, str_views(present@), opt_str(self.username), opt_str(self.user_profile)));
            }
        } else if is_one_of(&image, extension) {
            offer(&mut apps, "Photos", "ms-photos:");
            offer(&mut apps, "Paint", r"C:\Windows\System32\mspaint.exe");
            proof {
                assert(app_views(apps@) =~= windows_apps(extension@, str_views(present@), opt_str(self.username), opt_str(self.user_profile)));
            }
        } else if str_eq(extension, "pdf") {
            offer_first_present(
                &mut apps,
                "Adobe Acrobat",
                r"C:\Program Files\Adobe\Acrobat DC\Acrobat\Acrobat.exe",
                r"C:\Program Files (x86)\Adobe\Acrobat Reader DC\Reader\AcroRd32.exe",
                present,
            );
            offer_if_present(&mut apps, "Microsoft Edge", r"C:\Program Files (x86)\Microsoft\Edge\Application\msedge.exe", present);
            proof {
                assert(app_views(apps@) =~= windows_apps(extension@, str_views(present@), opt_str(self.username), opt_str(self.user_profile)));
            }
        }
        apps
    }
}

/// The macOS applications for an extension (see `macos_apps`).
fn macos_apps_for(extension: &str) -> (r: Vec<AppInfo>)
    ensures
        app_views(r@) == macos_apps(extension@),
{
    let mut apps: Vec<AppInfo> = Vec::new();
    let text_exts: [&str; 18] = [
        "txt", "md", "rs", "py", "js", "ts", "json", "yaml", "yml", "toml",
        "xml", "html", "css", "java", "c", "cpp", "h", "go",
    ];
    let image: [&str; 7] = ["png", "jpg", "jpeg", "gif", "webp", "bmp", "ico"];
    proof {
        assert(text_exts@.map_values(|o: &str| o@) =~= text_editor_exts());
        assert(image@.map_values(|o: &str| o@) =~= image_exts());
        assert(app_views(apps@) =~= Seq::<(Seq<char>, Seq<char>, bool)>::empty());
    }
    if is_one_of(&text_exts, extension) {
        offer(&mut apps, "TextEdit", "/Applications/TextEdit.app");
    } else if is_one_of(&image, extension) || str_eq(extension, "pdf") {
        offer(&mut apps, "Preview", "/Applications/Preview.app");
    }
    proof {
        assert(app_views(apps@) =~= macos_apps(extension@));
    }
    apps
}

/// The text of an optional string.
pub open spec fn opt_str(o: Option<String>) -> Option<Seq<char>> {
    match o {
        Some(s) => Some(s@),
        None => None,
    }
}

/// The Linux editors and viewers for an extension among the installed
/// commands (see `offered_apps`).
fn linux_apps(extension: &str, installed: &[String]) -> (r: Vec<AppInfo>)
    ensures
        app_views(r@) == offered_apps(app_candidates(extension@), str_views(installed@)),
{
    let mut apps: Vec<AppInfo> = Vec::new();
    let text_exts: [&str; 18] = [
        "txt", "md", "rs", "py", "js", "ts", "json", "yaml", "yml", "toml",
        "xml", "html", "css", "java", "c", "cpp", "h", "go",
    ];
    proof {
        assert(text_exts@.map_values(|o: &str| o@) =~= text_editor_exts());
        assert(app_views(apps@) =~= Seq::<(Seq<char>, Seq<char>, bool)>::empty());
    }
    let ghost inst = str_views(installed@);
    if is_one_of(&text_exts, extension) {
        offer_if_installed(&mut apps, "gedit", "gedit", installed);
        offer_if_installed(&mut apps, "kate", "kate", installed);
        offer_if_installed(&mut apps, "nano", "nano", installed);
        proof {
            let c = app_candidates(extension@);
            assert(c.drop_last().drop_last().drop_last() =~= Seq::<(Seq<char>, Seq<char>)>::empty());
            assert(c.drop_last().drop_last() =~= seq![("gedit"@, "gedit"@)]);
            assert(c.drop_last() =~= seq![("gedit"@, "gedit"@), ("kate"@, "kate"@)]);
            assert(offered_apps(c.drop_last().drop_last().drop_last(), inst) =~= Seq::<(Seq<char>, Seq<char>, bool)>::empty());
            reveal_with_fuel(offered_apps, 4);
            assert(app_views(apps@) == offered_apps(c, inst));
        }
    } else if str_eq(extension, "pdf") {
        offer_if_installed(&mut apps, "Evince", "evince", installed);
        offer_if_installed(&mut apps, "Okular", "okular", installed);
        proof {
            let c = app_candidates(extension@);
            assert(c.drop_last().drop_last() =~= Seq::<(Seq<char>, Seq<char>)>::empty());
            assert(c.drop_last() =~= seq![("Evince"@, "evince"@)]);
            assert(offered_apps(c.drop_last().drop_last(), inst) =~= Seq::<(Seq<char>, Seq<char>, bool)>::empty());
            reveal_with_fuel(offered_apps, 3);
            assert(app_views(apps@) == offered_apps(c, inst));
        }
    } else {
        proof {
            assert(app_candidates(extension@) =~= Seq::<(Seq<char>, Seq<char>)>::empty());
        }
    }
    apps
}

impl Default for AppLauncher {
    fn default() -> (l: Self)
        ensures
            !l.cache_populated,
            l.cache().len() == 0,
            l.platform == Platform::Linux,
            l.username is None,
            l.user_profile is None,
    {
        Self::new()
    }
}


/// The applications listed for `ext` in the cache: those of its first entry
/// with that extension, none when there is no such entry.
pub open spec fn cached_apps(cache: Seq<(String, Vec<InstalledApp>)>, ext: Seq<char>) -> Seq<(Seq<char>, Seq<char>, bool)>
    decreases cache.len(),
{
    if cache.len() == 0 {
        Seq::empty()
    } else if cache[0].0@ == ext {
        cache[0].1@.map_values(|a: InstalledApp| (a.name@, a.path@, a.is_default))
    } else {
        cached_apps(cache.drop_first(), ext)
    }
}

/// The applications offered for `ext`: those found on the system, then the
/// installed editors and viewers, without neighbours repeating an executable.
pub open spec fn available_apps(l: AppLauncher, ext: Seq<char>, installed: Seq<Seq<char>>) -> Seq<(Seq<char>, Seq<char>, bool)> {
    dedup_paths(cached_apps(l.cache(), ext) + common_apps(l.platform, ext, installed, opt_str(l.username), opt_str(l.user_profile)))
}

impl AppLauncher {
    /// The applications found on the system for `extension`.
    fn cached_for(&self, extension: &str) -> (r: Vec<AppInfo>)
        ensures
            app_views(r@) == cached_apps(self.cache(), extension@),
    {
        let mut i: usize = 0;
        proof {
            assert(self.cache().subrange(0, self.cache().len() as int) =~= self.cache());
        }
        while i < self.app_cache.len()
            invariant
                i <= self.app_cache@.len(),
                cached_apps(self.cache(), extension@) == cached_apps(self.cache().subrange(i as int, self.cache().len() as int), extension@),
            decreases self.app_cache@.len() - i,
        {
            let ghost rest = self.cache().subrange(i as int, self.cache().len() as int);
            proof {
                assert(rest.drop_first() =~= self.cache().subrange(i + 1, self.cache().len() as int));
                assert(rest[0] == self.cache()[i as int]);
            }
            if str_eq(self.app_cache[i].0.as_str(), extension) {
                let apps = &self.app_cache[i].1;
                let mut r: Vec<AppInfo> = Vec::new();
                let mut j: usize = 0;
                while j < apps.len()
                    invariant
                        j <= apps@.len(),
                        r@.len() == j,
                        forall|k: int| 0 <= k < j ==> app_view(#[trigger] r@[k]) == (apps@[k].name@, apps@[k].path@, apps@[k].is_default),
                    decreases apps@.len() - j,
                {
                    let a = &apps[j];
                    r.push(AppInfo { name: a.name.clone(), path: a.path.clone(), is_default: a.is_default });
                    j = j + 1;
                }
                proof {
                    assert(app_views(r@) =~= apps@.map_values(|a: InstalledApp| (a.name@, a.path@, a.is_default)));
                }
                return r;
            }
            i = i + 1;
        }
        let r: Vec<AppInfo> = Vec::new();
        proof {
            assert(self.cache().subrange(i as int, self.cache().len() as int).len() == 0);
            assert(app_views(r@) =~= Seq::<(Seq<char>, Seq<char>, bool)>::empty());
        }
        r
    }

    /// The applications offered for `extension` (already lowercase): those
    /// found on the system, then the installed editors and viewers, without
    /// neighbours repeating an executable.
    pub fn get_available_apps(&self, extension: &str, installed: &[String]) -> (r: Vec<AppInfo>)
        ensures
            app_views(r@) == available_apps(*self, extension@, str_views(installed@)),
    {
        let mut all = self.cached_for(extension);
        let mut common = self.get_common_apps_for_extension(extension, installed);
        let ghost a0 = app_views(all@);
        let ghost c0 = app_views(common@);
        all.append(&mut common);
        let ghost s = app_views(all@);
        proof {
            assert(s =~= a0 + c0);
        }
        let mut out: Vec<AppInfo> = Vec::new();
        let mut i: usize = 0;
        proof {
            assert(s.take(0) =~= Seq::<(Seq<char>, Seq<char>, bool)>::empty());
            assert(app_views(out@) =~= Seq::<(Seq<char>, Seq<char>, bool)>::empty());
        }
        while i < all.len()
            invariant
                s == app_views(all@),
                i <= all@.len(),
                app_views(out@) == dedup_paths(s.take(i as int)),
            decreases all@.len() - i,
        {
            proof {
                assert(s.take(i + 1).drop_last() =~= s.take(i as int));
                assert(s.take(i + 1).last() == app_view(all@[i as int]));
            }
            let keep = if out.len() > 0 {
                !str_eq(out[out.len() - 1].path.as_str(), all[i].path.as_str())
            } else {
                true
            };
            if keep {
                let x = all[i].clone();
                let ghost before = app_views(out@);
                out.push(x);
                proof {
                    assert(app_views(out@) =~= before.push(app_view(all@[i as int])));
                }
            }
            i = i + 1;
        }
        proof {
            assert(s.take(s.len() as int) =~= s);
        }
        out
    }

    /// The applications for `extension`: its lowercase form, its MIME type,
    /// no default application (the system's choice is looked up around the library) and the
    /// applications offered. The first call marks the system as searched.
    pub fn get_apps_for_extension(&mut self, extension: &str, installed: &[String]) -> (r: Result<FileTypeAssociation, LaunchError>)
        ensures
            final(self).cache_populated,
            final(self).cache() == old(self).cache(),
            final(self).platform == old(self).platform,
            final(self).username == old(self).username,
            final(self).user_profile == old(self).user_profile,
            r matches Ok(a) && ({
                let e = crate::utils::lowercase(extension@);
                &&& a.extension@ == e
                &&& match a.mime_type {
                    Some(m) => mime_of(e) == Some(m@),
                    None => mime_of(e) is None,
                }
                &&& a.default_app is None
                &&& app_views(a.available_apps@) == available_apps(*old(self), e, str_views(installed@))
            }),
    {
        if !self.cache_populated {
            self.cache_populated = true;
        }
        let extension_lower = crate::utils::to_lowercase(extension);
        let mime_type = self.get_mime_type(extension_lower.as_str());
        let available_apps = self.get_available_apps(extension_lower.as_str(), installed);
        Ok(FileTypeAssociation { extension: extension_lower, mime_type, default_app: None, available_apps })
    }

    /// The applications for the type of the file at `path`, by its
    /// extension (empty when it has none).
    pub fn get_apps_for_file(&mut self, path: &str, installed: &[String]) -> (r: Result<FileTypeAssociation, LaunchError>)
        ensures
            final(self).cache_populated,
            final(self).cache() == old(self).cache(),
            final(self).platform == old(self).platform,
            final(self).username == old(self).username,
            final(self).user_profile == old(self).user_profile,
            r matches Ok(a) && ({
                let x = match crate::utils::path_extension(path@) {
                    Some(e) => crate::utils::lowercase(e),
                    None => Seq::<char>::empty(),
                };
                let e = crate::utils::lowercase(x);
                &&& a.extension@ == e
                &&& a.default_app is None
                &&& app_views(a.available_apps@) == available_apps(*old(self), e, str_views(installed@))
            }),
    {
        let extension = crate::utils::get_extension(path);
        self.get_apps_for_extension(extension.as_str(), installed)
    }
}

/// The check made before a file is opened with its default application: it
/// must exist.
pub fn check_open_with_default(path: &str, path_exists: bool) -> (r: Result<(), LaunchError>)
    ensures
        path_exists <==> r is Ok,
        r matches Err(e) ==> e matches LaunchError::FileNotFound { path: p } && p@ == path@,
{
    if !path_exists {
        return Err(LaunchError::FileNotFound { path: owned(path) });
    }
    Ok(())
}

/// The checks made before a file is opened with a given application: the
/// file must exist, then the application.
pub fn check_open_with_app(path: &str, path_exists: bool, app: &AppInfo, app_exists: bool) -> (r: Result<(), LaunchError>)
    ensures
        (path_exists && app_exists) <==> r is Ok,
        !path_exists ==> (r matches Err(e) && e matches LaunchError::FileNotFound { path: p } && p@ == path@),
        path_exists && !app_exists ==> (r matches Err(e) && e matches LaunchError::AppNotFound { app: a } && a@ == app.name@),
{
    if !path_exists {
        return Err(LaunchError::FileNotFound { path: owned(path) });
    }
    if !app_exists {
        return Err(LaunchError::AppNotFound { app: app.name.clone() });
    }
    Ok(())
}

} // verus!
