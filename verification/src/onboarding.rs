//! First-launch onboarding: the directories suggested for watching, the checks
//! on the directories the user picked, and the values reported to the front
//! end. Looking at the file system is left to the caller, which hands in what
//! it found.

use vstd::prelude::*;
use crate::text::{str_eq, to_string, string_views};
use crate::utils::path_join;
use crate::launcher::Platform;

verus! {

/// A directory suggested for watching.
#[derive(Debug, Clone)]
pub struct DirectorySuggestion {
    /// Directory path.
    pub path: String,
    /// Display name.
    pub name: String,
    /// Description.
    pub description: String,
    /// Whether it is recommended.
    pub recommended: bool,
    /// Icon.
    pub icon: String,
}

/// Progress of the initial scan.
#[derive(Debug, Clone)]
pub struct ScanProgress {
    /// Whether a scan is running.
    pub is_scanning: bool,
    /// Files found.
    pub total_files: u64,
    /// Files processed.
    pub processed_files: u64,
    /// The file being processed.
    pub current_file: Option<String>,
    /// Estimated seconds left.
    pub estimated_time_remaining: Option<u64>,
    /// Whether the scan is done.
    pub is_complete: bool,
}

/// Outcome of onboarding.
#[derive(Debug, Clone)]
pub struct OnboardingResult {
    /// Whether it succeeded.
    pub success: bool,
    /// The error message, if any.
    pub error: Option<String>,
    /// The settings applied.
    pub config: Option<OnboardingConfigSummary>,
}

/// The settings applied by onboarding.
#[derive(Debug, Clone)]
pub struct OnboardingConfigSummary {
    /// Watched directories.
    pub monitored_directories: Vec<String>,
    /// Whether cloud features are on.
    pub cloud_enabled: bool,
}

/// What a path names on disk.
#[derive(Debug, Clone, Copy, PartialEq, Eq, Structural)]
pub enum PathKind {
    /// Nothing.
    Missing,
    /// Something that is not a directory.
    NotDirectory,
    /// A directory.
    Directory,
}

/// A suggestion as values: path, name, description, recommended, icon.
pub open spec fn suggestion_view(s: DirectorySuggestion) -> (Seq<char>, Seq<char>, Seq<char>, bool, Seq<char>) {
    (s.path@, s.name@, s.description@, s.recommended, s.icon@)
}

/// `rel` appended to the folder `dir` as `Path::join` does it on Windows
/// for a relative `rel` without a drive: with one `\` between them, none when
/// `dir` is empty or already ends with a separator (`\` or `/`).
pub open spec fn windows_join(dir: Seq<char>, rel: Seq<char>) -> Seq<char> {
    if dir.len() == 0 || dir.last() == '\\' || dir.last() == '/' {
        dir + rel
    } else {
        dir.push('\\') + rel
    }
}

/// The directories suggested under the home directory `home` (the profile
/// folder on Windows), in order: Downloads and Desktop (recommended),
/// Documents and Pictures, and on Windows also Videos.
pub open spec fn candidate_views(platform: Platform, home: Seq<char>) -> Seq<(Seq<char>, Seq<char>, Seq<char>, bool, Seq<char>)> {
    if platform == Platform::Windows {
        seq![
            (windows_join(home, "Downloads"@), "下载"@, "浏览器下载和应用导出的文件"@, true, "📥"@),
            (windows_join(home, "Desktop"@), "桌面"@, "桌面上的文件和快捷方式"@, true, "🖥️"@),
            (windows_join(home, "Documents"@), "文档"@, "个人文档和工作文件"@, false, "📄"@),
            (windows_join(home, "Pictures"@), "图片"@, "照片和图像文件"@, false, "🖼️"@),
            (windows_join(home, "Videos"@), "视频"@, "视频文件和录制内容"@, false, "🎬"@),
        ]
    } else {
        seq![
            (path_join(home, "Downloads"@), "下载"@, "浏览器下载和应用导出的文件"@, true, "📥"@),
            (path_join(home, "Desktop"@), "桌面"@, "桌面上的文件和快捷方式"@, true, "🖥️"@),
            (path_join(home, "Documents"@), "文档"@, "个人文档和工作文件"@, false, "📄"@),
            (path_join(home, "Pictures"@), "图片"@, "照片和图像文件"@, false, "🖼️"@),
        ]
    }
}

/// `rel` appended to `dir` as `Path::join` does it on Windows (see
/// `windows_join`).
fn join_windows(dir: &str, rel: &str) -> (r: String)
    ensures
        r@ == windows_join(dir@, rel@),
{
    let mut v = crate::text::chars_of(dir);
    let n = v.len();
    if n > 0 && v[n - 1] != '\\' && v[n - 1] != '/' {
        v.push('\\');
    }
    let ghost a = v@;
    crate::diluted::append_text(&mut v, rel);
    proof {
        if dir@.len() == 0 || dir@.last() == '\\' || dir@.last() == '/' {
            assert(a =~= dir@);
        } else {
            assert(a =~= dir@.push('\\'));
        }
    }
    crate::text::string_from_chars(v.as_slice())
}

/// The candidates whose directory is among `existing`, in order.
pub open spec fn existing_candidates(
    c: Seq<(Seq<char>, Seq<char>, Seq<char>, bool, Seq<char>)>,
    existing: Seq<Seq<char>>,
) -> Seq<(Seq<char>, Seq<char>, Seq<char>, bool, Seq<char>)>
    decreases c.len(),
{
    if c.len() == 0 {
        c
    } else {
        let rest = existing_candidates(c.drop_last(), existing);
        if existing.contains(c.last().0) {
            rest.push(c.last())
        } else {
            rest
        }
    }
}

fn suggestion(path: String, name: &str, description: &str, recommended: bool, icon: &str) -> (s: DirectorySuggestion)
    ensures
        suggestion_view(s) == (path@, name@, description@, recommended, icon@),
{
    DirectorySuggestion { path, name: to_string(name), description: to_string(description), recommended, icon: to_string(icon) }
}

/// The directories suggested under the home directory `home` (see
/// `candidate_views`).
pub fn candidate_directories(platform: Platform, home: &str) -> (r: Vec<DirectorySuggestion>)
    ensures
        r@.map_values(|s: DirectorySuggestion| suggestion_view(s)) == candidate_views(platform, home@),
{
    let mut r: Vec<DirectorySuggestion> = Vec::new();
    if platform == Platform::Windows {
        r.push(suggestion(join_windows(home, "Downloads"), "下载", "浏览器下载和应用导出的文件", true, "📥"));
        r.push(suggestion(join_windows(home, "Desktop"), "桌面", "桌面上的文件和快捷方式", true, "🖥️"));
        r.push(suggestion(join_windows(home, "Documents"), "文档", "个人文档和工作文件", false, "📄"));
        r.push(suggestion(join_windows(home, "Pictures"), "图片", "照片和图像文件", false, "🖼️"));
        r.push(suggestion(join_windows(home, "Videos"), "视频", "视频文件和录制内容", false, "🎬"));
    } else {
        r.push(suggestion(crate::utils::join_path(home, "Downloads"), "下载", "浏览器下载和应用导出的文件", true, "📥"));
        r.push(suggestion(crate::utils::join_path(home, "Desktop"), "桌面", "桌面上的文件和快捷方式", true, "🖥️"));
        r.push(suggestion(crate::utils::join_path(home, "Documents"), "文档", "个人文档和工作文件", false, "📄"));
        r.push(suggestion(crate::utils::join_path(home, "Pictures"), "图片", "照片和图像文件", false, "🖼️"));
    }
    proof {
        assert(r@.map_values(|s: DirectorySuggestion| suggestion_view(s)) =~= candidate_views(platform, home@));
    }
    r
}

fn contains_text(v: &[String], s: &str) -> (r: bool)
    ensures
        r == string_views(v@).contains(s@),
{
    let mut i: usize = 0;
    while i < v.len()
        invariant
            i <= v@.len(),
            forall|k: int| 0 <= k < i ==> v@[k]@ != s@,
        decreases v@.len() - i,
    {
        if str_eq(v[i].as_str(), s) {
            proof {
                assert(string_views(v@)[i as int] == s@);
            }
            return true;
        }
        i = i + 1;
    }
    proof {
        if string_views(v@).contains(s@) {
            let k = choose|k: int| 0 <= k < string_views(v@).len() && string_views(v@)[k] == s@;
            assert(v@[k]@ == s@);
        }
    }
    false
}

/// The suggested directories that exist: of those under the home directory
/// (the profile folder on Windows; none without one), the ones whose path is
/// among `existing`.
pub fn get_suggested_directories(platform: Platform, home: Option<&str>, existing: &[String]) -> (r: Vec<DirectorySuggestion>)
    ensures
        r@.map_values(|s: DirectorySuggestion| suggestion_view(s)) == match home {
            Some(h) => existing_candidates(candidate_views(platform, h@), string_views(existing@)),
            None => Seq::empty(),
        },
{
    let mut r: Vec<DirectorySuggestion> = Vec::new();
    match home {
        None => {
            proof {
                assert(r@.map_values(|s: DirectorySuggestion| suggestion_view(s)) =~= Seq::empty());
            }
            r
        },
        Some(h) => {
            let candidates = candidate_directories(platform, h);
            let ghost cv = candidate_views(platform, h@);
            let ghost ex = string_views(existing@);
            let mut i: usize = 0;
            proof {
                assert(cv.take(0) =~= Seq::empty());
                assert(r@.map_values(|s: DirectorySuggestion| suggestion_view(s)) =~= Seq::empty());
            }
            while i < candidates.len()
                invariant
                    candidates@.map_values(|s: DirectorySuggestion| suggestion_view(s)) == cv,
                    ex == string_views(existing@),
                    i <= candidates@.len(),
                    r@.map_values(|s: DirectorySuggestion| suggestion_view(s)) == existing_candidates(cv.take(i as int), ex),
                decreases candidates@.len() - i,
            {
                let c = &candidates[i];
                proof {
                    assert(cv.take(i + 1).drop_last() =~= cv.take(i as int));
                    assert(cv.take(i + 1).last() == cv[i as int]);
                    assert(cv[i as int] == suggestion_view(candidates@[i as int]));
                }
                if contains_text(existing, c.path.as_str()) {
                    let ghost before = r@.map_values(|s: DirectorySuggestion| suggestion_view(s));
                    let copy = DirectorySuggestion {
                        path: c.path.clone(),
                        name: c.name.clone(),
                        description: c.description.clone(),
                        recommended: c.recommended,
                        icon: c.icon.clone(),
                    };
                    r.push(copy);
                    proof {
                        assert(r@.map_values(|s: DirectorySuggestion| suggestion_view(s)) =~= before.push(cv[i as int]));
                    }
                }
                i = i + 1;
            }
            proof {
                assert(cv.take(candidates@.len() as int) =~= cv);
            }
            r
        },
    }
}

/// Whether a directory entry is passed over by the initial scan: hidden
/// entries and the usual tool and build directories.
pub open spec fn skipped_entry(name: Seq<char>) -> bool {
    (name.len() > 0 && name[0] == '.')
        || name == "node_modules"@ || name == "__pycache__"@ || name == "target"@
        || name == ".git"@ || name == "venv"@ || name == ".venv"@
}

/// Whether the initial scan passes over a directory entry of this name.
pub fn is_skipped_entry(name: &str) -> (r: bool)
    ensures
        r == skipped_entry(name@),
{
    let v = crate::text::chars_of(name);
    (v.len() > 0 && v[0] == '.')
        || str_eq(name, "node_modules") || str_eq(name, "__pycache__") || str_eq(name, "target")
        || str_eq(name, ".git") || str_eq(name, "venv") || str_eq(name, ".venv")
}

/// Whether onboarding is due: no settings file and onboarding not done.
pub fn check_first_launch(config_exists: bool, onboarding_done: bool) -> (r: bool)
    ensures
        r == (!config_exists && !onboarding_done),
{
    !config_exists && !onboarding_done
}

/// Where the settings file lives: `.config/neuralfs/config.json` under the
/// home directory, or `config.json` without one.
pub fn get_config_path(home: Option<&str>) -> (r: String)
    ensures
        r@ == match home {
            Some(h) => path_join(path_join(path_join(h@, ".config"@), "neuralfs"@), "config.json"@),
            None => "config.json"@,
        },
{
    match home {
        Some(h) => {
            let a = crate::utils::join_path(h, ".config");
            let b = crate::utils::join_path(a.as_str(), "neuralfs");
            crate::utils::join_path(b.as_str(), "config.json")
        },
        None => to_string("config.json"),
    }
}

/// The message for the first picked directory that is missing or is not a
/// directory, given what each path names; none when all are directories.
pub open spec fn directory_problem(dirs: Seq<Seq<char>>, kinds: Seq<PathKind>) -> Option<Seq<char>>
    decreases dirs.len(),
{
    if dirs.len() == 0 {
        None
    } else if kinds[0] == PathKind::Missing {
        Some("目录不存在: "@ + dirs[0])
    } else if kinds[0] == PathKind::NotDirectory {
        Some("路径不是目录: "@ + dirs[0])
    } else {
        directory_problem(dirs.drop_first(), kinds.drop_first())
    }
}

fn message(prefix: &str, s: &str) -> (r: String)
    ensures
        r@ == prefix@ + s@,
{
    let mut v = crate::text::chars_of(prefix);
    crate::diluted::append_text(&mut v, s);
    crate::text::string_from_chars(v.as_slice())
}

/// The check of the picked directories: the message for the first one that
/// is missing or is not a directory.
pub fn check_onboarding_directories(directories: &[String], kinds: &[PathKind]) -> (r: Option<String>)
    requires
        kinds@.len() == directories@.len(),
    ensures
        match r {
            Some(m) => directory_problem(string_views(directories@), kinds@) == Some(m@),
            None => directory_problem(string_views(directories@), kinds@) is None,
        },
{
    let ghost d = string_views(directories@);
    let mut i: usize = 0;
    proof {
        assert(d.skip(0) =~= d);
        assert(kinds@.skip(0) =~= kinds@);
    }
    while i < directories.len()
        invariant
            kinds@.len() == directories@.len(),
            d == string_views(directories@),
            i <= directories@.len(),
            directory_problem(d, kinds@) == directory_problem(d.skip(i as int), kinds@.skip(i as int)),
        decreases directories@.len() - i,
    {
        proof {
            assert(d.skip(i as int).drop_first() =~= d.skip(i + 1));
            assert(kinds@.skip(i as int).drop_first() =~= kinds@.skip(i + 1));
            assert(d.skip(i as int)[0] == directories@[i as int]@);
        }
        match kinds[i] {
            PathKind::Missing => {
                return Some(message("目录不存在: ", directories[i].as_str()));
            },
            PathKind::NotDirectory => {
                return Some(message("路径不是目录: ", directories[i].as_str()));
            },
            PathKind::Directory => {},
        }
        i = i + 1;
    }
    proof {
        assert(d.skip(i as int).len() == 0);
    }
    None
}

/// A failed onboarding with its message.
pub fn onboarding_failure(error: String) -> (r: OnboardingResult)
    ensures
        !r.success,
        r.error == Some(error),
        r.config is None,
{
    OnboardingResult { success: false, error: Some(error), config: None }
}

/// A successful onboarding that watches `directories`.
pub fn onboarding_success(directories: Vec<String>, cloud_enabled: bool) -> (r: OnboardingResult)
    ensures
        r.success,
        r.error is None,
        r.config matches Some(c) && c.monitored_directories == directories && c.cloud_enabled == cloud_enabled,
{
    OnboardingResult {
        success: true,
        error: None,
        config: Some(OnboardingConfigSummary { monitored_directories: directories, cloud_enabled }),
    }
}

} // verus!
