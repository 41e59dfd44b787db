//! Search: file kinds, the shapes of requests and results, and the helpers
//! of the search commands (file kinds by name, suggestions while typing,
//! clarifying questions).

use vstd::prelude::*;
use crate::text::{str_eq, to_string, chars_of, string_from_chars};
use crate::launcher::is_one_of;
use crate::utils::lowercase;

verus! {

/// The kind of a file.
#[derive(Debug, Clone, Copy, PartialEq, Eq, Hash, Structural)]
pub enum FileType {
    TextDocument,
    Pdf,
    OfficeDocument,
    Image,
    Video,
    Audio,
    Code,
    Model3D,
    Archive,
    Other,
}

/// Where a file is in indexing.
#[derive(Debug, Clone, Copy, PartialEq, Eq, Structural)]
pub enum IndexStatus {
    Pending,
    Indexing,
    Indexed,
    Failed,
    Skipped,
}

impl Default for IndexStatus {
    fn default() -> (s: Self)
        ensures
            s == IndexStatus::Pending,
    {
        IndexStatus::Pending
    }
}

/// How private a file is.
#[derive(Debug, Clone, Copy, PartialEq, Eq, Structural)]
pub enum PrivacyLevel {
    /// May be sent to the cloud.
    Normal,
    /// Processed locally only.
    Sensitive,
    /// Also kept out of relation suggestions.
    Private,
}

impl Default for PrivacyLevel {
    fn default() -> (s: Self)
        ensures
            s == PrivacyLevel::Normal,
    {
        PrivacyLevel::Normal
    }
}

/// Extensions of each kind of file.
pub open spec fn text_doc_exts() -> Seq<Seq<char>> {
    seq!["txt"@, "md"@, "markdown"@, "rst"@, "rtf"@]
}

pub open spec fn office_exts() -> Seq<Seq<char>> {
    seq!["doc"@, "docx"@, "xls"@, "xlsx"@, "ppt"@, "pptx"@, "odt"@, "ods"@, "odp"@]
}

pub open spec fn image_exts() -> Seq<Seq<char>> {
    seq!["png"@, "jpg"@, "jpeg"@, "gif"@, "webp"@, "svg"@, "bmp"@, "ico"@, "tiff"@]
}

pub open spec fn video_exts() -> Seq<Seq<char>> {
    seq!["mp4"@, "avi"@, "mkv"@, "mov"@, "wmv"@, "flv"@, "webm"@]
}

pub open spec fn audio_exts() -> Seq<Seq<char>> {
    seq!["mp3"@, "wav"@, "flac"@, "aac"@, "ogg"@, "wma"@, "m4a"@]
}

pub open spec fn code_exts() -> Seq<Seq<char>> {
    seq![
        "rs"@, "py"@, "js"@, "ts"@, "jsx"@, "tsx"@, "java"@, "c"@, "cpp"@, "h"@, "hpp"@, "cs"@,
        "go"@, "rb"@, "php"@, "swift"@, "kt"@, "scala"@, "html"@, "css"@, "scss"@, "json"@,
        "yaml"@, "yml"@, "toml"@, "xml"@, "sql"@,
    ]
}

pub open spec fn model_exts() -> Seq<Seq<char>> {
    seq!["obj"@, "fbx"@, "gltf"@, "glb"@, "stl"@, "3ds"@, "blend"@]
}

pub open spec fn archive_exts() -> Seq<Seq<char>> {
    seq!["zip"@, "tar"@, "gz"@, "7z"@, "rar"@, "bz2"@, "xz"@]
}

/// The kind of a file with the (lowercase) extension `e`.
pub open spec fn file_type_of(e: Seq<char>) -> FileType {
    if text_doc_exts().contains(e) {
        FileType::TextDocument
    } else if e == "pdf"@ {
        FileType::Pdf
    } else if office_exts().contains(e) {
        FileType::OfficeDocument
    } else if image_exts().contains(e) {
        FileType::Image
    } else if video_exts().contains(e) {
        FileType::Video
    } else if audio_exts().contains(e) {
        FileType::Audio
    } else if code_exts().contains(e) {
        FileType::Code
    } else if model_exts().contains(e) {
        FileType::Model3D
    } else if archive_exts().contains(e) {
        FileType::Archive
    } else {
        FileType::Other
    }
}

impl FileType {
    /// The kind of a file with extension `ext` (in any case).
    pub fn from_extension(ext: &str) -> (t: Self)
        ensures
            t == file_type_of(lowercase(ext@)),
            crate::utils::all_ascii(ext@) ==> t == file_type_of(crate::utils::ascii_lowered(ext@)),
    {
        let lower = crate::utils::to_lowercase(ext);
        let e = lower.as_str();
        let text: [&str; 5] = ["txt", "md", "markdown", "rst", "rtf"];
        let office: [&str; 9] = ["doc", "docx", "xls", "xlsx", "ppt", "pptx", "odt", "ods", "odp"];
        let image: [&str; 9] = ["png", "jpg", "jpeg", "gif", "webp", "svg", "bmp", "ico", "tiff"];
        let video: [&str; 7] = ["mp4", "avi", "mkv", "mov", "wmv", "flv", "webm"];
        let audio: [&str; 7] = ["mp3", "wav", "flac", "aac", "ogg", "wma", "m4a"];
        let code: [&str; 27] = [
            "rs", "py", "js", "ts", "jsx", "tsx", "java", "c", "cpp", "h", "hpp", "cs",
            "go", "rb", "php", "swift", "kt", "scala", "html", "css", "scss", "json",
            "yaml", "yml", "toml", "xml", "sql",
        ];
        let model: [&str; 7] = ["obj", "fbx", "gltf", "glb", "stl", "3ds", "blend"];
        let archive: [&str; 7] = ["zip", "tar", "gz", "7z", "rar", "bz2", "xz"];
        proof {
            assert(text@.map_values(|o: &str| o@) =~= text_doc_exts());
            assert(office@.map_values(|o: &str| o@) =~= office_exts());
            assert(image@.map_values(|o: &str| o@) =~= image_exts());
            assert(video@.map_values(|o: &str| o@) =~= video_exts());
            assert(audio@.map_values(|o: &str| o@) =~= audio_exts());
            assert(code@.map_values(|o: &str| o@) =~= code_exts());
            assert(model@.map_values(|o: &str| o@) =~= model_exts());
            assert(archive@.map_values(|o: &str| o@) =~= archive_exts());
        }
        if is_one_of(&text, e) {
            FileType::TextDocument
        } else if str_eq(e, "pdf") {
            FileType::Pdf
        } else if is_one_of(&office, e) {
            FileType::OfficeDocument
        } else if is_one_of(&image, e) {
            FileType::Image
        } else if is_one_of(&video, e) {
            FileType::Video
        } else if is_one_of(&audio, e) {
            FileType::Audio
        } else if is_one_of(&code, e) {
            FileType::Code
        } else if is_one_of(&model, e) {
            FileType::Model3D
        } else if is_one_of(&archive, e) {
            FileType::Archive
        } else {
            FileType::Other
        }
    }
}

/// The kind a (lowercase) filter name stands for.
pub open spec fn file_type_of_name(s: Seq<char>) -> Option<FileType> {
    if s == "pdf"@ {
        Some(FileType::Pdf)
    } else if s == "text"@ || s == "txt"@ || s == "text_document"@ {
        Some(FileType::TextDocument)
    } else if s == "office"@ || s == "doc"@ || s == "docx"@ || s == "office_document"@ {
        Some(FileType::OfficeDocument)
    } else if s == "image"@ || s == "img"@ || s == "png"@ || s == "jpg"@ || s == "jpeg"@ {
        Some(FileType::Image)
    } else if s == "video"@ || s == "mp4"@ || s == "avi"@ {
        Some(FileType::Video)
    } else if s == "audio"@ || s == "mp3"@ || s == "wav"@ {
        Some(FileType::Audio)
    } else if s == "code"@ || s == "source"@ {
        Some(FileType::Code)
    } else if s == "model"@ || s == "3d"@ || s == "model_3d"@ {
        Some(FileType::Model3D)
    } else if s == "archive"@ || s == "zip"@ || s == "rar"@ {
        Some(FileType::Archive)
    } else {
        None
    }
}

/// The kind a search filter names (in any case), if any.
pub fn parse_file_type(type_str: &str) -> (r: Option<FileType>)
    ensures
        r == file_type_of_name(lowercase(type_str@)),
{
    let lower = crate::utils::to_lowercase(type_str);
    let s = lower.as_str();
    if str_eq(s, "pdf") {
        Some(FileType::Pdf)
    } else if str_eq(s, "text") || str_eq(s, "txt") || str_eq(s, "text_document") {
        Some(FileType::TextDocument)
    } else if str_eq(s, "office") || str_eq(s, "doc") || str_eq(s, "docx") || str_eq(s, "office_document") {
        Some(FileType::OfficeDocument)
    } else if str_eq(s, "image") || str_eq(s, "img") || str_eq(s, "png") || str_eq(s, "jpg") || str_eq(s, "jpeg") {
        Some(FileType::Image)
    } else if str_eq(s, "video") || str_eq(s, "mp4") || str_eq(s, "avi") {
        Some(FileType::Video)
    } else if str_eq(s, "audio") || str_eq(s, "mp3") || str_eq(s, "wav") {
        Some(FileType::Audio)
    } else if str_eq(s, "code") || str_eq(s, "source") {
        Some(FileType::Code)
    } else if str_eq(s, "model") || str_eq(s, "3d") || str_eq(s, "model_3d") {
        Some(FileType::Model3D)
    } else if str_eq(s, "archive") || str_eq(s, "zip") || str_eq(s, "rar") {
        Some(FileType::Archive)
    } else {
        None
    }
}

/// Paging of results.
#[derive(Debug, Clone, Copy, PartialEq, Eq, Structural)]
pub struct Pagination {
    pub offset: u32,
    pub limit: u32,
}

impl Default for Pagination {
    fn default() -> (p: Self)
        ensures
            p.offset == 0,
            p.limit == 20,
    {
        Pagination { offset: 0, limit: 20 }
    }
}

/// How a search went.
#[derive(Debug, Clone, Copy, PartialEq, Eq, Structural)]
pub enum SearchStatus {
    Success,
    PartialSuccess,
    NeedsClarity,
    NoResults,
    Error,
}

/// Where a result came from.
#[derive(Debug, Clone, Copy, PartialEq, Eq, Structural)]
pub enum ResultSource {
    LocalVector,
    LocalTag,
    CloudEnhanced,
}

/// Whether a result is a file or a piece of one.
#[derive(Debug, Clone, Copy, PartialEq, Eq, Structural)]
pub enum SearchResultType {
    File,
    ContentChunk,
}

/// The kind of a result's preview.
#[derive(Debug, Clone, Copy, PartialEq, Eq, Structural)]
pub enum PreviewType {
    Text,
    Image,
    Thumbnail,
    Metadata,
}

/// A result's preview.
#[derive(Debug, Clone)]
pub enum PreviewContent {
    Text { snippet: String, full_text: Option<String> },
    Image { thumbnail_base64: String, width: u32, height: u32 },
    /// Named values, each name once.
    Metadata { entries: Vec<(String, String)> },
}

/// A result's preview with its kind.
#[derive(Debug, Clone)]
pub struct ResultPreview {
    pub preview_type: PreviewType,
    pub content: PreviewContent,
}

/// The kind of a highlight.
#[derive(Debug, Clone, Copy, PartialEq, Eq, Structural)]
pub enum HighlightType {
    ExactMatch,
    SemanticMatch,
    KeywordMatch,
}

/// A highlighted stretch of a preview.
#[derive(Debug, Clone, Copy, PartialEq, Eq, Structural)]
pub struct Highlight {
    pub start: u32,
    pub end: u32,
    pub highlight_type: HighlightType,
}

/// A time span, in milliseconds since the Unix epoch; either end may be
/// open.
#[derive(Debug, Clone, Copy, PartialEq, Eq, Structural)]
pub struct TimeRange {
    pub start: Option<i64>,
    pub end: Option<i64>,
}

/// What a query asks for.
#[derive(Debug)]
pub enum SearchIntent {
    FindFile { file_type_hint: Option<FileType>, time_hint: Option<TimeRange> },
    FindContent { content_type: Option<crate::chunk::ChunkType>, need_location: bool },
    Ambiguous { possible_intents: Vec<SearchIntent>, clarification_questions: Vec<String> },
}

/// A time span as the front end sends it (RFC 3339 ends).
#[derive(Debug, Clone)]
pub struct TimeRangeDto {
    pub start: Option<String>,
    pub end: Option<String>,
}

/// A clarifying question with its answers.
#[derive(Debug, Clone)]
pub struct ClarificationDto {
    pub question: String,
    pub options: Vec<ClarificationOptionDto>,
}

/// An answer to a clarifying question.
#[derive(Debug, Clone)]
pub struct ClarificationOptionDto {
    pub text: String,
    pub estimated_count: Option<u64>,
}

/// A suggestion while the user types.
#[derive(Debug, Clone)]
pub struct SearchSuggestion {
    pub text: String,
    pub suggestion_type: String,
    pub icon: Option<String>,
}

/// A suggestion as values: text, kind, icon.
pub open spec fn suggestion_view(s: SearchSuggestion) -> (Seq<char>, Seq<char>, Option<Seq<char>>) {
    (s.text@, s.suggestion_type@, match s.icon {
        Some(i) => Some(i@),
        None => None,
    })
}

/// Suggestions as values.
pub open spec fn suggestion_views(s: Seq<SearchSuggestion>) -> Seq<(Seq<char>, Seq<char>, Option<Seq<char>>)> {
    s.map_values(|x: SearchSuggestion| suggestion_view(x))
}

/// The questions of an ambiguous query, each with the answers "Find files"
/// and "Find content"; no question for a clear one.
pub fn build_clarifications(intent: &SearchIntent) -> (r: Vec<ClarificationDto>)
    ensures
        match *intent {
            SearchIntent::Ambiguous { clarification_questions: qs, .. } => {
                &&& r@.len() == qs@.len()
                &&& forall|k: int| 0 <= k < r@.len() ==> {
                    let c = #[trigger] r@[k];
                    &&& c.question@ == qs@[k]@
                    &&& c.options@.len() == 2
                    &&& c.options@[0].text@ == "Find files"@
                    &&& c.options@[0].estimated_count is None
                    &&& c.options@[1].text@ == "Find content"@
                    &&& c.options@[1].estimated_count is None
                }
            },
            _ => r@.len() == 0,
        },
{
    let mut r: Vec<ClarificationDto> = Vec::new();
    match intent {
        SearchIntent::Ambiguous { clarification_questions, .. } => {
            let qs = clarification_questions;
            let mut i: usize = 0;
            while i < qs.len()
                invariant
                    i <= qs@.len(),
                    r@.len() == i,
                    forall|k: int| 0 <= k < i ==> {
                        let c = #[trigger] r@[k];
                        &&& c.question@ == qs@[k]@
                        &&& c.options@.len() == 2
                        &&& c.options@[0].text@ == "Find files"@
                        &&& c.options@[0].estimated_count is None
                        &&& c.options@[1].text@ == "Find content"@
                        &&& c.options@[1].estimated_count is None
                    },
                decreases qs@.len() - i,
            {
                let mut options: Vec<ClarificationOptionDto> = Vec::new();
                options.push(ClarificationOptionDto { text: to_string("Find files"), estimated_count: None });
                options.push(ClarificationOptionDto { text: to_string("Find content"), estimated_count: None });
                r.push(ClarificationDto { question: qs[i].clone(), options });
                i = i + 1;
            }
        },
        _ => {},
    }
    r
}


/// Whether `t` occurs in `s`.
pub open spec fn has_sub(s: Seq<char>, t: Seq<char>) -> bool {
    exists|i: int| 0 <= i && i + t.len() <= s.len() && #[trigger] s.subrange(i, i + t.len()) == t
}

/// Whether `t` occurs in `s`, on characters.
pub fn str_contains(s: &str, t: &str) -> (r: bool)
    ensures
        r == has_sub(s@, t@),
{
    let a = chars_of(s);
    let b = chars_of(t);
    if b.len() > a.len() {
        return false;
    }
    let last = a.len() - b.len();
    let mut i: usize = 0;
    while i <= last
        invariant
            a@ == s@,
            b@ == t@,
            last == a@.len() - b@.len(),
            b@.len() <= a@.len(),
            i <= last,
            forall|j: int| 0 <= j < i ==> #[trigger] a@.subrange(j, j + b@.len()) != b@,
        ensures
            forall|j: int| 0 <= j <= last ==> #[trigger] a@.subrange(j, j + b@.len()) != b@,
        decreases last + 1 - i,
    {
        let mut k: usize = 0;
        while k < b.len()
            invariant
                a@ == s@,
                b@ == t@,
                i + b@.len() <= a@.len(),
                i + b.len() <= a.len(),
                k <= b@.len(),
                forall|m: int| 0 <= m < k ==> a@[i + m] == b@[m],
            ensures
                k <= b@.len(),
                forall|m: int| 0 <= m < k ==> a@[i + m] == b@[m],
                k < b@.len() ==> a@[i + k] != b@[k as int],
            decreases b@.len() - k,
        {
            if a[i + k] != b[k] {
                break;
            }
            k = k + 1;
        }
        if k == b.len() {
            proof {
                assert(a@.subrange(i as int, i + b@.len()) =~= b@);
            }
            return true;
        }
        proof {
            assert(a@.subrange(i as int, i + b@.len())[k as int] == a@[i + k]);
            assert(a@.subrange(i as int, i + b@.len()) != b@);
        }
        if i == last {
            break;
        }
        i = i + 1;
    }
    proof {
        assert forall|j: int| 0 <= j && j + t@.len() <= s@.len() implies #[trigger] s@.subrange(j, j + t@.len()) != t@ by {
            assert(j <= last);
        }
    }
    false
}

/// The file kinds suggested while typing: keyword, suggestion text, icon.
pub open spec fn type_table() -> Seq<(Seq<char>, Seq<char>, Seq<char>)> {
    seq![
        ("pdf"@, "type:pdf_documents"@, "📕"@),
        ("doc"@, "type:word_documents"@, "📘"@),
        ("image"@, "type:images"@, "🖼️"@),
        ("video"@, "type:videos"@, "🎬"@),
        ("code"@, "type:source_code"@, "💻"@),
        ("audio"@, "type:audio_files"@, "🎵"@),
    ]
}

/// The file-kind suggestions for `q` among the first `n` table entries: those
/// whose keyword holds `q` or is held in `q`.
pub open spec fn type_suggestions(q: Seq<char>, n: int) -> Seq<(Seq<char>, Seq<char>, Option<Seq<char>>)>
    decreases n,
{
    if n <= 0 {
        Seq::empty()
    } else {
        let e = type_table()[n - 1];
        let rest = type_suggestions(q, n - 1);
        if has_sub(e.0, q) || has_sub(q, e.0) {
            rest.push((e.1, "file_type"@, Some(e.2)))
        } else {
            rest
        }
    }
}

/// Adds the suggestion of table entry `(kw, text, icon)` when it matches `q`.
fn suggest_type(out: &mut Vec<SearchSuggestion>, q: &str, kw: &str, text: &str, icon: &str)
    ensures
        suggestion_views(final(out)@) == if has_sub(kw@, q@) || has_sub(q@, kw@) {
            suggestion_views(old(out)@).push((text@, "file_type"@, Some(icon@)))
        } else {
            suggestion_views(old(out)@)
        },
{
    if str_contains(kw, q) || str_contains(q, kw) {
        out.push(SearchSuggestion { text: to_string(text), suggestion_type: to_string("file_type"), icon: Some(to_string(icon)) });
        proof {
            assert(suggestion_views(out@) =~= suggestion_views(old(out)@).push((text@, "file_type"@, Some(icon@))));
        }
    }
}

/// The file kinds to suggest for a (lowercase) query: those whose keyword
/// holds the query or is held in it.
pub fn get_file_type_suggestions(query: &str) -> (r: Vec<SearchSuggestion>)
    ensures
        suggestion_views(r@) == type_suggestions(query@, 6),
{
    let mut out: Vec<SearchSuggestion> = Vec::new();
    proof {
        assert(suggestion_views(out@) =~= type_suggestions(query@, 0));
    }
    suggest_type(&mut out, query, "pdf", "type:pdf_documents", "📕");
    proof { assert(suggestion_views(out@) == type_suggestions(query@, 1)); }
    suggest_type(&mut out, query, "doc", "type:word_documents", "📘");
    proof { assert(suggestion_views(out@) == type_suggestions(query@, 2)); }
    suggest_type(&mut out, query, "image", "type:images", "🖼️");
    proof { assert(suggestion_views(out@) == type_suggestions(query@, 3)); }
    suggest_type(&mut out, query, "video", "type:videos", "🎬");
    proof { assert(suggestion_views(out@) == type_suggestions(query@, 4)); }
    suggest_type(&mut out, query, "code", "type:source_code", "💻");
    proof { assert(suggestion_views(out@) == type_suggestions(query@, 5)); }
    suggest_type(&mut out, query, "audio", "type:audio_files", "🎵");
    out
}

/// The suggestions for a query while typing, at most `limit` (10 when not
/// given): up to three file kinds matching the lowercase query; a tag search
/// when the lowercase query has two bytes or more; and, for a non-empty
/// query, searches for files and for content.
pub open spec fn search_suggestions(q: Seq<char>, limit: int) -> Seq<(Seq<char>, Seq<char>, Option<Seq<char>>)> {
    let lower = lowercase(q);
    let types = type_suggestions(lower, 6);
    let s1 = if types.len() <= 3 { types } else { types.take(3) };
    let s2 = if crate::text::byte_len(lower) >= 2 {
        s1.push(("tag:"@ + q, "tag"@, Some("🏷️"@)))
    } else {
        s1
    };
    let s3 = if q.len() > 0 {
        s2.push((q + " files"@, "completion"@, Some("📄"@))).push((q + " content"@, "completion"@, Some("📝"@)))
    } else {
        s2
    };
    if s3.len() <= limit { s3 } else { s3.take(limit) }
}

/// `prefix` followed by `s`, or `s` followed by `suffix`.
fn joined(a: &str, b: &str) -> (r: String)
    ensures
        r@ == a@ + b@,
{
    let mut v = chars_of(a);
    crate::diluted::append_text(&mut v, b);
    string_from_chars(v.as_slice())
}

/// Whether `s` takes two bytes or more in UTF-8.
fn has_two_bytes(s: &str) -> (r: bool)
    ensures
        r == (crate::text::byte_len(s@) >= 2),
{
    let v = chars_of(s);
    if v.len() >= 2 {
        proof {
            crate::text::lemma_byte_len_bounds(v@, 2);
        }
        true
    } else if v.len() == 1 {
        proof {
            assert(v@.drop_last() =~= Seq::<char>::empty());
            assert(crate::text::byte_len(v@.drop_last()) == 0);
            assert(crate::text::byte_len(v@) == crate::text::utf8_len(v@[0]));
        }
        crate::text::char_len(v[0]) >= 2
    } else {
        false
    }
}

/// The suggestions for a query while typing.
pub fn get_search_suggestions(query: &str, limit: Option<u32>) -> (r: Vec<SearchSuggestion>)
    ensures
        suggestion_views(r@) == search_suggestions(query@, match limit {
            Some(l) => l as int,
            None => 10,
        }),
{
    let limit: usize = match limit {
        Some(l) => l as usize,
        None => 10,
    };
    let query_lower = crate::utils::to_lowercase(query);
    let types = get_file_type_suggestions(query_lower.as_str());
    let mut out: Vec<SearchSuggestion> = Vec::new();
    let mut i: usize = 0;
    while i < types.len() && i < 3
        invariant
            i <= types@.len(),
            i <= 3,
            out@.len() == i,
            forall|k: int| 0 <= k < i ==> suggestion_view(#[trigger] out@[k]) == suggestion_view(types@[k]),
        decreases types@.len() - i,
    {
        let t = &types[i];
        let icon = match &t.icon {
            Some(x) => Some(x.clone()),
            None => None,
        };
        out.push(SearchSuggestion { text: t.text.clone(), suggestion_type: t.suggestion_type.clone(), icon });
        i = i + 1;
    }
    proof {
        assert(suggestion_views(out@) =~= suggestion_views(types@).take(i as int));
        let tv = suggestion_views(types@);
        if tv.len() <= 3 {
            assert(tv.take(tv.len() as int) =~= tv);
        }
    }
    if has_two_bytes(query_lower.as_str()) {
        let ghost before = suggestion_views(out@);
        out.push(SearchSuggestion { text: joined("tag:", query), suggestion_type: to_string("tag"), icon: Some(to_string("🏷️")) });
        proof {
            assert(suggestion_views(out@) =~= before.push(("tag:"@ + query@, "tag"@, Some("🏷️"@))));
        }
    }
    if !query.is_empty() {
        let ghost before = suggestion_views(out@);
        out.push(SearchSuggestion { text: joined(query, " files"), suggestion_type: to_string("completion"), icon: Some(to_string("📄")) });
        out.push(SearchSuggestion { text: joined(query, " content"), suggestion_type: to_string("completion"), icon: Some(to_string("📝")) });
        proof {
            assert(suggestion_views(out@) =~= before.push((query@ + " files"@, "completion"@, Some("📄"@))).push((query@ + " content"@, "completion"@, Some("📝"@))));
        }
    }
    let ghost full = suggestion_views(out@);
    out.truncate(limit);
    proof {
        if full.len() <= limit {
            assert(suggestion_views(out@) =~= full);
        } else {
            assert(suggestion_views(out@) =~= full.take(limit as int));
        }
    }
    out
}


/// What `chrono::DateTime::parse_from_rfc3339` gives for a text, as the
/// milliseconds since the Unix epoch of the instant (none for a text it
/// refuses).
pub uninterp spec fn rfc3339_millis(s: Seq<char>) -> Option<i64>;

/// `chrono::DateTime::parse_from_rfc3339(s)`, taken to UTC and counted in
/// milliseconds since the Unix epoch; `None` when chrono refuses the text.
#[verifier::external_body]
fn parse_rfc3339_millis(s: &str) -> (r: Option<i64>)
    ensures
        r == rfc3339_millis(s@),
{
    match chrono::DateTime::parse_from_rfc3339(s) {
        Ok(t) => Some(t.timestamp_millis()),
        Err(_) => None,
    }
}

/// The bit pattern of the `f32` score 0.3, the default lowest score.
pub const DEFAULT_MIN_SCORE_BITS: u32 = 0x3E99999A;

/// A search request from the front end. The lowest score is carried as the
/// bit pattern of its `f32` value.
#[derive(Debug, Clone)]
pub struct SearchFilesRequest {
    pub query: String,
    pub file_types: Option<Vec<String>>,
    pub tag_ids: Option<Vec<String>>,
    pub time_range: Option<TimeRangeDto>,
    pub min_score: Option<u32>,
    pub exclude_private: Option<bool>,
    pub enable_cloud: Option<bool>,
    pub offset: Option<u32>,
    pub limit: Option<u32>,
}

/// The filters of a search. The lowest score is carried as the bit pattern
/// of its `f32` value.
#[derive(Debug, Clone)]
pub struct SearchFilters {
    pub file_types: Option<Vec<FileType>>,
    pub tags: Option<Vec<u128>>,
    pub exclude_tags: Option<Vec<u128>>,
    pub time_range: Option<TimeRange>,
    pub path_prefix: Option<String>,
    pub min_score: u32,
    pub exclude_private: bool,
}

/// The kinds named by `names`, in order, skipping names of no kind.
pub open spec fn parsed_types(names: Seq<Seq<char>>) -> Seq<FileType>
    decreases names.len(),
{
    if names.len() == 0 {
        Seq::empty()
    } else {
        match file_type_of_name(lowercase(names.last())) {
            Some(t) => parsed_types(names.drop_last()).push(t),
            None => parsed_types(names.drop_last()),
        }
    }
}

/// The UUIDs among `ids`, in order, skipping texts that are none.
pub open spec fn parsed_ids(ids: Seq<Seq<char>>) -> Seq<u128>
    decreases ids.len(),
{
    if ids.len() == 0 {
        Seq::empty()
    } else {
        match crate::utils::uuid_parse(ids.last()) {
            Ok(v) => parsed_ids(ids.drop_last()).push(v),
            Err(_) => parsed_ids(ids.drop_last()),
        }
    }
}

/// An optional text's instant, if it is one.
pub open spec fn instant_of(s: Option<Seq<char>>) -> Option<i64> {
    match s {
        Some(t) => rfc3339_millis(t),
        None => None,
    }
}

/// The filters a request asks for: the kinds it names (when any is known),
/// the tags it names (when any is a UUID), the time range (when either end
/// is an instant), the lowest score (0.3 by default) and whether private
/// files are left out (not by default).
pub open spec fn filters_for(
    file_types: Option<Seq<Seq<char>>>,
    tag_ids: Option<Seq<Seq<char>>>,
    time_range: Option<(Option<Seq<char>>, Option<Seq<char>>)>,
    min_score: Option<u32>,
    exclude_private: Option<bool>,
) -> (Option<Seq<FileType>>, Option<Seq<u128>>, Option<TimeRange>, u32, bool) {
    let types = match file_types {
        Some(n) => if parsed_types(n).len() > 0 { Some(parsed_types(n)) } else { None },
        None => None,
    };
    let tags = match tag_ids {
        Some(n) => if parsed_ids(n).len() > 0 { Some(parsed_ids(n)) } else { None },
        None => None,
    };
    let range = match time_range {
        Some((s, e)) => if instant_of(s) is Some || instant_of(e) is Some {
            Some(TimeRange { start: instant_of(s), end: instant_of(e) })
        } else {
            None
        },
        None => None,
    };
    let score = match min_score {
        Some(m) => m,
        None => DEFAULT_MIN_SCORE_BITS,
    };
    let private = match exclude_private {
        Some(b) => b,
        None => false,
    };
    (types, tags, range, score, private)
}

/// Optional texts as values.
pub open spec fn opt_texts(o: Option<Vec<String>>) -> Option<Seq<Seq<char>>> {
    match o {
        Some(v) => Some(crate::text::string_views(v@)),
        None => None,
    }
}

/// An optional text as a value.
pub open spec fn opt_text(o: Option<String>) -> Option<Seq<char>> {
    match o {
        Some(s) => Some(s@),
        None => None,
    }
}

/// The filters as values.
pub open spec fn filters_view(f: SearchFilters) -> (Option<Seq<FileType>>, Option<Seq<u128>>, Option<TimeRange>, u32, bool) {
    (
        match f.file_types {
            Some(v) => Some(v@),
            None => None,
        },
        match f.tags {
            Some(v) => Some(v@),
            None => None,
        },
        f.time_range,
        f.min_score,
        f.exclude_private,
    )
}

fn parse_types(names: &Vec<String>) -> (r: Vec<FileType>)
    ensures
        r@ == parsed_types(crate::text::string_views(names@)),
{
    let ghost n = crate::text::string_views(names@);
    let mut r: Vec<FileType> = Vec::new();
    let mut i: usize = 0;
    while i < names.len()
        invariant
            n == crate::text::string_views(names@),
            i <= names@.len(),
            r@ == parsed_types(n.take(i as int)),
        decreases names@.len() - i,
    {
        proof {
            assert(n.take(i + 1).drop_last() =~= n.take(i as int));
            assert(n.take(i + 1).last() == names@[i as int]@);
        }
        match parse_file_type(names[i].as_str()) {
            Some(t) => r.push(t),
            None => {},
        }
        i = i + 1;
    }
    proof {
        assert(n.take(names@.len() as int) =~= n);
    }
    r
}

fn parse_ids(ids: &Vec<String>) -> (r: Vec<u128>)
    ensures
        r@ == parsed_ids(crate::text::string_views(ids@)),
{
    let ghost n = crate::text::string_views(ids@);
    let mut r: Vec<u128> = Vec::new();
    let mut i: usize = 0;
    while i < ids.len()
        invariant
            n == crate::text::string_views(ids@),
            i <= ids@.len(),
            r@ == parsed_ids(n.take(i as int)),
        decreases ids@.len() - i,
    {
        proof {
            assert(n.take(i + 1).drop_last() =~= n.take(i as int));
            assert(n.take(i + 1).last() == ids@[i as int]@);
        }
        match crate::utils::parse_uuid(ids[i].as_str()) {
            Ok(v) => r.push(v),
            Err(_) => {},
        }
        i = i + 1;
    }
    proof {
        assert(n.take(ids@.len() as int) =~= n);
    }
    r
}

fn parse_instant(s: &Option<String>) -> (r: Option<i64>)
    ensures
        r == instant_of(opt_text(*s)),
{
    match s {
        Some(t) => parse_rfc3339_millis(t.as_str()),
        None => None,
    }
}

/// The filters a search request asks for.
pub fn build_search_filters(request: &SearchFilesRequest) -> (r: Result<SearchFilters, String>)
    ensures
        r matches Ok(f) && filters_view(f) == filters_for(
            opt_texts(request.file_types),
            opt_texts(request.tag_ids),
            match request.time_range {
                Some(t) => Some((opt_text(t.start), opt_text(t.end))),
                None => None,
            },
            request.min_score,
            request.exclude_private,
        ) && f.exclude_tags is None && f.path_prefix is None,
        r matches Ok(f) && (request.exclude_private matches Some(b) ==> f.exclude_private == b),
        r matches Ok(f) && (request.exclude_private is None ==> !f.exclude_private),
        r matches Ok(f) && (request.min_score matches Some(m) ==> f.min_score == m),
        r matches Ok(f) && (request.min_score is None ==> f.min_score == 0x3E99999Au32),
{
    let file_types = match &request.file_types {
        Some(names) => {
            let v = parse_types(names);
            if v.len() > 0 { Some(v) } else { None }
        },
        None => None,
    };
    let tags = match &request.tag_ids {
        Some(ids) => {
            let v = parse_ids(ids);
            if v.len() > 0 { Some(v) } else { None }
        },
        None => None,
    };
    let time_range = match &request.time_range {
        Some(t) => {
            let start = parse_instant(&t.start);
            let end = parse_instant(&t.end);
            if start.is_some() || end.is_some() {
                Some(TimeRange { start, end })
            } else {
                None
            }
        },
        None => None,
    };
    let min_score = match request.min_score {
        Some(m) => m,
        None => DEFAULT_MIN_SCORE_BITS,
    };
    let exclude_private = match request.exclude_private {
        Some(b) => b,
        None => false,
    };
    Ok(SearchFilters { file_types, tags, exclude_tags: None, time_range, path_prefix: None, min_score, exclude_private })
}


/// The filters keep what the request asks for: private files are left out
/// exactly when the request says so (not when it says nothing), and the
/// lowest score is the requested one, 0.3 (`0x3E99999A` as `f32` bits) when
/// none is given.
pub proof fn lemma_filters_follow_request(
    file_types: Option<Seq<Seq<char>>>,
    tag_ids: Option<Seq<Seq<char>>>,
    time_range: Option<(Option<Seq<char>>, Option<Seq<char>>)>,
    min_score: Option<u32>,
    exclude_private: Option<bool>,
)
    ensures
        exclude_private matches Some(b) ==> filters_for(file_types, tag_ids, time_range, min_score, exclude_private).4 == b,
        exclude_private is None ==> !filters_for(file_types, tag_ids, time_range, min_score, exclude_private).4,
        min_score matches Some(m) ==> filters_for(file_types, tag_ids, time_range, min_score, exclude_private).3 == m,
        min_score is None ==> filters_for(file_types, tag_ids, time_range, min_score, exclude_private).3 == 0x3E99999Au32,
{
}


/// The `k`-th character of `s` as a number, 0 past its end.
spec fn char_at(s: Seq<char>, k: int) -> int {
    if k < s.len() { s[k] as int } else { 0 }
}

/// A number that tells apart the texts of at most eight characters below
/// 256: their length, then their characters.
spec fn ext_key(s: Seq<char>) -> int {
    s.len() + 16 * (char_at(s, 0) + 256 * (char_at(s, 1) + 256 * (char_at(s, 2) + 256 * (char_at(s, 3)
        + 256 * (char_at(s, 4) + 256 * (char_at(s, 5) + 256 * (char_at(s, 6) + 256 * char_at(s, 7))))))))
}

proof fn lemma_keys_text()
    ensures
        ext_key("txt"@) == 122128195,
        ext_key("md"@) == 411346,
        ext_key("markdown"@) == 127359253495851390680,
        ext_key("rst"@) == 122107683,
        ext_key("rtf"@) == 107431715,
{
    reveal_strlit("txt");
    reveal_strlit("md");
    reveal_strlit("markdown");
    reveal_strlit("rst");
    reveal_strlit("rtf");
}

proof fn lemma_keys_pdf()
    ensures
        ext_key("pdf"@) == 107366147,
{
    reveal_strlit("pdf");
}

proof fn lemma_keys_office()
    ensures
        ext_key("doc"@) == 104265283,
        ext_key("docx"@) == 32316520004,
        ext_key("xls"@) == 121030531,
        ext_key("xlsx"@) == 32333285252,
        ext_key("ppt"@) == 122095363,
        ext_key("pptx"@) == 32334350084,
        ext_key("odt"@) == 122046195,
        ext_key("ods"@) == 120997619,
        ext_key("odp"@) == 117851891,
{
    reveal_strlit("doc");
    reveal_strlit("docx");
    reveal_strlit("xls");
    reveal_strlit("xlsx");
    reveal_strlit("ppt");
    reveal_strlit("pptx");
    reveal_strlit("odt");
    reveal_strlit("ods");
    reveal_strlit("odp");
}

proof fn lemma_keys_image()
    ensures
        ext_key("png"@) == 108455683,
        ext_key("jpg"@) == 108463779,
        ext_key("jpeg"@) == 27755218596,
        ext_key("gif"@) == 107386483,
        ext_key("webp"@) == 30167947124,
        ext_key("svg"@) == 108488499,
        ext_key("bmp"@) == 117888547,
        ext_key("ico"@) == 116799123,
        ext_key("tiff"@) == 27487803204,
{
    reveal_strlit("png");
    reveal_strlit("jpg");
    reveal_strlit("jpeg");
    reveal_strlit("gif");
    reveal_strlit("webp");
    reveal_strlit("svg");
    reveal_strlit("bmp");
    reveal_strlit("ico");
    reveal_strlit("tiff");
}

proof fn lemma_keys_video()
    ensures
        ext_key("mp4"@) == 54986451,
        ext_key("avi"@) == 110585363,
        ext_key("mkv"@) == 124171987,
        ext_key("mov"@) == 124188371,
        ext_key("wmv"@) == 124180339,
        ext_key("flv"@) == 124175971,
        ext_key("webm"@) == 29362640756,
{
    reveal_strlit("mp4");
    reveal_strlit("avi");
    reveal_strlit("mkv");
    reveal_strlit("mov");
    reveal_strlit("wmv");
    reveal_strlit("flv");
    reveal_strlit("webm");
}

proof fn lemma_keys_audio()
    ensures
        ext_key("mp3"@) == 53937875,
        ext_key("wav"@) == 124131187,
        ext_key("flac"@) == 26677266020,
        ext_key("aac"@) == 104207891,
        ext_key("ogg"@) == 108426995,
        ext_key("wma"@) == 102160243,
        ext_key("m4a"@) == 101926611,
{
    reveal_strlit("mp3");
    reveal_strlit("wav");
    reveal_strlit("flac");
    reveal_strlit("aac");
    reveal_strlit("ogg");
    reveal_strlit("wma");
    reveal_strlit("m4a");
}

proof fn lemma_keys_code()
    ensures
        ext_key("rs"@) == 472866,
        ext_key("py"@) == 497410,
        ext_key("js"@) == 472738,
        ext_key("ts"@) == 472898,
        ext_key("jsx"@) == 126301859,
        ext_key("tsx"@) == 126302019,
        ext_key("java"@) == 26162370212,
        ext_key("c"@) == 1585,
        ext_key("cpp"@) == 117900851,
        ext_key("h"@) == 1665,
        ext_key("hpp"@) == 117900931,
        ext_key("cs"@) == 472626,
        ext_key("go"@) == 456306,
        ext_key("rb"@) == 403234,
        ext_key("php"@) == 117868291,
        ext_key("swift"@) == 7998950307637,
        ext_key("kt"@) == 476850,
        ext_key("scala"@) == 6694882391861,
        ext_key("html"@) == 29105800836,
        ext_key("css"@) == 121058867,
        ext_key("scss"@) == 30991071028,
        ext_key("json"@) == 29644764836,
        ext_key("yaml"@) == 29105723284,
        ext_key("yml"@) == 113694611,
        ext_key("toml"@) == 29105780548,
        ext_key("xml"@) == 113694595,
        ext_key("sql"@) == 113710899,
{
    reveal_strlit("rs");
    reveal_strlit("py");
    reveal_strlit("js");
    reveal_strlit("ts");
    reveal_strlit("jsx");
    reveal_strlit("tsx");
    reveal_strlit("java");
    reveal_strlit("c");
    reveal_strlit("cpp");
    reveal_strlit("h");
    reveal_strlit("hpp");
    reveal_strlit("cs");
    reveal_strlit("go");
    reveal_strlit("rb");
    reveal_strlit("php");
    reveal_strlit("swift");
    reveal_strlit("kt");
    reveal_strlit("scala");
    reveal_strlit("html");
    reveal_strlit("css");
    reveal_strlit("scss");
    reveal_strlit("json");
    reveal_strlit("yaml");
    reveal_strlit("yml");
    reveal_strlit("toml");
    reveal_strlit("xml");
    reveal_strlit("sql");
}

proof fn lemma_keys_model()
    ensures
        ext_key("obj"@) == 111552243,
        ext_key("fbx"@) == 126232163,
        ext_key("gltf"@) == 27502495348,
        ext_key("glb"@) == 103204467,
        ext_key("stl"@) == 113723187,
        ext_key("3ds"@) == 120996659,
        ext_key("blend"@) == 6901581923877,
{
    reveal_strlit("obj");
    reveal_strlit("fbx");
    reveal_strlit("gltf");
    reveal_strlit("glb");
    reveal_strlit("stl");
    reveal_strlit("3ds");
    reveal_strlit("blend");
}

proof fn lemma_keys_archive()
    ensures
        ext_key("zip"@) == 117872547,
        ext_key("tar"@) == 119936835,
        ext_key("gz"@) == 501362,
        ext_key("7z"@) == 500594,
        ext_key("rar"@) == 119936803,
        ext_key("bz2"@) == 52930083,
        ext_key("xz"@) == 501634,
{
    reveal_strlit("zip");
    reveal_strlit("tar");
    reveal_strlit("gz");
    reveal_strlit("7z");
    reveal_strlit("rar");
    reveal_strlit("bz2");
    reveal_strlit("xz");
}

proof fn lemma_kind_text()
    ensures
        file_type_of("txt"@) == FileType::TextDocument,
        file_type_of("md"@) == FileType::TextDocument,
        file_type_of("markdown"@) == FileType::TextDocument,
        file_type_of("rst"@) == FileType::TextDocument,
        file_type_of("rtf"@) == FileType::TextDocument,
{
    lemma_keys_text();
}

proof fn lemma_kind_pdf()
    ensures
        file_type_of("pdf"@) == FileType::Pdf,
{
    lemma_keys_text();
    lemma_keys_pdf();
}

proof fn lemma_kind_office()
    ensures
        file_type_of("doc"@) == FileType::OfficeDocument,
        file_type_of("docx"@) == FileType::OfficeDocument,
        file_type_of("xls"@) == FileType::OfficeDocument,
        file_type_of("xlsx"@) == FileType::OfficeDocument,
        file_type_of("ppt"@) == FileType::OfficeDocument,
        file_type_of("pptx"@) == FileType::OfficeDocument,
        file_type_of("odt"@) == FileType::OfficeDocument,
        file_type_of("ods"@) == FileType::OfficeDocument,
        file_type_of("odp"@) == FileType::OfficeDocument,
{
    lemma_keys_text();
    lemma_keys_pdf();
    lemma_keys_office();
}

proof fn lemma_kind_image()
    ensures
        file_type_of("png"@) == FileType::Image,
        file_type_of("jpg"@) == FileType::Image,
        file_type_of("jpeg"@) == FileType::Image,
        file_type_of("gif"@) == FileType::Image,
        file_type_of("webp"@) == FileType::Image,
        file_type_of("svg"@) == FileType::Image,
        file_type_of("bmp"@) == FileType::Image,
        file_type_of("ico"@) == FileType::Image,
        file_type_of("tiff"@) == FileType::Image,
{
    lemma_keys_text();
    lemma_keys_pdf();
    lemma_keys_office();
    lemma_keys_image();
}

proof fn lemma_kind_video()
    ensures
        file_type_of("mp4"@) == FileType::Video,
        file_type_of("avi"@) == FileType::Video,
        file_type_of("mkv"@) == FileType::Video,
        file_type_of("mov"@) == FileType::Video,
        file_type_of("wmv"@) == FileType::Video,
        file_type_of("flv"@) == FileType::Video,
        file_type_of("webm"@) == FileType::Video,
{
    lemma_keys_text();
    lemma_keys_pdf();
    lemma_keys_office();
    lemma_keys_image();
    lemma_keys_video();
}

proof fn lemma_kind_audio()
    ensures
        file_type_of("mp3"@) == FileType::Audio,
        file_type_of("wav"@) == FileType::Audio,
        file_type_of("flac"@) == FileType::Audio,
        file_type_of("aac"@) == FileType::Audio,
        file_type_of("ogg"@) == FileType::Audio,
        file_type_of("wma"@) == FileType::Audio,
        file_type_of("m4a"@) == FileType::Audio,
{
    lemma_keys_text();
    lemma_keys_pdf();
    lemma_keys_office();
    lemma_keys_image();
    lemma_keys_video();
    lemma_keys_audio();
}

proof fn lemma_kind_code_0()
    ensures
        file_type_of("rs"@) == FileType::Code,
        file_type_of("py"@) == FileType::Code,
        file_type_of("js"@) == FileType::Code,
        file_type_of("ts"@) == FileType::Code,
        file_type_of("jsx"@) == FileType::Code,
        file_type_of("tsx"@) == FileType::Code,
        file_type_of("java"@) == FileType::Code,
{
    lemma_keys_text();
    lemma_keys_pdf();
    lemma_keys_office();
    lemma_keys_image();
    lemma_keys_video();
    lemma_keys_audio();
    lemma_keys_code();
}

proof fn lemma_kind_code_1()
    ensures
        file_type_of("c"@) == FileType::Code,
        file_type_of("cpp"@) == FileType::Code,
        file_type_of("h"@) == FileType::Code,
        file_type_of("hpp"@) == FileType::Code,
        file_type_of("cs"@) == FileType::Code,
        file_type_of("go"@) == FileType::Code,
        file_type_of("rb"@) == FileType::Code,
{
    lemma_keys_text();
    lemma_keys_pdf();
    lemma_keys_office();
    lemma_keys_image();
    lemma_keys_video();
    lemma_keys_audio();
    lemma_keys_code();
}

proof fn lemma_kind_code_2()
    ensures
        file_type_of("php"@) == FileType::Code,
        file_type_of("swift"@) == FileType::Code,
        file_type_of("kt"@) == FileType::Code,
        file_type_of("scala"@) == FileType::Code,
        file_type_of("html"@) == FileType::Code,
        file_type_of("css"@) == FileType::Code,
        file_type_of("scss"@) == FileType::Code,
{
    lemma_keys_text();
    lemma_keys_pdf();
    lemma_keys_office();
    lemma_keys_image();
    lemma_keys_video();
    lemma_keys_audio();
    lemma_keys_code();
}

proof fn lemma_kind_code_3()
    ensures
        file_type_of("json"@) == FileType::Code,
        file_type_of("yaml"@) == FileType::Code,
        file_type_of("yml"@) == FileType::Code,
        file_type_of("toml"@) == FileType::Code,
        file_type_of("xml"@) == FileType::Code,
        file_type_of("sql"@) == FileType::Code,
{
    lemma_keys_text();
    lemma_keys_pdf();
    lemma_keys_office();
    lemma_keys_image();
    lemma_keys_video();
    lemma_keys_audio();
    lemma_keys_code();
}

proof fn lemma_kind_code()
    ensures
        file_type_of("rs"@) == FileType::Code,
        file_type_of("py"@) == FileType::Code,
        file_type_of("js"@) == FileType::Code,
        file_type_of("ts"@) == FileType::Code,
        file_type_of("jsx"@) == FileType::Code,
        file_type_of("tsx"@) == FileType::Code,
        file_type_of("java"@) == FileType::Code,
        file_type_of("c"@) == FileType::Code,
        file_type_of("cpp"@) == FileType::Code,
        file_type_of("h"@) == FileType::Code,
        file_type_of("hpp"@) == FileType::Code,
        file_type_of("cs"@) == FileType::Code,
        file_type_of("go"@) == FileType::Code,
        file_type_of("rb"@) == FileType::Code,
        file_type_of("php"@) == FileType::Code,
        file_type_of("swift"@) == FileType::Code,
        file_type_of("kt"@) == FileType::Code,
        file_type_of("scala"@) == FileType::Code,
        file_type_of("html"@) == FileType::Code,
        file_type_of("css"@) == FileType::Code,
        file_type_of("scss"@) == FileType::Code,
        file_type_of("json"@) == FileType::Code,
        file_type_of("yaml"@) == FileType::Code,
        file_type_of("yml"@) == FileType::Code,
        file_type_of("toml"@) == FileType::Code,
        file_type_of("xml"@) == FileType::Code,
        file_type_of("sql"@) == FileType::Code,
{
    lemma_kind_code_0();
    lemma_kind_code_1();
    lemma_kind_code_2();
    lemma_kind_code_3();
}

proof fn lemma_kind_model()
    ensures
        file_type_of("obj"@) == FileType::Model3D,
        file_type_of("fbx"@) == FileType::Model3D,
        file_type_of("gltf"@) == FileType::Model3D,
        file_type_of("glb"@) == FileType::Model3D,
        file_type_of("stl"@) == FileType::Model3D,
        file_type_of("3ds"@) == FileType::Model3D,
        file_type_of("blend"@) == FileType::Model3D,
{
    lemma_keys_text();
    lemma_keys_pdf();
    lemma_keys_office();
    lemma_keys_image();
    lemma_keys_video();
    lemma_keys_audio();
    lemma_keys_code();
    lemma_keys_model();
}

proof fn lemma_kind_archive()
    ensures
        file_type_of("zip"@) == FileType::Archive,
        file_type_of("tar"@) == FileType::Archive,
        file_type_of("gz"@) == FileType::Archive,
        file_type_of("7z"@) == FileType::Archive,
        file_type_of("rar"@) == FileType::Archive,
        file_type_of("bz2"@) == FileType::Archive,
        file_type_of("xz"@) == FileType::Archive,
{
    lemma_keys_text();
    lemma_keys_pdf();
    lemma_keys_office();
    lemma_keys_image();
    lemma_keys_video();
    lemma_keys_audio();
    lemma_keys_code();
    lemma_keys_model();
    lemma_keys_archive();
}

/// Each extension of the table maps to its kind: `txt`, `md`, `markdown`,
/// `rst`, `rtf` are text documents; `pdf` is a PDF (and nothing else is);
/// `doc` to `odp` office documents; `png` to `tiff` images; `mp4` to `webm`
/// videos; `mp3` to `m4a` audio; `rs` to `sql` code; `obj` to `blend` 3D
/// models; `zip` to `xz` archives.
pub proof fn lemma_file_type_table()
    ensures
        file_type_of("txt"@) == FileType::TextDocument,
        file_type_of("md"@) == FileType::TextDocument,
        file_type_of("markdown"@) == FileType::TextDocument,
        file_type_of("rst"@) == FileType::TextDocument,
        file_type_of("rtf"@) == FileType::TextDocument,
        file_type_of("pdf"@) == FileType::Pdf,
        file_type_of("doc"@) == FileType::OfficeDocument,
        file_type_of("docx"@) == FileType::OfficeDocument,
        file_type_of("xls"@) == FileType::OfficeDocument,
        file_type_of("xlsx"@) == FileType::OfficeDocument,
        file_type_of("ppt"@) == FileType::OfficeDocument,
        file_type_of("pptx"@) == FileType::OfficeDocument,
        file_type_of("odt"@) == FileType::OfficeDocument,
        file_type_of("ods"@) == FileType::OfficeDocument,
        file_type_of("odp"@) == FileType::OfficeDocument,
        file_type_of("png"@) == FileType::Image,
        file_type_of("jpg"@) == FileType::Image,
        file_type_of("jpeg"@) == FileType::Image,
        file_type_of("gif"@) == FileType::Image,
        file_type_of("webp"@) == FileType::Image,
        file_type_of("svg"@) == FileType::Image,
        file_type_of("bmp"@) == FileType::Image,
        file_type_of("ico"@) == FileType::Image,
        file_type_of("tiff"@) == FileType::Image,
        file_type_of("mp4"@) == FileType::Video,
        file_type_of("avi"@) == FileType::Video,
        file_type_of("mkv"@) == FileType::Video,
        file_type_of("mov"@) == FileType::Video,
        file_type_of("wmv"@) == FileType::Video,
        file_type_of("flv"@) == FileType::Video,
        file_type_of("webm"@) == FileType::Video,
        file_type_of("mp3"@) == FileType::Audio,
        file_type_of("wav"@) == FileType::Audio,
        file_type_of("flac"@) == FileType::Audio,
        file_type_of("aac"@) == FileType::Audio,
        file_type_of("ogg"@) == FileType::Audio,
        file_type_of("wma"@) == FileType::Audio,
        file_type_of("m4a"@) == FileType::Audio,
        file_type_of("rs"@) == FileType::Code,
        file_type_of("py"@) == FileType::Code,
        file_type_of("js"@) == FileType::Code,
        file_type_of("ts"@) == FileType::Code,
        file_type_of("jsx"@) == FileType::Code,
        file_type_of("tsx"@) == FileType::Code,
        file_type_of("java"@) == FileType::Code,
        file_type_of("c"@) == FileType::Code,
        file_type_of("cpp"@) == FileType::Code,
        file_type_of("h"@) == FileType::Code,
        file_type_of("hpp"@) == FileType::Code,
        file_type_of("cs"@) == FileType::Code,
        file_type_of("go"@) == FileType::Code,
        file_type_of("rb"@) == FileType::Code,
        file_type_of("php"@) == FileType::Code,
        file_type_of("swift"@) == FileType::Code,
        file_type_of("kt"@) == FileType::Code,
        file_type_of("scala"@) == FileType::Code,
        file_type_of("html"@) == FileType::Code,
        file_type_of("css"@) == FileType::Code,
        file_type_of("scss"@) == FileType::Code,
        file_type_of("json"@) == FileType::Code,
        file_type_of("yaml"@) == FileType::Code,
        file_type_of("yml"@) == FileType::Code,
        file_type_of("toml"@) == FileType::Code,
        file_type_of("xml"@) == FileType::Code,
        file_type_of("sql"@) == FileType::Code,
        file_type_of("obj"@) == FileType::Model3D,
        file_type_of("fbx"@) == FileType::Model3D,
        file_type_of("gltf"@) == FileType::Model3D,
        file_type_of("glb"@) == FileType::Model3D,
        file_type_of("stl"@) == FileType::Model3D,
        file_type_of("3ds"@) == FileType::Model3D,
        file_type_of("blend"@) == FileType::Model3D,
        file_type_of("zip"@) == FileType::Archive,
        file_type_of("tar"@) == FileType::Archive,
        file_type_of("gz"@) == FileType::Archive,
        file_type_of("7z"@) == FileType::Archive,
        file_type_of("rar"@) == FileType::Archive,
        file_type_of("bz2"@) == FileType::Archive,
        file_type_of("xz"@) == FileType::Archive,
        forall|e: Seq<char>| file_type_of(e) == FileType::Pdf <==> e == "pdf"@,
{
    lemma_kind_text();
    lemma_kind_pdf();
    lemma_kind_office();
    lemma_kind_image();
    lemma_kind_video();
    lemma_kind_audio();
    lemma_kind_code();
    lemma_kind_model();
    lemma_kind_archive();
}

} // verus!
