//! Anonymization of the text sent to a cloud service: user names, paths into
//! the user's folders, e-mail addresses, IP addresses and patterns of the
//! user's own are replaced by placeholders.
//!
//! Matching uses the `regex` crate. What the environment says of the user
//! (the `USERNAME` or `USER` variable, and `HOME` or `USERPROFILE`) is read by
//! the caller and handed over as a `UserEnvironment`.

use vstd::prelude::*;
use crate::text::{append_chars, chars_of, replace_text, replaced, string_from_chars, string_views, to_string};
use crate::search::{has_sub, str_contains};

verus! {

/// A compiled regular expression of the `regex` crate.
#[verifier::external_type_specification]
#[verifier::external_body]
pub struct ExRegex(regex::Regex);

/// Whether `regex::Regex::new` accepts `pattern`.
pub uninterp spec fn regex_compiles(pattern: Seq<char>) -> bool;

/// The parts of `haystack` between the successive non-overlapping matches of
/// `pattern`, as `regex::Regex::split` yields them.
pub uninterp spec fn regex_split(pattern: Seq<char>, haystack: Seq<char>) -> Seq<Seq<char>>;

/// For each successive non-overlapping match of `pattern` in `haystack`, the
/// matched text and that of its first group, as `regex::Regex::captures_iter`
/// yields them.
pub uninterp spec fn regex_captures(pattern: Seq<char>, haystack: Seq<char>) -> Seq<(Seq<char>, Option<Seq<char>>)>;

/// `haystack` with every match of `pattern` replaced by `rep`, as
/// `regex::Regex::replace_all` gives it.
pub uninterp spec fn regex_replace_all(pattern: Seq<char>, haystack: Seq<char>, rep: Seq<char>) -> Seq<char>;

/// Whether `pattern` matches anywhere in `haystack`, as
/// `regex::Regex::is_match` answers.
pub uninterp spec fn regex_is_match(pattern: Seq<char>, haystack: Seq<char>) -> bool;

/// `regex::Regex::new`: `Some` exactly when the crate accepts `source`.
#[verifier::external_body]
fn compile_regex(source: &str) -> (r: Option<regex::Regex>)
    ensures
        r is Some <==> regex_compiles(source@),
{
    regex::Regex::new(source).ok()
}

/// A regular expression together with its source text, its view.
#[derive(Debug)]
pub struct Pattern {
    source: String,
    regex: regex::Regex,
}

impl View for Pattern {
    type V = Seq<char>;

    closed spec fn view(&self) -> Seq<char> {
        self.source@
    }
}

impl Pattern {
    /// The pattern compiled from `source`, when the `regex` crate accepts it.
    pub fn compile(source: &str) -> (r: Option<Pattern>)
        ensures
            r is Some <==> regex_compiles(source@),
            r matches Some(p) ==> p@ == source@,
    {
        match compile_regex(source) {
            Some(regex) => Some(Pattern { source: to_string(source), regex }),
            None => None,
        }
    }
}

/// `regex::Regex::split` on the pattern's expression: the parts of
/// `haystack` between its matches, named `regex_split`.
#[verifier::external_body]
fn split_pieces(p: &Pattern, haystack: &str) -> (r: Vec<String>)
    ensures
        string_views(r@) == regex_split(p@, haystack@),
{
    p.regex.split(haystack).map(|s| s.to_string()).collect()
}

/// `regex::Regex::is_match` on the pattern's expression, named
/// `regex_is_match`.
#[verifier::external_body]
fn matches_anywhere(p: &Pattern, haystack: &str) -> (r: bool)
    ensures
        r == regex_is_match(p@, haystack@),
{
    p.regex.is_match(haystack)
}

/// The matched text and first group of each capture.
pub open spec fn captures_view(v: Seq<(String, Option<String>)>) -> Seq<(Seq<char>, Option<Seq<char>>)> {
    v.map_values(
        |c: (String, Option<String>)|
            (
                c.0@,
                match c.1 {
                    Some(g) => Some(g@),
                    None => None,
                },
            ),
    )
}

/// `regex::Regex::captures_iter` on the pattern's expression: the text and
/// first group of each match, named `regex_captures`. `Regex::split` yields
/// the parts between these same matches and one after the last, so the split
/// of the same haystack has one part more.
#[verifier::external_body]
fn capture_all(p: &Pattern, haystack: &str) -> (r: Vec<(String, Option<String>)>)
    ensures
        captures_view(r@) == regex_captures(p@, haystack@),
        regex_split(p@, haystack@).len() == r@.len() + 1,
{
    p.regex.captures_iter(haystack).map(|c| (c[0].to_string(), c.get(1).map(|g| g.as_str().to_string()))).collect()
}

/// The parts joined with the fills between them: `p0 f0 p1 f1 ... pn`.
pub open spec fn interleave(parts: Seq<Seq<char>>, fills: Seq<Seq<char>>) -> Seq<char>
    decreases parts.len(),
{
    if parts.len() == 0 {
        Seq::empty()
    } else if parts.len() == 1 {
        parts[0]
    } else {
        interleave(parts.drop_last(), fills) + fills[parts.len() - 2] + parts.last()
    }
}

/// The parts joined with the fills between them.
fn join_parts(parts: &Vec<String>, fills: &Vec<Vec<char>>) -> (r: String)
    requires
        parts@.len() == fills@.len() + 1,
    ensures
        r@ == interleave(string_views(parts@), fills@.map_values(|f: Vec<char>| f@)),
{
    let ghost ps = string_views(parts@);
    let ghost fs = fills@.map_values(|f: Vec<char>| f@);
    let mut out = chars_of(parts[0].as_str());
    let mut i: usize = 1;
    proof {
        assert(ps.take(1).len() == 1);
        assert(ps.take(1)[0] == ps[0]);
    }
    while i < parts.len()
        invariant
            1 <= i <= parts@.len(),
            parts@.len() == fills@.len() + 1,
            ps == string_views(parts@),
            fs == fills@.map_values(|f: Vec<char>| f@),
            out@ == interleave(ps.take(i as int), fs),
        decreases parts@.len() - i,
    {
        append_chars(&mut out, &fills[i - 1]);
        let piece = chars_of(parts[i].as_str());
        append_chars(&mut out, &piece);
        proof {
            assert(ps.take(i + 1).drop_last() =~= ps.take(i as int));
            assert(ps.take(i + 1).last() == ps[i as int]);
        }
        i = i + 1;
    }
    proof {
        assert(ps.take(i as int) =~= ps);
    }
    string_from_chars(out.as_slice())
}

/// `regex::Regex::replace_all` on the pattern's expression with `rep` as
/// the replacement, named `regex_replace_all`.
#[verifier::external_body]
fn replace_matches(p: &Pattern, haystack: &str, rep: &str) -> (r: String)
    ensures
        r@ == regex_replace_all(p@, haystack@, rep@),
{
    p.regex.replace_all(haystack, rep).into_owned()
}


/// The parts of `s` between the occurrences of `c`, as `str::split` with a
/// character yields them (one part more than there are occurrences).
pub open spec fn split_on(s: Seq<char>, c: char) -> Seq<Seq<char>>
    decreases s.len(),
{
    if s.len() == 0 {
        seq![Seq::empty()]
    } else {
        let rest = split_on(s.drop_last(), c);
        if s.last() == c {
            rest.push(Seq::empty())
        } else {
            rest.update(rest.len() - 1, rest.last().push(s.last()))
        }
    }
}

/// The parts joined with `c` between them, as `join` does.
pub open spec fn join_on(parts: Seq<Seq<char>>, c: char) -> Seq<char>
    decreases parts.len(),
{
    if parts.len() == 0 {
        Seq::empty()
    } else if parts.len() == 1 {
        parts[0]
    } else {
        join_on(parts.drop_last(), c).push(c) + parts.last()
    }
}

/// Each part followed by `c`.
pub open spec fn each_followed(parts: Seq<Seq<char>>, c: char) -> Seq<char>
    decreases parts.len(),
{
    if parts.len() == 0 {
        Seq::empty()
    } else {
        each_followed(parts.drop_last(), c) + parts.last().push(c)
    }
}

proof fn lemma_split_on_nonempty(s: Seq<char>, c: char)
    ensures
        split_on(s, c).len() >= 1,
    decreases s.len(),
{
    if s.len() > 0 {
        lemma_split_on_nonempty(s.drop_last(), c);
    }
}

proof fn lemma_join_parts(parts: Seq<Seq<char>>, c: char)
    requires
        parts.len() >= 1,
    ensures
        join_on(parts, c) == each_followed(parts.drop_last(), c) + parts.last(),
    decreases parts.len(),
{
    if parts.len() == 1 {
        assert(each_followed(parts.drop_last(), c) =~= Seq::<char>::empty());
        assert(Seq::<char>::empty() + parts.last() =~= parts.last());
    } else {
        let q = parts.drop_last();
        lemma_join_parts(q, c);
        assert(q.drop_last() =~= parts.drop_last().drop_last());
        assert(parts.drop_last().last() == q.last());
        assert(each_followed(parts.drop_last(), c) =~= each_followed(q.drop_last(), c) + q.last().push(c));
        assert((each_followed(q.drop_last(), c) + q.last()).push(c) + parts.last()
            =~= each_followed(q.drop_last(), c) + q.last().push(c) + parts.last());
    }
}

/// Splitting at `c` and joining again with `c` gives back the text.
pub proof fn lemma_join_split(s: Seq<char>, c: char)
    ensures
        join_on(split_on(s, c), c) == s,
    decreases s.len(),
{
    if s.len() > 0 {
        let t = s.drop_last();
        lemma_join_split(t, c);
        lemma_split_on_nonempty(t, c);
        let rest = split_on(t, c);
        lemma_join_parts(rest, c);
        if s.last() == c {
            let parts = rest.push(Seq::empty());
            assert(parts.drop_last() =~= rest);
            assert(join_on(parts, c) =~= t.push(c));
            assert(t.push(c) =~= s);
        } else {
            let parts = rest.update(rest.len() - 1, rest.last().push(s.last()));
            lemma_join_parts(parts, c);
            assert(parts.drop_last() =~= rest.drop_last());
            assert(join_on(parts, c) =~= each_followed(rest.drop_last(), c) + rest.last().push(s.last()));
            assert(each_followed(rest.drop_last(), c) + rest.last().push(s.last())
                =~= (each_followed(rest.drop_last(), c) + rest.last()).push(s.last()));
            assert(t.push(s.last()) =~= s);
        }
    }
}


/// `p`, or `rep` when `p` is `dir`.
pub open spec fn masked_part(p: Seq<char>, dir: Seq<char>, rep: Seq<char>) -> Seq<char> {
    if p == dir {
        rep
    } else {
        p
    }
}

/// The parts, those equal to `dir` replaced by `rep`.
pub open spec fn masked(parts: Seq<Seq<char>>, dir: Seq<char>, rep: Seq<char>) -> Seq<Seq<char>> {
    parts.map_values(|p: Seq<char>| masked_part(p, dir, rep))
}

/// Whether two character vectors hold the same characters.
fn same_chars(a: &Vec<char>, b: &Vec<char>) -> (r: bool)
    ensures
        r == (a@ == b@),
{
    if a.len() != b.len() {
        return false;
    }
    let r = crate::text::occurs_at(a, 0, b);
    proof {
        assert(a@.subrange(0, b@.len() as int) =~= a@);
    }
    r
}

/// The parts of `s` between the occurrences of `sep`, those equal to `dir`
/// replaced by `rep`, joined again with `sep`.
fn mask_components(s: &Vec<char>, sep: char, dir: &Vec<char>, rep: &Vec<char>) -> (r: Vec<char>)
    ensures
        r@ == join_on(masked(split_on(s@, sep), dir@, rep@), sep),
{
    let mut out: Vec<char> = Vec::new();
    let mut cur: Vec<char> = Vec::new();
    let mut i: usize = 0;
    proof {
        assert(s@.take(0) =~= Seq::<char>::empty());
        assert(masked(split_on(s@.take(0), sep).drop_last(), dir@, rep@) =~= Seq::<Seq<char>>::empty());
    }
    while i < s.len()
        invariant
            i <= s@.len(),
            out@ == each_followed(masked(split_on(s@.take(i as int), sep).drop_last(), dir@, rep@), sep),
            cur@ == split_on(s@.take(i as int), sep).last(),
        decreases s@.len() - i,
    {
        let ghost t = s@.take(i as int);
        let ghost parts = split_on(t, sep);
        let ghost t2 = s@.take(i + 1);
        proof {
            lemma_split_on_nonempty(t, sep);
            assert(t2.drop_last() =~= t);
            assert(t2.last() == s@[i as int]);
        }
        if s[i] == sep {
            let same = same_chars(&cur, dir);
            if same {
                append_chars(&mut out, rep);
            } else {
                append_chars(&mut out, &cur);
            }
            out.push(sep);
            cur = Vec::new();
            proof {
                let parts2 = parts.push(Seq::<char>::empty());
                assert(split_on(t2, sep) == parts2);
                assert(parts2.drop_last() =~= parts);
                assert(masked(parts, dir@, rep@).drop_last() =~= masked(parts.drop_last(), dir@, rep@));
                assert(masked(parts, dir@, rep@).last() == masked_part(parts.last(), dir@, rep@));
                assert(cur@ =~= parts2.last());
            }
        } else {
            cur.push(s[i]);
            proof {
                let parts2 = parts.update(parts.len() - 1, parts.last().push(s@[i as int]));
                assert(split_on(t2, sep) == parts2);
                assert(parts2.drop_last() =~= parts.drop_last());
            }
        }
        i = i + 1;
    }
    let ghost parts = split_on(s@, sep);
    proof {
        assert(s@.take(i as int) =~= s@);
        lemma_split_on_nonempty(s@, sep);
        lemma_join_parts(masked(parts, dir@, rep@), sep);
        assert(masked(parts, dir@, rep@).drop_last() =~= masked(parts.drop_last(), dir@, rep@));
        assert(masked(parts, dir@, rep@).last() == masked_part(parts.last(), dir@, rep@));
    }
    if same_chars(&cur, dir) {
        append_chars(&mut out, rep);
    } else {
        append_chars(&mut out, &cur);
    }
    out
}


/// The folders whose names are masked in paths, with their placeholders.
pub open spec fn sensitive_dirs() -> Seq<(Seq<char>, Seq<char>)> {
    seq![
        ("Desktop"@, "[DESKTOP]"@),
        ("Documents"@, "[DOCUMENTS]"@),
        ("Downloads"@, "[DOWNLOADS]"@),
        ("Pictures"@, "[PICTURES]"@),
        ("Videos"@, "[VIDEOS]"@),
        ("Music"@, "[MUSIC]"@),
        ("AppData"@, "[APPDATA]"@),
        (".config"@, "[CONFIG]"@),
        (".local"@, "[LOCAL]"@),
    ]
}

/// How many folders are masked in paths.
pub const SENSITIVE_DIR_COUNT: usize = 9;

/// The `k`-th masked folder and its placeholder.
fn sensitive_dir(k: usize) -> (r: (Vec<char>, Vec<char>))
    requires
        k < SENSITIVE_DIR_COUNT,
    ensures
        r.0@ == sensitive_dirs()[k as int].0,
        r.1@ == sensitive_dirs()[k as int].1,
{
    let (d, p) = match k {
        0 => ("Desktop", "[DESKTOP]"),
        1 => ("Documents", "[DOCUMENTS]"),
        2 => ("Downloads", "[DOWNLOADS]"),
        3 => ("Pictures", "[PICTURES]"),
        4 => ("Videos", "[VIDEOS]"),
        5 => ("Music", "[MUSIC]"),
        6 => ("AppData", "[APPDATA]"),
        7 => (".config", "[CONFIG]"),
        _ => (".local", "[LOCAL]"),
    };
    (chars_of(d), chars_of(p))
}

/// The separator of a path: `\` when it holds one, else `/`.
pub open spec fn path_sep(s: Seq<char>) -> char {
    if s.contains('\\') {
        '\\'
    } else {
        '/'
    }
}

/// A path with the components equal to `dir` replaced by `rep`, when `dir`
/// occurs in it at all.
pub open spec fn dir_masked(s: Seq<char>, dir: Seq<char>, rep: Seq<char>) -> Seq<char> {
    if has_sub(s, dir) {
        join_on(masked(split_on(s, path_sep(s)), dir, rep), path_sep(s))
    } else {
        s
    }
}

/// A path after masking the first `k` sensitive folders, in order.
pub open spec fn dirs_masked(s: Seq<char>, k: nat) -> Seq<char>
    decreases k,
{
    if k == 0 {
        s
    } else {
        let d = sensitive_dirs()[k - 1];
        dir_masked(dirs_masked(s, (k - 1) as nat), d.0, d.1)
    }
}

/// A path anonymized: the sensitive folders masked, then the user name, if
/// the environment gives one, replaced by `[USER]`.
pub open spec fn path_anonymized(path: Seq<char>, username: Option<Seq<char>>) -> Seq<char> {
    let r = dirs_masked(path, SENSITIVE_DIR_COUNT as nat);
    match username {
        Some(u) => replaced(r, u, "[USER]"@),
        None => r,
    }
}

/// Whether `c` occurs in `v`.
fn contains_char(v: &Vec<char>, c: char) -> (r: bool)
    ensures
        r == v@.contains(c),
{
    let mut i: usize = 0;
    while i < v.len()
        invariant
            i <= v@.len(),
            forall|j: int| 0 <= j < i ==> v@[j] != c,
        decreases v@.len() - i,
    {
        if v[i] == c {
            proof {
                assert(v@[i as int] == c);
            }
            return true;
        }
        i = i + 1;
    }
    false
}

/// A path anonymized (see `path_anonymized`).
fn anonymize_path_string(path: &str, username: &Option<String>) -> (r: String)
    ensures
        r@ == path_anonymized(path@, option_view(*username)),
{
    let mut v = chars_of(path);
    let mut k: usize = 0;
    while k < SENSITIVE_DIR_COUNT
        invariant
            k <= SENSITIVE_DIR_COUNT,
            v@ == dirs_masked(path@, k as nat),
        decreases SENSITIVE_DIR_COUNT - k,
    {
        let (dir, rep) = sensitive_dir(k);
        let text = string_from_chars(v.as_slice());
        let dir_text = string_from_chars(dir.as_slice());
        if str_contains(text.as_str(), dir_text.as_str()) {
            let sep = if contains_char(&v, '\\') {
                '\\'
            } else {
                '/'
            };
            v = mask_components(&v, sep, &dir, &rep);
        }
        k = k + 1;
    }
    let r = string_from_chars(v.as_slice());
    match username {
        Some(u) => replace_text(r.as_str(), u.as_str(), "[USER]"),
        None => r,
    }
}

/// The text of an optional string.
pub open spec fn option_view(o: Option<String>) -> Option<Seq<char>> {
    match o {
        Some(s) => Some(s@),
        None => None,
    }
}


/// `haystack` with each match of `pattern` replaced by the anonymized path
/// it is.
pub open spec fn paths_rewritten(pattern: Seq<char>, haystack: Seq<char>, username: Option<Seq<char>>) -> Seq<char> {
    interleave(
        regex_split(pattern, haystack),
        regex_captures(pattern, haystack).map_values(
            |c: (Seq<char>, Option<Seq<char>>)| path_anonymized(c.0, username),
        ),
    )
}

/// `haystack` with each match of `p` replaced by the anonymized path it is.
fn rewrite_paths(p: &Pattern, haystack: &str, username: &Option<String>) -> (r: String)
    ensures
        r@ == paths_rewritten(p@, haystack@, option_view(*username)),
{
    let caps = capture_all(p, haystack);
    let parts = split_pieces(p, haystack);
    let ghost cs = regex_captures(p@, haystack@);
    let mut fills: Vec<Vec<char>> = Vec::new();
    let mut i: usize = 0;
    while i < caps.len()
        invariant
            i <= caps@.len(),
            captures_view(caps@) == cs,
            fills@.len() == i,
            forall|k: int| 0 <= k < i ==> #[trigger] fills@[k]@ == path_anonymized(cs[k].0, option_view(*username)),
        decreases caps@.len() - i,
    {
        let fill = anonymize_path_string(caps[i].0.as_str(), username);
        proof {
            assert(cs[i as int].0 == caps@[i as int].0@);
        }
        fills.push(chars_of(fill.as_str()));
        i = i + 1;
    }
    proof {
        assert(fills@.map_values(|f: Vec<char>| f@) =~= cs.map_values(
            |c: (Seq<char>, Option<Seq<char>>)| path_anonymized(c.0, option_view(*username)),
        ));
    }
    join_parts(&parts, &fills)
}

/// A match of a user-folder pattern with the user name (its first group)
/// replaced by `[USER]`, unless that name is to be kept.
pub open spec fn user_match_masked(c: (Seq<char>, Option<Seq<char>>), preserve: Seq<Seq<char>>) -> Seq<char> {
    match c.1 {
        Some(u) => if preserve.contains(u) {
            c.0
        } else {
            replaced(c.0, u, "[USER]"@)
        },
        None => c.0,
    }
}

/// `haystack` with the user name in each match of `pattern` masked.
pub open spec fn users_rewritten(pattern: Seq<char>, haystack: Seq<char>, preserve: Seq<Seq<char>>) -> Seq<char> {
    interleave(
        regex_split(pattern, haystack),
        regex_captures(pattern, haystack).map_values(
            |c: (Seq<char>, Option<Seq<char>>)| user_match_masked(c, preserve),
        ),
    )
}

/// Whether `s` is one of `words`.
fn is_listed(words: &Vec<String>, s: &str) -> (r: bool)
    ensures
        r == string_views(words@).contains(s@),
{
    let mut i: usize = 0;
    while i < words.len()
        invariant
            i <= words@.len(),
            forall|j: int| 0 <= j < i ==> words@[j]@ != s@,
        decreases words@.len() - i,
    {
        if crate::text::str_eq(words[i].as_str(), s) {
            proof {
                assert(string_views(words@)[i as int] == s@);
            }
            return true;
        }
        i = i + 1;
    }
    proof {
        if string_views(words@).contains(s@) {
            let j = choose|j: int| 0 <= j < string_views(words@).len() && string_views(words@)[j] == s@;
            assert(words@[j]@ == s@);
        }
    }
    false
}

/// `haystack` with the user name in each match of `p` masked, unless kept.
fn rewrite_users(p: &Pattern, haystack: &str, preserve: &Vec<String>) -> (r: String)
    ensures
        r@ == users_rewritten(p@, haystack@, string_views(preserve@)),
{
    let caps = capture_all(p, haystack);
    let parts = split_pieces(p, haystack);
    let ghost cs = regex_captures(p@, haystack@);
    let ghost keep = string_views(preserve@);
    let mut fills: Vec<Vec<char>> = Vec::new();
    let mut i: usize = 0;
    while i < caps.len()
        invariant
            i <= caps@.len(),
            captures_view(caps@) == cs,
            keep == string_views(preserve@),
            fills@.len() == i,
            forall|k: int| 0 <= k < i ==> #[trigger] fills@[k]@ == user_match_masked(cs[k], keep),
        decreases caps@.len() - i,
    {
        let whole = caps[i].0.as_str();
        proof {
            assert(cs[i as int].0 == caps@[i as int].0@);
        }
        let fill = match &caps[i].1 {
            Some(u) => {
                proof {
                    assert(cs[i as int].1 == Some(u@));
                }
                if is_listed(preserve, u.as_str()) {
                    chars_of(whole)
                } else {
                    let r = replace_text(whole, u.as_str(), "[USER]");
                    chars_of(r.as_str())
                }
            },
            None => {
                proof {
                    assert(cs[i as int].1 is None);
                }
                chars_of(whole)
            },
        };
        fills.push(fill);
        i = i + 1;
    }
    proof {
        assert(fills@.map_values(|f: Vec<char>| f@) =~= cs.map_values(
            |c: (Seq<char>, Option<Seq<char>>)| user_match_masked(c, keep),
        ));
    }
    join_parts(&parts, &fills)
}


/// `s` with `rep` in place of each stretch whose counterpart in `lower` (of
/// the same length) is an occurrence of `pat`; occurrences are taken from the
/// left and do not overlap. An empty `pat` changes nothing.
pub open spec fn replaced_where(s: Seq<char>, lower: Seq<char>, pat: Seq<char>, rep: Seq<char>) -> Seq<char>
    decreases s.len(),
{
    if pat.len() == 0 || s.len() < pat.len() {
        s
    } else if lower.take(pat.len() as int) == pat {
        rep + replaced_where(s.skip(pat.len() as int), lower.skip(pat.len() as int), pat, rep)
    } else {
        seq![s[0]] + replaced_where(s.skip(1), lower.skip(1), pat, rep)
    }
}

/// A character as compared when case is ignored: its lowercase form when
/// that is a single character, otherwise the character as written.
pub open spec fn char_folded(c: char) -> char {
    if crate::utils::lowercase(seq![c]).len() == 1 {
        crate::utils::lowercase(seq![c])[0]
    } else {
        c
    }
}

/// A text with each character folded (see `char_folded`); it has the
/// length of the text, so positions carry over one for one.
pub open spec fn folded(s: Seq<char>) -> Seq<char> {
    s.map_values(|c: char| char_folded(c))
}

/// `s` with each occurrence of `pat`, ignoring case, replaced by `rep`:
/// occurrences of the lowercased `pat` are looked for in the folded `s`,
/// character by character, and the same stretches of `s` replaced. An empty
/// `pat` changes nothing.
pub open spec fn replaced_ignoring_case(s: Seq<char>, pat: Seq<char>, rep: Seq<char>) -> Seq<char> {
    if pat.len() == 0 {
        s
    } else {
        replaced_where(s, folded(s), crate::utils::lowercase(pat), rep)
    }
}

/// A character folded (see `char_folded`).
fn fold_char(c: char) -> (r: char)
    ensures
        r == char_folded(c),
{
    let mut one = String::new();
    crate::text::push_char(&mut one, c);
    proof {
        assert(one@ =~= seq![c]);
    }
    let lower = crate::utils::to_lowercase(one.as_str());
    let v = chars_of(lower.as_str());
    if v.len() == 1 {
        v[0]
    } else {
        c
    }
}

/// `input` with each occurrence of `pattern`, ignoring case, replaced by
/// `replacement` (see `replaced_ignoring_case`).
fn replace_case_insensitive(input: &str, pattern: &str, replacement: &str) -> (r: String)
    ensures
        r@ == replaced_ignoring_case(input@, pattern@, replacement@),
{
    let v = chars_of(input);
    let pat = chars_of(pattern);
    if pat.len() == 0 {
        return to_string(input);
    }
    let mut l: Vec<char> = Vec::new();
    let mut k: usize = 0;
    while k < v.len()
        invariant
            k <= v@.len(),
            l@ == folded(v@.take(k as int)),
        decreases v@.len() - k,
    {
        l.push(fold_char(v[k]));
        proof {
            assert(folded(v@.take(k + 1)) =~= folded(v@.take(k as int)).push(char_folded(v@[k as int])));
        }
        k = k + 1;
    }
    proof {
        assert(v@.take(k as int) =~= v@);
    }
    let pattern_lower = crate::utils::to_lowercase(pattern);
    let p = chars_of(pattern_lower.as_str());
    let t = chars_of(replacement);
    let mut out: Vec<char> = Vec::new();
    let mut i: usize = 0;
    proof {
        assert(v@.skip(0) =~= v@);
        assert(l@.skip(0) =~= l@);
    }
    while i < v.len()
        invariant
            i <= v@.len(),
            l@.len() == v@.len(),
            out@ + replaced_where(v@.skip(i as int), l@.skip(i as int), p@, t@)
                == replaced_where(v@, l@, p@, t@),
        decreases v@.len() - i,
    {
        let ghost rest = v@.skip(i as int);
        let ghost lrest = l@.skip(i as int);
        if p.len() > 0 && p.len() <= v.len() - i && crate::text::occurs_at(&l, i, &p) {
            proof {
                assert(lrest.take(p@.len() as int) =~= l@.subrange(i as int, i + p@.len()));
                assert(rest.skip(p@.len() as int) =~= v@.skip(i + p@.len()));
                assert(lrest.skip(p@.len() as int) =~= l@.skip(i + p@.len()));
            }
            append_chars(&mut out, &t);
            i = i + p.len();
        } else {
            proof {
                assert(rest[0] == v@[i as int]);
                assert(rest.skip(1) =~= v@.skip(i + 1));
                assert(lrest.skip(1) =~= l@.skip(i + 1));
                if p@.len() > 0 && rest.len() >= p@.len() {
                    assert(lrest.take(p@.len() as int) =~= l@.subrange(i as int, i + p@.len()));
                }
                if p@.len() == 0 || rest.len() < p@.len() {
                    assert(rest =~= seq![rest[0]] + rest.skip(1));
                    if p@.len() > 0 {
                        assert(rest.skip(1).len() < p@.len());
                    }
                }
            }
            out.push(v[i]);
            i = i + 1;
        }
    }
    proof {
        assert(v@.skip(i as int) =~= Seq::<char>::empty());
        assert(out@ + Seq::<char>::empty() =~= out@);
    }
    string_from_chars(out.as_slice())
}


/// The pattern of e-mail addresses.
pub open spec fn email_source() -> Seq<char> {
    r"[a-zA-Z0-9._%+-]+@[a-zA-Z0-9.-]+\.[a-zA-Z]{2,}"@
}

/// The pattern of IPv4 addresses.
pub open spec fn ipv4_source() -> Seq<char> {
    r"\b\d{1,3}\.\d{1,3}\.\d{1,3}\.\d{1,3}\b"@
}

/// The pattern of (full) IPv6 addresses.
pub open spec fn ipv6_source() -> Seq<char> {
    r"([0-9a-fA-F]{1,4}:){7}[0-9a-fA-F]{1,4}"@
}

/// The pattern of Windows paths.
pub open spec fn windows_path_source() -> Seq<char> {
    r#"[A-Za-z]:\\[^\s\"\'\n]+"#@
}

/// The pattern of Unix paths into the user's and system folders.
pub open spec fn unix_path_source() -> Seq<char> {
    r#"/(?:home|Users|var|tmp|etc)/[^\s\"\'\n]+"#@
}

/// The pattern of a Windows user folder, the user name as first group.
pub open spec fn windows_user_source() -> Seq<char> {
    r"\\Users\\([^\\]+)"@
}

/// The pattern of a Linux home folder, the user name as first group.
pub open spec fn home_user_source() -> Seq<char> {
    r"/home/([^/]+)"@
}

/// The pattern of a macOS user folder, the user name as first group.
pub open spec fn mac_user_source() -> Seq<char> {
    r"/Users/([^/]+)"@
}

/// Whether every built-in pattern compiles.
pub open spec fn builtins_compile() -> bool {
    &&& regex_compiles(email_source())
    &&& regex_compiles(ipv4_source())
    &&& regex_compiles(ipv6_source())
    &&& regex_compiles(windows_path_source())
    &&& regex_compiles(unix_path_source())
    &&& regex_compiles(windows_user_source())
    &&& regex_compiles(home_user_source())
    &&& regex_compiles(mac_user_source())
}

/// Which kinds of data are anonymized, patterns of the user's own to mask,
/// and words never masked as user names.
#[derive(Debug, Clone)]
pub struct AnonymizationConfig {
    /// Whether user names are masked.
    pub anonymize_usernames: bool,
    /// Whether paths are masked.
    pub anonymize_paths: bool,
    /// Whether e-mail addresses are masked.
    pub anonymize_emails: bool,
    /// Whether IP addresses are masked.
    pub anonymize_ips: bool,
    /// Regular expressions of the user's own; those that do not compile are
    /// left out.
    pub custom_patterns: Vec<String>,
    /// Words kept as they are; only whether a word is among them matters.
    pub preserve_words: Vec<String>,
}

impl Default for AnonymizationConfig {
    /// Everything masked, no patterns of the user's own, no kept words.
    fn default() -> (c: Self)
        ensures
            c.anonymize_usernames,
            c.anonymize_paths,
            c.anonymize_emails,
            c.anonymize_ips,
            c.custom_patterns@.len() == 0,
            c.preserve_words@.len() == 0,
    {
        AnonymizationConfig {
            anonymize_usernames: true,
            anonymize_paths: true,
            anonymize_emails: true,
            anonymize_ips: true,
            custom_patterns: Vec::new(),
            preserve_words: Vec::new(),
        }
    }
}

/// What the environment says of the user: the user name (`USERNAME`, or
/// else `USER`) and the home folder (`HOME`, or else `USERPROFILE`), each
/// when set.
#[derive(Debug, Clone)]
pub struct UserEnvironment {
    pub username: Option<String>,
    pub home: Option<String>,
}

/// The compiled built-in patterns.
#[derive(Debug)]
struct BuiltinPatterns {
    email: Pattern,
    ipv4: Pattern,
    ipv6: Pattern,
    windows_path: Pattern,
    unix_path: Pattern,
    windows_user: Pattern,
    home_user: Pattern,
    mac_user: Pattern,
}

impl BuiltinPatterns {
    /// Each pattern compiled from its source.
    spec fn compiled(&self) -> bool {
        &&& self.email@ == email_source()
        &&& self.ipv4@ == ipv4_source()
        &&& self.ipv6@ == ipv6_source()
        &&& self.windows_path@ == windows_path_source()
        &&& self.unix_path@ == unix_path_source()
        &&& self.windows_user@ == windows_user_source()
        &&& self.home_user@ == home_user_source()
        &&& self.mac_user@ == mac_user_source()
    }

    /// The built-in patterns, when they all compile.
    fn compile() -> (r: Option<Self>)
        ensures
            r is Some <==> builtins_compile(),
            r matches Some(b) ==> b.compiled(),
    {
        let email = Pattern::compile(r"[a-zA-Z0-9._%+-]+@[a-zA-Z0-9.-]+\.[a-zA-Z]{2,}");
        let ipv4 = Pattern::compile(r"\b\d{1,3}\.\d{1,3}\.\d{1,3}\.\d{1,3}\b");
        let ipv6 = Pattern::compile(r"([0-9a-fA-F]{1,4}:){7}[0-9a-fA-F]{1,4}");
        let windows_path = Pattern::compile(r#"[A-Za-z]:\\[^\s\"\'\n]+"#);
        let unix_path = Pattern::compile(r#"/(?:home|Users|var|tmp|etc)/[^\s\"\'\n]+"#);
        let windows_user = Pattern::compile(r"\\Users\\([^\\]+)");
        let home_user = Pattern::compile(r"/home/([^/]+)");
        let mac_user = Pattern::compile(r"/Users/([^/]+)");
        match (email, ipv4, ipv6, windows_path, unix_path, windows_user, home_user, mac_user) {
            (
                Some(email),
                Some(ipv4),
                Some(ipv6),
                Some(windows_path),
                Some(unix_path),
                Some(windows_user),
                Some(home_user),
                Some(mac_user),
            ) => Some(BuiltinPatterns { email, ipv4, ipv6, windows_path, unix_path, windows_user, home_user, mac_user }),
            _ => None,
        }
    }
}


/// The user name and home folder given by the environment.
pub open spec fn env_view(env: UserEnvironment) -> (Option<Seq<char>>, Option<Seq<char>>) {
    (option_view(env.username), option_view(env.home))
}

/// The user-name step: the environment's user name, unless empty or kept,
/// replaced by `[USER]` as written and then ignoring case; the last
/// component of the home folder, unless empty or kept, replaced too; then
/// the user name in each Windows, Linux and macOS user folder, unless kept.
pub open spec fn usernames_anonymized(
    s: Seq<char>,
    env: (Option<Seq<char>>, Option<Seq<char>>),
    preserve: Seq<Seq<char>>,
) -> Seq<char> {
    let s1 = match env.0 {
        Some(u) => if u.len() > 0 && !preserve.contains(u) {
            replaced_ignoring_case(replaced(s, u, "[USER]"@), crate::utils::lowercase(u), "[USER]"@)
        } else {
            s
        },
        None => s,
    };
    let s2 = match env.1 {
        Some(h) => match crate::utils::file_name_of(h) {
            Some(n) => if n.len() > 0 && !preserve.contains(n) {
                replaced(s1, n, "[USER]"@)
            } else {
                s1
            },
            None => s1,
        },
        None => s1,
    };
    let s3 = users_rewritten(windows_user_source(), s2, preserve);
    let s4 = users_rewritten(home_user_source(), s3, preserve);
    users_rewritten(mac_user_source(), s4, preserve)
}

/// The path step: the home folder replaced by `[HOME]`, then each Windows
/// and each Unix path anonymized.
pub open spec fn paths_anonymized(s: Seq<char>, env: (Option<Seq<char>>, Option<Seq<char>>)) -> Seq<char> {
    let s1 = match env.1 {
        Some(h) => replaced(s, h, "[HOME]"@),
        None => s,
    };
    let s2 = paths_rewritten(windows_path_source(), s1, env.0);
    paths_rewritten(unix_path_source(), s2, env.0)
}

/// The e-mail step.
pub open spec fn emails_anonymized(s: Seq<char>) -> Seq<char> {
    regex_replace_all(email_source(), s, "[EMAIL]"@)
}

/// The IP step: IPv4, then IPv6 addresses.
pub open spec fn ips_anonymized(s: Seq<char>) -> Seq<char> {
    regex_replace_all(ipv6_source(), regex_replace_all(ipv4_source(), s, "[IP]"@), "[IP]"@)
}

/// The placeholder of the `i`-th pattern of the user's own: `[CUSTOM_i]`.
pub open spec fn custom_label(i: nat) -> Seq<char> {
    "[CUSTOM_"@ + crate::utils::dec_str(i) + "]"@
}

/// The text after masking the matches of the first `k` patterns of the
/// user's own, in order.
pub open spec fn customs_anonymized(s: Seq<char>, sources: Seq<Seq<char>>, k: nat) -> Seq<char>
    decreases k,
{
    if k == 0 {
        s
    } else {
        regex_replace_all(sources[k - 1], customs_anonymized(s, sources, (k - 1) as nat), custom_label((k - 1) as nat))
    }
}

/// The whole anonymization: user names, paths, e-mail addresses and IP
/// addresses when switched on, in that order, then the patterns of the
/// user's own (`custom` being those that compile).
pub open spec fn anonymized(
    c: AnonymizationConfig,
    env: (Option<Seq<char>>, Option<Seq<char>>),
    custom: Seq<Seq<char>>,
    s: Seq<char>,
) -> Seq<char> {
    let s1 = if c.anonymize_usernames {
        usernames_anonymized(s, env, string_views(c.preserve_words@))
    } else {
        s
    };
    let s2 = if c.anonymize_paths {
        paths_anonymized(s1, env)
    } else {
        s1
    };
    let s3 = if c.anonymize_emails {
        emails_anonymized(s2)
    } else {
        s2
    };
    let s4 = if c.anonymize_ips {
        ips_anonymized(s3)
    } else {
        s3
    };
    customs_anonymized(s4, custom, custom.len())
}

/// Whether a text holds what would be anonymized: an e-mail address, an IP
/// address, a path, or the environment's user name, each when switched on.
pub open spec fn sensitive(c: AnonymizationConfig, env: (Option<Seq<char>>, Option<Seq<char>>), s: Seq<char>) -> bool {
    ||| c.anonymize_emails && regex_is_match(email_source(), s)
    ||| c.anonymize_ips && (regex_is_match(ipv4_source(), s) || regex_is_match(ipv6_source(), s))
    ||| c.anonymize_paths && (regex_is_match(windows_path_source(), s) || regex_is_match(unix_path_source(), s))
    ||| c.anonymize_usernames && (env.0 matches Some(u) && has_sub(s, u))
}

/// The patterns among `sources` that compile, in order.
pub open spec fn compiling(sources: Seq<Seq<char>>) -> Seq<Seq<char>> {
    sources.filter(compiles_pred())
}

/// Whether a pattern compiles, as a predicate.
pub open spec fn compiles_pred() -> spec_fn(Seq<char>) -> bool {
    |p: Seq<char>| regex_compiles(p)
}

/// Removes sensitive data from text sent to a cloud service.
#[derive(Debug)]
pub struct DataAnonymizer {
    config: AnonymizationConfig,
    builtins: BuiltinPatterns,
    custom: Vec<Pattern>,
    env: UserEnvironment,
}

impl DataAnonymizer {
    /// The settings.
    pub closed spec fn spec_config(&self) -> AnonymizationConfig {
        self.config
    }

    /// What the environment says of the user.
    pub closed spec fn spec_env(&self) -> UserEnvironment {
        self.env
    }

    /// The sources of the user's own patterns that compiled, in order.
    pub closed spec fn spec_custom(&self) -> Seq<Seq<char>> {
        self.custom@.map_values(|p: Pattern| p@)
    }

    /// The built-in patterns are compiled from their sources.
    pub closed spec fn well_formed(&self) -> bool {
        self.builtins.compiled()
    }

    /// An anonymizer with `config` and what `env` says of the user. The user's
    /// own patterns that do not compile are left out. It is `None` only when a
    /// built-in pattern does not compile.
    pub fn with_config(config: AnonymizationConfig, env: UserEnvironment) -> (r: Option<Self>)
        ensures
            r is Some <==> builtins_compile(),
            r matches Some(a) ==> a.well_formed() && a.spec_config() == config && a.spec_env() == env
                && a.spec_custom() == compiling(string_views(config.custom_patterns@)),
    {
        let builtins = match BuiltinPatterns::compile() {
            Some(b) => b,
            None => {
                return None;
            },
        };
        let ghost sources = string_views(config.custom_patterns@);
        let mut custom: Vec<Pattern> = Vec::new();
        let mut i: usize = 0;
        while i < config.custom_patterns.len()
            invariant
                i <= config.custom_patterns@.len(),
                sources == string_views(config.custom_patterns@),
                custom@.map_values(|p: Pattern| p@) == compiling(sources.take(i as int)),
            decreases config.custom_patterns@.len() - i,
        {
            let compiled = Pattern::compile(config.custom_patterns[i].as_str());
            proof {
                assert(sources.take(i + 1) =~= sources.take(i as int).push(config.custom_patterns@[i as int]@));
                sources.take(i as int).lemma_filter_push(config.custom_patterns@[i as int]@, compiles_pred());
            }
            match compiled {
                Some(p) => {
                    custom.push(p);
                },
                None => {},
            }
            i = i + 1;
        }
        proof {
            assert(sources.take(i as int) =~= sources);
        }
        Some(DataAnonymizer { config, builtins, custom, env })
    }

    /// An anonymizer with the default settings and what `env` says of the
    /// user; `None` only when a built-in pattern does not compile.
    pub fn new(env: UserEnvironment) -> (r: Option<Self>)
        ensures
            r is Some <==> builtins_compile(),
            r matches Some(a) ==> a.well_formed() && a.spec_env() == env && a.spec_custom().len() == 0
                && a.spec_config().anonymize_usernames && a.spec_config().anonymize_paths
                && a.spec_config().anonymize_emails && a.spec_config().anonymize_ips
                && a.spec_config().custom_patterns@.len() == 0 && a.spec_config().preserve_words@.len() == 0,
    {
        let config = AnonymizationConfig::default();
        proof {
            assert(string_views(config.custom_patterns@) =~= Seq::<Seq<char>>::empty());
            assert(Seq::<Seq<char>>::empty().filter(compiles_pred()) =~= Seq::<Seq<char>>::empty());
        }
        Self::with_config(config, env)
    }

    /// The user-name step (see `usernames_anonymized`).
    fn anonymize_usernames(&self, input: &str) -> (r: String)
        requires
            self.well_formed(),
        ensures
            r@ == usernames_anonymized(input@, env_view(self.spec_env()), string_views(self.spec_config().preserve_words@)),
    {
        let mut result = to_string(input);
        match &self.env.username {
            Some(username) => {
                if username.as_str().unicode_len() > 0 && !is_listed(&self.config.preserve_words, username.as_str()) {
                    proof {
                        assert(username@.len() > 0);
                    }
                    result = replace_text(result.as_str(), username.as_str(), "[USER]");
                    let username_lower = crate::utils::to_lowercase(username.as_str());
                    result = replace_case_insensitive(result.as_str(), username_lower.as_str(), "[USER]");
                } else {
                    proof {
                        if username@.len() == 0 {
                            assert(username@.len() == 0);
                        }
                    }
                }
            },
            None => {},
        }
        match &self.env.home {
            Some(home) => {
                let name = crate::utils::get_filename(home.as_str());
                if name.as_str().unicode_len() > 0 && !is_listed(&self.config.preserve_words, name.as_str()) {
                    proof {
                        assert(name@.len() > 0);
                        assert(crate::utils::file_name_of(home@) is Some);
                    }
                    result = replace_text(result.as_str(), name.as_str(), "[USER]");
                } else {
                    proof {
                        if name@.len() == 0 {
                            assert(name@.len() == 0);
                            if crate::utils::file_name_of(home@) is Some {
                                assert(crate::utils::file_name_of(home@)->0.len() == 0);
                            }
                        }
                    }
                }
            },
            None => {},
        }
        result = rewrite_users(&self.builtins.windows_user, result.as_str(), &self.config.preserve_words);
        result = rewrite_users(&self.builtins.home_user, result.as_str(), &self.config.preserve_words);
        rewrite_users(&self.builtins.mac_user, result.as_str(), &self.config.preserve_words)
    }

    /// The path step (see `paths_anonymized`).
    fn anonymize_paths(&self, input: &str) -> (r: String)
        requires
            self.well_formed(),
        ensures
            r@ == paths_anonymized(input@, env_view(self.spec_env())),
    {
        let mut result = to_string(input);
        match &self.env.home {
            Some(home) => {
                result = replace_text(result.as_str(), home.as_str(), "[HOME]");
            },
            None => {},
        }
        result = rewrite_paths(&self.builtins.windows_path, result.as_str(), &self.env.username);
        rewrite_paths(&self.builtins.unix_path, result.as_str(), &self.env.username)
    }

    /// The patterns of the user's own applied in order, the `i`-th match
    /// replaced by `[CUSTOM_i]`.
    fn apply_custom_patterns(&self, input: &str) -> (r: String)
        ensures
            r@ == customs_anonymized(input@, self.spec_custom(), self.spec_custom().len()),
    {
        let mut result = to_string(input);
        let mut i: usize = 0;
        while i < self.custom.len()
            invariant
                i <= self.custom@.len(),
                result@ == customs_anonymized(input@, self.spec_custom(), i as nat),
            decreases self.custom@.len() - i,
        {
            let mut label: Vec<char> = chars_of("[CUSTOM_");
            crate::utils::push_decimal(&mut label, i as u128);
            label.push(']');
            let label_text = string_from_chars(label.as_slice());
            proof {
                reveal_strlit("]");
                assert(label_text@ =~= custom_label(i as nat));
                assert(self.spec_custom()[i as int] == self.custom@[i as int]@);
            }
            result = replace_matches(&self.custom[i], result.as_str(), label_text.as_str());
            i = i + 1;
        }
        result
    }

    /// The text with its sensitive data replaced by placeholders (see
    /// `anonymized`).
    pub fn anonymize(&self, input: &str) -> (r: String)
        requires
            self.well_formed(),
        ensures
            r@ == anonymized(self.spec_config(), env_view(self.spec_env()), self.spec_custom(), input@),
    {
        let mut result = to_string(input);
        if self.config.anonymize_usernames {
            result = self.anonymize_usernames(result.as_str());
        }
        if self.config.anonymize_paths {
            result = self.anonymize_paths(result.as_str());
        }
        if self.config.anonymize_emails {
            result = replace_matches(&self.builtins.email, result.as_str(), "[EMAIL]");
        }
        if self.config.anonymize_ips {
            result = replace_matches(&self.builtins.ipv4, result.as_str(), "[IP]");
            result = replace_matches(&self.builtins.ipv6, result.as_str(), "[IP]");
        }
        self.apply_custom_patterns(result.as_str())
    }

    /// Whether the text holds something that would be anonymized (see
    /// `sensitive`).
    pub fn contains_sensitive(&self, input: &str) -> (r: bool)
        requires
            self.well_formed(),
        ensures
            r == sensitive(self.spec_config(), env_view(self.spec_env()), input@),
    {
        if self.config.anonymize_emails && matches_anywhere(&self.builtins.email, input) {
            return true;
        }
        if self.config.anonymize_ips && (matches_anywhere(&self.builtins.ipv4, input) || matches_anywhere(
            &self.builtins.ipv6,
            input,
        )) {
            return true;
        }
        if self.config.anonymize_paths && (matches_anywhere(&self.builtins.windows_path, input)
            || matches_anywhere(&self.builtins.unix_path, input)) {
            return true;
        }
        if self.config.anonymize_usernames {
            match &self.env.username {
                Some(username) => {
                    if str_contains(input, username.as_str()) {
                        return true;
                    }
                },
                None => {},
            }
        }
        false
    }

    /// The settings.
    pub fn config(&self) -> (c: &AnonymizationConfig)
        ensures
            *c == self.spec_config(),
    {
        &self.config
    }
}


/// With every kind of data switched off and no pattern of the user's own,
/// anonymizing leaves the text as it is.
pub proof fn lemma_nothing_switched_on(
    c: AnonymizationConfig,
    env: (Option<Seq<char>>, Option<Seq<char>>),
    s: Seq<char>,
)
    requires
        !c.anonymize_usernames,
        !c.anonymize_paths,
        !c.anonymize_emails,
        !c.anonymize_ips,
    ensures
        anonymized(c, env, Seq::empty(), s) == s,
{
}

/// Replacing an occurrence-free pattern changes nothing: a text in which a
/// non-empty `pat` does not occur is left as it is by `replaced`.
pub proof fn lemma_replaced_absent(s: Seq<char>, pat: Seq<char>, rep: Seq<char>)
    requires
        pat.len() > 0,
        !has_sub(s, pat),
    ensures
        replaced(s, pat, rep) == s,
    decreases s.len(),
{
    if s.len() >= pat.len() {
        assert(s.subrange(0, pat.len() as int) =~= s.take(pat.len() as int));
        if s.take(pat.len() as int) == pat {
            assert(s.subrange(0int, 0int + pat.len()) == pat);
        }
        let t = s.skip(1);
        assert(!has_sub(t, pat)) by {
            if has_sub(t, pat) {
                let i = choose|i: int| 0 <= i && i + pat.len() <= t.len() && #[trigger] t.subrange(i, i + pat.len()) == pat;
                assert(s.subrange(i + 1, i + 1 + pat.len()) =~= t.subrange(i, i + pat.len()));
            }
        }
        lemma_replaced_absent(t, pat, rep);
        assert(seq![s[0]] + t =~= s);
    }
}


/// Anonymizing with IP addresses switched on masks them last among the
/// built-in kinds: every IPv4 address (`\b\d{1,3}\.\d{1,3}\.\d{1,3}\.\d{1,3}\b`)
/// and then every full IPv6 address (`([0-9a-fA-F]{1,4}:){7}[0-9a-fA-F]{1,4}`)
/// is replaced by `[IP]`; with only IPs switched on and no pattern of the
/// user's own, that is all that happens to the text.
pub proof fn lemma_ips_masked(
    c: AnonymizationConfig,
    env: (Option<Seq<char>>, Option<Seq<char>>),
    s: Seq<char>,
)
    requires
        c.anonymize_ips,
        !c.anonymize_usernames,
        !c.anonymize_paths,
        !c.anonymize_emails,
    ensures
        anonymized(c, env, Seq::empty(), s) == regex_replace_all(
            r"([0-9a-fA-F]{1,4}:){7}[0-9a-fA-F]{1,4}"@,
            regex_replace_all(r"\b\d{1,3}\.\d{1,3}\.\d{1,3}\.\d{1,3}\b"@, s, "[IP]"@),
            "[IP]"@,
        ),
{
}

/// With IP addresses switched on, the text handed to the patterns of the
/// user's own is, whatever came before, one in which the IPv6 addresses of
/// the IPv4-masked text were replaced by `[IP]`.
pub proof fn lemma_ipv6_masked_before_custom(
    c: AnonymizationConfig,
    env: (Option<Seq<char>>, Option<Seq<char>>),
    custom: Seq<Seq<char>>,
    s: Seq<char>,
)
    requires
        c.anonymize_ips,
    ensures
        exists|t: Seq<char>|
            anonymized(c, env, custom, s) == customs_anonymized(
                regex_replace_all(
                    r"([0-9a-fA-F]{1,4}:){7}[0-9a-fA-F]{1,4}"@,
                    regex_replace_all(r"\b\d{1,3}\.\d{1,3}\.\d{1,3}\.\d{1,3}\b"@, t, "[IP]"@),
                    "[IP]"@,
                ),
                custom,
                custom.len(),
            ),
{
    let s1 = if c.anonymize_usernames {
        usernames_anonymized(s, env, string_views(c.preserve_words@))
    } else {
        s
    };
    let s2 = if c.anonymize_paths {
        paths_anonymized(s1, env)
    } else {
        s1
    };
    let s3 = if c.anonymize_emails {
        emails_anonymized(s2)
    } else {
        s2
    };
    assert(anonymized(c, env, custom, s) == customs_anonymized(
        regex_replace_all(
            r"([0-9a-fA-F]{1,4}:){7}[0-9a-fA-F]{1,4}"@,
            regex_replace_all(r"\b\d{1,3}\.\d{1,3}\.\d{1,3}\.\d{1,3}\b"@, s3, "[IP]"@),
            "[IP]"@,
        ),
        custom,
        custom.len(),
    ));
}


/// With only e-mail addresses switched on and no pattern of the user's own,
/// anonymizing replaces every match of
/// `[a-zA-Z0-9._%+-]+@[a-zA-Z0-9.-]+\.[a-zA-Z]{2,}` by `[EMAIL]` and does
/// nothing else.
pub proof fn lemma_emails_masked(
    c: AnonymizationConfig,
    env: (Option<Seq<char>>, Option<Seq<char>>),
    s: Seq<char>,
)
    requires
        c.anonymize_emails,
        !c.anonymize_usernames,
        !c.anonymize_paths,
        !c.anonymize_ips,
    ensures
        anonymized(c, env, Seq::empty(), s) == regex_replace_all(
            r"[a-zA-Z0-9._%+-]+@[a-zA-Z0-9.-]+\.[a-zA-Z]{2,}"@,
            s,
            "[EMAIL]"@,
        ),
{
}

} // verus!
