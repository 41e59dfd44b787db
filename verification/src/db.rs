//! Database settings and schema migrations.
//!
//! Talking to SQLite happens outside the library. The library holds the
//! settings of the connection pool, the migrations, and the decisions of a
//! migration run: which migrations to apply, which to skip, when a changed
//! migration stops the run, and what a rollback undoes.

use vstd::prelude::*;
use crate::text::{is_ws, is_whitespace, chars_of, string_from_chars};
use crate::errors::DatabaseError;

verus! {

/// How carefully SQLite syncs to disk.
#[derive(Debug, Clone, Copy, PartialEq, Eq, Structural)]
pub enum SynchronousMode {
    /// Fastest; data may be lost on a crash.
    Off,
    /// Balanced.
    Normal,
    /// Safest.
    Full,
}

impl Default for SynchronousMode {
    fn default() -> (m: Self)
        ensures
            m == SynchronousMode::Normal,
    {
        SynchronousMode::Normal
    }
}

/// Settings of the connection pool.
#[derive(Debug, Clone)]
pub struct DatabaseConfig {
    /// The database file.
    pub db_path: String,
    /// Most connections.
    pub max_connections: u32,
    /// Fewest connections.
    pub min_connections: u32,
    /// Connection timeout, in seconds.
    pub connect_timeout_secs: u64,
    /// Idle timeout, in seconds.
    pub idle_timeout_secs: u64,
    /// Whether write-ahead logging is on.
    pub enable_wal: bool,
    /// The sync mode.
    pub synchronous: SynchronousMode,
    /// Cache size (pages; negative for KB).
    pub cache_size: i32,
    /// Busy timeout, in milliseconds.
    pub busy_timeout_ms: u32,
}

/// The directory for the application's local data, as
/// `directories::ProjectDirs::from("com", "neuralfs", "NeuralFS")` gives it
/// (`data_local_dir`). It depends on the user's environment, so no clause
/// states it.
#[verifier::external_body]
fn project_data_dir() -> (r: Option<String>) {
    match directories::ProjectDirs::from("com", "neuralfs", "NeuralFS") {
        Some(d) => Some(d.data_local_dir().to_string_lossy().into_owned()),
        None => None,
    }
}

/// The settings other than the path, as the defaults have them.
pub open spec fn default_settings(c: DatabaseConfig) -> bool {
    &&& c.max_connections == 10
    &&& c.min_connections == 2
    &&& c.connect_timeout_secs == 30
    &&& c.idle_timeout_secs == 600
    &&& !c.enable_wal
    &&& c.synchronous == SynchronousMode::Normal
    &&& c.cache_size == -64000
    &&& c.busy_timeout_ms == 5000
}

impl Default for DatabaseConfig {
    /// The defaults: `metadata.db` in the application's local data directory
    /// (in the working directory when there is none), 2 to 10 connections,
    /// no write-ahead logging (this build has no `wal` feature), normal sync,
    /// a 64 MB cache and a 5 second busy timeout.
    fn default() -> (c: Self)
        ensures
            default_settings(c),
    {
        let db_path = match project_data_dir() {
            Some(d) => crate::utils::join_path(d.as_str(), "metadata.db"),
            None => "metadata.db".to_owned(),
        };
        DatabaseConfig {
            db_path,
            max_connections: 10,
            min_connections: 2,
            connect_timeout_secs: 30,
            idle_timeout_secs: 600,
            enable_wal: false,
            synchronous: SynchronousMode::Normal,
            cache_size: -64000,
            busy_timeout_ms: 5000,
        }
    }
}

impl DatabaseConfig {
    /// The defaults with the database at `db_path`.
    pub fn with_path(db_path: &str) -> (c: Self)
        ensures
            c.db_path@ == db_path@,
            default_settings(c),
    {
        let d = Self::default();
        DatabaseConfig { db_path: db_path.to_owned(), ..d }
    }

    /// The same settings with write-ahead logging on or off.
    pub fn with_wal(self, enable: bool) -> (c: Self)
        ensures
            c == (DatabaseConfig { enable_wal: enable, ..self }),
    {
        DatabaseConfig { enable_wal: enable, ..self }
    }

    /// The same settings with at most `max` connections.
    pub fn with_max_connections(self, max: u32) -> (c: Self)
        ensures
            c == (DatabaseConfig { max_connections: max, ..self }),
    {
        DatabaseConfig { max_connections: max, ..self }
    }

    /// The same settings with the given sync mode.
    pub fn with_synchronous(self, mode: SynchronousMode) -> (c: Self)
        ensures
            c == (DatabaseConfig { synchronous: mode, ..self }),
    {
        DatabaseConfig { synchronous: mode, ..self }
    }
}

/// The 64-bit hash of a string by std's `DefaultHasher::new()` (SipHash with
/// fixed keys), as `str::hash` feeds it.
pub uninterp spec fn default_hash(s: Seq<char>) -> u64;

/// `DefaultHasher::new()` fed with `content` (`str::hash`), finished. The
/// hasher starts from fixed keys, so the result depends on the text alone.
#[verifier::external_body]
fn hash_text(content: &str) -> (h: u64)
    ensures
        h == default_hash(content@),
{
    let mut hasher = std::collections::hash_map::DefaultHasher::new();
    std::hash::Hash::hash(content, &mut hasher);
    std::hash::Hasher::finish(&hasher)
}

/// The lowercase hexadecimal digit for `d < 16`.
pub open spec fn hex_digit(d: nat) -> char {
    if d < 10 {
        (('0' as u32) + d) as char
    } else {
        (('a' as u32) + d - 10) as char
    }
}

/// The lowercase hexadecimal digits of `n`, without leading zeros (as
/// `format!("{:x}")` writes it).
pub open spec fn hex_str(n: nat) -> Seq<char>
    decreases n,
{
    if n < 16 {
        seq![hex_digit(n)]
    } else {
        hex_str(n / 16).push(hex_digit(n % 16))
    }
}

/// Appends the hexadecimal digits of `n`.
fn push_hex(out: &mut Vec<char>, n: u64)
    ensures
        final(out)@ == old(out)@ + hex_str(n as nat),
    decreases n,
{
    if n >= 16 {
        push_hex(out, n / 16);
    }
    let d = n % 16;
    let c = if d < 10 {
        (48u8 + (d as u8)) as char
    } else {
        (87u8 + (d as u8)) as char
    };
    out.push(c);
    proof {
        if n >= 16 {
            assert(old(out)@ + hex_str((n / 16) as nat) + seq![hex_digit((n % 16) as nat)] =~= old(out)@ + hex_str(n as nat));
        } else {
            assert(old(out)@ + seq![hex_digit(n as nat)] =~= old(out)@ + hex_str(n as nat));
        }
    }
}

/// A schema migration.
#[derive(Debug, Clone)]
pub struct Migration {
    /// Its version.
    pub version: i64,
    /// Its name.
    pub name: String,
    /// The SQL that applies it.
    pub up_sql: String,
    /// The SQL that undoes it, if any.
    pub down_sql: Option<String>,
    /// The checksum of `up_sql`.
    pub checksum: String,
}

impl Migration {
    /// A migration with no rollback SQL; its checksum is that of `up_sql`.
    pub fn new(version: i64, name: &str, up_sql: &str) -> (m: Self)
        ensures
            m.version == version,
            m.name@ == name@,
            m.up_sql@ == up_sql@,
            m.down_sql is None,
            m.checksum@ == hex_str(default_hash(up_sql@) as nat),
    {
        let checksum = Self::calculate_checksum(up_sql);
        Migration { version, name: name.to_owned(), up_sql: up_sql.to_owned(), down_sql: None, checksum }
    }

    /// The same migration with rollback SQL.
    pub fn with_down(self, down_sql: &str) -> (m: Self)
        ensures
            m.version == self.version,
            m.name == self.name,
            m.up_sql == self.up_sql,
            m.down_sql matches Some(d) && d@ == down_sql@,
            m.checksum == self.checksum,
    {
        Migration { down_sql: Some(down_sql.to_owned()), ..self }
    }

    /// The checksum of a migration's SQL: its `DefaultHasher` hash in
    /// lowercase hexadecimal.
    pub fn calculate_checksum(content: &str) -> (r: String)
        ensures
            r@ == hex_str(default_hash(content@) as nat),
    {
        let h = hash_text(content);
        let mut v: Vec<char> = Vec::new();
        push_hex(&mut v, h);
        proof {
            assert(v@ =~= hex_str(h as nat));
        }
        string_from_chars(v.as_slice())
    }
}

/// A migration recorded as applied.
#[derive(Debug, Clone)]
pub struct AppliedMigration {
    pub version: i64,
    pub name: String,
    pub applied_at: String,
    pub checksum: String,
}

/// What a migration run did.
#[derive(Debug, Clone)]
pub struct MigrationResult {
    /// How many migrations were applied.
    pub applied: usize,
    /// How many were already applied.
    pub skipped: usize,
    /// The versions applied, in order.
    pub applied_versions: Vec<i64>,
    /// The schema version afterwards.
    pub current_version: i64,
}


/// The decimal form of `v`, with a `-` when it is negative.
pub open spec fn int_str(v: int) -> Seq<char> {
    if v < 0 {
        seq!['-'] + crate::utils::dec_str((-v) as nat)
    } else {
        crate::utils::dec_str(v as nat)
    }
}

/// Appends the decimal form of `v`.
fn push_int(out: &mut Vec<char>, v: i64)
    ensures
        final(out)@ == old(out)@ + int_str(v as int),
{
    if v < 0 {
        out.push('-');
        let ghost mid = out@;
        let m: i128 = -(v as i128);
        crate::utils::push_decimal(out, m as u128);
        proof {
            assert(out@ =~= old(out)@ + int_str(v as int));
        }
    } else {
        crate::utils::push_decimal(out, v as u128);
    }
}

/// Appends a literal's characters.
fn push_text(out: &mut Vec<char>, s: &str)
    ensures
        final(out)@ == old(out)@ + s@,
{
    crate::diluted::append_text(out, s)
}

/// `s` without white space at its start.
pub open spec fn trim_start(s: Seq<char>) -> Seq<char>
    decreases s.len(),
{
    if s.len() > 0 && is_ws(s[0]) {
        trim_start(s.drop_first())
    } else {
        s
    }
}

/// `s` without white space at its end.
pub open spec fn trim_end(s: Seq<char>) -> Seq<char>
    decreases s.len(),
{
    if s.len() > 0 && is_ws(s.last()) {
        trim_end(s.drop_last())
    } else {
        s
    }
}

/// `s` without white space at either end (`str::trim`).
pub open spec fn trim(s: Seq<char>) -> Seq<char> {
    trim_end(trim_start(s))
}

/// The pieces of `s` between semicolons (`str::split(';')`): one more than
/// there are semicolons.
pub open spec fn split_semicolons(s: Seq<char>) -> Seq<Seq<char>>
    decreases s.len(),
{
    if s.len() == 0 {
        seq![Seq::empty()]
    } else {
        let w = split_semicolons(s.drop_last());
        if s.last() == ';' {
            w.push(Seq::empty())
        } else {
            w.drop_last().push(w.last().push(s.last()))
        }
    }
}

/// Whether a trimmed piece is a statement: not empty, not a `--` comment.
pub open spec fn is_statement(t: Seq<char>) -> bool {
    t.len() > 0 && !(t.len() >= 2 && t[0] == '-' && t[1] == '-')
}

/// The statements among trimmed pieces, in order.
pub open spec fn statements_of(pieces: Seq<Seq<char>>) -> Seq<Seq<char>>
    decreases pieces.len(),
{
    if pieces.len() == 0 {
        Seq::empty()
    } else {
        let rest = statements_of(pieces.drop_last());
        let t = trim(pieces.last());
        if is_statement(t) {
            rest.push(t)
        } else {
            rest
        }
    }
}

/// The statements of a migration's SQL: the trimmed pieces between
/// semicolons that are neither empty nor `--` comments.
pub open spec fn sql_statements(sql: Seq<char>) -> Seq<Seq<char>> {
    statements_of(split_semicolons(sql))
}

proof fn lemma_split_nonempty(s: Seq<char>)
    ensures
        split_semicolons(s).len() >= 1,
    decreases s.len(),
{
    if s.len() > 0 {
        lemma_split_nonempty(s.drop_last());
    }
}

/// `v[a..b]` with white space cut from both ends.
fn trimmed(v: &Vec<char>, a: usize, b: usize) -> (r: Vec<char>)
    requires
        a <= b <= v@.len(),
    ensures
        r@ == trim(v@.subrange(a as int, b as int)),
{
    let mut i = a;
    while i < b && is_whitespace(v[i])
        invariant
            a <= i <= b,
            b <= v@.len(),
            trim_start(v@.subrange(a as int, b as int)) == trim_start(v@.subrange(i as int, b as int)),
        decreases b - i,
    {
        proof {
            assert(v@.subrange(i as int, b as int).drop_first() =~= v@.subrange(i + 1, b as int));
        }
        i = i + 1;
    }
    proof {
        assert(trim_start(v@.subrange(i as int, b as int)) == v@.subrange(i as int, b as int));
    }
    let mut j = b;
    while j > i && is_whitespace(v[j - 1])
        invariant
            i <= j <= b,
            b <= v@.len(),
            trim_end(v@.subrange(i as int, b as int)) == trim_end(v@.subrange(i as int, j as int)),
        decreases j - i,
    {
        proof {
            assert(v@.subrange(i as int, j as int).drop_last() =~= v@.subrange(i as int, j - 1));
        }
        j = j - 1;
    }
    proof {
        assert(trim_end(v@.subrange(i as int, j as int)) == v@.subrange(i as int, j as int));
    }
    let mut r: Vec<char> = Vec::new();
    let mut k = i;
    while k < j
        invariant
            i <= k <= j,
            j <= v@.len(),
            r@ == v@.subrange(i as int, k as int),
        decreases j - k,
    {
        r.push(v[k]);
        proof {
            assert(v@.subrange(i as int, k + 1) =~= v@.subrange(i as int, k as int).push(v@[k as int]));
        }
        k = k + 1;
    }
    r
}

/// The statements of a migration's SQL, in order.
pub fn migration_statements(sql: &str) -> (r: Vec<String>)
    ensures
        r@.map_values(|s: String| s@) == sql_statements(sql@),
{
    let v = chars_of(sql);
    let mut out: Vec<String> = Vec::new();
    let mut start: usize = 0;
    let mut i: usize = 0;
    proof {
        assert(v@.take(0) =~= Seq::<char>::empty());
        assert(v@.subrange(0, 0) =~= Seq::<char>::empty());
    }
    while i < v.len()
        invariant
            v@ == sql@,
            start <= i <= v@.len(),
            split_semicolons(v@.take(i as int)).last() == v@.subrange(start as int, i as int),
            split_semicolons(v@.take(i as int)).len() >= 1,
            out@.map_values(|s: String| s@) == statements_of(split_semicolons(v@.take(i as int)).drop_last()),
        decreases v@.len() - i,
    {
        let ghost pre = v@.take(i as int);
        let ghost post = v@.take(i + 1);
        proof {
            assert(post.drop_last() =~= pre);
            assert(post.last() == v@[i as int]);
            lemma_split_nonempty(pre);
        }
        if v[i] == ';' {
            let t = trimmed(&v, start, i);
            let keep = t.len() > 0 && !(t.len() >= 2 && t[0] == '-' && t[1] == '-');
            let ghost o0 = out@.map_values(|s: String| s@);
            if keep {
                out.push(string_from_chars(t.as_slice()));
            }
            proof {
                let w = split_semicolons(pre);
                assert(split_semicolons(post) == w.push(Seq::<char>::empty()));
                assert(split_semicolons(post).drop_last() =~= w);
                assert(w.drop_last().push(w.last()) =~= w);
                assert(out@.map_values(|s: String| s@) =~= statements_of(w));
                assert(v@.subrange((i + 1) as int, (i + 1) as int) =~= Seq::<char>::empty());
            }
            start = i + 1;
        } else {
            proof {
                let w = split_semicolons(pre);
                assert(split_semicolons(post) == w.drop_last().push(w.last().push(v@[i as int])));
                assert(split_semicolons(post).drop_last() =~= w.drop_last());
                assert(v@.subrange(start as int, i + 1) =~= v@.subrange(start as int, i as int).push(v@[i as int]));
            }
        }
        i = i + 1;
    }
    let t = trimmed(&v, start, v.len());
    let keep = t.len() > 0 && !(t.len() >= 2 && t[0] == '-' && t[1] == '-');
    if keep {
        out.push(string_from_chars(t.as_slice()));
    }
    proof {
        let w = split_semicolons(v@.take(v@.len() as int));
        assert(v@.take(v@.len() as int) =~= v@);
        assert(w.drop_last().push(w.last()) =~= w);
        assert(out@.map_values(|s: String| s@) =~= statements_of(w));
    }
    out
}


/// `m` placed before the first migration of a higher version.
pub open spec fn insert_by_version(s: Seq<Migration>, m: Migration) -> Seq<Migration>
    decreases s.len(),
{
    if s.len() == 0 {
        seq![m]
    } else if m.version < s[0].version {
        seq![m] + s
    } else {
        seq![s[0]] + insert_by_version(s.drop_first(), m)
    }
}

/// The migrations ordered by version; migrations of the same version keep
/// their order (a stable sort).
pub open spec fn sort_by_version(s: Seq<Migration>) -> Seq<Migration>
    decreases s.len(),
{
    if s.len() == 0 {
        Seq::empty()
    } else {
        insert_by_version(sort_by_version(s.drop_last()), s.last())
    }
}

/// Versions never go down along the list.
pub open spec fn versions_ordered(s: Seq<Migration>) -> bool {
    forall|i: int, j: int| 0 <= i < j < s.len() ==> (#[trigger] s[i]).version <= (#[trigger] s[j]).version
}

proof fn lemma_insert_by_version_at(s: Seq<Migration>, m: Migration, p: int)
    requires
        0 <= p <= s.len(),
        forall|k: int| 0 <= k < p ==> !(m.version < (#[trigger] s[k]).version),
        p < s.len() ==> m.version < s[p].version,
    ensures
        insert_by_version(s, m) == s.insert(p, m),
    decreases s.len(),
{
    if s.len() == 0 {
        assert(s.insert(p, m) =~= seq![m]);
    } else if p == 0 {
        assert(s.insert(0, m) =~= seq![m] + s);
    } else {
        let t = s.drop_first();
        assert forall|k: int| 0 <= k < p - 1 implies !(m.version < (#[trigger] t[k]).version) by {
            assert(t[k] == s[k + 1]);
        }
        lemma_insert_by_version_at(t, m, p - 1);
        assert(seq![s[0]] + t.insert(p - 1, m) =~= s.insert(p, m));
    }
}

/// An insertion by version puts the migration at one position: after those
/// of lower or equal version before it, before the first of a higher one.
proof fn lemma_insert_by_version_position(s: Seq<Migration>, m: Migration) -> (p: int)
    ensures
        0 <= p <= s.len(),
        insert_by_version(s, m) == s.insert(p, m),
        forall|k: int| 0 <= k < p ==> !(m.version < (#[trigger] s[k]).version),
        p < s.len() ==> m.version < s[p].version,
    decreases s.len(),
{
    if s.len() == 0 {
        assert(s.insert(0, m) =~= seq![m]);
        0
    } else if m.version < s[0].version {
        assert(s.insert(0, m) =~= seq![m] + s);
        0
    } else {
        let t = s.drop_first();
        let q = lemma_insert_by_version_position(t, m);
        assert(seq![s[0]] + t.insert(q, m) =~= s.insert(q + 1, m));
        assert forall|k: int| 0 <= k < q + 1 implies !(m.version < (#[trigger] s[k]).version) by {
            if k > 0 {
                assert(s[k] == t[k - 1]);
            }
        }
        if q + 1 < s.len() {
            assert(s[q + 1] == t[q]);
        }
        q + 1
    }
}

/// Inserting by version keeps versions in order.
proof fn lemma_insert_by_version_ordered(s: Seq<Migration>, m: Migration)
    requires
        versions_ordered(s),
    ensures
        versions_ordered(insert_by_version(s, m)),
        insert_by_version(s, m).len() == s.len() + 1,
{
    let p = lemma_insert_by_version_position(s, m);
    let r = s.insert(p, m);
    assert forall|i: int, j: int| 0 <= i < j < r.len() implies (#[trigger] r[i]).version <= (#[trigger] r[j]).version by {
        if j < p {
            assert(r[i] == s[i] && r[j] == s[j]);
        } else if j == p {
            assert(r[i] == s[i]);
        } else if i < p {
            assert(r[i] == s[i] && r[j] == s[j - 1]);
            assert(s[p].version <= s[j - 1].version);
        } else if i == p {
            assert(r[j] == s[j - 1]);
            assert(s[p].version <= s[j - 1].version);
        } else {
            assert(r[i] == s[i - 1] && r[j] == s[j - 1]);
        }
    }
}

/// The migrations are ordered by version after a stable sort.
pub proof fn lemma_sort_by_version_ordered(s: Seq<Migration>)
    ensures
        versions_ordered(sort_by_version(s)),
        sort_by_version(s).len() == s.len(),
    decreases s.len(),
{
    if s.len() > 0 {
        lemma_sort_by_version_ordered(s.drop_last());
        lemma_insert_by_version_ordered(sort_by_version(s.drop_last()), s.last());
    }
}

/// The migrations of a schema.
pub struct MigrationManager {
    /// The migrations, ordered by version.
    pub migrations: Vec<Migration>,
}

/// One step of a migration run.
#[derive(Debug, Clone, Copy, PartialEq, Eq, Structural)]
pub enum MigrationStep {
    /// Apply the migration at this position, in its own transaction.
    Apply(usize),
    /// The migration at this position is already applied.
    Skip(usize),
}

/// The steps of a migration run, and the error that stops it after them.
#[derive(Debug)]
pub struct MigrationPlan {
    pub steps: Vec<MigrationStep>,
    pub failure: Option<DatabaseError>,
}

/// The position of the first applied record of version `v`, or -1.
pub open spec fn applied_index(a: Seq<AppliedMigration>, v: i64) -> int
    decreases a.len(),
{
    if a.len() == 0 {
        -1
    } else if a[0].version == v {
        0
    } else if applied_index(a.drop_first(), v) < 0 {
        -1
    } else {
        applied_index(a.drop_first(), v) + 1
    }
}

/// The message of a changed migration.
pub open spec fn mismatch_text(v: i64, expected: Seq<char>, found: Seq<char>) -> Seq<char> {
    "Migration "@ + int_str(v as int) + " checksum mismatch: expected "@ + expected + ", found "@ + found
}

/// The steps for the migrations `ms[0..n]` against the applied records:
/// each migration is skipped when a record of its version exists and
/// applied otherwise; the walk stops at the first record whose checksum
/// differs.
pub open spec fn plan_steps(ms: Seq<Migration>, a: Seq<AppliedMigration>, n: int) -> Seq<MigrationStep>
    decreases n,
{
    if n <= 0 {
        Seq::empty()
    } else {
        let before = plan_steps(ms, a, n - 1);
        if first_mismatch(ms, a, n - 1) >= 0 {
            before
        } else {
            let k = applied_index(a, ms[n - 1].version);
            if k >= 0 {
                if a[k].checksum@ != ms[n - 1].checksum@ {
                    before
                } else {
                    before.push(MigrationStep::Skip((n - 1) as usize))
                }
            } else {
                before.push(MigrationStep::Apply((n - 1) as usize))
            }
        }
    }
}

/// The position of the first of `ms[0..n]` whose applied record has another
/// checksum, or -1.
pub open spec fn first_mismatch(ms: Seq<Migration>, a: Seq<AppliedMigration>, n: int) -> int
    decreases n,
{
    if n <= 0 {
        -1
    } else if first_mismatch(ms, a, n - 1) >= 0 {
        first_mismatch(ms, a, n - 1)
    } else {
        let k = applied_index(a, ms[n - 1].version);
        if k >= 0 && a[k].checksum@ != ms[n - 1].checksum@ {
            n - 1
        } else {
            -1
        }
    }
}


/// Once a mismatch is found, later migrations change neither the steps nor
/// the mismatch.
proof fn lemma_mismatch_stays(ms: Seq<Migration>, a: Seq<AppliedMigration>, m: int, n: int)
    requires
        0 <= m <= n,
        first_mismatch(ms, a, m) >= 0,
    ensures
        first_mismatch(ms, a, n) == first_mismatch(ms, a, m),
        plan_steps(ms, a, n) == plan_steps(ms, a, m),
    decreases n - m,
{
    if n > m {
        lemma_mismatch_stays(ms, a, m, n - 1);
    }
}

/// The position of the first migration of version `v`, or -1.
pub open spec fn migration_index(ms: Seq<Migration>, v: i64) -> int
    decreases ms.len(),
{
    if ms.len() == 0 {
        -1
    } else if ms[0].version == v {
        0
    } else if migration_index(ms.drop_first(), v) < 0 {
        -1
    } else {
        migration_index(ms.drop_first(), v) + 1
    }
}

proof fn lemma_applied_index(a: Seq<AppliedMigration>, v: i64)
    ensures
        -1 <= applied_index(a, v) < a.len(),
        applied_index(a, v) >= 0 ==> a[applied_index(a, v)].version == v,
        forall|i: int| 0 <= i < a.len() && (applied_index(a, v) < 0 || i < applied_index(a, v)) ==> (#[trigger] a[i]).version != v,
    decreases a.len(),
{
    if a.len() > 0 {
        lemma_applied_index(a.drop_first(), v);
        assert(forall|i: int| 0 < i < a.len() ==> a[i] == a.drop_first()[i - 1]);
    }
}

proof fn lemma_migration_index(ms: Seq<Migration>, v: i64)
    ensures
        -1 <= migration_index(ms, v) < ms.len(),
        migration_index(ms, v) >= 0 ==> ms[migration_index(ms, v)].version == v,
        forall|i: int| 0 <= i < ms.len() && (migration_index(ms, v) < 0 || i < migration_index(ms, v)) ==> (#[trigger] ms[i]).version != v,
    decreases ms.len(),
{
    if ms.len() > 0 {
        lemma_migration_index(ms.drop_first(), v);
        assert(forall|i: int| 0 < i < ms.len() ==> ms[i] == ms.drop_first()[i - 1]);
    }
}

/// The position of the first applied record of version `v`.
fn find_applied(a: &[AppliedMigration], v: i64) -> (r: Option<usize>)
    ensures
        match r {
            Some(i) => i as int == applied_index(a@, v),
            None => applied_index(a@, v) < 0,
        },
{
    proof {
        lemma_applied_index(a@, v);
    }
    let mut i: usize = 0;
    while i < a.len()
        invariant
            i <= a@.len(),
            forall|k: int| 0 <= k < i ==> (#[trigger] a@[k]).version != v,
            -1 <= applied_index(a@, v) < a@.len(),
            applied_index(a@, v) >= 0 ==> a@[applied_index(a@, v)].version == v,
            forall|k: int| 0 <= k < a@.len() && (applied_index(a@, v) < 0 || k < applied_index(a@, v)) ==> (#[trigger] a@[k]).version != v,
        decreases a@.len() - i,
    {
        if a[i].version == v {
            return Some(i);
        }
        i = i + 1;
    }
    None
}

/// A migration failure with the given message.
fn migration_failed(msg: Vec<char>) -> (e: DatabaseError)
    ensures
        e matches DatabaseError::MigrationFailed { reason } && reason@ == msg@,
{
    DatabaseError::MigrationFailed { reason: string_from_chars(msg.as_slice()) }
}

impl MigrationManager {
    /// A manager with no migrations.
    pub fn new() -> (m: Self)
        ensures
            m.migrations@.len() == 0,
    {
        MigrationManager { migrations: Vec::new() }
    }

    /// Adds a migration and orders the migrations by version (a stable
    /// sort: migrations of one version keep the order they were added in).
    pub fn add_migration(&mut self, migration: Migration)
        ensures
            final(self).migrations@ == sort_by_version(old(self).migrations@.push(migration)),
            versions_ordered(final(self).migrations@),
            final(self).migrations@.len() == old(self).migrations@.len() + 1,
    {
        let mut v: Vec<Migration> = Vec::new();
        std::mem::swap(&mut v, &mut self.migrations);
        v.push(migration);
        let ghost orig = v@;
        let total = v.len();
        let mut sorted: Vec<Migration> = Vec::new();
        let mut k: usize = 0;
        proof {
            assert(orig.subrange(0, orig.len() as int) =~= orig);
            assert(orig.take(0) =~= Seq::<Migration>::empty());
        }
        while v.len() > 0
            invariant
                k <= orig.len(),
                orig.len() == total,
                v@ == orig.subrange(k as int, orig.len() as int),
                sorted@ == sort_by_version(orig.take(k as int)),
            decreases v@.len(),
        {
            let x = v.remove(0);
            proof {
                assert(orig.take(k + 1).drop_last() =~= orig.take(k as int));
                assert(orig.take(k + 1).last() == x);
                assert(v@ =~= orig.subrange(k + 1, orig.len() as int));
            }
            let mut p: usize = 0;
            while p < sorted.len()
                invariant
                    p <= sorted@.len(),
                    forall|q: int| 0 <= q < p ==> !(x.version < (#[trigger] sorted@[q]).version),
                ensures
                    p <= sorted@.len(),
                    forall|q: int| 0 <= q < p ==> !(x.version < (#[trigger] sorted@[q]).version),
                    p < sorted@.len() ==> x.version < sorted@[p as int].version,
                decreases sorted@.len() - p,
            {
                if x.version < sorted[p].version {
                    break;
                }
                p = p + 1;
            }
            proof {
                lemma_insert_by_version_at(sorted@, x, p as int);
            }
            sorted.insert(p, x);
            k = k + 1;
        }
        proof {
            assert(orig.take(orig.len() as int) =~= orig);
            lemma_sort_by_version_ordered(orig);
        }
        self.migrations = sorted;
    }

    /// The steps of a migration run against the applied records: in order of
    /// version, each migration is skipped when it was applied and applied
    /// when not; a migration whose applied record has another checksum stops
    /// the run with a "checksum mismatch" error (what came before it is
    /// still carried out).
    pub fn plan_migrations(&self, applied: &[AppliedMigration]) -> (r: MigrationPlan)
        ensures
            r.steps@ == plan_steps(self.migrations@, applied@, self.migrations@.len() as int),
            first_mismatch(self.migrations@, applied@, self.migrations@.len() as int) < 0 ==> r.failure is None,
            first_mismatch(self.migrations@, applied@, self.migrations@.len() as int) >= 0 ==> ({
                let i = first_mismatch(self.migrations@, applied@, self.migrations@.len() as int);
                let m = self.migrations@[i];
                let k = applied_index(applied@, m.version);
                r.failure matches Some(e) && e matches DatabaseError::MigrationFailed { reason }
                    && reason@ == mismatch_text(m.version, m.checksum@, applied@[k].checksum@)
            }),
    {
        let ghost ms = self.migrations@;
        let ghost a = applied@;
        let mut steps: Vec<MigrationStep> = Vec::new();
        let mut i: usize = 0;
        while i < self.migrations.len()
            invariant
                ms == self.migrations@,
                a == applied@,
                i <= ms.len(),
                steps@ == plan_steps(ms, a, i as int),
                first_mismatch(ms, a, i as int) < 0,
            decreases ms.len() - i,
        {
            let m = &self.migrations[i];
            proof {
                lemma_applied_index(a, m.version);
            }
            match find_applied(applied, m.version) {
                Some(k) => {
                    if !crate::text::str_eq(applied[k].checksum.as_str(), m.checksum.as_str()) {
                        let mut msg: Vec<char> = Vec::new();
                        push_text(&mut msg, "Migration ");
                        push_int(&mut msg, m.version);
                        push_text(&mut msg, " checksum mismatch: expected ");
                        push_text(&mut msg, m.checksum.as_str());
                        push_text(&mut msg, ", found ");
                        push_text(&mut msg, applied[k].checksum.as_str());
                        proof {
                            assert(msg@ =~= mismatch_text(m.version, m.checksum@, a[k as int].checksum@));
                            assert(first_mismatch(ms, a, i + 1) == i);
                            lemma_mismatch_stays(ms, a, i + 1, ms.len() as int);
                        }
                        return MigrationPlan { steps, failure: Some(migration_failed(msg)) };
                    }
                    steps.push(MigrationStep::Skip(i));
                },
                None => {
                    steps.push(MigrationStep::Apply(i));
                },
            }
            i = i + 1;
        }
        MigrationPlan { steps, failure: None }
    }

    /// What rolling back from schema version `current` undoes: nothing at
    /// version 0; otherwise the migration of that version, by the
    /// statements of its rollback SQL. Fails when no migration has that
    /// version or it has no rollback SQL.
    pub fn plan_rollback(&self, current: i64) -> (r: Result<Option<(i64, Vec<String>)>, DatabaseError>)
        ensures
            current == 0 ==> r matches Ok(None),
            current != 0 && migration_index(self.migrations@, current) < 0 ==> (r matches Err(e)
                && e matches DatabaseError::MigrationFailed { reason }
                && reason@ == "Migration "@ + int_str(current as int) + " not found for rollback"@),
            current != 0 && migration_index(self.migrations@, current) >= 0 ==> ({
                let m = self.migrations@[migration_index(self.migrations@, current)];
                match m.down_sql {
                    None => r matches Err(e) && e matches DatabaseError::MigrationFailed { reason }
                        && reason@ == "Migration "@ + int_str(current as int) + " has no rollback SQL"@,
                    Some(d) => r matches Ok(Some((v, stmts))) && v == current
                        && stmts@.map_values(|s: String| s@) == sql_statements(d@),
                }
            }),
    {
        if current == 0 {
            return Ok(None);
        }
        proof {
            lemma_migration_index(self.migrations@, current);
        }
        let mut i: usize = 0;
        while i < self.migrations.len()
            invariant
                current != 0,
                i <= self.migrations@.len(),
                forall|k: int| 0 <= k < i ==> (#[trigger] self.migrations@[k]).version != current,
                -1 <= migration_index(self.migrations@, current) < self.migrations@.len(),
                migration_index(self.migrations@, current) >= 0 ==> self.migrations@[migration_index(self.migrations@, current)].version == current,
                forall|k: int| 0 <= k < self.migrations@.len() && (migration_index(self.migrations@, current) < 0 || k < migration_index(self.migrations@, current)) ==> (#[trigger] self.migrations@[k]).version != current,
            decreases self.migrations@.len() - i,
        {
            if self.migrations[i].version == current {
                let m = &self.migrations[i];
                match &m.down_sql {
                    Some(d) => {
                        let stmts = migration_statements(d.as_str());
                        return Ok(Some((current, stmts)));
                    },
                    None => {
                        let mut msg: Vec<char> = Vec::new();
                        push_text(&mut msg, "Migration ");
                        push_int(&mut msg, current);
                        push_text(&mut msg, " has no rollback SQL");
                        return Err(migration_failed(msg));
                    },
                }
            }
            i = i + 1;
        }
        let mut msg: Vec<char> = Vec::new();
        push_text(&mut msg, "Migration ");
        push_int(&mut msg, current);
        push_text(&mut msg, " not found for rollback");
        Err(migration_failed(msg))
    }
}


/// The text before the first `c` of `s` (all of `s` when it has none).
pub open spec fn leading_piece(s: Seq<char>, c: char) -> Seq<char>
    decreases s.len(),
{
    if s.len() == 0 || s[0] == c {
        Seq::empty()
    } else {
        seq![s[0]] + leading_piece(s.drop_first(), c)
    }
}

/// The version a migration file's name gives: the number before its first
/// `_` (`001_initial_schema` gives 1).
pub open spec fn migration_version_of(stem: Seq<char>) -> Option<i64> {
    crate::numbers::parse_i64_text(leading_piece(stem, '_'))
}

fn leading_piece_of(s: &str, c: char) -> (r: String)
    ensures
        r@ == leading_piece(s@, c),
{
    let v = chars_of(s);
    let mut i: usize = 0;
    while i < v.len() && v[i] != c
        invariant
            v@ == s@,
            i <= v@.len(),
            forall|k: int| 0 <= k < i ==> v@[k] != c,
        decreases v@.len() - i,
    {
        i = i + 1;
    }
    proof {
        lemma_leading_piece(v@, c, i as int);
    }
    string_from_chars(vstd::slice::slice_subrange(v.as_slice(), 0, i))
}

proof fn lemma_leading_piece(s: Seq<char>, c: char, i: int)
    requires
        0 <= i <= s.len(),
        forall|k: int| 0 <= k < i ==> s[k] != c,
        i == s.len() || s[i] == c,
    ensures
        leading_piece(s, c) == s.subrange(0, i),
    decreases s.len(),
{
    if s.len() == 0 || s[0] == c {
        assert(s.subrange(0, i) =~= Seq::<char>::empty());
    } else {
        lemma_leading_piece(s.drop_first(), c, i - 1);
        assert(seq![s[0]] + s.drop_first().subrange(0, i - 1) =~= s.subrange(0, i));
    }
}

/// Whether a file of the migrations directory holds a migration: its
/// extension is `sql`.
pub fn is_migration_file(path: &str) -> (r: bool)
    ensures
        r == (crate::utils::path_extension(path@) == Some("sql"@)),
{
    match crate::utils::file_extension(path) {
        Some(e) => crate::text::str_eq(e.as_str(), "sql"),
        None => {
            proof {
                reveal_strlit("sql");
            }
            false
        },
    }
}

/// The migration of a file, from its path and its SQL: named by the file's
/// stem and versioned by the number that opens it; or the error for a path
/// without a file name or a stem without a version.
pub fn migration_from_file(path: &str, content: &str) -> (r: Result<Migration, DatabaseError>)
    ensures
        match crate::utils::path_file_stem(path@) {
            None => r matches Err(DatabaseError::MigrationFailed { reason }) && reason@ == "Invalid migration filename"@,
            Some(stem) => match migration_version_of(stem) {
                None => r matches Err(DatabaseError::MigrationFailed { reason })
                    && reason@ == "Invalid migration version in filename: "@ + stem,
                Some(version) => r matches Ok(m) && m.version == version && m.name@ == stem && m.up_sql@ == content@
                    && m.down_sql is None && m.checksum@ == hex_str(default_hash(content@) as nat),
            },
        },
{
    match crate::utils::file_stem(path) {
        None => Err(DatabaseError::MigrationFailed { reason: crate::text::to_string("Invalid migration filename") }),
        Some(stem) => {
            let piece = leading_piece_of(stem.as_str(), '_');
            match crate::numbers::parse_i64(piece.as_str()) {
                None => {
                    let mut msg = chars_of("Invalid migration version in filename: ");
                    push_text(&mut msg, stem.as_str());
                    Err(migration_failed(msg))
                },
                Some(version) => Ok(Migration::new(version, stem.as_str(), content)),
            }
        },
    }
}


/// `s` without white space at either end (`str::trim`).
pub fn trim_text(s: &str) -> (r: String)
    ensures
        r@ == trim(s@),
{
    let v = chars_of(s);
    let t = trimmed(&v, 0, v.len());
    proof {
        assert(v@.subrange(0, v@.len() as int) =~= v@);
    }
    string_from_chars(t.as_slice())
}

} // verus!
