//! The asset server's security and caches: the session token, the origins a
//! request may come from, the decision on each request, and the thumbnail
//! and preview caches.
//!
//! Serving HTTP happens outside the library; it asks `check_request` whether
//! a request may be served. The caches are keyed by file identifier (a UUID's
//! 128 bits); each identifier occurs at most once.

use vstd::prelude::*;
use vstd::string::StringSliceAdditionalSpecFns;
use crate::text::{str_eq, string_from_chars};
use crate::launcher::owned;

verus! {

/// Errors of the asset server.
#[derive(Debug)]
pub enum AssetError {
    InvalidToken,
    InvalidOrigin { origin: String },
    InvalidReferer { referer: String },
    NotFound { uuid: String },
    BindFailed { reason: String },
    Io(std::io::Error),
    Internal { reason: String },
}

impl From<std::io::Error> for AssetError {
    fn from(e: std::io::Error) -> (r: Self) {
        AssetError::Io(e)
    }
}

impl vstd::std_specs::convert::FromSpecImpl<std::io::Error> for AssetError {
    open spec fn obeys_from_spec() -> bool {
        true
    }

    open spec fn from_spec(e: std::io::Error) -> Self {
        AssetError::Io(e)
    }
}

impl AssetError {
    /// Whether the answer is 403 Forbidden: a bad token, origin or referer.
    pub fn is_forbidden(&self) -> (r: bool)
        ensures
            r == (*self is InvalidToken || *self is InvalidOrigin || *self is InvalidReferer),
    {
        match self {
            AssetError::InvalidToken => true,
            AssetError::InvalidOrigin { .. } => true,
            AssetError::InvalidReferer { .. } => true,
            _ => false,
        }
    }

    /// Whether the answer is 404 Not Found.
    pub fn is_not_found(&self) -> (r: bool)
        ensures
            r == (*self is NotFound),
    {
        match self {
            AssetError::NotFound { .. } => true,
            _ => false,
        }
    }
}

/// The port the asset server listens on by default.
pub const DEFAULT_ASSET_SERVER_PORT: u16 = 19283;

/// The kind of a preview.
#[derive(Debug, Clone, Copy, PartialEq, Eq, Structural)]
pub enum PreviewType {
    Text,
    Image,
    Document,
    Code,
}

/// The session token of a request's query string.
#[derive(Debug, Clone)]
pub struct TokenParams {
    pub token: Option<String>,
}

/// A cached thumbnail.
#[derive(Debug)]
pub struct CachedThumbnail {
    /// The image bytes.
    pub data: Vec<u8>,
    /// Their MIME type.
    pub content_type: String,
    /// When it was cached, in milliseconds since the Unix epoch.
    pub created_at: u64,
    /// The file it shows.
    pub file_id: u128,
}

impl CachedThumbnail {
    /// A thumbnail cached now.
    pub fn new(data: Vec<u8>, content_type: String, file_id: u128) -> (t: Self)
        ensures
            t.data == data,
            t.content_type == content_type,
            t.file_id == file_id,
    {
        CachedThumbnail { data, content_type, created_at: crate::clock::now_millis_u64(), file_id }
    }

    /// The size of the data, in bytes.
    pub fn size(&self) -> (n: usize)
        ensures
            n == self.data@.len(),
    {
        self.data.len()
    }
}

/// A cached preview.
#[derive(Debug)]
pub struct CachedPreview {
    /// The preview bytes.
    pub data: Vec<u8>,
    /// Their MIME type.
    pub content_type: String,
    /// When it was cached, in milliseconds since the Unix epoch.
    pub created_at: u64,
    /// The file it shows.
    pub file_id: u128,
    /// What kind of preview it is.
    pub preview_type: PreviewType,
}

impl CachedPreview {
    /// A preview cached now.
    pub fn new(data: Vec<u8>, content_type: String, file_id: u128, preview_type: PreviewType) -> (p: Self)
        ensures
            p.data == data,
            p.content_type == content_type,
            p.file_id == file_id,
            p.preview_type == preview_type,
    {
        CachedPreview { data, content_type, created_at: crate::clock::now_millis_u64(), file_id, preview_type }
    }

    /// The size of the data, in bytes.
    pub fn size(&self) -> (n: usize)
        ensures
            n == self.data@.len(),
    {
        self.data.len()
    }
}

/// A copy of a byte buffer.
fn copy_bytes(v: &Vec<u8>) -> (r: Vec<u8>)
    ensures
        r@ == v@,
{
    copy_bytes_of(v.as_slice())
}

/// A thumbnail as values: data, MIME type, time, file.
pub open spec fn thumb_view(t: CachedThumbnail) -> (Seq<u8>, Seq<char>, u64, u128) {
    (t.data@, t.content_type@, t.created_at, t.file_id)
}

/// A preview as values: data, MIME type, time, file, kind.
pub open spec fn preview_view(p: CachedPreview) -> (Seq<u8>, Seq<char>, u64, u128, PreviewType) {
    (p.data@, p.content_type@, p.created_at, p.file_id, p.preview_type)
}

impl Clone for CachedThumbnail {
    fn clone(&self) -> (r: Self)
        ensures
            thumb_view(r) == thumb_view(*self),
    {
        CachedThumbnail {
            data: copy_bytes(&self.data),
            content_type: self.content_type.clone(),
            created_at: self.created_at,
            file_id: self.file_id,
        }
    }
}

impl Clone for CachedPreview {
    fn clone(&self) -> (r: Self)
        ensures
            preview_view(r) == preview_view(*self),
    {
        CachedPreview {
            data: copy_bytes(&self.data),
            content_type: self.content_type.clone(),
            created_at: self.created_at,
            file_id: self.file_id,
            preview_type: self.preview_type,
        }
    }
}

/// Settings of the asset server.
#[derive(Debug, Clone)]
pub struct AssetServerConfig {
    /// The port, on localhost.
    pub port: u16,
    /// Origins allowed besides the local ones.
    pub additional_origins: Vec<String>,
    /// Most bytes to cache (0: no limit).
    pub max_cache_size: usize,
    /// How long entries stay cached, in seconds.
    pub cache_ttl_secs: u64,
}

impl Default for AssetServerConfig {
    fn default() -> (c: Self)
        ensures
            c.port == DEFAULT_ASSET_SERVER_PORT,
            c.additional_origins@.len() == 0,
            c.max_cache_size == 104857600,
            c.cache_ttl_secs == 3600,
    {
        AssetServerConfig {
            port: DEFAULT_ASSET_SERVER_PORT,
            additional_origins: Vec::new(),
            max_cache_size: 104857600,
            cache_ttl_secs: 3600,
        }
    }
}

/// The origins a request may come from: the local ones on `port`, the
/// Tauri ones, then the additional ones.
pub open spec fn origins_for(port: u16, additional: Seq<Seq<char>>) -> Seq<Seq<char>> {
    seq![
        "http://localhost:"@ + crate::utils::dec_str(port as nat),
        "http://127.0.0.1:"@ + crate::utils::dec_str(port as nat),
        "tauri://localhost"@,
        "https://tauri.localhost"@,
    ] + additional
}

/// The views of a list of strings.
pub open spec fn views(v: Seq<String>) -> Seq<Seq<char>> {
    v.map_values(|s: String| s@)
}

/// `prefix` followed by the decimal digits of `n`.
fn with_number(prefix: &str, n: u16) -> (r: String)
    ensures
        r@ == prefix@ + crate::utils::dec_str(n as nat),
{
    let mut v = crate::text::chars_of(prefix);
    crate::utils::push_decimal(&mut v, n as u128);
    string_from_chars(v.as_slice())
}

impl AssetServerConfig {
    /// The defaults on another port.
    pub fn with_port(port: u16) -> (c: Self)
        ensures
            c.port == port,
            c.additional_origins@.len() == 0,
            c.max_cache_size == 104857600,
            c.cache_ttl_secs == 3600,
    {
        AssetServerConfig { port, ..Self::default() }
    }

    /// Every allowed origin.
    pub fn allowed_origins(&self) -> (r: Vec<String>)
        ensures
            views(r@) == origins_for(self.port, views(self.additional_origins@)),
    {
        let mut r: Vec<String> = Vec::new();
        r.push(with_number("http://localhost:", self.port));
        r.push(with_number("http://127.0.0.1:", self.port));
        r.push(owned("tauri://localhost"));
        r.push(owned("https://tauri.localhost"));
        let ghost head = views(r@);
        let mut i: usize = 0;
        while i < self.additional_origins.len()
            invariant
                i <= self.additional_origins@.len(),
                views(r@) == head + views(self.additional_origins@).take(i as int),
            decreases self.additional_origins@.len() - i,
        {
            let ghost before = views(r@);
            r.push(self.additional_origins[i].clone());
            proof {
                assert(views(r@) =~= before.push(self.additional_origins@[i as int]@));
                assert(views(self.additional_origins@).take(i + 1) =~= views(self.additional_origins@).take(i as int).push(self.additional_origins@[i as int]@));
            }
            i = i + 1;
        }
        proof {
            assert(views(self.additional_origins@).take(self.additional_origins@.len() as int) =~= views(self.additional_origins@));
            assert(views(r@) =~= origins_for(self.port, views(self.additional_origins@)));
        }
        r
    }
}

/// The lowercase hexadecimal digit for `d < 16`.
pub open spec fn hex_char(d: nat) -> char {
    if d < 10 {
        (('0' as u32) + d) as char
    } else {
        (('a' as u32) + d - 10) as char
    }
}

/// Bytes in lowercase hexadecimal, two digits each, high half first.
pub open spec fn hex_of(b: Seq<u8>) -> Seq<char>
    decreases b.len(),
{
    if b.len() == 0 {
        Seq::empty()
    } else {
        hex_of(b.drop_last()) + seq![hex_char((b.last() / 16) as nat), hex_char((b.last() % 16) as nat)]
    }
}

/// `hex::encode`: each byte as two lowercase hexadecimal digits, high half
/// first (the crate's `encode` with its lowercase table).
#[verifier::external_body]
fn hex_encode(bytes: &[u8]) -> (r: String)
    ensures
        r@ == hex_of(bytes@),
{
    hex::encode(bytes)
}

/// 32 random bytes from `rand::thread_rng()` (`Rng::gen`). They are random:
/// only their number is stated.
#[verifier::external_body]
fn random_token_bytes() -> (r: Vec<u8>)
    ensures
        r@.len() == 32,
{
    let bytes: [u8; 32] = rand::Rng::gen(&mut rand::thread_rng());
    bytes.to_vec()
}

proof fn lemma_hex_len(b: Seq<u8>)
    ensures
        hex_of(b).len() == 2 * b.len(),
    decreases b.len(),
{
    if b.len() > 0 {
        lemma_hex_len(b.drop_last());
    }
}


/// A concurrent map of the `dashmap` crate.
#[verifier::external_type_specification]
#[verifier::external_body]
#[verifier::reject_recursive_types(K)]
#[verifier::reject_recursive_types(V)]
#[verifier::reject_recursive_types(S)]
pub struct ExDashMap<K, V, S>(dashmap::DashMap<K, V, S>);

/// A cached thumbnail as values (see `thumb_view`).
pub type ThumbValue = (Seq<u8>, Seq<char>, u64, u128);

/// A cached preview as values (see `preview_view`).
pub type PreviewValue = (Seq<u8>, Seq<char>, u64, u128, PreviewType);

/// What a thumbnail map holds: each file's thumbnail, as values.
pub uninterp spec fn thumbnails(m: dashmap::DashMap<u128, CachedThumbnail>) -> Map<u128, ThumbValue>;

/// What a preview map holds: each file's preview, as values.
pub uninterp spec fn previews(m: dashmap::DashMap<u128, CachedPreview>) -> Map<u128, PreviewValue>;

/// No thumbnail.
pub open spec fn no_thumbnails() -> Map<u128, ThumbValue> {
    Map::empty()
}

/// No preview.
pub open spec fn no_previews() -> Map<u128, PreviewValue> {
    Map::empty()
}

/// `DashMap::new`: an empty map.
#[verifier::external_body]
fn thumbnail_map_new() -> (m: dashmap::DashMap<u128, CachedThumbnail>)
    ensures
        thumbnails(m) == no_thumbnails(),
{
    dashmap::DashMap::new()
}

/// `DashMap::insert`: the entry for `k` becomes `v`, replacing an earlier one.
#[verifier::external_body]
fn thumbnail_map_insert(m: &mut dashmap::DashMap<u128, CachedThumbnail>, k: u128, v: CachedThumbnail)
    ensures
        thumbnails(*final(m)) == thumbnails(*old(m)).insert(k, thumb_view(v)),
{
    m.insert(k, v);
}

/// `DashMap::get`, the entry cloned: the thumbnail for `k`, if any.
#[verifier::external_body]
fn thumbnail_map_get(m: &dashmap::DashMap<u128, CachedThumbnail>, k: u128) -> (r: Option<CachedThumbnail>)
    ensures
        r is None <==> !thumbnails(*m).contains_key(k),
        r matches Some(t) ==> thumb_view(t) == thumbnails(*m)[k],
{
    m.get(&k).map(|e| e.value().clone())
}

/// `DashMap::remove`: the entry for `k` is gone.
#[verifier::external_body]
fn thumbnail_map_remove(m: &mut dashmap::DashMap<u128, CachedThumbnail>, k: u128)
    ensures
        thumbnails(*final(m)) == thumbnails(*old(m)).remove(k),
{
    m.remove(&k);
}

/// `DashMap::clear`: no entry is left.
#[verifier::external_body]
fn thumbnail_map_clear(m: &mut dashmap::DashMap<u128, CachedThumbnail>)
    ensures
        thumbnails(*final(m)) == no_thumbnails(),
{
    m.clear();
}

/// `DashMap::iter`, each entry's key: every key of the map, once each.
#[verifier::external_body]
fn thumbnail_map_keys(m: &dashmap::DashMap<u128, CachedThumbnail>) -> (r: Vec<u128>)
    ensures
        r@.no_duplicates(),
        r@.to_set() == thumbnails(*m).dom(),
{
    m.iter().map(|e| *e.key()).collect()
}

/// `DashMap::new`: an empty map.
#[verifier::external_body]
fn preview_map_new() -> (m: dashmap::DashMap<u128, CachedPreview>)
    ensures
        previews(m) == no_previews(),
{
    dashmap::DashMap::new()
}

/// `DashMap::insert`: the entry for `k` becomes `v`, replacing an earlier one.
#[verifier::external_body]
fn preview_map_insert(m: &mut dashmap::DashMap<u128, CachedPreview>, k: u128, v: CachedPreview)
    ensures
        previews(*final(m)) == previews(*old(m)).insert(k, preview_view(v)),
{
    m.insert(k, v);
}

/// `DashMap::get`, the entry cloned: the preview for `k`, if any.
#[verifier::external_body]
fn preview_map_get(m: &dashmap::DashMap<u128, CachedPreview>, k: u128) -> (r: Option<CachedPreview>)
    ensures
        r is None <==> !previews(*m).contains_key(k),
        r matches Some(p) ==> preview_view(p) == previews(*m)[k],
{
    m.get(&k).map(|e| e.value().clone())
}

/// `DashMap::remove`: the entry for `k` is gone.
#[verifier::external_body]
fn preview_map_remove(m: &mut dashmap::DashMap<u128, CachedPreview>, k: u128)
    ensures
        previews(*final(m)) == previews(*old(m)).remove(k),
{
    m.remove(&k);
}

/// `DashMap::clear`: no entry is left.
#[verifier::external_body]
fn preview_map_clear(m: &mut dashmap::DashMap<u128, CachedPreview>)
    ensures
        previews(*final(m)) == no_previews(),
{
    m.clear();
}

/// `DashMap::iter`, each entry's key: every key of the map, once each.
#[verifier::external_body]
fn preview_map_keys(m: &dashmap::DashMap<u128, CachedPreview>) -> (r: Vec<u128>)
    ensures
        r@.no_duplicates(),
        r@.to_set() == previews(*m).dom(),
{
    m.iter().map(|e| *e.key()).collect()
}

/// Adds the size of the entry for `k` to `acc`.
pub open spec fn add_size<V>(m: Map<u128, V>, size: spec_fn(V) -> nat) -> spec_fn(int, u128) -> int {
    |acc: int, k: u128| acc + size(m[k])
}

/// The sizes of the entries for `ks`, added up.
pub open spec fn keys_size<V>(m: Map<u128, V>, size: spec_fn(V) -> nat, ks: Seq<u128>) -> int
    decreases ks.len(),
{
    if ks.len() == 0 {
        0
    } else {
        keys_size(m, size, ks.drop_last()) + size(m[ks.last()])
    }
}

/// The size of a thumbnail: its bytes.
pub open spec fn thumb_size() -> spec_fn(ThumbValue) -> nat {
    |t: ThumbValue| t.0.len()
}

/// The size of a preview: its bytes.
pub open spec fn preview_size() -> spec_fn(PreviewValue) -> nat {
    |p: PreviewValue| p.0.len()
}

/// The bytes of the cached thumbnails.
pub open spec fn thumb_bytes(m: Map<u128, ThumbValue>) -> int {
    m.dom().fold(0int, add_size(m, thumb_size()))
}

/// The bytes of the cached previews.
pub open spec fn preview_bytes(m: Map<u128, PreviewValue>) -> int {
    m.dom().fold(0int, add_size(m, preview_size()))
}

/// Adding the sizes over distinct keys in order is folding over their set.
proof fn lemma_keys_size_fold<V>(m: Map<u128, V>, size: spec_fn(V) -> nat, ks: Seq<u128>)
    requires
        ks.no_duplicates(),
    ensures
        keys_size(m, size, ks) == ks.to_set().fold(0int, add_size(m, size)),
        keys_size(m, size, ks) >= 0,
    decreases ks.len(),
{
    broadcast use vstd::seq_lib::seq_to_set_is_finite;
    let f = add_size(m, size);
    assert(vstd::set::fold::is_fun_commutative(f)) by {
        assert forall|a1: u128, a2: u128, b: int| #[trigger] f(f(b, a2), a1) == f(f(b, a1), a2) by {}
    }
    if ks.len() == 0 {
        assert(ks.to_set() =~= Set::<u128>::empty());
        vstd::set::fold::lemma_fold_empty(0int, f);
    } else {
        let p = ks.drop_last();
        assert(p.no_duplicates());
        lemma_keys_size_fold(m, size, p);
        assert(ks =~= p.push(ks.last()));
        p.lemma_push_to_set_commute(ks.last());
        assert(!p.contains(ks.last())) by {
            if p.contains(ks.last()) {
                let j = choose|j: int| 0 <= j < p.len() && p[j] == ks.last();
                assert(ks[j] == ks[ks.len() - 1]);
            }
        }
        assert(!p.to_set().contains(ks.last()));
        vstd::set::fold::lemma_fold_insert(p.to_set(), 0int, f, ks.last());
    }
}

/// The sizes over a prefix of the keys are at most those over all of them.
proof fn lemma_keys_size_prefix<V>(m: Map<u128, V>, size: spec_fn(V) -> nat, ks: Seq<u128>, i: int)
    requires
        0 <= i <= ks.len(),
    ensures
        0 <= keys_size(m, size, ks.take(i)) <= keys_size(m, size, ks),
    decreases ks.len() - i,
{
    if i < ks.len() {
        lemma_keys_size_prefix(m, size, ks, i + 1);
        assert(ks.take(i + 1).drop_last() =~= ks.take(i));
    } else {
        assert(ks.take(i) =~= ks);
    }
    lemma_keys_size_nonneg(m, size, ks.take(i));
}

/// Sizes add up to at least zero.
proof fn lemma_keys_size_nonneg<V>(m: Map<u128, V>, size: spec_fn(V) -> nat, ks: Seq<u128>)
    ensures
        keys_size(m, size, ks) >= 0,
    decreases ks.len(),
{
    if ks.len() > 0 {
        lemma_keys_size_nonneg(m, size, ks.drop_last());
    }
}

/// Counts and sizes of the caches.
#[derive(Debug, Clone, Copy)]
pub struct CacheStats {
    pub thumbnail_count: usize,
    pub thumbnail_size_bytes: usize,
    pub preview_count: usize,
    pub preview_size_bytes: usize,
    pub total_size_bytes: usize,
}

/// Whether `p` is a prefix of `s`.
pub open spec fn is_prefix(p: Seq<char>, s: Seq<char>) -> bool {
    p.len() <= s.len() && s.subrange(0, p.len() as int) == p
}

/// Whether `p` is a prefix of `s`, on characters.
fn starts_with(s: &str, p: &str) -> (r: bool)
    ensures
        r == is_prefix(p@, s@),
{
    let a = crate::text::chars_of(s);
    let b = crate::text::chars_of(p);
    if b.len() > a.len() {
        return false;
    }
    let mut i: usize = 0;
    while i < b.len()
        invariant
            a@ == s@,
            b@ == p@,
            b@.len() <= a@.len(),
            i <= b@.len(),
            forall|k: int| 0 <= k < i ==> a@[k] == b@[k],
        decreases b@.len() - i,
    {
        if a[i] != b[i] {
            proof {
                assert(s@.subrange(0, p@.len() as int)[i as int] != p@[i as int]);
            }
            return false;
        }
        i = i + 1;
    }
    proof {
        assert(s@.subrange(0, p@.len() as int) =~= p@);
    }
    true
}

/// The request was refused for its token.
pub open spec fn refused_token(r: Result<(), AssetError>) -> bool {
    match r {
        Err(AssetError::InvalidToken) => true,
        _ => false,
    }
}

/// The request was refused for its origin `o`.
pub open spec fn refused_origin(r: Result<(), AssetError>, o: Seq<char>) -> bool {
    match r {
        Err(AssetError::InvalidOrigin { origin }) => origin@ == o,
        _ => false,
    }
}

/// The request was refused for its referer `x`.
pub open spec fn refused_referer(r: Result<(), AssetError>, x: Seq<char>) -> bool {
    match r {
        Err(AssetError::InvalidReferer { referer }) => referer@ == x,
        _ => false,
    }
}

/// The state of the asset server.
#[derive(Debug)]
pub struct AssetServerState {
    /// The session token every request must carry.
    pub session_token: String,
    /// Cached thumbnails, by file.
    pub thumbnail_cache: dashmap::DashMap<u128, CachedThumbnail>,
    /// Cached previews, by file.
    pub preview_cache: dashmap::DashMap<u128, CachedPreview>,
    /// The origins a request may come from.
    pub allowed_origins: Vec<String>,
    /// The settings.
    pub config: AssetServerConfig,
}

/// Whether a byte difference accumulated by `|` of `^` is zero exactly when
/// the bytes agree.
proof fn lemma_xor_acc(acc: u8, x: u8, y: u8)
    ensures
        ((acc | (x ^ y)) == 0) == (acc == 0 && x == y),
{
    assert(((acc | (x ^ y)) == 0) == (acc == 0 && x == y)) by (bit_vector);
}

impl AssetServerState {
    /// The cached thumbnails, as values.
    pub open spec fn thumbs(&self) -> Map<u128, ThumbValue> {
        thumbnails(self.thumbnail_cache)
    }

    /// The cached previews, as values.
    pub open spec fn previews(&self) -> Map<u128, PreviewValue> {
        previews(self.preview_cache)
    }

    /// A state with a fresh random session token (64 hexadecimal digits),
    /// empty caches and the configuration's allowed origins.
    pub fn new(config: AssetServerConfig) -> (s: Self)
        ensures
            s.session_token@.len() == 64,
            forall|i: int| 0 <= i < 64 ==> crate::utils::is_lower_hex_digit(#[trigger] s.session_token@[i]),
            s.thumbs() == Map::<u128, ThumbValue>::empty(),
            s.previews() == Map::<u128, PreviewValue>::empty(),
            views(s.allowed_origins@) == origins_for(config.port, views(config.additional_origins@)),
            s.config == config,
    {
        let session_token = Self::generate_session_token();
        let allowed_origins = config.allowed_origins();
        AssetServerState {
            session_token,
            thumbnail_cache: thumbnail_map_new(),
            preview_cache: preview_map_new(),
            allowed_origins,
            config,
        }
    }

    /// A fresh random session token: 32 random bytes in lowercase
    /// hexadecimal.
    fn generate_session_token() -> (t: String)
        ensures
            t@.len() == 64,
            forall|i: int| 0 <= i < 64 ==> crate::utils::is_lower_hex_digit(#[trigger] t@[i]),
    {
        let bytes = random_token_bytes();
        let t = hex_encode(bytes.as_slice());
        proof {
            lemma_hex_len(bytes@);
            lemma_hex_digits(bytes@);
        }
        t
    }

    /// Whether `token` is the session token. Every byte is compared, so the
    /// time taken does not tell where a wrong token first differs.
    pub fn validate_token(&self, token: &str) -> (r: bool)
        ensures
            r == (self.session_token@ == token@),
    {
        let a = self.session_token.as_str().as_bytes();
        let b = token.as_bytes();
        proof {
            vstd::utf8::encode_utf8_decode_utf8(self.session_token@);
            vstd::utf8::encode_utf8_decode_utf8(token@);
        }
        if a.len() != b.len() {
            return false;
        }
        let mut acc: u8 = 0;
        let mut i: usize = 0;
        while i < a.len()
            invariant
                a@.len() == b@.len(),
                i <= a@.len(),
                (acc == 0) == (forall|k: int| 0 <= k < i ==> a@[k] == b@[k]),
            decreases a@.len() - i,
        {
            proof {
                lemma_xor_acc(acc, a@[i as int], b@[i as int]);
            }
            acc = acc | (a[i] ^ b[i]);
            i = i + 1;
        }
        proof {
            if acc == 0 {
                assert(a@ =~= b@);
            }
        }
        acc == 0
    }

    /// Whether `origin` is one of the allowed origins.
    pub fn is_origin_allowed(&self, origin: &str) -> (r: bool)
        ensures
            r == views(self.allowed_origins@).contains(origin@),
    {
        let mut i: usize = 0;
        while i < self.allowed_origins.len()
            invariant
                i <= self.allowed_origins@.len(),
                forall|k: int| 0 <= k < i ==> self.allowed_origins@[k]@ != origin@,
            decreases self.allowed_origins@.len() - i,
        {
            if str_eq(self.allowed_origins[i].as_str(), origin) {
                proof {
                    assert(views(self.allowed_origins@)[i as int] == origin@);
                }
                return true;
            }
            i = i + 1;
        }
        proof {
            let vs = views(self.allowed_origins@);
            if vs.contains(origin@) {
                let k = choose|k: int| 0 <= k < vs.len() && #[trigger] vs[k] == origin@;
                assert(self.allowed_origins@[k]@ == origin@);
            }
        }
        false
    }

    /// Whether `referer` starts with one of the allowed origins.
    pub fn is_referer_allowed(&self, referer: &str) -> (r: bool)
        ensures
            r == exists|k: int| 0 <= k < self.allowed_origins@.len() && is_prefix(#[trigger] self.allowed_origins@[k]@, referer@),
    {
        let mut i: usize = 0;
        while i < self.allowed_origins.len()
            invariant
                i <= self.allowed_origins@.len(),
                forall|k: int| 0 <= k < i ==> !is_prefix(#[trigger] self.allowed_origins@[k]@, referer@),
            decreases self.allowed_origins@.len() - i,
        {
            if starts_with(referer, self.allowed_origins[i].as_str()) {
                return true;
            }
            i = i + 1;
        }
        false
    }

    /// Whether a request may be served. Health checks always may. Otherwise
    /// the request must carry the session token (in the query, or else in the
    /// `X-Session-Token` header), its `Origin` header, when present, must be
    /// an allowed origin, and its `Referer` header, when present, must start
    /// with one; the first check that fails gives the error.
    pub fn check_request(
        &self,
        path: &str,
        query_token: Option<&str>,
        header_token: Option<&str>,
        origin: Option<&str>,
        referer: Option<&str>,
    ) -> (r: Result<(), AssetError>)
        ensures
            path@ == "/health"@ ==> r is Ok,
            path@ != "/health"@ ==> ({
                let token = match query_token {
                    Some(t) => Some(t@),
                    None => match header_token {
                        Some(t) => Some(t@),
                        None => None,
                    },
                };
                let token_ok = token matches Some(t) && t == self.session_token@;
                let origin_ok = match origin {
                    Some(o) => views(self.allowed_origins@).contains(o@),
                    None => true,
                };
                let referer_ok = match referer {
                    Some(x) => exists|k: int| 0 <= k < self.allowed_origins@.len() && is_prefix(#[trigger] self.allowed_origins@[k]@, x@),
                    None => true,
                };
                &&& !token_ok ==> refused_token(r)
                &&& token_ok && !origin_ok ==> refused_origin(r, origin->0@)
                &&& token_ok && origin_ok && !referer_ok ==> refused_referer(r, referer->0@)
                &&& token_ok && origin_ok && referer_ok ==> r is Ok
            }),
    {
        if str_eq(path, "/health") {
            return Ok(());
        }
        let token = match query_token {
            Some(t) => Some(t),
            None => header_token,
        };
        let token_ok = match token {
            Some(t) => self.validate_token(t),
            None => false,
        };
        if !token_ok {
            return Err(AssetError::InvalidToken);
        }
        match origin {
            Some(o) => {
                if !self.is_origin_allowed(o) {
                    return Err(AssetError::InvalidOrigin { origin: owned(o) });
                }
            },
            None => {},
        }
        match referer {
            Some(x) => {
                if !self.is_referer_allowed(x) {
                    return Err(AssetError::InvalidReferer { referer: owned(x) });
                }
            },
            None => {},
        }
        Ok(())
    }

    /// Caches a thumbnail of `uuid`, replacing an earlier one.
    pub fn cache_thumbnail(&mut self, uuid: u128, thumbnail: CachedThumbnail)
        ensures
            final(self).thumbs() == old(self).thumbs().insert(uuid, thumb_view(thumbnail)),
            final(self).previews() == old(self).previews(),
            final(self).session_token == old(self).session_token,
            final(self).allowed_origins == old(self).allowed_origins,
            final(self).config == old(self).config,
    {
        thumbnail_map_insert(&mut self.thumbnail_cache, uuid, thumbnail);
    }

    /// A copy of the cached thumbnail of `uuid`.
    pub fn get_thumbnail(&self, uuid: u128) -> (r: Option<CachedThumbnail>)
        ensures
            r is None <==> !self.thumbs().contains_key(uuid),
            r matches Some(t) ==> thumb_view(t) == self.thumbs()[uuid],
    {
        thumbnail_map_get(&self.thumbnail_cache, uuid)
    }

    /// Caches a preview of `uuid`, replacing an earlier one.
    pub fn cache_preview(&mut self, uuid: u128, preview: CachedPreview)
        ensures
            final(self).previews() == old(self).previews().insert(uuid, preview_view(preview)),
            final(self).thumbs() == old(self).thumbs(),
            final(self).session_token == old(self).session_token,
            final(self).allowed_origins == old(self).allowed_origins,
            final(self).config == old(self).config,
    {
        preview_map_insert(&mut self.preview_cache, uuid, preview);
    }

    /// A copy of the cached preview of `uuid`.
    pub fn get_preview(&self, uuid: u128) -> (r: Option<CachedPreview>)
        ensures
            r is None <==> !self.previews().contains_key(uuid),
            r matches Some(p) ==> preview_view(p) == self.previews()[uuid],
    {
        preview_map_get(&self.preview_cache, uuid)
    }

    /// Drops the cached thumbnail of `uuid`.
    pub fn invalidate_thumbnail(&mut self, uuid: u128)
        ensures
            final(self).thumbs() == old(self).thumbs().remove(uuid),
            final(self).previews() == old(self).previews(),
    {
        thumbnail_map_remove(&mut self.thumbnail_cache, uuid);
    }

    /// Drops the cached preview of `uuid`.
    pub fn invalidate_preview(&mut self, uuid: u128)
        ensures
            final(self).previews() == old(self).previews().remove(uuid),
            final(self).thumbs() == old(self).thumbs(),
    {
        preview_map_remove(&mut self.preview_cache, uuid);
    }

    /// Empties both caches.
    pub fn clear_caches(&mut self)
        ensures
            final(self).thumbs() == Map::<u128, ThumbValue>::empty(),
            final(self).previews() == Map::<u128, PreviewValue>::empty(),
    {
        thumbnail_map_clear(&mut self.thumbnail_cache);
        preview_map_clear(&mut self.preview_cache);
    }

    /// How many entries each cache holds and how many bytes.
    pub fn cache_stats(&self) -> (r: CacheStats)
        requires
            thumb_bytes(self.thumbs()) + preview_bytes(self.previews()) <= usize::MAX,
        ensures
            r.thumbnail_count == self.thumbs().len(),
            r.thumbnail_size_bytes == thumb_bytes(self.thumbs()),
            r.preview_count == self.previews().len(),
            r.preview_size_bytes == preview_bytes(self.previews()),
            r.total_size_bytes == r.thumbnail_size_bytes + r.preview_size_bytes,
    {
        let ghost tm = self.thumbs();
        let ghost pm = self.previews();
        let tkeys = thumbnail_map_keys(&self.thumbnail_cache);
        let pkeys = preview_map_keys(&self.preview_cache);
        proof {
            lemma_keys_size_fold(tm, thumb_size(), tkeys@);
            lemma_keys_size_fold(pm, preview_size(), pkeys@);
            tkeys@.unique_seq_to_set();
            pkeys@.unique_seq_to_set();
            assert(tkeys@.take(0) =~= Seq::<u128>::empty());
            assert(pkeys@.take(0) =~= Seq::<u128>::empty());
        }
        let mut tsize: usize = 0;
        let mut i: usize = 0;
        while i < tkeys.len()
            invariant
                tm == self.thumbs(),
                tkeys@.no_duplicates(),
                tkeys@.to_set() == tm.dom(),
                i <= tkeys@.len(),
                tsize == keys_size(tm, thumb_size(), tkeys@.take(i as int)),
                keys_size(tm, thumb_size(), tkeys@) == thumb_bytes(tm),
                thumb_bytes(tm) <= usize::MAX,
            decreases tkeys@.len() - i,
        {
            proof {
                lemma_keys_size_prefix(tm, thumb_size(), tkeys@, i + 1);
                assert(tkeys@.take(i + 1).drop_last() =~= tkeys@.take(i as int));
                assert(tkeys@.to_set().contains(tkeys@[i as int]));
            }
            let t = thumbnail_map_get(&self.thumbnail_cache, tkeys[i]);
            let n = match t {
                Some(t) => t.size(),
                None => 0,
            };
            tsize = tsize + n;
            i = i + 1;
        }
        proof {
            assert(tkeys@.take(i as int) =~= tkeys@);
        }
        let mut psize: usize = 0;
        let mut j: usize = 0;
        while j < pkeys.len()
            invariant
                pm == self.previews(),
                pkeys@.no_duplicates(),
                pkeys@.to_set() == pm.dom(),
                j <= pkeys@.len(),
                psize == keys_size(pm, preview_size(), pkeys@.take(j as int)),
                keys_size(pm, preview_size(), pkeys@) == preview_bytes(pm),
                preview_bytes(pm) <= usize::MAX,
                thumb_bytes(tm) + preview_bytes(pm) <= usize::MAX,
                tsize == thumb_bytes(tm),
            decreases pkeys@.len() - j,
        {
            proof {
                lemma_keys_size_prefix(pm, preview_size(), pkeys@, j + 1);
                assert(pkeys@.take(j + 1).drop_last() =~= pkeys@.take(j as int));
                assert(pkeys@.to_set().contains(pkeys@[j as int]));
            }
            let p = preview_map_get(&self.preview_cache, pkeys[j]);
            let n = match p {
                Some(p) => p.size(),
                None => 0,
            };
            psize = psize + n;
            j = j + 1;
        }
        proof {
            assert(tkeys@.take(tkeys@.len() as int) =~= tkeys@);
            assert(pkeys@.take(pkeys@.len() as int) =~= pkeys@);
        }
        CacheStats {
            thumbnail_count: tkeys.len(),
            thumbnail_size_bytes: tsize,
            preview_count: pkeys.len(),
            preview_size_bytes: psize,
            total_size_bytes: tsize + psize,
        }
    }
}

proof fn lemma_hex_digits(b: Seq<u8>)
    ensures
        forall|i: int| 0 <= i < hex_of(b).len() ==> crate::utils::is_lower_hex_digit(#[trigger] hex_of(b)[i]),
    decreases b.len(),
{
    if b.len() > 0 {
        lemma_hex_digits(b.drop_last());
        lemma_hex_len(b.drop_last());
    }
}



/// The last `k` hexadecimal digits of `n`, with leading zeros.
pub open spec fn hex_fixed(n: nat, k: nat) -> Seq<char>
    decreases k,
{
    if k == 0 {
        Seq::empty()
    } else {
        hex_fixed(n / 16, (k - 1) as nat).push(hex_char(n % 16))
    }
}

/// A UUID in its hyphenated lowercase form: 32 hexadecimal digits, grouped
/// 8-4-4-4-12.
pub open spec fn uuid_text(id: u128) -> Seq<char> {
    let h = hex_fixed(id as nat, 32);
    h.subrange(0, 8) + seq!['-'] + h.subrange(8, 12) + seq!['-'] + h.subrange(12, 16) + seq!['-'] + h.subrange(16, 20)
        + seq!['-'] + h.subrange(20, 32)
}

/// `uuid::Uuid::from_u128(id).to_string()`: the hyphenated lowercase form
/// (the crate's `Display` writes `as_hyphenated()` in lowercase hex).
#[verifier::external_body]
pub(crate) fn uuid_string(id: u128) -> (r: String)
    ensures
        r@ == uuid_text(id),
{
    uuid::Uuid::from_u128(id).to_string()
}

/// The URL of an asset: `http://127.0.0.1:{port}/{kind}/{uuid}?token={token}`.
pub open spec fn asset_url(port: u16, kind: Seq<char>, id: u128, token: Seq<char>) -> Seq<char> {
    "http://127.0.0.1:"@ + crate::utils::dec_str(port as nat) + seq!['/'] + kind + seq!['/'] + uuid_text(id) + "?token="@ + token
}

/// The headers added to every served response: no MIME sniffing, no
/// framing, private caching for an hour, the XSS filter, and content only
/// from the server itself.
pub open spec fn security_header_list() -> Seq<(Seq<char>, Seq<char>)> {
    seq![
        ("X-Content-Type-Options"@, "nosniff"@),
        ("X-Frame-Options"@, "DENY"@),
        ("Cache-Control"@, "private, max-age=3600"@),
        ("X-XSS-Protection"@, "1; mode=block"@),
        ("Content-Security-Policy"@, "default-src 'self'"@),
    ]
}

/// The headers added to every served response.
pub fn security_headers() -> (r: Vec<(String, String)>)
    ensures
        r@.map_values(|p: (String, String)| (p.0@, p.1@)) == security_header_list(),
{
    let mut r: Vec<(String, String)> = Vec::new();
    r.push((owned("X-Content-Type-Options"), owned("nosniff")));
    r.push((owned("X-Frame-Options"), owned("DENY")));
    r.push((owned("Cache-Control"), owned("private, max-age=3600")));
    r.push((owned("X-XSS-Protection"), owned("1; mode=block")));
    r.push((owned("Content-Security-Policy"), owned("default-src 'self'")));
    proof {
        assert(r@.map_values(|p: (String, String)| (p.0@, p.1@)) =~= security_header_list());
    }
    r
}

/// The asset server: its state, and the URLs of its assets.
pub struct SecureAssetStreamServer {
    state: AssetServerState,
}

impl SecureAssetStreamServer {
    /// The server's state.
    pub closed spec fn spec_state(&self) -> AssetServerState {
        self.state
    }

    /// A server on `port` with the default settings.
    pub fn new(port: u16) -> (s: Self)
        ensures
            s.spec_state().config.port == port,
            s.spec_state().session_token@.len() == 64,
            s.spec_state().thumbs() == Map::<u128, ThumbValue>::empty(),
            s.spec_state().previews() == Map::<u128, PreviewValue>::empty(),
    {
        SecureAssetStreamServer { state: AssetServerState::new(AssetServerConfig::with_port(port)) }
    }

    /// A server with the given settings.
    pub fn with_config(config: AssetServerConfig) -> (s: Self)
        ensures
            s.spec_state().config == config,
            s.spec_state().session_token@.len() == 64,
            s.spec_state().thumbs() == Map::<u128, ThumbValue>::empty(),
            s.spec_state().previews() == Map::<u128, PreviewValue>::empty(),
    {
        SecureAssetStreamServer { state: AssetServerState::new(config) }
    }

    /// The session token requests must carry.
    pub fn get_session_token(&self) -> (t: &str)
        ensures
            t@ == self.spec_state().session_token@,
    {
        self.state.session_token.as_str()
    }

    /// The port.
    pub fn port(&self) -> (p: u16)
        ensures
            p == self.spec_state().config.port,
    {
        self.state.config.port
    }

    /// The state.
    pub fn state(&self) -> (s: &AssetServerState)
        ensures
            *s == self.spec_state(),
    {
        &self.state
    }

    /// The state, for changes.
    pub fn state_mut(&mut self) -> (s: &mut AssetServerState)
        ensures
            *s == old(self).spec_state(),
            final(self).spec_state() == *final(s),
    {
        &mut self.state
    }

    /// Caches a thumbnail of `uuid` in the server's state, replacing an
    /// earlier one.
    pub fn cache_thumbnail(&mut self, uuid: u128, thumbnail: CachedThumbnail)
        ensures
            final(self).spec_state().thumbs() == old(self).spec_state().thumbs().insert(uuid, thumb_view(thumbnail)),
            final(self).spec_state().previews() == old(self).spec_state().previews(),
            final(self).spec_state().session_token == old(self).spec_state().session_token,
            final(self).spec_state().config == old(self).spec_state().config,
    {
        self.state.cache_thumbnail(uuid, thumbnail);
    }

    /// A copy of the cached thumbnail of `uuid`.
    pub fn get_thumbnail(&self, uuid: u128) -> (r: Option<CachedThumbnail>)
        ensures
            r is None <==> !self.spec_state().thumbs().contains_key(uuid),
            r matches Some(t) ==> thumb_view(t) == self.spec_state().thumbs()[uuid],
    {
        self.state.get_thumbnail(uuid)
    }

    /// Caches a preview of `uuid` in the server's state, replacing an earlier
    /// one.
    pub fn cache_preview(&mut self, uuid: u128, preview: CachedPreview)
        ensures
            final(self).spec_state().previews() == old(self).spec_state().previews().insert(uuid, preview_view(preview)),
            final(self).spec_state().thumbs() == old(self).spec_state().thumbs(),
            final(self).spec_state().session_token == old(self).spec_state().session_token,
            final(self).spec_state().config == old(self).spec_state().config,
    {
        self.state.cache_preview(uuid, preview);
    }

    /// A copy of the cached preview of `uuid`.
    pub fn get_preview(&self, uuid: u128) -> (r: Option<CachedPreview>)
        ensures
            r is None <==> !self.spec_state().previews().contains_key(uuid),
            r matches Some(p) ==> preview_view(p) == self.spec_state().previews()[uuid],
    {
        self.state.get_preview(uuid)
    }

    /// Drops the cached thumbnail of `uuid`.
    pub fn invalidate_thumbnail(&mut self, uuid: u128)
        ensures
            final(self).spec_state().thumbs() == old(self).spec_state().thumbs().remove(uuid),
            final(self).spec_state().previews() == old(self).spec_state().previews(),
    {
        self.state.invalidate_thumbnail(uuid);
    }

    /// Drops the cached preview of `uuid`.
    pub fn invalidate_preview(&mut self, uuid: u128)
        ensures
            final(self).spec_state().previews() == old(self).spec_state().previews().remove(uuid),
            final(self).spec_state().thumbs() == old(self).spec_state().thumbs(),
    {
        self.state.invalidate_preview(uuid);
    }

    /// Empties both caches.
    pub fn clear_caches(&mut self)
        ensures
            final(self).spec_state().thumbs() == Map::<u128, ThumbValue>::empty(),
            final(self).spec_state().previews() == Map::<u128, PreviewValue>::empty(),
    {
        self.state.clear_caches();
    }

    /// How many entries each cache holds and how many bytes.
    pub fn cache_stats(&self) -> (r: CacheStats)
        requires
            thumb_bytes(self.spec_state().thumbs()) + preview_bytes(self.spec_state().previews()) <= usize::MAX,
        ensures
            r.thumbnail_count == self.spec_state().thumbs().len(),
            r.thumbnail_size_bytes == thumb_bytes(self.spec_state().thumbs()),
            r.preview_count == self.spec_state().previews().len(),
            r.preview_size_bytes == preview_bytes(self.spec_state().previews()),
            r.total_size_bytes == r.thumbnail_size_bytes + r.preview_size_bytes,
    {
        self.state.cache_stats()
    }

    /// The URL of an asset of the given kind.
    fn url(&self, kind: &str, uuid: u128) -> (r: String)
        ensures
            r@ == asset_url(self.spec_state().config.port, kind@, uuid, self.spec_state().session_token@),
    {
        let mut v = crate::text::chars_of("http://127.0.0.1:");
        crate::utils::push_decimal(&mut v, self.state.config.port as u128);
        v.push('/');
        crate::diluted::append_text(&mut v, kind);
        v.push('/');
        let u = uuid_string(uuid);
        crate::diluted::append_text(&mut v, u.as_str());
        crate::diluted::append_text(&mut v, "?token=");
        crate::diluted::append_text(&mut v, self.state.session_token.as_str());
        proof {
            assert(v@ =~= asset_url(self.spec_state().config.port, kind@, uuid, self.spec_state().session_token@));
        }
        string_from_chars(v.as_slice())
    }

    /// The URL of a file's thumbnail.
    pub fn get_thumbnail_url(&self, uuid: u128) -> (r: String)
        ensures
            r@ == asset_url(self.spec_state().config.port, "thumbnail"@, uuid, self.spec_state().session_token@),
    {
        self.url("thumbnail", uuid)
    }

    /// The URL of a file's preview.
    pub fn get_preview_url(&self, uuid: u128) -> (r: String)
        ensures
            r@ == asset_url(self.spec_state().config.port, "preview"@, uuid, self.spec_state().session_token@),
    {
        self.url("preview", uuid)
    }

    /// The URL of a file.
    pub fn get_file_url(&self, uuid: u128) -> (r: String)
        ensures
            r@ == asset_url(self.spec_state().config.port, "file"@, uuid, self.spec_state().session_token@),
    {
        self.url("file", uuid)
    }
}


/// An answer of the asset server: status code, headers and body.
#[derive(Debug, Clone)]
pub struct AssetResponse {
    pub status: u16,
    pub headers: Vec<(String, String)>,
    pub body: Vec<u8>,
}

/// An answer as plain values.
pub open spec fn response_view(r: AssetResponse) -> (u16, Seq<(Seq<char>, Seq<char>)>, Seq<u8>) {
    (r.status, views_of_pairs(r.headers@), r.body@)
}

/// Header pairs as plain values.
pub open spec fn views_of_pairs(h: Seq<(String, String)>) -> Seq<(Seq<char>, Seq<char>)> {
    h.map_values(|p: (String, String)| (p.0@, p.1@))
}

/// The answer for cached content: 200 with its MIME type, privately
/// cacheable for an hour; without it, 404 with `{what} not found` as plain
/// text that is not cached.
pub open spec fn cached_answer(found: Option<(Seq<char>, Seq<u8>)>, what: Seq<char>) -> (u16, Seq<(Seq<char>, Seq<char>)>, Seq<u8>) {
    match found {
        Some((mime, data)) => (200, seq![("Content-Type"@, mime), ("Cache-Control"@, "private, max-age=3600"@)], data),
        None => (404, seq![("Content-Type"@, "text/plain"@), ("Cache-Control"@, "no-cache"@)],
            vstd::utf8::encode_utf8(what + " not found"@)),
    }
}

fn text_bytes(s: &str) -> (r: Vec<u8>)
    ensures
        r@ == vstd::utf8::encode_utf8(s@),
{
    copy_bytes_of(s.as_bytes())
}

/// A copy of a byte slice.
fn copy_bytes_of(b: &[u8]) -> (r: Vec<u8>)
    ensures
        r@ == b@,
{
    let mut r: Vec<u8> = Vec::new();
    let mut i: usize = 0;
    while i < b.len()
        invariant
            i <= b@.len(),
            r@ == b@.take(i as int),
        decreases b@.len() - i,
    {
        r.push(b[i]);
        proof {
            assert(b@.take(i + 1) =~= b@.take(i as int).push(b@[i as int]));
        }
        i = i + 1;
    }
    proof {
        assert(b@.take(b@.len() as int) =~= b@);
    }
    r
}

fn cached_response(found: Option<(String, Vec<u8>)>, not_found: &str) -> (r: AssetResponse)
    ensures
        response_view(r) == match found {
            Some((mime, data)) => (200u16, seq![("Content-Type"@, mime@), ("Cache-Control"@, "private, max-age=3600"@)], data@),
            None => (404u16, seq![("Content-Type"@, "text/plain"@), ("Cache-Control"@, "no-cache"@)], vstd::utf8::encode_utf8(not_found@)),
        },
{
    let mut headers: Vec<(String, String)> = Vec::new();
    match found {
        Some((mime, data)) => {
            headers.push((owned("Content-Type"), mime));
            headers.push((owned("Cache-Control"), owned("private, max-age=3600")));
            let r = AssetResponse { status: 200, headers, body: data };
            proof {
                assert(views_of_pairs(r.headers@) =~= seq![("Content-Type"@, r.headers@[0].1@), ("Cache-Control"@, "private, max-age=3600"@)]);
            }
            r
        },
        None => {
            headers.push((owned("Content-Type"), owned("text/plain")));
            headers.push((owned("Cache-Control"), owned("no-cache")));
            let r = AssetResponse { status: 404, headers, body: text_bytes(not_found) };
            proof {
                assert(views_of_pairs(r.headers@) =~= seq![("Content-Type"@, "text/plain"@), ("Cache-Control"@, "no-cache"@)]);
            }
            r
        },
    }
}

impl AssetServerState {
    /// The answer to a request for the thumbnail of `uuid`.
    pub fn serve_thumbnail(&self, uuid: u128) -> (r: AssetResponse)
        ensures
            response_view(r) == cached_answer(
                match self.thumbs().get(uuid) {
                    Some(t) => Some((t.1, t.0)),
                    None => None,
                },
                "Thumbnail"@,
            ),
    {
        proof {
            reveal_strlit("Thumbnail not found");
            reveal_strlit("Thumbnail");
            reveal_strlit(" not found");
        }
        let found = match self.get_thumbnail(uuid) {
            Some(t) => Some((t.content_type, t.data)),
            None => None,
        };
        let r = cached_response(found, "Thumbnail not found");
        proof {
            assert("Thumbnail"@ + " not found"@ =~= "Thumbnail not found"@);
        }
        r
    }

    /// The answer to a request for the preview of `uuid`.
    pub fn serve_preview(&self, uuid: u128) -> (r: AssetResponse)
        ensures
            response_view(r) == cached_answer(
                match self.previews().get(uuid) {
                    Some(p) => Some((p.1, p.0)),
                    None => None,
                },
                "Preview"@,
            ),
    {
        proof {
            reveal_strlit("Preview not found");
            reveal_strlit("Preview");
            reveal_strlit(" not found");
        }
        let found = match self.get_preview(uuid) {
            Some(p) => Some((p.content_type, p.data)),
            None => None,
        };
        let r = cached_response(found, "Preview not found");
        proof {
            assert("Preview"@ + " not found"@ =~= "Preview not found"@);
        }
        r
    }
}

/// The answer to a request for a file: serving files is not implemented, so
/// 501 with a plain-text message naming the file.
pub fn serve_file(uuid: u128) -> (r: AssetResponse)
    ensures
        response_view(r) == (501u16, seq![("Content-Type"@, "text/plain"@)],
            vstd::utf8::encode_utf8("File serving not yet implemented for UUID: "@ + uuid_text(uuid))),
{
    let mut v = crate::text::chars_of("File serving not yet implemented for UUID: ");
    let id = uuid_string(uuid);
    crate::diluted::append_text(&mut v, id.as_str());
    let msg = string_from_chars(v.as_slice());
    let mut headers: Vec<(String, String)> = Vec::new();
    headers.push((owned("Content-Type"), owned("text/plain")));
    let r = AssetResponse { status: 501, headers, body: text_bytes(msg.as_str()) };
    proof {
        assert(views_of_pairs(r.headers@) =~= seq![("Content-Type"@, "text/plain"@)]);
    }
    r
}

} // verus!
