//! Settings and plain values of the hybrid (local and cloud) query inference.

use vstd::prelude::*;

verus! {

/// A summary of the user's file structure, given to the inference as context.
#[derive(Debug, Clone)]
pub struct FileStructureContext {
    /// Summary of the file structure.
    pub summary: String,
    /// Top-level directories.
    pub top_directories: Vec<String>,
    /// Total number of files.
    pub total_files: u64,
    /// Number of files of each type.
    pub file_type_counts: Vec<(String, u64)>,
}

/// Local model used for query embeddings.
#[derive(Debug, Clone, Copy, PartialEq, Eq, Structural)]
pub enum LocalModelType {
    /// MiniLM-L6 (fast, 384 dimensions).
    Fast,
    /// all-MiniLM-L12 (balanced).
    Balanced,
    /// BGE-base (accurate).
    Accurate,
}

impl Default for LocalModelType {
    fn default() -> (m: Self)
        ensures
            m == LocalModelType::Fast,
    {
        LocalModelType::Fast
    }
}

/// Cloud model used for query understanding.
#[derive(Debug, Clone, PartialEq, Eq)]
pub enum CloudModelType {
    /// OpenAI GPT-4o-mini.
    GPT4oMini,
    /// Anthropic's Haiku model.
    ClaudeHaiku,
    /// A custom model, by name.
    Custom(String),
}

/// Options of one inference.
#[derive(Debug, Clone)]
pub struct InferenceOptions {
    /// Whether cloud inference may be used.
    pub enable_cloud: bool,
    /// Cloud timeout, in milliseconds.
    pub cloud_timeout_ms: u64,
    /// Local model to use.
    pub local_model: LocalModelType,
    /// Cloud model to use, when the cloud is enabled.
    pub cloud_model: Option<CloudModelType>,
    /// Whether the cache may answer.
    pub use_cache: bool,
    /// The most results to return.
    pub max_results: usize,
}

impl Default for InferenceOptions {
    fn default() -> (o: Self)
        ensures
            o.enable_cloud,
            o.cloud_timeout_ms == 500,
            o.local_model == LocalModelType::Fast,
            o.cloud_model == Some(CloudModelType::GPT4oMini),
            o.use_cache,
            o.max_results == 20,
    {
        InferenceOptions {
            enable_cloud: true,
            cloud_timeout_ms: 500,
            local_model: LocalModelType::Fast,
            cloud_model: Some(CloudModelType::GPT4oMini),
            use_cache: true,
            max_results: 20,
        }
    }
}

/// Where a part of an inference came from.
#[derive(Debug, Clone, Copy, PartialEq, Eq, Structural)]
pub enum InferenceSource {
    /// Local embedding engine.
    LocalEmbedding,
    /// Local intent parser.
    LocalIntent,
    /// Local tag matching.
    LocalTagMatch,
    /// Cloud API.
    Cloud,
    /// Cache hit.
    Cache,
}

/// How a query matched a tag.
#[derive(Debug, Clone, Copy, PartialEq, Eq, Structural)]
pub enum TagMatchType {
    /// The name matched exactly.
    ExactName,
    /// Part of the name matched.
    PartialName,
    /// Semantic similarity.
    Semantic,
    /// A keyword matched.
    Keyword,
}


/// Errors of the query inference. The amounts of a cost limit are in
/// micro-dollars (1 USD = 1,000,000), the unit of the cost tracker.
#[derive(Debug)]
pub enum InferenceError {
    /// Making the embedding failed.
    EmbeddingFailed { reason: String },
    /// Parsing the intent failed.
    IntentParseFailed { reason: String },
    /// The cloud API answered with an error.
    CloudApiError { reason: String },
    /// Too many requests; retry after the given seconds.
    RateLimitExceeded { retry_after_secs: u64 },
    /// The monthly cost limit is reached.
    CostLimitReached { current: u64, limit: u64 },
    /// The network failed.
    NetworkError { reason: String },
    /// The inference took too long.
    Timeout { timeout_ms: u64 },
    /// The cache failed.
    CacheError { reason: String },
    /// The settings are wrong.
    ConfigError { reason: String },
    /// The cloud service is unavailable.
    CloudUnavailable { reason: String },
    /// Encoding or decoding failed.
    SerializationError { reason: String },
    /// An internal error.
    Internal { reason: String },
    /// The database failed.
    DatabaseError { reason: String },
}

/// Seconds to wait after running out of requests.
pub const RATE_LIMIT_RETRY_SECS: u64 = 60;

/// Milliseconds after which the request budget is refilled.
pub const REFILL_INTERVAL_MS: u64 = 60000;

/// A budget of requests per minute: a full budget at the start, one request
/// taken per call, the whole budget back once a minute has passed since the
/// last refill.
pub struct RateLimiter {
    tokens: u64,
    max_tokens: u64,
    last_refill: u64,
}

impl RateLimiter {
    /// Requests left in the budget.
    pub closed spec fn spec_tokens(&self) -> u64 {
        self.tokens
    }

    /// The whole budget.
    pub closed spec fn spec_max_tokens(&self) -> u64 {
        self.max_tokens
    }

    /// When the budget was last refilled, in milliseconds.
    pub closed spec fn spec_last_refill(&self) -> u64 {
        self.last_refill
    }

    /// The budget never exceeds its size.
    pub closed spec fn well_formed(&self) -> bool {
        self.tokens <= self.max_tokens
    }

    /// A full budget of `requests_per_minute`, last refilled at `now`.
    pub fn new_at(requests_per_minute: u32, now: u64) -> (r: Self)
        ensures
            r.well_formed(),
            r.spec_tokens() == requests_per_minute,
            r.spec_max_tokens() == requests_per_minute,
            r.spec_last_refill() == now,
    {
        RateLimiter { tokens: requests_per_minute as u64, max_tokens: requests_per_minute as u64, last_refill: now }
    }

    /// A full budget of `requests_per_minute`, last refilled now.
    pub fn new(requests_per_minute: u32) -> (r: Self)
        ensures
            r.well_formed(),
            r.spec_tokens() == requests_per_minute,
            r.spec_max_tokens() == requests_per_minute,
    {
        Self::new_at(requests_per_minute, crate::clock::now_millis_u64())
    }

    /// Requests left in the budget.
    pub fn available_tokens(&self) -> (n: u64)
        ensures
            n == self.spec_tokens(),
    {
        self.tokens
    }

    /// Refills the budget when a minute has passed since the last refill.
    fn refill_at(&mut self, now: u64)
        requires
            old(self).well_formed(),
        ensures
            final(self).well_formed(),
            final(self).spec_max_tokens() == old(self).spec_max_tokens(),
            refill_due(old(self).spec_last_refill(), now) ==> final(self).spec_tokens() == old(self).spec_max_tokens()
                && final(self).spec_last_refill() == now,
            !refill_due(old(self).spec_last_refill(), now) ==> *final(self) == *old(self),
    {
        if now >= self.last_refill && now - self.last_refill >= REFILL_INTERVAL_MS {
            self.tokens = self.max_tokens;
            self.last_refill = now;
        }
    }

    /// Takes one request from the budget at `now`, after refilling it when
    /// due; with the budget spent, fails with a retry after a minute.
    pub fn acquire_at(&mut self, now: u64) -> (r: Result<(), InferenceError>)
        requires
            old(self).well_formed(),
        ensures
            final(self).well_formed(),
            final(self).spec_max_tokens() == old(self).spec_max_tokens(),
            ({
                let (tokens, last) = refilled(*old(self), now);
                &&& final(self).spec_last_refill() == last
                &&& tokens == 0 ==> final(self).spec_tokens() == 0 && rate_limited(r)
                &&& tokens > 0 ==> final(self).spec_tokens() == tokens - 1 && r is Ok
            }),
    {
        self.refill_at(now);
        if self.tokens == 0 {
            return Err(InferenceError::RateLimitExceeded { retry_after_secs: RATE_LIMIT_RETRY_SECS });
        }
        self.tokens = self.tokens - 1;
        Ok(())
    }

    /// Takes one request from the budget now (see `acquire_at`).
    pub fn acquire(&mut self) -> (r: Result<(), InferenceError>)
        requires
            old(self).well_formed(),
        ensures
            final(self).well_formed(),
            final(self).spec_max_tokens() == old(self).spec_max_tokens(),
            exists|now: u64| {
                let (tokens, last) = #[trigger] refilled(*old(self), now);
                &&& final(self).spec_last_refill() == last
                &&& tokens == 0 ==> final(self).spec_tokens() == 0 && r is Err
                &&& tokens > 0 ==> final(self).spec_tokens() == tokens - 1 && r is Ok
            },
    {
        let now = crate::clock::now_millis_u64();
        self.acquire_at(now)
    }
}

/// Whether a refill is due at `now` after one at `last`: a minute has passed.
pub open spec fn refill_due(last: u64, now: u64) -> bool {
    now >= last && now - last >= REFILL_INTERVAL_MS
}

/// The budget and the time of its last refill, after refilling at `now` when due.
pub open spec fn refilled(l: RateLimiter, now: u64) -> (u64, u64) {
    if refill_due(l.spec_last_refill(), now) {
        (l.spec_max_tokens(), now)
    } else {
        (l.spec_tokens(), l.spec_last_refill())
    }
}

/// A refusal for having spent the budget, with a retry after a minute.
pub open spec fn rate_limited(r: Result<(), InferenceError>) -> bool {
    r matches Err(InferenceError::RateLimitExceeded { retry_after_secs }) && retry_after_secs == RATE_LIMIT_RETRY_SECS
}


/// The most usage records kept.
pub const MAX_USAGE_RECORDS: usize = 1000;

/// How many of the oldest records are dropped when there are too many.
pub const DROPPED_USAGE_RECORDS: usize = 100;

/// One use of the cloud API: when (milliseconds since the Unix epoch), how
/// many tokens, what it cost (in micro-dollars) and with which model.
#[derive(Debug)]
pub struct UsageRecord {
    pub timestamp: i64,
    pub tokens: u32,
    pub cost_micros: u64,
    pub model: String,
}

impl Clone for UsageRecord {
    fn clone(&self) -> (r: Self)
        ensures
            r == *self,
    {
        UsageRecord { timestamp: self.timestamp, tokens: self.tokens, cost_micros: self.cost_micros, model: self.model.clone() }
    }
}

/// The cost of the cloud API in the current month, in micro-dollars
/// (1 USD = 1,000,000), against a monthly limit, with the latest uses.
pub struct CostTracker {
    current_cost: u64,
    monthly_limit: u64,
    records: Vec<UsageRecord>,
    month_start: (i32, u32),
}

/// Usage of the month: cost and limit in micro-dollars, requests and tokens
/// among the kept records.
#[derive(Debug, Clone, Copy, PartialEq, Eq, Structural)]
pub struct CostStats {
    pub current_cost_micros: u64,
    pub monthly_limit_micros: u64,
    pub total_requests: usize,
    pub total_tokens: u64,
}

/// The records kept after adding one: the oldest hundred go when there are
/// more than a thousand.
pub open spec fn kept_records(r: Seq<UsageRecord>) -> Seq<UsageRecord> {
    if r.len() > MAX_USAGE_RECORDS {
        r.skip(DROPPED_USAGE_RECORDS as int)
    } else {
        r
    }
}

/// The tokens of the records.
pub open spec fn total_tokens(r: Seq<UsageRecord>) -> int
    decreases r.len(),
{
    if r.len() == 0 {
        0
    } else {
        total_tokens(r.drop_last()) + r.last().tokens
    }
}

proof fn lemma_total_tokens_bound(r: Seq<UsageRecord>)
    ensures
        0 <= total_tokens(r) <= r.len() * (u32::MAX as int),
    decreases r.len(),
{
    if r.len() > 0 {
        lemma_total_tokens_bound(r.drop_last());
    }
}

impl CostTracker {
    /// The cost so far this month.
    pub closed spec fn spec_cost(&self) -> u64 {
        self.current_cost
    }

    /// The monthly limit.
    pub closed spec fn spec_limit(&self) -> u64 {
        self.monthly_limit
    }

    /// The kept records, oldest first.
    pub closed spec fn spec_records(&self) -> Seq<UsageRecord> {
        self.records@
    }

    /// The year and month the tracking started in.
    pub closed spec fn spec_month(&self) -> (i32, u32) {
        self.month_start
    }

    /// The tracker's invariant: at most a thousand records.
    pub open spec fn well_formed(&self) -> bool {
        self.spec_records().len() <= MAX_USAGE_RECORDS
    }

    /// A tracker with nothing spent, a limit of `monthly_limit_micros`,
    /// starting in `month` (year, month).
    pub fn new(monthly_limit_micros: u64, month: (i32, u32)) -> (t: Self)
        ensures
            t.well_formed(),
            t.spec_cost() == 0,
            t.spec_limit() == monthly_limit_micros,
            t.spec_records().len() == 0,
            t.spec_month() == month,
    {
        CostTracker { current_cost: 0, monthly_limit: monthly_limit_micros, records: Vec::new(), month_start: month }
    }

    /// Records a use: its cost is added (wrapping, as the atomic counter
    /// does) and its record kept, dropping the oldest hundred when there are
    /// more than a thousand.
    pub fn record(&mut self, record: UsageRecord)
        requires
            old(self).well_formed(),
        ensures
            final(self).well_formed(),
            final(self).spec_cost() == vstd::wrapping::u64_specs::wrapping_add(old(self).spec_cost(), record.cost_micros),
            final(self).spec_limit() == old(self).spec_limit(),
            final(self).spec_month() == old(self).spec_month(),
            final(self).spec_records() == kept_records(old(self).spec_records().push(record)),
    {
        self.current_cost = self.current_cost.wrapping_add(record.cost_micros);
        self.records.push(record);
        if self.records.len() > MAX_USAGE_RECORDS {
            let mut kept: Vec<UsageRecord> = Vec::new();
            let mut i: usize = DROPPED_USAGE_RECORDS;
            let ghost all = self.records@;
            while i < self.records.len()
                invariant
                    all == self.records@,
                    DROPPED_USAGE_RECORDS <= i <= all.len(),
                    kept@ == all.subrange(DROPPED_USAGE_RECORDS as int, i as int),
                decreases all.len() - i,
            {
                kept.push(self.records[i].clone());
                proof {
                    assert(all.subrange(DROPPED_USAGE_RECORDS as int, i + 1) =~= all.subrange(DROPPED_USAGE_RECORDS as int, i as int).push(all[i as int]));
                }
                i = i + 1;
            }
            proof {
                assert(kept@ =~= all.skip(DROPPED_USAGE_RECORDS as int));
            }
            self.records = kept;
        }
    }

    /// Whether the monthly limit is reached.
    pub fn is_limit_reached(&self) -> (r: bool)
        ensures
            r == (self.spec_cost() >= self.spec_limit()),
    {
        self.current_cost >= self.monthly_limit
    }

    /// The cost so far this month, in micro-dollars.
    pub fn current_cost_micros(&self) -> (r: u64)
        ensures
            r == self.spec_cost(),
    {
        self.current_cost
    }

    /// The monthly limit, in micro-dollars.
    pub fn monthly_limit_micros(&self) -> (r: u64)
        ensures
            r == self.spec_limit(),
    {
        self.monthly_limit
    }

    /// Starts over when `now` (year, month) is another month than the one
    /// tracked: nothing spent, no records, tracking from `now`.
    pub fn reset_if_new_month(&mut self, now: (i32, u32))
        requires
            old(self).well_formed(),
        ensures
            final(self).well_formed(),
            final(self).spec_limit() == old(self).spec_limit(),
            now != old(self).spec_month() ==> final(self).spec_cost() == 0 && final(self).spec_records().len() == 0
                && final(self).spec_month() == now,
            now == old(self).spec_month() ==> final(self).spec_cost() == old(self).spec_cost()
                && final(self).spec_records() == old(self).spec_records() && final(self).spec_month() == old(self).spec_month(),
    {
        if now.1 != self.month_start.1 || now.0 != self.month_start.0 {
            self.current_cost = 0;
            self.month_start = now;
            self.records.clear();
        }
    }

    /// The usage of the month.
    pub fn get_stats(&self) -> (s: CostStats)
        requires
            self.well_formed(),
        ensures
            s.current_cost_micros == self.spec_cost(),
            s.monthly_limit_micros == self.spec_limit(),
            s.total_requests == self.spec_records().len(),
            s.total_tokens == total_tokens(self.spec_records()),
    {
        let mut total: u64 = 0;
        let mut i: usize = 0;
        proof {
            assert(self.records@.take(0) =~= Seq::<UsageRecord>::empty());
        }
        while i < self.records.len()
            invariant
                self.records@.len() <= MAX_USAGE_RECORDS,
                i <= self.records@.len(),
                total == total_tokens(self.records@.take(i as int)),
            decreases self.records@.len() - i,
        {
            proof {
                assert(self.records@.take(i + 1).drop_last() =~= self.records@.take(i as int));
                lemma_total_tokens_bound(self.records@.take(i as int));
            }
            total = total + self.records[i].tokens as u64;
            i = i + 1;
        }
        proof {
            assert(self.records@.take(self.records@.len() as int) =~= self.records@);
        }
        CostStats {
            current_cost_micros: self.current_cost,
            monthly_limit_micros: self.monthly_limit,
            total_requests: self.records.len(),
            total_tokens: total,
        }
    }
}

/// The number of kept records never exceeds a thousand: adding a record to
/// at most a thousand keeps at most a thousand.
pub proof fn lemma_kept_records_bound(r: Seq<UsageRecord>, x: UsageRecord)
    requires
        r.len() <= MAX_USAGE_RECORDS,
    ensures
        kept_records(r.push(x)).len() <= MAX_USAGE_RECORDS,
{
}

} // verus!
