//! The cloud bridge: its settings, the checks made before a cloud request
//! (switched on, under the monthly cost limit, within the request budget),
//! the accounting of what a request cost, and the retry of failed requests.
//! Sending a request and reading its answer is done around this module.

use vstd::prelude::*;
use crate::inference::{CloudModelType, CostTracker, InferenceError, RateLimiter, UsageRecord, refilled, rate_limited};
use crate::text::to_string;

verus! {

/// The chat-completions endpoint of OpenAI.
pub open spec fn openai_endpoint() -> Seq<char> {
    "https://api.openai.com/v1/chat/completions"@
}

/// The messages endpoint of Anthropic.
pub open spec fn anthropic_endpoint() -> Seq<char> {
    "https://api.anthropic.com/v1/messages"@
}

fn openai_endpoint_text() -> (s: String)
    ensures
        s@ == openai_endpoint(),
{
    to_string("https://api.openai.com/v1/chat/completions")
}

fn anthropic_endpoint_text() -> (s: String)
    ensures
        s@ == anthropic_endpoint(),
{
    to_string("https://api.anthropic.com/v1/messages")
}

/// The default monthly cost limit: 10 US dollars, in micro-dollars.
pub const DEFAULT_MONTHLY_COST_LIMIT_MICROS: u64 = 10_000_000;

/// The default request budget per minute.
pub const DEFAULT_REQUESTS_PER_MINUTE: u32 = 60;

/// The default request timeout, in milliseconds.
pub const DEFAULT_CLOUD_TIMEOUT_MS: u64 = 5000;

/// The default number of attempts of a request.
pub const DEFAULT_MAX_RETRIES: u32 = 3;

/// Settings of the cloud bridge. The monthly cost limit is in micro-dollars
/// (1 USD = 1,000,000).
#[derive(Debug, Clone)]
pub struct CloudConfig {
    /// The API endpoint.
    pub endpoint: String,
    /// The API key. It is only read by the code that sends a request, which
    /// wraps it in a `secrecy::SecretString` there.
    pub api_key: String,
    /// The model asked.
    pub model: CloudModelType,
    /// The monthly cost limit, in micro-dollars.
    pub monthly_cost_limit_micros: u64,
    /// The request budget per minute.
    pub requests_per_minute: u32,
    /// Whether the cloud may be used.
    pub enabled: bool,
    /// The request timeout, in milliseconds.
    pub timeout_ms: u64,
    /// How many times a request is attempted.
    pub max_retries: u32,
}

/// The limits shared by every preset: 10 US dollars a month, 60 requests a
/// minute, 5 seconds per request, 3 attempts.
pub open spec fn default_limits(c: CloudConfig) -> bool {
    &&& c.monthly_cost_limit_micros == DEFAULT_MONTHLY_COST_LIMIT_MICROS
    &&& c.requests_per_minute == DEFAULT_REQUESTS_PER_MINUTE
    &&& c.timeout_ms == DEFAULT_CLOUD_TIMEOUT_MS
    &&& c.max_retries == DEFAULT_MAX_RETRIES
}

impl Default for CloudConfig {
    /// Off, with the OpenAI endpoint, an empty key, GPT-4o-mini and the
    /// default limits.
    fn default() -> (c: Self)
        ensures
            !c.enabled,
            c.endpoint@ == openai_endpoint(),
            c.api_key@.len() == 0,
            c.model == CloudModelType::GPT4oMini,
            default_limits(c),
    {
        CloudConfig {
            endpoint: openai_endpoint_text(),
            api_key: String::new(),
            model: CloudModelType::GPT4oMini,
            monthly_cost_limit_micros: DEFAULT_MONTHLY_COST_LIMIT_MICROS,
            requests_per_minute: DEFAULT_REQUESTS_PER_MINUTE,
            enabled: false,
            timeout_ms: DEFAULT_CLOUD_TIMEOUT_MS,
            max_retries: DEFAULT_MAX_RETRIES,
        }
    }
}

impl CloudConfig {
    /// On, with the OpenAI endpoint, `api_key`, GPT-4o-mini and the default
    /// limits.
    pub fn openai(api_key: String) -> (c: Self)
        ensures
            c.enabled,
            c.endpoint@ == openai_endpoint(),
            c.api_key == api_key,
            c.model == CloudModelType::GPT4oMini,
            default_limits(c),
    {
        CloudConfig {
            endpoint: openai_endpoint_text(),
            api_key,
            model: CloudModelType::GPT4oMini,
            monthly_cost_limit_micros: DEFAULT_MONTHLY_COST_LIMIT_MICROS,
            requests_per_minute: DEFAULT_REQUESTS_PER_MINUTE,
            enabled: true,
            timeout_ms: DEFAULT_CLOUD_TIMEOUT_MS,
            max_retries: DEFAULT_MAX_RETRIES,
        }
    }

    /// On, with the Anthropic endpoint, `api_key`, the Haiku model and the
    /// default limits.
    pub fn anthropic(api_key: String) -> (c: Self)
        ensures
            c.enabled,
            c.endpoint@ == anthropic_endpoint(),
            c.api_key == api_key,
            c.model == CloudModelType::ClaudeHaiku,
            default_limits(c),
    {
        CloudConfig {
            endpoint: anthropic_endpoint_text(),
            api_key,
            model: CloudModelType::ClaudeHaiku,
            monthly_cost_limit_micros: DEFAULT_MONTHLY_COST_LIMIT_MICROS,
            requests_per_minute: DEFAULT_REQUESTS_PER_MINUTE,
            enabled: true,
            timeout_ms: DEFAULT_CLOUD_TIMEOUT_MS,
            max_retries: DEFAULT_MAX_RETRIES,
        }
    }
}


/// The reason given when the cloud is switched off.
pub open spec fn disabled_reason() -> Seq<char> {
    "Cloud inference is disabled"@
}

/// A refusal because the cloud is switched off.
pub open spec fn disabled_refusal(r: Result<(), InferenceError>) -> bool {
    r matches Err(InferenceError::CloudUnavailable { reason }) && reason@ == disabled_reason()
}

/// The cost tracking after moving to `now` (year, month): unchanged within
/// the tracked month, started over in another one.
pub open spec fn month_reset(before: CostTracker, now: (i32, u32), after: CostTracker) -> bool {
    &&& after.well_formed()
    &&& after.spec_limit() == before.spec_limit()
    &&& now != before.spec_month() ==> after.spec_cost() == 0 && after.spec_records().len() == 0
        && after.spec_month() == now
    &&& now == before.spec_month() ==> after.spec_cost() == before.spec_cost()
        && after.spec_records() == before.spec_records() && after.spec_month() == before.spec_month()
}

/// The state of the cloud bridge: its settings, its request budget and the
/// cost of the month. The HTTP client that sends the requests lives beside it.
pub struct CloudBridge {
    config: CloudConfig,
    rate_limiter: RateLimiter,
    cost_tracker: CostTracker,
}

impl CloudBridge {
    /// The settings.
    pub closed spec fn spec_config(&self) -> CloudConfig {
        self.config
    }

    /// The request budget.
    pub closed spec fn spec_rate_limiter(&self) -> RateLimiter {
        self.rate_limiter
    }

    /// The cost tracking.
    pub closed spec fn spec_cost_tracker(&self) -> CostTracker {
        self.cost_tracker
    }

    /// The invariants of the budget and of the cost tracking.
    pub open spec fn well_formed(&self) -> bool {
        &&& self.spec_rate_limiter().well_formed()
        &&& self.spec_cost_tracker().well_formed()
    }

    /// A bridge with `config`, a full budget of `config.requests_per_minute`
    /// last refilled at `now`, and nothing spent in `month` (year, month).
    pub fn new_at(config: CloudConfig, now: u64, month: (i32, u32)) -> (b: Self)
        ensures
            b.well_formed(),
            b.spec_config() == config,
            b.spec_rate_limiter().spec_tokens() == config.requests_per_minute,
            b.spec_rate_limiter().spec_max_tokens() == config.requests_per_minute,
            b.spec_rate_limiter().spec_last_refill() == now,
            b.spec_cost_tracker().spec_cost() == 0,
            b.spec_cost_tracker().spec_limit() == config.monthly_cost_limit_micros,
            b.spec_cost_tracker().spec_records().len() == 0,
            b.spec_cost_tracker().spec_month() == month,
    {
        let rate_limiter = RateLimiter::new_at(config.requests_per_minute, now);
        let cost_tracker = CostTracker::new(config.monthly_cost_limit_micros, month);
        CloudBridge { config, rate_limiter, cost_tracker }
    }

    /// A bridge with `config`, a full budget and nothing spent this month.
    pub fn new(config: CloudConfig) -> (b: Self)
        ensures
            b.well_formed(),
            b.spec_config() == config,
            b.spec_rate_limiter().spec_tokens() == config.requests_per_minute,
            b.spec_rate_limiter().spec_max_tokens() == config.requests_per_minute,
            b.spec_cost_tracker().spec_cost() == 0,
            b.spec_cost_tracker().spec_limit() == config.monthly_cost_limit_micros,
            b.spec_cost_tracker().spec_records().len() == 0,
    {
        let now = crate::clock::now_millis_u64();
        let month = crate::clock::now_year_month();
        Self::new_at(config, now, month)
    }

    /// Whether the cloud can be used: switched on and under the monthly limit.
    pub fn is_available(&self) -> (r: bool)
        ensures
            r == (self.spec_config().enabled
                && self.spec_cost_tracker().spec_cost() < self.spec_cost_tracker().spec_limit()),
    {
        self.config.enabled && !self.cost_tracker.is_limit_reached()
    }

    /// The checks before a cloud request at `now` (milliseconds) in `month`:
    /// refused when switched off, or with the month's cost and limit when the
    /// limit is reached; otherwise one request is taken from the budget
    /// (refused when it is spent) and the cost tracking moves to `month`.
    pub fn begin_infer_at(&mut self, now: u64, month: (i32, u32)) -> (r: Result<(), InferenceError>)
        requires
            old(self).well_formed(),
        ensures
            final(self).well_formed(),
            final(self).spec_config() == old(self).spec_config(),
            !old(self).spec_config().enabled ==> *final(self) == *old(self)
                && disabled_refusal(r),
            old(self).spec_config().enabled && old(self).spec_cost_tracker().spec_cost()
                >= old(self).spec_cost_tracker().spec_limit() ==> *final(self) == *old(self)
                && r == Err::<(), InferenceError>(InferenceError::CostLimitReached {
                    current: old(self).spec_cost_tracker().spec_cost(),
                    limit: old(self).spec_cost_tracker().spec_limit(),
                }),
            old(self).spec_config().enabled && old(self).spec_cost_tracker().spec_cost()
                < old(self).spec_cost_tracker().spec_limit() ==> ({
                let (tokens, last) = refilled(old(self).spec_rate_limiter(), now);
                &&& final(self).spec_rate_limiter().spec_max_tokens() == old(self).spec_rate_limiter().spec_max_tokens()
                &&& final(self).spec_rate_limiter().spec_last_refill() == last
                &&& tokens == 0 ==> rate_limited(r) && final(self).spec_rate_limiter().spec_tokens() == 0
                    && final(self).spec_cost_tracker() == old(self).spec_cost_tracker()
                &&& tokens > 0 ==> r is Ok && final(self).spec_rate_limiter().spec_tokens() == tokens - 1
                    && month_reset(old(self).spec_cost_tracker(), month, final(self).spec_cost_tracker())
            }),
    {
        if !self.config.enabled {
            return Err(InferenceError::CloudUnavailable { reason: to_string("Cloud inference is disabled") });
        }
        if self.cost_tracker.is_limit_reached() {
            return Err(InferenceError::CostLimitReached {
                current: self.cost_tracker.current_cost_micros(),
                limit: self.cost_tracker.monthly_limit_micros(),
            });
        }
        let acquired = self.rate_limiter.acquire_at(now);
        if acquired.is_err() {
            return acquired;
        }
        self.cost_tracker.reset_if_new_month(month);
        Ok(())
    }

    /// The checks before a cloud request, now (see `begin_infer_at`).
    pub fn begin_infer(&mut self) -> (r: Result<(), InferenceError>)
        requires
            old(self).well_formed(),
        ensures
            final(self).well_formed(),
            final(self).spec_config() == old(self).spec_config(),
            !old(self).spec_config().enabled ==> *final(self) == *old(self)
                && disabled_refusal(r),
            old(self).spec_config().enabled && old(self).spec_cost_tracker().spec_cost()
                >= old(self).spec_cost_tracker().spec_limit() ==> *final(self) == *old(self)
                && r == Err::<(), InferenceError>(InferenceError::CostLimitReached {
                    current: old(self).spec_cost_tracker().spec_cost(),
                    limit: old(self).spec_cost_tracker().spec_limit(),
                }),
            old(self).spec_config().enabled && old(self).spec_cost_tracker().spec_cost()
                < old(self).spec_cost_tracker().spec_limit() ==> r is Ok || rate_limited(r),
    {
        let now = crate::clock::now_millis_u64();
        let month = crate::clock::now_year_month();
        self.begin_infer_at(now, month)
    }

    /// Records what an answered request used and cost.
    pub fn record_usage(&mut self, record: UsageRecord)
        requires
            old(self).well_formed(),
        ensures
            final(self).well_formed(),
            final(self).spec_config() == old(self).spec_config(),
            final(self).spec_rate_limiter() == old(self).spec_rate_limiter(),
            final(self).spec_cost_tracker().spec_cost() == vstd::wrapping::u64_specs::wrapping_add(
                old(self).spec_cost_tracker().spec_cost(), record.cost_micros),
            final(self).spec_cost_tracker().spec_limit() == old(self).spec_cost_tracker().spec_limit(),
            final(self).spec_cost_tracker().spec_month() == old(self).spec_cost_tracker().spec_month(),
            final(self).spec_cost_tracker().spec_records() == crate::inference::kept_records(
                old(self).spec_cost_tracker().spec_records().push(record)),
    {
        self.cost_tracker.record(record);
    }

    /// The cost tracking.
    pub fn cost_tracker(&self) -> (t: &CostTracker)
        ensures
            *t == self.spec_cost_tracker(),
    {
        &self.cost_tracker
    }

    /// The request budget.
    pub fn rate_limiter(&self) -> (l: &RateLimiter)
        ensures
            *l == self.spec_rate_limiter(),
    {
        &self.rate_limiter
    }

    /// The settings.
    pub fn config(&self) -> (c: &CloudConfig)
        ensures
            *c == self.spec_config(),
    {
        &self.config
    }
}


/// The wait before the first retry, in milliseconds.
pub const FIRST_RETRY_DELAY_MS: u64 = 100;

/// Whether a failed request may be tried again: after a network failure, a
/// timeout or a refusal for too many requests.
pub open spec fn retryable(e: InferenceError) -> bool {
    ||| e is NetworkError
    ||| e is Timeout
    ||| e is RateLimitExceeded
}

/// Whether a failed request may be tried again (see `retryable`).
pub fn is_retryable_error(error: &InferenceError) -> (r: bool)
    ensures
        r == retryable(*error),
{
    match error {
        InferenceError::NetworkError { .. } => true,
        InferenceError::Timeout { .. } => true,
        InferenceError::RateLimitExceeded { .. } => true,
        _ => false,
    }
}

/// A wait twice as long, held at the largest `u64` of milliseconds.
pub open spec fn doubled(d: u64) -> u64 {
    if d > u64::MAX / 2 {
        u64::MAX
    } else {
        (2 * d) as u64
    }
}

/// The wait after the failure of attempt `k` (from 0): 100 ms, doubled after
/// each failure.
pub open spec fn backoff_delay(k: nat) -> u64
    decreases k,
{
    if k == 0 {
        FIRST_RETRY_DELAY_MS
    } else {
        doubled(backoff_delay((k - 1) as nat))
    }
}

/// The reason given when every attempt allowed has failed without an error
/// to report (no attempt is allowed).
pub open spec fn max_retries_reason() -> Seq<char> {
    "Max retries exceeded"@
}

/// What to do after a failed attempt: wait and try again, or give up with an
/// error.
#[derive(Debug)]
pub enum RetryStep {
    /// Wait this many milliseconds, then try again if attempts are left.
    Wait { delay_ms: u64 },
    /// Give up with this error.
    Fail(InferenceError),
}

/// The retry of a cloud request: at most `max_retries` attempts, waiting
/// 100 ms after the first retryable failure and twice as long after each
/// next one; an error that is not retryable ends the request at once.
pub struct RequestRetry {
    attempt: u32,
    max_retries: u32,
    delay_ms: u64,
    last_error: Option<InferenceError>,
}

impl RequestRetry {
    /// The attempts made so far.
    pub closed spec fn spec_attempt(&self) -> u32 {
        self.attempt
    }

    /// The attempts allowed.
    pub closed spec fn spec_max_retries(&self) -> u32 {
        self.max_retries
    }

    /// The error of the latest failed attempt.
    pub closed spec fn spec_last_error(&self) -> Option<InferenceError> {
        self.last_error
    }

    /// No more attempts than allowed, and the next wait is the one due after
    /// as many failures as attempts made.
    pub closed spec fn well_formed(&self) -> bool {
        &&& self.attempt <= self.max_retries
        &&& self.delay_ms == backoff_delay(self.attempt as nat)
    }

    /// No attempt made yet, `max_retries` allowed.
    pub fn new(max_retries: u32) -> (r: Self)
        ensures
            r.well_formed(),
            r.spec_attempt() == 0,
            r.spec_max_retries() == max_retries,
            r.spec_last_error() is None,
    {
        RequestRetry { attempt: 0, max_retries, delay_ms: FIRST_RETRY_DELAY_MS, last_error: None }
    }

    /// Whether another attempt is allowed.
    pub fn should_attempt(&self) -> (r: bool)
        ensures
            r == (self.spec_attempt() < self.spec_max_retries()),
    {
        self.attempt < self.max_retries
    }

    /// Takes the failure of the current attempt: an error that is not
    /// retryable is given up with at once; a retryable one is kept, and the
    /// wait due after this attempt is returned.
    pub fn on_failure(&mut self, error: InferenceError) -> (step: RetryStep)
        requires
            old(self).well_formed(),
            old(self).spec_attempt() < old(self).spec_max_retries(),
        ensures
            final(self).well_formed(),
            final(self).spec_max_retries() == old(self).spec_max_retries(),
            !retryable(error) ==> step == RetryStep::Fail(error) && *final(self) == *old(self),
            retryable(error) ==> step == (RetryStep::Wait { delay_ms: backoff_delay(old(self).spec_attempt() as nat) })
                && final(self).spec_attempt() == old(self).spec_attempt() + 1
                && final(self).spec_last_error() == Some(error),
    {
        if !is_retryable_error(&error) {
            return RetryStep::Fail(error);
        }
        let delay_ms = self.delay_ms;
        self.last_error = Some(error);
        self.attempt = self.attempt + 1;
        self.delay_ms = if delay_ms > u64::MAX / 2 {
            u64::MAX
        } else {
            delay_ms * 2
        };
        RetryStep::Wait { delay_ms }
    }

    /// The error to report once no attempt is left: that of the latest
    /// failure, or "Max retries exceeded" when no attempt was allowed.
    pub fn give_up(self) -> (e: InferenceError)
        ensures
            self.spec_last_error() matches Some(last) ==> e == last,
            self.spec_last_error() is None ==> (e matches InferenceError::CloudApiError { reason }
                && reason@ == max_retries_reason()),
    {
        match self.last_error {
            Some(e) => e,
            None => InferenceError::CloudApiError { reason: to_string("Max retries exceeded") },
        }
    }
}


/// Exponential backoff: the wait after the failure of attempt `k` is
/// 100 ms times 2 to the `k`, as long as that fits in a `u64`.
pub proof fn lemma_backoff_doubles(k: nat)
    requires
        FIRST_RETRY_DELAY_MS * vstd::arithmetic::power2::pow2(k) <= u64::MAX,
    ensures
        backoff_delay(k) == FIRST_RETRY_DELAY_MS * vstd::arithmetic::power2::pow2(k),
    decreases k,
{
    if k == 0 {
        vstd::arithmetic::power2::lemma2_to64();
    } else {
        let p = vstd::arithmetic::power2::pow2((k - 1) as nat);
        vstd::arithmetic::power2::lemma_pow2_unfold(k);
        assert(FIRST_RETRY_DELAY_MS * vstd::arithmetic::power2::pow2(k) == 2 * (FIRST_RETRY_DELAY_MS * p));
        lemma_backoff_doubles((k - 1) as nat);
    }
}

/// A request is attempted at most as many times as allowed.
pub proof fn lemma_attempts_bounded(r: RequestRetry)
    requires
        r.well_formed(),
    ensures
        r.spec_attempt() <= r.spec_max_retries(),
{
}


/// Whether a bridge is there and can be used (see `CloudBridge::is_available`).
pub open spec fn bridge_available(bridge: Option<CloudBridge>) -> bool {
    match bridge {
        Some(b) => b.spec_config().enabled && b.spec_cost_tracker().spec_cost() < b.spec_cost_tracker().spec_limit(),
        None => false,
    }
}

/// Whether the hybrid inference may use the cloud: cloud inference is
/// switched on for it and its bridge, if it has one, is available.
pub fn is_cloud_available(cloud_enabled: bool, bridge: &Option<CloudBridge>) -> (r: bool)
    ensures
        r == (cloud_enabled && bridge_available(*bridge)),
{
    if !cloud_enabled {
        return false;
    }
    match bridge {
        Some(b) => b.is_available(),
        None => false,
    }
}

/// Whether a query goes to the cloud as well as to the local engine: its
/// options allow the cloud and the cloud is available (see
/// `is_cloud_available`).
pub fn should_use_cloud(options: &crate::inference::InferenceOptions, cloud_enabled: bool, bridge: &Option<CloudBridge>) -> (r: bool)
    ensures
        r == (options.enable_cloud && cloud_enabled && bridge_available(*bridge)),
{
    options.enable_cloud && is_cloud_available(cloud_enabled, bridge)
}

} // verus!
