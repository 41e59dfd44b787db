//! Resilient batch indexer: the task state machine, retry policy and dead
//! letter queue.
//!
//! Times are milliseconds on the caller's clock; task and file identifiers are
//! the 128-bit values of their UUIDs.

use vstd::prelude::*;
use crate::clock::{new_uuid_v7, now_millis_u64};
use crate::text::str_eq;

verus! {

/// Task priority levels for indexing.
#[derive(Debug, Clone, Copy, PartialEq, Eq, Structural, PartialOrd, Ord, Hash)]
pub enum TaskPriority {
    Low,
    Normal,
    High,
    Urgent,
}

impl TaskPriority {
    /// The level of a priority: `Low` is 0 and `Urgent` is 3.
    pub open spec fn rank(self) -> int {
        match self {
            TaskPriority::Low => 0,
            TaskPriority::Normal => 1,
            TaskPriority::High => 2,
            TaskPriority::Urgent => 3,
        }
    }

    /// The level of this priority (0 for `Low` up to 3 for `Urgent`).
    pub fn level(&self) -> (r: u8)
        ensures
            r == self.rank(),
    {
        match self {
            TaskPriority::Low => 0,
            TaskPriority::Normal => 1,
            TaskPriority::High => 2,
            TaskPriority::Urgent => 3,
        }
    }
}

impl Default for TaskPriority {
    fn default() -> (p: Self)
        ensures
            p == TaskPriority::Normal,
    {
        TaskPriority::Normal
    }
}

/// Task status: the states of the task state machine.
#[derive(Debug, Clone, Copy, PartialEq, Eq, Structural)]
pub enum TaskStatus {
    /// Waiting to be executed
    Pending,
    /// Currently being processed
    Processing,
    /// Successfully completed
    Completed,
    /// Failed but can be retried
    Failed,
    /// Moved to the dead letter queue (no more retries)
    DeadLetter,
}

/// The transitions of the task state machine: Pending to Processing;
/// Processing to Completed, Failed or DeadLetter; Failed and DeadLetter back to
/// Pending.
pub open spec fn valid_transition(from: TaskStatus, to: TaskStatus) -> bool {
    match from {
        TaskStatus::Pending => to == TaskStatus::Processing,
        TaskStatus::Processing => to == TaskStatus::Completed || to == TaskStatus::Failed || to
            == TaskStatus::DeadLetter,
        TaskStatus::Failed => to == TaskStatus::Pending,
        TaskStatus::DeadLetter => to == TaskStatus::Pending,
        TaskStatus::Completed => false,
    }
}

impl TaskStatus {
    /// Whether the state machine allows a move from this status to `target`.
    pub fn can_transition_to(&self, target: TaskStatus) -> (b: bool)
        ensures
            b == valid_transition(*self, target),
    {
        match self {
            TaskStatus::Pending => target == TaskStatus::Processing,
            TaskStatus::Processing => target == TaskStatus::Completed || target
                == TaskStatus::Failed || target == TaskStatus::DeadLetter,
            TaskStatus::Failed => target == TaskStatus::Pending,
            TaskStatus::DeadLetter => target == TaskStatus::Pending,
            TaskStatus::Completed => false,
        }
    }
}

/// Errors that can occur during indexing operations.
#[derive(Debug)]
pub enum IndexError {
    FileNotFound { path: String },
    FileLocked { path: String },
    UnsupportedFileType { extension: String },
    ContentExtractionFailed { reason: String },
    EmbeddingFailed { reason: String },
    StorageFailed { reason: String },
    IoError { reason: String },
    Timeout,
    TaskNotFound { task_id: u128 },
    IndexCorrupted { reason: String },
    QueueFull,
    InvalidStateTransition { from: TaskStatus, to: TaskStatus },
}

impl Clone for IndexError {
    fn clone(&self) -> (r: Self)
        ensures
            r == *self,
    {
        match self {
            IndexError::FileNotFound { path } => IndexError::FileNotFound { path: path.clone() },
            IndexError::FileLocked { path } => IndexError::FileLocked { path: path.clone() },
            IndexError::UnsupportedFileType { extension } => IndexError::UnsupportedFileType {
                extension: extension.clone(),
            },
            IndexError::ContentExtractionFailed { reason } =>
                IndexError::ContentExtractionFailed { reason: reason.clone() },
            IndexError::EmbeddingFailed { reason } => IndexError::EmbeddingFailed {
                reason: reason.clone(),
            },
            IndexError::StorageFailed { reason } => IndexError::StorageFailed {
                reason: reason.clone(),
            },
            IndexError::IoError { reason } => IndexError::IoError { reason: reason.clone() },
            IndexError::Timeout => IndexError::Timeout,
            IndexError::TaskNotFound { task_id } => IndexError::TaskNotFound { task_id: *task_id },
            IndexError::IndexCorrupted { reason } => IndexError::IndexCorrupted {
                reason: reason.clone(),
            },
            IndexError::QueueFull => IndexError::QueueFull,
            IndexError::InvalidStateTransition { from, to } =>
                IndexError::InvalidStateTransition { from: *from, to: *to },
        }
    }
}

/// The retryable indexing errors: lock, I/O, timeout, storage and embedding
/// failures.
pub open spec fn index_error_retryable(e: IndexError) -> bool {
    match e {
        IndexError::FileLocked { .. } => true,
        IndexError::IoError { .. } => true,
        IndexError::Timeout => true,
        IndexError::StorageFailed { .. } => true,
        IndexError::EmbeddingFailed { .. } => true,
        _ => false,
    }
}

/// The statistics key of an error: the name of its variant.
pub open spec fn error_key(e: IndexError) -> Seq<char> {
    match e {
        IndexError::FileNotFound { .. } => "FileNotFound"@,
        IndexError::FileLocked { .. } => "FileLocked"@,
        IndexError::UnsupportedFileType { .. } => "UnsupportedFileType"@,
        IndexError::ContentExtractionFailed { .. } => "ContentExtractionFailed"@,
        IndexError::EmbeddingFailed { .. } => "EmbeddingFailed"@,
        IndexError::StorageFailed { .. } => "StorageFailed"@,
        IndexError::IoError { .. } => "IoError"@,
        IndexError::Timeout => "Timeout"@,
        IndexError::TaskNotFound { .. } => "TaskNotFound"@,
        IndexError::IndexCorrupted { .. } => "IndexCorrupted"@,
        IndexError::QueueFull => "QueueFull"@,
        IndexError::InvalidStateTransition { .. } => "InvalidStateTransition"@,
    }
}

impl IndexError {
    /// Whether this error is retryable.
    pub fn is_retryable(&self) -> (b: bool)
        ensures
            b == index_error_retryable(*self),
    {
        match self {
            IndexError::FileLocked { .. } => true,
            IndexError::IoError { .. } => true,
            IndexError::Timeout => true,
            IndexError::StorageFailed { .. } => true,
            IndexError::EmbeddingFailed { .. } => true,
            _ => false,
        }
    }

    /// Whether this is a file lock error.
    pub fn is_file_locked(&self) -> (b: bool)
        ensures
            b == (*self is FileLocked),
    {
        match self {
            IndexError::FileLocked { .. } => true,
            _ => false,
        }
    }
}

/// The statistics key of an error: the name of its variant.
pub fn error_type_key(error: &IndexError) -> (r: String)
    ensures
        r@ == error_key(*error),
{
    match error {
        IndexError::FileNotFound { .. } => "FileNotFound".to_owned(),
        IndexError::FileLocked { .. } => "FileLocked".to_owned(),
        IndexError::UnsupportedFileType { .. } => "UnsupportedFileType".to_owned(),
        IndexError::ContentExtractionFailed { .. } => "ContentExtractionFailed".to_owned(),
        IndexError::EmbeddingFailed { .. } => "EmbeddingFailed".to_owned(),
        IndexError::StorageFailed { .. } => "StorageFailed".to_owned(),
        IndexError::IoError { .. } => "IoError".to_owned(),
        IndexError::Timeout => "Timeout".to_owned(),
        IndexError::TaskNotFound { .. } => "TaskNotFound".to_owned(),
        IndexError::IndexCorrupted { .. } => "IndexCorrupted".to_owned(),
        IndexError::QueueFull => "QueueFull".to_owned(),
        IndexError::InvalidStateTransition { .. } => "InvalidStateTransition".to_owned(),
    }
}

/// An index task with its retry bookkeeping.
#[derive(Debug)]
pub struct IndexTask {
    /// Task unique identifier
    pub id: u128,
    /// File unique identifier
    pub file_id: u128,
    /// File path to index
    pub path: String,
    /// Task priority
    pub priority: TaskPriority,
    /// Task creation time (milliseconds)
    pub created_at: u64,
    /// Number of retry attempts
    pub retry_count: u32,
    /// Maximum retry attempts before moving to dead letter
    pub max_retries: u32,
    /// Next retry time in milliseconds (None means execute immediately)
    pub next_retry_at: Option<u64>,
    /// Last error that caused failure
    pub last_error: Option<IndexError>,
    /// Current task status
    pub status: TaskStatus,
}

impl Clone for IndexTask {
    fn clone(&self) -> (r: Self)
        ensures
            r == *self,
    {
        IndexTask {
            id: self.id,
            file_id: self.file_id,
            path: self.path.clone(),
            priority: self.priority,
            created_at: self.created_at,
            retry_count: self.retry_count,
            max_retries: self.max_retries,
            next_retry_at: self.next_retry_at,
            last_error: match &self.last_error {
                Some(e) => Some(e.clone()),
                None => None,
            },
            status: self.status,
        }
    }
}

/// A task after a failure: its retry count is one higher and the error is
/// recorded; once the count reaches the maximum it is dead-lettered, otherwise
/// it is failed and scheduled `delay_ms` after `now`.
pub open spec fn failed_task(t: IndexTask, error: IndexError, now: u64, delay_ms: u64) -> IndexTask {
    let count = (t.retry_count + 1) as u32;
    if count >= t.max_retries {
        IndexTask {
            retry_count: count,
            last_error: Some(error),
            status: TaskStatus::DeadLetter,
            ..t
        }
    } else {
        IndexTask {
            retry_count: count,
            last_error: Some(error),
            status: TaskStatus::Failed,
            next_retry_at: Some((now + delay_ms) as u64),
            ..t
        }
    }
}

/// A task made ready for a fresh round of retries.
pub open spec fn reset_task(t: IndexTask) -> IndexTask {
    IndexTask {
        retry_count: 0,
        status: TaskStatus::Pending,
        next_retry_at: None,
        last_error: None,
        ..t
    }
}

/// Whether a task may run at time `now`: pending tasks may, failed tasks may
/// once their retry time has come (or when none is set), others may not.
pub open spec fn task_ready(t: IndexTask, now: u64) -> bool {
    match t.status {
        TaskStatus::Pending => true,
        TaskStatus::Failed => match t.next_retry_at {
            Some(at) => now >= at,
            None => true,
        },
        _ => false,
    }
}

/// The default number of retries of a new task.
pub const DEFAULT_MAX_RETRIES: u32 = 5;

/// The milliseconds in `secs` seconds.
pub open spec fn secs_to_ms(secs: u64) -> int {
    secs * 1000
}

impl IndexTask {
    /// A new pending task with the given identifier and creation time.
    pub fn new_at(id: u128, file_id: u128, path: String, priority: TaskPriority, created_at: u64) -> (t: Self)
        ensures
            t == (IndexTask {
                id,
                file_id,
                path,
                priority,
                created_at,
                retry_count: 0,
                max_retries: DEFAULT_MAX_RETRIES,
                next_retry_at: None,
                last_error: None,
                status: TaskStatus::Pending,
            }),
    {
        IndexTask {
            id,
            file_id,
            path,
            priority,
            created_at,
            retry_count: 0,
            max_retries: DEFAULT_MAX_RETRIES,
            next_retry_at: None,
            last_error: None,
            status: TaskStatus::Pending,
        }
    }

    /// A new pending task with a fresh identifier, created now.
    pub fn new(file_id: u128, path: String, priority: TaskPriority) -> (t: Self)
        ensures
            t.file_id == file_id,
            t.path == path,
            t.priority == priority,
            t.retry_count == 0,
            t.max_retries == DEFAULT_MAX_RETRIES,
            t.next_retry_at is None,
            t.last_error is None,
            t.status == TaskStatus::Pending,
    {
        let id = new_uuid_v7();
        let now = now_millis_u64();
        Self::new_at(id, file_id, path, priority, now)
    }

    /// A new task, created now, with a custom retry limit.
    pub fn with_max_retries(file_id: u128, path: String, priority: TaskPriority, max_retries: u32) -> (t: Self)
        ensures
            t.file_id == file_id,
            t.path == path,
            t.priority == priority,
            t.retry_count == 0,
            t.max_retries == max_retries,
            t.next_retry_at is None,
            t.last_error is None,
            t.status == TaskStatus::Pending,
    {
        let mut task = Self::new(file_id, path, priority);
        task.max_retries = max_retries;
        task
    }

    /// Records a failure at `now`; a task that is not dead-lettered is retried
    /// `delay_ms` later.
    pub fn mark_failed_at(&mut self, error: IndexError, now: u64, delay_ms: u64)
        requires
            old(self).retry_count < u32::MAX,
            now + delay_ms <= u64::MAX,
        ensures
            *final(self) == failed_task(*old(self), error, now, delay_ms),
    {
        self.retry_count = self.retry_count + 1;
        self.last_error = Some(error);
        if self.retry_count >= self.max_retries {
            self.status = TaskStatus::DeadLetter;
        } else {
            self.status = TaskStatus::Failed;
            self.next_retry_at = Some(now + delay_ms);
        }
    }

    /// Records a file-lock failure at `now`: a task that is not dead-lettered
    /// is retried after the fixed `lock_retry_secs`, not after the exponential
    /// backoff.
    pub fn mark_failed_file_locked_at(&mut self, error: IndexError, lock_retry_secs: u64, now: u64)
        requires
            old(self).retry_count < u32::MAX,
            now + secs_to_ms(lock_retry_secs) <= u64::MAX,
        ensures
            *final(self) == failed_task(*old(self), error, now, secs_to_ms(lock_retry_secs) as u64),
    {
        let delay = lock_retry_secs * 1000;
        self.mark_failed_at(error, now, delay);
    }

    /// Records a file-lock failure now (see `mark_failed_file_locked_at`).
    pub fn mark_failed_file_locked(&mut self, error: IndexError, lock_retry_secs: u64)
        requires
            old(self).retry_count < u32::MAX,
            secs_to_ms(lock_retry_secs) <= u64::MAX - i64::MAX,
        ensures
            exists|now: u64|
                #![trigger failed_task(*old(self), error, now, secs_to_ms(lock_retry_secs) as u64)]
                *final(self) == failed_task(*old(self), error, now, secs_to_ms(lock_retry_secs) as u64),
    {
        let now = now_millis_u64();
        self.mark_failed_file_locked_at(error, lock_retry_secs, now);
    }

    /// Records a failure now; a task that is not dead-lettered is retried
    /// `delay_ms` later (the exponential backoff with jitter, which the
    /// caller draws).
    pub fn mark_failed(&mut self, error: IndexError, delay_ms: u64)
        requires
            old(self).retry_count < u32::MAX,
            delay_ms <= u64::MAX - i64::MAX,
        ensures
            exists|now: u64|
                #![trigger failed_task(*old(self), error, now, delay_ms)]
                *final(self) == failed_task(*old(self), error, now, delay_ms),
    {
        let now = now_millis_u64();
        self.mark_failed_at(error, now, delay_ms);
    }

    /// Whether the task may run at `now`.
    pub fn is_ready_at(&self, now: u64) -> (b: bool)
        ensures
            b == task_ready(*self, now),
    {
        match self.status {
            TaskStatus::Pending => true,
            TaskStatus::Failed => match self.next_retry_at {
                Some(at) => now >= at,
                None => true,
            },
            _ => false,
        }
    }

    /// Whether the task may run now.
    pub fn is_ready(&self) -> (b: bool)
        ensures
            self.status == TaskStatus::Pending ==> b,
            !(self.status == TaskStatus::Pending || self.status == TaskStatus::Failed) ==> !b,
            (self.status == TaskStatus::Failed && self.next_retry_at is None) ==> b,
    {
        let now = now_millis_u64();
        self.is_ready_at(now)
    }

    /// Resets the task for a new round of retries (from the dead letter queue).
    pub fn reset_for_retry(&mut self)
        ensures
            *final(self) == reset_task(*old(self)),
    {
        self.retry_count = 0;
        self.status = TaskStatus::Pending;
        self.next_retry_at = None;
        self.last_error = None;
    }

    /// Moves to `new_status` when the state machine allows it; otherwise the
    /// task is unchanged and the error names both statuses.
    pub fn transition_to(&mut self, new_status: TaskStatus) -> (r: Result<(), IndexError>)
        ensures
            r is Ok <==> valid_transition(old(self).status, new_status),
            r is Ok ==> *final(self) == (IndexTask { status: new_status, ..*old(self) }),
            r is Err ==> *final(self) == *old(self) && r == Err::<(), IndexError>(
                IndexError::InvalidStateTransition { from: old(self).status, to: new_status },
            ),
    {
        if self.status.can_transition_to(new_status) {
            self.status = new_status;
            Ok(())
        } else {
            Err(IndexError::InvalidStateTransition { from: self.status, to: new_status })
        }
    }
}

/// The base retry delay in seconds for the `retry_count`-th retry: 2 to the
/// power of the count, capped at 16 seconds (count 4).
pub open spec fn backoff_base_secs(retry_count: u32) -> int {
    if retry_count >= 4 {
        16
    } else {
        vstd::arithmetic::power2::pow2(retry_count as nat) as int
    }
}

/// The base of the exponential backoff before jitter: 1, 2, 4, 8 and then 16
/// seconds.
pub fn retry_base_delay_secs(retry_count: u32) -> (r: u64)
    ensures
        r == backoff_base_secs(retry_count),
        1 <= r <= 16,
{
    proof {
        vstd::arithmetic::power2::lemma2_to64();
    }
    if retry_count >= 4 {
        16
    } else if retry_count == 3 {
        8
    } else if retry_count == 2 {
        4
    } else if retry_count == 1 {
        2
    } else {
        1
    }
}

/// Retry policy for different error types.
#[derive(Debug, Clone)]
pub struct RetryPolicy {
    /// Maximum number of retries
    pub max_retries: u32,
    /// Base delay for exponential backoff (milliseconds)
    pub base_delay_ms: u64,
    /// Maximum delay cap (milliseconds)
    pub max_delay_ms: u64,
    /// Fixed delay for file lock errors (milliseconds)
    pub file_lock_delay_ms: u64,
    /// Whether to use jitter
    pub use_jitter: bool,
}

impl Default for RetryPolicy {
    fn default() -> (p: Self)
        ensures
            p.max_retries == 5,
            p.base_delay_ms == 1000,
            p.max_delay_ms == 16000,
            p.file_lock_delay_ms == 5000,
            p.use_jitter,
    {
        RetryPolicy {
            max_retries: 5,
            base_delay_ms: 1000,
            max_delay_ms: 16000,
            file_lock_delay_ms: 5000,
            use_jitter: true,
        }
    }
}

/// The exponential delay before jitter: the base delay times 2 to the power
/// of the retry count (the count capped at 10), saturating at `u64::MAX`, then
/// capped at the maximum delay.
pub open spec fn capped_exponential_ms(p: RetryPolicy, retry_count: u32) -> int {
    let m = vstd::arithmetic::power2::pow2(if retry_count > 10 { 10nat } else { retry_count as nat });
    let d = if p.base_delay_ms * m > u64::MAX { u64::MAX as int } else { p.base_delay_ms * m };
    if d > p.max_delay_ms { p.max_delay_ms as int } else { d }
}

impl RetryPolicy {
    /// The delay before jitter for a retry: the fixed file-lock delay for a
    /// file lock error, otherwise the capped exponential delay.
    pub fn calculate_base_delay_ms(&self, retry_count: u32, error: &IndexError) -> (r: u64)
        ensures
            error is FileLocked ==> r == self.file_lock_delay_ms,
            !(error is FileLocked) ==> r == capped_exponential_ms(*self, retry_count),
    {
        if error.is_file_locked() {
            self.file_lock_delay_ms
        } else {
            self.capped_exponential_delay_ms(retry_count)
        }
    }

    /// The capped exponential delay for a retry count, before jitter.
    pub fn capped_exponential_delay_ms(&self, retry_count: u32) -> (r: u64)
        ensures
            r == capped_exponential_ms(*self, retry_count),
            r <= self.max_delay_ms,
    {
        let c: u32 = if retry_count > 10 { 10 } else { retry_count };
        let mut multiplier: u64 = 1;
        let mut i: u32 = 0;
        proof {
            vstd::arithmetic::power2::lemma2_to64();
        }
        while i < c
            invariant
                i <= c <= 10,
                multiplier == vstd::arithmetic::power2::pow2(i as nat),
            decreases c - i,
        {
            proof {
                vstd::arithmetic::power2::lemma_pow2_adds(i as nat, 1);
                vstd::arithmetic::power2::lemma2_to64();
                vstd::arithmetic::power2::lemma_pow2_strictly_increases(i as nat, 10);
            }
            multiplier = multiplier * 2;
            i = i + 1;
        }
        let delay = match self.base_delay_ms.checked_mul(multiplier) {
            Some(d) => d,
            None => u64::MAX,
        };
        if delay > self.max_delay_ms {
            self.max_delay_ms
        } else {
            delay
        }
    }

    /// Whether another retry should be attempted: below the retry limit and for
    /// a retryable error.
    pub fn should_retry(&self, retry_count: u32, error: &IndexError) -> (b: bool)
        ensures
            b == (retry_count < self.max_retries && index_error_retryable(*error)),
    {
        retry_count < self.max_retries && error.is_retryable()
    }
}

/// Configuration for the resilient batch indexer.
#[derive(Debug, Clone)]
pub struct IndexerConfig {
    /// Number of tasks to process in a batch
    pub batch_size: usize,
    /// Maximum concurrent tasks
    pub max_concurrent: usize,
    /// Task timeout in seconds
    pub task_timeout_secs: u64,
    /// Maximum size of dead letter queue
    pub dead_letter_max_size: usize,
    /// Fixed retry interval for file lock errors (seconds)
    pub file_lock_retry_secs: u64,
}

impl Default for IndexerConfig {
    fn default() -> (c: Self)
        ensures
            c.batch_size == 10,
            c.max_concurrent == 4,
            c.task_timeout_secs == 60,
            c.dead_letter_max_size == 1000,
            c.file_lock_retry_secs == 5,
    {
        IndexerConfig {
            batch_size: 10,
            max_concurrent: 4,
            task_timeout_secs: 60,
            dead_letter_max_size: 1000,
            file_lock_retry_secs: 5,
        }
    }
}

/// Counters of the indexer.
#[derive(Debug, Default)]
pub struct IndexerStats {
    /// Total tasks successfully processed
    pub total_processed: u64,
    /// Total tasks that failed (but may have been retried)
    pub total_failed: u64,
    /// Total tasks moved to dead letter queue
    pub total_dead_letter: u64,
    /// Current pending queue size
    pub current_queue_size: u64,
    /// Current dead letter queue size
    pub current_dead_letter_size: u64,
}

/// A copy of the indexer counters.
#[derive(Debug, Clone, PartialEq, Eq, Structural)]
pub struct IndexerStatsSnapshot {
    pub total_processed: u64,
    pub total_failed: u64,
    pub total_dead_letter: u64,
    pub current_queue_size: u64,
    pub current_dead_letter_size: u64,
}

impl IndexerStats {
    /// Counters that all start at zero.
    pub fn zero() -> (s: Self)
        ensures
            s.total_processed == 0,
            s.total_failed == 0,
            s.total_dead_letter == 0,
            s.current_queue_size == 0,
            s.current_dead_letter_size == 0,
    {
        IndexerStats {
            total_processed: 0,
            total_failed: 0,
            total_dead_letter: 0,
            current_queue_size: 0,
            current_dead_letter_size: 0,
        }
    }

    /// A snapshot of the current counters.
    pub fn snapshot(&self) -> (s: IndexerStatsSnapshot)
        ensures
            s.total_processed == self.total_processed,
            s.total_failed == self.total_failed,
            s.total_dead_letter == self.total_dead_letter,
            s.current_queue_size == self.current_queue_size,
            s.current_dead_letter_size == self.current_dead_letter_size,
    {
        IndexerStatsSnapshot {
            total_processed: self.total_processed,
            total_failed: self.total_failed,
            total_dead_letter: self.total_dead_letter,
            current_queue_size: self.current_queue_size,
            current_dead_letter_size: self.current_dead_letter_size,
        }
    }
}

/// Whether retry time `a` comes before `b`: no time before any time, and
/// earlier times first.
pub open spec fn retry_time_before(a: Option<u64>, b: Option<u64>) -> bool {
    match (a, b) {
        (None, Some(_)) => true,
        (Some(x), Some(y)) => x < y,
        _ => false,
    }
}

/// The queue order: higher priority first; at equal priority the earlier
/// retry time first.
pub open spec fn task_precedes(a: IndexTask, b: IndexTask) -> bool {
    ||| a.priority.rank() > b.priority.rank()
    ||| (a.priority.rank() == b.priority.rank() && retry_time_before(a.next_retry_at, b.next_retry_at))
}

/// `x` inserted into `s` before the first task that it precedes.
pub open spec fn insert_in_order(s: Seq<IndexTask>, x: IndexTask) -> Seq<IndexTask>
    decreases s.len(),
{
    if s.len() == 0 {
        seq![x]
    } else if task_precedes(x, s[0]) {
        seq![x] + s
    } else {
        seq![s[0]] + insert_in_order(s.drop_first(), x)
    }
}

/// The tasks in queue order; tasks that neither precedes keep their relative
/// order (a stable sort).
pub open spec fn sort_tasks(s: Seq<IndexTask>) -> Seq<IndexTask>
    decreases s.len(),
{
    if s.len() == 0 {
        Seq::empty()
    } else {
        insert_in_order(sort_tasks(s.drop_last()), s.last())
    }
}

/// A sequence in queue order: no task precedes one that comes before it.
pub open spec fn in_queue_order(s: Seq<IndexTask>) -> bool {
    forall|i: int, j: int| 0 <= i < j < s.len() ==> !task_precedes(#[trigger] s[j], #[trigger] s[i])
}

/// The split of ordered tasks into a batch and the rest: each task in turn
/// joins the batch when it is ready at `now` and the batch holds fewer than
/// `cap` tasks; otherwise it stays queued. Both keep the given order.
pub open spec fn select_ready(s: Seq<IndexTask>, now: u64, cap: nat) -> (Seq<IndexTask>, Seq<IndexTask>)
    decreases s.len(),
{
    if s.len() == 0 {
        (Seq::empty(), Seq::empty())
    } else {
        let (b, q) = select_ready(s.drop_last(), now, cap);
        let t = s.last();
        if task_ready(t, now) && b.len() < cap {
            (b.push(t), q)
        } else {
            (b, q.push(t))
        }
    }
}

/// The dead letter queue after adding `t` with room for `max` tasks: the
/// oldest tasks are dropped until there is room, then `t` is appended.
pub open spec fn bounded_push(s: Seq<IndexTask>, t: IndexTask, max: nat) -> Seq<IndexTask> {
    if s.len() >= max {
        s.skip(s.len() - max + 1).push(t)
    } else {
        s.push(t)
    }
}

/// The position of the first task with identifier `id`, or -1 when none has it.
pub open spec fn index_of_id(s: Seq<IndexTask>, id: u128) -> int
    decreases s.len(),
{
    if s.len() == 0 {
        -1
    } else if s[0].id == id {
        0
    } else {
        let r = index_of_id(s.drop_first(), id);
        if r < 0 { -1 } else { r + 1 }
    }
}

proof fn lemma_index_of_id(s: Seq<IndexTask>, id: u128)
    ensures
        -1 <= index_of_id(s, id) < s.len(),
        index_of_id(s, id) >= 0 ==> s[index_of_id(s, id)].id == id,
        index_of_id(s, id) >= 0 ==> forall|k: int| 0 <= k < index_of_id(s, id) ==> s[k].id != id,
        index_of_id(s, id) < 0 ==> forall|k: int| 0 <= k < s.len() ==> s[k].id != id,
    decreases s.len(),
{
    if s.len() > 0 {
        lemma_index_of_id(s.drop_first(), id);
        if s[0].id != id {
            assert forall|k: int| 1 <= k < s.len() implies s[k] == s.drop_first()[k - 1] by {}
        }
    }
}

/// Inserting before the first task that `x` precedes is `insert_in_order`.
proof fn lemma_insert_at_first(s: Seq<IndexTask>, x: IndexTask, p: int)
    requires
        0 <= p <= s.len(),
        forall|k: int| 0 <= k < p ==> !task_precedes(x, #[trigger] s[k]),
        p < s.len() ==> task_precedes(x, s[p]),
    ensures
        insert_in_order(s, x) == s.insert(p, x),
    decreases s.len(),
{
    if s.len() == 0 {
        assert(s.insert(p, x) =~= seq![x]);
    } else if p == 0 {
        assert(s.insert(0, x) =~= seq![x] + s);
    } else {
        let t = s.drop_first();
        assert forall|k: int| 0 <= k < p - 1 implies !task_precedes(x, #[trigger] t[k]) by {
            assert(t[k] == s[k + 1]);
        }
        lemma_insert_at_first(t, x, p - 1);
        assert(seq![s[0]] + t.insert(p - 1, x) =~= s.insert(p, x));
    }
}

/// Whether `a` precedes `b` in the queue order.
pub fn precedes(a: &IndexTask, b: &IndexTask) -> (r: bool)
    ensures
        r == task_precedes(*a, *b),
{
    let ra = a.priority.level();
    let rb = b.priority.level();
    if ra > rb {
        true
    } else if ra < rb {
        false
    } else {
        match (a.next_retry_at, b.next_retry_at) {
            (None, Some(_)) => true,
            (Some(x), Some(y)) => x < y,
            _ => false,
        }
    }
}

/// The tasks in queue order (a stable insertion sort).
pub fn sort_by_queue_order(tasks: Vec<IndexTask>) -> (r: Vec<IndexTask>)
    ensures
        r@ == sort_tasks(tasks@),
{
    let mut sorted: Vec<IndexTask> = Vec::new();
    let mut i: usize = 0;
    while i < tasks.len()
        invariant
            i <= tasks@.len(),
            sorted@ == sort_tasks(tasks@.take(i as int)),
        decreases tasks@.len() - i,
    {
        let x = tasks[i].clone();
        proof {
            assert(tasks@.take(i + 1).drop_last() =~= tasks@.take(i as int));
        }
        let mut p: usize = 0;
        while p < sorted.len()
            invariant
                p <= sorted@.len(),
                forall|k: int| 0 <= k < p ==> !task_precedes(x, #[trigger] sorted@[k]),
            ensures
                p <= sorted@.len(),
                forall|k: int| 0 <= k < p ==> !task_precedes(x, #[trigger] sorted@[k]),
                p < sorted@.len() ==> task_precedes(x, sorted@[p as int]),
            decreases sorted@.len() - p,
        {
            if precedes(&x, &sorted[p]) {
                break;
            }
            p = p + 1;
        }
        proof {
            lemma_insert_at_first(sorted@, x, p as int);
        }
        sorted.insert(p, x);
        i = i + 1;
    }
    proof {
        assert(tasks@.take(tasks@.len() as int) =~= tasks@);
    }
    sorted
}

/// Resilient batch indexer with retry mechanism and dead letter queue.
pub struct ResilientBatchIndexer {
    /// Pending task queue
    pending_queue: Vec<IndexTask>,
    /// Dead letter queue for tasks that exceeded max retries
    dead_letter_queue: Vec<IndexTask>,
    /// Configuration
    config: IndexerConfig,
    /// Statistics
    stats: IndexerStats,
    /// Shutdown flag
    shutdown: bool,
}

impl ResilientBatchIndexer {
    /// The indexer's standing facts: the dead letter queue holds at most its
    /// configured number of tasks, and the size counters equal the queue
    /// lengths.
    pub open spec fn well_formed(&self) -> bool {
        &&& self.dead_letters().len() <= self.spec_config().dead_letter_max_size
        &&& self.spec_stats().current_queue_size == self.pending().len()
        &&& self.spec_stats().current_dead_letter_size == self.dead_letters().len()
    }

    /// The pending tasks, oldest first.
    pub closed spec fn pending(&self) -> Seq<IndexTask> {
        self.pending_queue@
    }

    /// The dead-lettered tasks, oldest first.
    pub closed spec fn dead_letters(&self) -> Seq<IndexTask> {
        self.dead_letter_queue@
    }

    /// The configuration.
    pub closed spec fn spec_config(&self) -> IndexerConfig {
        self.config
    }

    /// The counters.
    pub closed spec fn spec_stats(&self) -> IndexerStats {
        self.stats
    }

    /// Whether shutdown was requested.
    pub closed spec fn spec_shutdown(&self) -> bool {
        self.shutdown
    }

    /// A new indexer with empty queues and zero counters.
    pub fn new(config: IndexerConfig) -> (r: Self)
        ensures
            r.well_formed(),
            r.pending() == Seq::<IndexTask>::empty(),
            r.dead_letters() == Seq::<IndexTask>::empty(),
            r.spec_config() == config,
            r.spec_stats() == IndexerStats::zero_spec(),
            !r.spec_shutdown(),
    {
        ResilientBatchIndexer {
            pending_queue: Vec::new(),
            dead_letter_queue: Vec::new(),
            config,
            stats: IndexerStats::zero(),
            shutdown: false,
        }
    }

    /// A new indexer with the default configuration.
    pub fn with_defaults() -> (r: Self)
        ensures
            r.well_formed(),
            r.pending() == Seq::<IndexTask>::empty(),
            r.dead_letters() == Seq::<IndexTask>::empty(),
            r.spec_config().batch_size == 10,
            r.spec_config().max_concurrent == 4,
            r.spec_config().task_timeout_secs == 60,
            r.spec_config().dead_letter_max_size == 1000,
            r.spec_config().file_lock_retry_secs == 5,
            r.spec_stats() == IndexerStats::zero_spec(),
            !r.spec_shutdown(),
    {
        Self::new(IndexerConfig::default())
    }

    /// The configuration.
    pub fn config(&self) -> (c: &IndexerConfig)
        ensures
            *c == self.spec_config(),
    {
        &self.config
    }

    /// The counters.
    pub fn stats(&self) -> (s: &IndexerStats)
        ensures
            *s == self.spec_stats(),
    {
        &self.stats
    }

    /// Queues a task for indexing.
    pub fn submit(&mut self, task: IndexTask) -> (r: Result<(), IndexError>)
        requires
            old(self).well_formed(),
        ensures
            final(self).well_formed(),
            r is Ok,
            final(self).pending() == old(self).pending().push(task),
            final(self).dead_letters() == old(self).dead_letters(),
            final(self).spec_config() == old(self).spec_config(),
            final(self).spec_stats() == (IndexerStats {
                current_queue_size: final(self).pending().len() as u64,
                ..old(self).spec_stats()
            }),
            final(self).spec_shutdown() == old(self).spec_shutdown(),
    {
        self.pending_queue.push(task);
        self.stats.current_queue_size = self.pending_queue.len() as u64;
        Ok(())
    }

    /// Queues several tasks, in order.
    pub fn submit_batch(&mut self, tasks: Vec<IndexTask>) -> (r: Result<(), IndexError>)
        requires
            old(self).well_formed(),
        ensures
            final(self).well_formed(),
            r is Ok,
            final(self).pending() == old(self).pending() + tasks@,
            final(self).dead_letters() == old(self).dead_letters(),
            final(self).spec_config() == old(self).spec_config(),
            final(self).spec_stats() == (IndexerStats {
                current_queue_size: final(self).pending().len() as u64,
                ..old(self).spec_stats()
            }),
            final(self).spec_shutdown() == old(self).spec_shutdown(),
    {
        let mut tasks = tasks;
        self.pending_queue.append(&mut tasks);
        self.stats.current_queue_size = self.pending_queue.len() as u64;
        Ok(())
    }

    /// The number of pending tasks.
    pub fn pending_count(&self) -> (n: usize)
        ensures
            n == self.pending().len(),
    {
        self.pending_queue.len()
    }

    /// The number of dead-lettered tasks.
    pub fn dead_letter_count(&self) -> (n: usize)
        ensures
            n == self.dead_letters().len(),
    {
        self.dead_letter_queue.len()
    }

    /// Takes the tasks that may run at `now`: the queue is put in queue order
    /// (priority, then retry time), the first `batch_size` ready tasks form the
    /// batch and the others stay queued in that order.
    pub fn collect_ready_tasks_at(&mut self, now: u64) -> (batch: Vec<IndexTask>)
        requires
            old(self).well_formed(),
        ensures
            final(self).well_formed(),
            (batch@, final(self).pending()) == select_ready(
                sort_tasks(old(self).pending()),
                now,
                old(self).spec_config().batch_size as nat,
            ),
            final(self).dead_letters() == old(self).dead_letters(),
            final(self).spec_config() == old(self).spec_config(),
            final(self).spec_stats() == (IndexerStats {
                current_queue_size: final(self).pending().len() as u64,
                ..old(self).spec_stats()
            }),
            final(self).spec_shutdown() == old(self).spec_shutdown(),
    {
        let mut drained: Vec<IndexTask> = Vec::new();
        std::mem::swap(&mut drained, &mut self.pending_queue);
        let tasks = sort_by_queue_order(drained);
        let mut batch: Vec<IndexTask> = Vec::new();
        let mut queue: Vec<IndexTask> = Vec::new();
        let cap = self.config.batch_size;
        let mut i: usize = 0;
        while i < tasks.len()
            invariant
                i <= tasks@.len(),
                (batch@, queue@) == select_ready(tasks@.take(i as int), now, cap as nat),
            decreases tasks@.len() - i,
        {
            let t = tasks[i].clone();
            proof {
                assert(tasks@.take(i + 1).drop_last() =~= tasks@.take(i as int));
            }
            if t.is_ready_at(now) && batch.len() < cap {
                batch.push(t);
            } else {
                queue.push(t);
            }
            i = i + 1;
        }
        proof {
            assert(tasks@.take(tasks@.len() as int) =~= tasks@);
        }
        self.pending_queue = queue;
        self.stats.current_queue_size = self.pending_queue.len() as u64;
        batch
    }

    /// Takes the tasks that may run now (see `collect_ready_tasks_at`).
    pub fn collect_ready_tasks(&mut self) -> (batch: Vec<IndexTask>)
        requires
            old(self).well_formed(),
        ensures
            final(self).well_formed(),
            exists|now: u64|
                #![trigger select_ready(sort_tasks(old(self).pending()), now, old(self).spec_config().batch_size as nat)]
                (batch@, final(self).pending()) == select_ready(
                    sort_tasks(old(self).pending()),
                    now,
                    old(self).spec_config().batch_size as nat,
                ),
            final(self).dead_letters() == old(self).dead_letters(),
            final(self).spec_config() == old(self).spec_config(),
            final(self).spec_shutdown() == old(self).spec_shutdown(),
    {
        let now = now_millis_u64();
        self.collect_ready_tasks_at(now)
    }

    /// Counts a successful task.
    pub fn handle_success(&mut self, task: IndexTask)
        requires
            old(self).well_formed(),
        ensures
            final(self).well_formed(),
            final(self).pending() == old(self).pending(),
            final(self).dead_letters() == old(self).dead_letters(),
            final(self).spec_config() == old(self).spec_config(),
            final(self).spec_stats() == (IndexerStats {
                total_processed: old(self).spec_stats().total_processed.wrapping_add(1),
                ..old(self).spec_stats()
            }),
            final(self).spec_shutdown() == old(self).spec_shutdown(),
    {
        self.stats.total_processed = self.stats.total_processed.wrapping_add(1);
    }

    /// Adds a task to the dead letter queue, dropping the oldest tasks while
    /// the queue is full.
    fn move_to_dead_letter(&mut self, task: IndexTask)
        requires
            old(self).config.dead_letter_max_size > 0,
        ensures
            final(self).dead_letter_queue@ == bounded_push(
                old(self).dead_letter_queue@,
                task,
                old(self).config.dead_letter_max_size as nat,
            ),
            final(self).dead_letter_queue@.len() <= old(self).config.dead_letter_max_size,
            final(self).pending_queue == old(self).pending_queue,
            final(self).config == old(self).config,
            final(self).stats == (IndexerStats {
                current_dead_letter_size: final(self).dead_letter_queue@.len() as u64,
                ..old(self).stats
            }),
            final(self).shutdown == old(self).shutdown,
    {
        let max = self.config.dead_letter_max_size;
        let ghost orig = self.dead_letter_queue@;
        let ghost dropped: int = 0;
        while self.dead_letter_queue.len() >= max
            invariant
                max == self.config.dead_letter_max_size,
                max > 0,
                0 <= dropped <= orig.len(),
                self.dead_letter_queue@ == orig.skip(dropped),
                orig.len() >= max ==> dropped <= orig.len() - max + 1,
                orig.len() < max ==> dropped == 0,
                self.pending_queue == old(self).pending_queue,
                self.config == old(self).config,
                self.stats == old(self).stats,
                self.shutdown == old(self).shutdown,
            decreases self.dead_letter_queue@.len(),
        {
            self.dead_letter_queue.remove(0);
            proof {
                assert(orig.skip(dropped).remove(0) =~= orig.skip(dropped + 1));
                dropped = dropped + 1;
            }
        }
        self.dead_letter_queue.push(task);
        self.stats.current_dead_letter_size = self.dead_letter_queue.len() as u64;
    }

    /// Handles a failed task at `now`. A file-lock failure is retried after
    /// the fixed `file_lock_retry_secs`; any other failure after
    /// `backoff_delay_ms` (the backoff delay for the task's next retry count).
    /// A task that reaches its retry limit goes to the dead letter queue, any
    /// other goes back to the pending queue.
    pub fn handle_failure_at(&mut self, task: IndexTask, error: IndexError, now: u64, backoff_delay_ms: u64)
        requires
            old(self).well_formed(),
            task.retry_count < u32::MAX,
            now + backoff_delay_ms <= u64::MAX,
            now + secs_to_ms(old(self).spec_config().file_lock_retry_secs) <= u64::MAX,
            old(self).spec_config().dead_letter_max_size > 0 || task.retry_count + 1 < task.max_retries,
        ensures
            final(self).well_formed(),
            failure_handled(*old(self), *final(self), task, error, now, backoff_delay_ms),
            final(self).spec_config() == old(self).spec_config(),
            final(self).spec_shutdown() == old(self).spec_shutdown(),
    {
        let mut task = task;
        if error.is_file_locked() {
            task.mark_failed_file_locked_at(error, self.config.file_lock_retry_secs, now);
        } else {
            task.mark_failed_at(error, now, backoff_delay_ms);
        }
        if task.status == TaskStatus::DeadLetter {
            self.move_to_dead_letter(task);
            self.stats.total_dead_letter = self.stats.total_dead_letter.wrapping_add(1);
        } else {
            self.pending_queue.push(task);
            self.stats.current_queue_size = self.pending_queue.len() as u64;
            self.stats.total_failed = self.stats.total_failed.wrapping_add(1);
        }
    }

    /// Handles a failed task now (see `handle_failure_at`); `backoff_delay_ms`
    /// is the backoff delay with jitter, which the caller draws.
    pub fn handle_failure(&mut self, task: IndexTask, error: IndexError, backoff_delay_ms: u64)
        requires
            old(self).well_formed(),
            task.retry_count < u32::MAX,
            backoff_delay_ms <= u64::MAX - i64::MAX,
            secs_to_ms(old(self).spec_config().file_lock_retry_secs) <= u64::MAX - i64::MAX,
            old(self).spec_config().dead_letter_max_size > 0 || task.retry_count + 1 < task.max_retries,
        ensures
            final(self).well_formed(),
            exists|now: u64|
                #![trigger failure_handled(*old(self), *final(self), task, error, now, backoff_delay_ms)]
                failure_handled(*old(self), *final(self), task, error, now, backoff_delay_ms),
            final(self).spec_config() == old(self).spec_config(),
            final(self).spec_shutdown() == old(self).spec_shutdown(),
    {
        let now = now_millis_u64();
        self.handle_failure_at(task, error, now, backoff_delay_ms);
    }
}

/// What handling a failed task at `now` does to the indexer: the task is
/// marked failed, retried after the fixed file-lock delay for a file lock and
/// after `backoff_delay_ms` otherwise; a task at its retry limit goes to the
/// dead letter queue, any other back to the pending queue; the counters follow.
pub open spec fn failure_handled(before: ResilientBatchIndexer, after: ResilientBatchIndexer, task: IndexTask, error: IndexError, now: u64, backoff_delay_ms: u64) -> bool {
    let delay = if error is FileLocked {
        secs_to_ms(before.spec_config().file_lock_retry_secs) as u64
    } else {
        backoff_delay_ms
    };
    let failed = failed_task(task, error, now, delay);
    if failed.status == TaskStatus::DeadLetter {
        &&& after.dead_letters() == bounded_push(
            before.dead_letters(),
            failed,
            before.spec_config().dead_letter_max_size as nat,
        )
        &&& after.pending() == before.pending()
        &&& after.spec_stats() == (IndexerStats {
            total_dead_letter: before.spec_stats().total_dead_letter.wrapping_add(1),
            current_dead_letter_size: after.dead_letters().len() as u64,
            ..before.spec_stats()
        })
    } else {
        &&& after.pending() == before.pending().push(failed)
        &&& after.dead_letters() == before.dead_letters()
        &&& after.spec_stats() == (IndexerStats {
            total_failed: before.spec_stats().total_failed.wrapping_add(1),
            current_queue_size: after.pending().len() as u64,
            ..before.spec_stats()
        })
    }
}

/// A run of failure handlings: `states[i + 1]` is what handling `tasks[i]`,
/// failed with `errors[i]` at `nows[i]` with backoff `delays[i]`, makes of
/// `states[i]`, and the configuration stays that of `states[0]`.
pub open spec fn failure_run(
    states: Seq<ResilientBatchIndexer>,
    tasks: Seq<IndexTask>,
    errors: Seq<IndexError>,
    nows: Seq<u64>,
    delays: Seq<u64>,
) -> bool {
    &&& states.len() == tasks.len() + 1
    &&& errors.len() == tasks.len()
    &&& nows.len() == tasks.len()
    &&& delays.len() == tasks.len()
    &&& forall|i: int|
        #![trigger tasks[i]]
        0 <= i < tasks.len() ==> failure_handled(states[i], states[i + 1], tasks[i], errors[i], nows[i], delays[i])
    &&& forall|i: int| 0 <= i < states.len() ==> #[trigger] states[i].spec_config() == states[0].spec_config()
}

/// The dead letter queue never outgrows its bound: along any run of failure
/// handlings from an indexer whose queue is within `dead_letter_max_size`
/// (at least 1), the queue stays within it after every handling.
pub proof fn lemma_dead_letters_stay_bounded(
    states: Seq<ResilientBatchIndexer>,
    tasks: Seq<IndexTask>,
    errors: Seq<IndexError>,
    nows: Seq<u64>,
    delays: Seq<u64>,
)
    requires
        failure_run(states, tasks, errors, nows, delays),
        states[0].dead_letters().len() <= states[0].spec_config().dead_letter_max_size,
        states[0].spec_config().dead_letter_max_size > 0,
    ensures
        forall|i: int|
            0 <= i < states.len() ==> #[trigger] states[i].dead_letters().len() <= states[0].spec_config().dead_letter_max_size,
    decreases tasks.len(),
{
    let m = states[0].spec_config().dead_letter_max_size;
    if tasks.len() > 0 {
        let n = tasks.len() - 1;
        let s2 = states.take(n + 1);
        let t2 = tasks.take(n);
        let e2 = errors.take(n);
        let w2 = nows.take(n);
        let d2 = delays.take(n);
        assert forall|i: int| #![trigger t2[i]] 0 <= i < t2.len() implies failure_handled(s2[i], s2[i + 1], t2[i], e2[i], w2[i], d2[i]) by {
            assert(tasks[i] == t2[i]);
        }
        assert forall|i: int| 0 <= i < s2.len() implies #[trigger] s2[i].spec_config() == s2[0].spec_config() by {
            assert(states[i].spec_config() == states[0].spec_config());
        }
        lemma_dead_letters_stay_bounded(s2, t2, e2, w2, d2);
        assert(states[n].dead_letters().len() <= m) by {
            assert(s2[n] == states[n]);
        }
        assert(failure_handled(states[n], states[n + 1], tasks[n], errors[n], nows[n], delays[n]));
        assert(states[n].spec_config() == states[0].spec_config());
        lemma_bounded_push_within_limit(
            states[n].dead_letters(),
            failed_task(
                tasks[n],
                errors[n],
                nows[n],
                if errors[n] is FileLocked {
                    secs_to_ms(states[n].spec_config().file_lock_retry_secs) as u64
                } else {
                    delays[n]
                },
            ),
            m as nat,
        );
        assert forall|i: int| 0 <= i < states.len() implies #[trigger] states[i].dead_letters().len() <= m by {
            if i <= n {
                assert(s2[i] == states[i]);
            }
        }
    }
}

impl IndexerStats {
    /// Counters that are all zero.
    pub open spec fn zero_spec() -> IndexerStats {
        IndexerStats {
            total_processed: 0,
            total_failed: 0,
            total_dead_letter: 0,
            current_queue_size: 0,
            current_dead_letter_size: 0,
        }
    }
}

/// Statistics about the dead letter queue.
#[derive(Debug, Clone)]
pub struct DeadLetterStats {
    /// Total number of tasks in the dead letter queue
    pub total_count: usize,
    /// Maximum allowed size
    pub max_size: usize,
    /// Count of tasks by error type, each type once
    pub by_error_type: Vec<(String, usize)>,
    /// Age of the oldest task (milliseconds)
    pub oldest_task_age_ms: Option<u64>,
    /// Age of the newest task (milliseconds)
    pub newest_task_age_ms: Option<u64>,
}

impl DeadLetterStats {
    /// Whether the queue is at capacity.
    pub fn is_at_capacity(&self) -> (b: bool)
        ensures
            b == (self.total_count >= self.max_size),
    {
        self.total_count >= self.max_size
    }

    /// The count recorded for an error type (0 when the type is absent).
    pub fn count_for(&self, key: &str) -> (n: usize)
        ensures
            (exists|i: int| 0 <= i < self.by_error_type@.len() && #[trigger] self.by_error_type@[i].0@ == key@)
                ==> exists|i: int|
                0 <= i < self.by_error_type@.len() && #[trigger] self.by_error_type@[i].0@ == key@
                    && self.by_error_type@[i].1 == n && forall|j: int|
                    0 <= j < i ==> self.by_error_type@[j].0@ != key@,
            (forall|i: int| 0 <= i < self.by_error_type@.len() ==> #[trigger] self.by_error_type@[i].0@ != key@)
                ==> n == 0,
    {
        let mut i: usize = 0;
        while i < self.by_error_type.len()
            invariant
                i <= self.by_error_type@.len(),
                forall|j: int| 0 <= j < i ==> #[trigger] self.by_error_type@[j].0@ != key@,
            decreases self.by_error_type@.len() - i,
        {
            if str_eq(self.by_error_type[i].0.as_str(), key) {
                return self.by_error_type[i].1;
            }
            i = i + 1;
        }
        0
    }
}

/// The statistics key of a dead-lettered task: its last error's key, or
/// "Unknown".
pub open spec fn task_error_key(t: IndexTask) -> Seq<char> {
    match t.last_error {
        Some(e) => error_key(e),
        None => "Unknown"@,
    }
}

/// The number of tasks whose key is `key`.
pub open spec fn count_key(s: Seq<IndexTask>, key: Seq<char>) -> nat
    decreases s.len(),
{
    if s.len() == 0 {
        0
    } else {
        count_key(s.drop_last(), key) + if task_error_key(s.last()) == key { 1nat } else { 0nat }
    }
}

/// The least creation time of the tasks.
pub open spec fn min_created(s: Seq<IndexTask>) -> int
    decreases s.len(),
{
    if s.len() == 0 {
        0
    } else if s.len() == 1 {
        s[0].created_at as int
    } else {
        let m = min_created(s.drop_last());
        if (s.last().created_at as int) < m { s.last().created_at as int } else { m }
    }
}

/// The greatest creation time of the tasks.
pub open spec fn max_created(s: Seq<IndexTask>) -> int
    decreases s.len(),
{
    if s.len() == 0 {
        0
    } else if s.len() == 1 {
        s[0].created_at as int
    } else {
        let m = max_created(s.drop_last());
        if (s.last().created_at as int) > m { s.last().created_at as int } else { m }
    }
}

/// `now - t`, or 0 when `t` is later than `now`.
pub open spec fn age_at(now: u64, t: int) -> u64 {
    if now >= t { (now - t) as u64 } else { 0 }
}

/// The counts of error keys over `s`: each key once, with its count.
pub open spec fn key_counts_exact(counts: Seq<(String, usize)>, s: Seq<IndexTask>) -> bool {
    &&& forall|i: int, j: int| 0 <= i < j < counts.len() ==> #[trigger] counts[i].0@ != #[trigger] counts[j].0@
    &&& forall|i: int| 0 <= i < counts.len() ==> #[trigger] counts[i].1 == count_key(s, counts[i].0@)
    &&& forall|i: int| 0 <= i < counts.len() ==> count_key(s, #[trigger] counts[i].0@) > 0
    &&& forall|k: int| 0 <= k < s.len() ==> exists|i: int| 0 <= i < counts.len() && #[trigger] counts[i].0@ == task_error_key(#[trigger] s[k])
}

proof fn lemma_count_key_push(s: Seq<IndexTask>, t: IndexTask, key: Seq<char>)
    ensures
        count_key(s.push(t), key) == count_key(s, key) + if task_error_key(t) == key { 1nat } else { 0nat },
{
    assert(s.push(t).drop_last() =~= s);
}

proof fn lemma_count_key_bound(s: Seq<IndexTask>, key: Seq<char>)
    ensures
        count_key(s, key) <= s.len(),
    decreases s.len(),
{
    if s.len() > 0 {
        lemma_count_key_bound(s.drop_last(), key);
    }
}

/// The statistics key of a task.
fn task_key(t: &IndexTask) -> (r: String)
    ensures
        r@ == task_error_key(*t),
{
    match &t.last_error {
        Some(e) => error_type_key(e),
        None => "Unknown".to_owned(),
    }
}

impl ResilientBatchIndexer {
    /// Copies of the dead-lettered tasks, oldest first.
    pub fn get_dead_letter_tasks(&self) -> (r: Vec<IndexTask>)
        ensures
            r@ == self.dead_letters(),
    {
        let mut r: Vec<IndexTask> = Vec::new();
        let mut i: usize = 0;
        while i < self.dead_letter_queue.len()
            invariant
                i <= self.dead_letter_queue@.len(),
                r@ == self.dead_letter_queue@.take(i as int),
            decreases self.dead_letter_queue@.len() - i,
        {
            r.push(self.dead_letter_queue[i].clone());
            proof {
                assert(self.dead_letter_queue@.take(i + 1) =~= self.dead_letter_queue@.take(i as int).push(self.dead_letter_queue@[i as int]));
            }
            i = i + 1;
        }
        proof {
            assert(self.dead_letter_queue@.take(self.dead_letter_queue@.len() as int) =~= self.dead_letter_queue@);
        }
        r
    }

    /// The position of the first dead-lettered task with identifier `task_id`.
    fn find_dead_letter(&self, task_id: u128) -> (r: Option<usize>)
        ensures
            -1 <= index_of_id(self.dead_letter_queue@, task_id) < self.dead_letter_queue@.len(),
            r matches Some(p) ==> p as int == index_of_id(self.dead_letter_queue@, task_id),
            r is None <==> index_of_id(self.dead_letter_queue@, task_id) < 0,
    {
        proof {
            lemma_index_of_id(self.dead_letter_queue@, task_id);
        }
        let mut i: usize = 0;
        while i < self.dead_letter_queue.len()
            invariant
                i <= self.dead_letter_queue@.len(),
                forall|k: int| 0 <= k < i ==> #[trigger] self.dead_letter_queue@[k].id != task_id,
                -1 <= index_of_id(self.dead_letter_queue@, task_id) < self.dead_letter_queue@.len(),
                index_of_id(self.dead_letter_queue@, task_id) >= 0 ==> self.dead_letter_queue@[index_of_id(self.dead_letter_queue@, task_id)].id == task_id,
                index_of_id(self.dead_letter_queue@, task_id) >= 0 ==> forall|k: int| 0 <= k < index_of_id(self.dead_letter_queue@, task_id) ==> self.dead_letter_queue@[k].id != task_id,
                index_of_id(self.dead_letter_queue@, task_id) < 0 ==> forall|k: int| 0 <= k < self.dead_letter_queue@.len() ==> self.dead_letter_queue@[k].id != task_id,
            decreases self.dead_letter_queue@.len() - i,
        {
            if self.dead_letter_queue[i].id == task_id {
                return Some(i);
            }
            i = i + 1;
        }
        None
    }

    /// Moves the first dead-lettered task with identifier `task_id` back to
    /// the pending queue, reset for retry; an error when there is none.
    pub fn retry_dead_letter_task(&mut self, task_id: u128) -> (r: Result<(), IndexError>)
        requires
            old(self).well_formed(),
        ensures
            final(self).well_formed(),
            ({
                let k = index_of_id(old(self).dead_letters(), task_id);
                if k >= 0 {
                    &&& r is Ok
                    &&& final(self).dead_letters() == old(self).dead_letters().remove(k)
                    &&& final(self).pending() == old(self).pending().push(reset_task(old(self).dead_letters()[k]))
                    &&& final(self).spec_stats() == (IndexerStats {
                        current_dead_letter_size: final(self).dead_letters().len() as u64,
                        current_queue_size: final(self).pending().len() as u64,
                        ..old(self).spec_stats()
                    })
                } else {
                    &&& r == Err::<(), IndexError>(IndexError::TaskNotFound { task_id })
                    &&& final(self).dead_letters() == old(self).dead_letters()
                    &&& final(self).pending() == old(self).pending()
                    &&& final(self).spec_stats() == old(self).spec_stats()
                }
            }),
            final(self).spec_config() == old(self).spec_config(),
            final(self).spec_shutdown() == old(self).spec_shutdown(),
    {
        match self.find_dead_letter(task_id) {
            Some(pos) => {
                let mut task = self.dead_letter_queue.remove(pos);
                task.reset_for_retry();
                self.stats.current_dead_letter_size = self.dead_letter_queue.len() as u64;
                self.pending_queue.push(task);
                self.stats.current_queue_size = self.pending_queue.len() as u64;
                Ok(())
            },
            None => Err(IndexError::TaskNotFound { task_id }),
        }
    }

    /// Moves every dead-lettered task back to the pending queue, reset for
    /// retry and in order; returns how many there were.
    pub fn retry_all_dead_letter_tasks(&mut self) -> (n: usize)
        requires
            old(self).well_formed(),
        ensures
            final(self).well_formed(),
            n == old(self).dead_letters().len(),
            final(self).dead_letters() == Seq::<IndexTask>::empty(),
            final(self).pending() == old(self).pending() + old(self).dead_letters().map_values(
                |t: IndexTask| reset_task(t),
            ),
            final(self).spec_stats() == (IndexerStats {
                current_dead_letter_size: 0,
                current_queue_size: final(self).pending().len() as u64,
                ..old(self).spec_stats()
            }),
            final(self).spec_config() == old(self).spec_config(),
            final(self).spec_shutdown() == old(self).spec_shutdown(),
    {
        let count = self.dead_letter_queue.len();
        let mut dlq: Vec<IndexTask> = Vec::new();
        std::mem::swap(&mut dlq, &mut self.dead_letter_queue);
        self.stats.current_dead_letter_size = 0;
        let ghost orig_pending = self.pending_queue@;
        let mut i: usize = 0;
        while i < dlq.len()
            invariant
                i <= dlq@.len(),
                self.pending_queue@ == orig_pending + dlq@.take(i as int).map_values(
                    |t: IndexTask| reset_task(t),
                ),
                self.dead_letter_queue@ == Seq::<IndexTask>::empty(),
                self.config == old(self).config,
                self.shutdown == old(self).shutdown,
                self.stats == (IndexerStats { current_dead_letter_size: 0, ..old(self).stats }),
            decreases dlq@.len() - i,
        {
            let mut t = dlq[i].clone();
            t.reset_for_retry();
            self.pending_queue.push(t);
            proof {
                assert(dlq@.take(i + 1).map_values(|t: IndexTask| reset_task(t)) =~= dlq@.take(
                    i as int,
                ).map_values(|t: IndexTask| reset_task(t)).push(reset_task(dlq@[i as int])));
            }
            i = i + 1;
        }
        proof {
            assert(dlq@.take(dlq@.len() as int) =~= dlq@);
        }
        self.stats.current_queue_size = self.pending_queue.len() as u64;
        count
    }

    /// Empties the dead letter queue; returns how many tasks it held.
    pub fn clear_dead_letter_queue(&mut self) -> (n: usize)
        requires
            old(self).well_formed(),
        ensures
            final(self).well_formed(),
            n == old(self).dead_letters().len(),
            final(self).dead_letters() == Seq::<IndexTask>::empty(),
            final(self).pending() == old(self).pending(),
            final(self).spec_stats() == (IndexerStats {
                current_dead_letter_size: 0,
                ..old(self).spec_stats()
            }),
            final(self).spec_config() == old(self).spec_config(),
            final(self).spec_shutdown() == old(self).spec_shutdown(),
    {
        let count = self.dead_letter_queue.len();
        self.dead_letter_queue.clear();
        self.stats.current_dead_letter_size = 0;
        count
    }

    /// Requests shutdown.
    pub fn shutdown(&mut self)
        requires
            old(self).well_formed(),
        ensures
            final(self).well_formed(),
            final(self).spec_shutdown(),
            final(self).pending() == old(self).pending(),
            final(self).dead_letters() == old(self).dead_letters(),
            final(self).spec_stats() == old(self).spec_stats(),
            final(self).spec_config() == old(self).spec_config(),
    {
        self.shutdown = true;
    }

    /// Whether shutdown was requested.
    pub fn is_shutdown(&self) -> (b: bool)
        ensures
            b == self.spec_shutdown(),
    {
        self.shutdown
    }

    /// A copy of the first dead-lettered task with identifier `task_id`.
    pub fn get_dead_letter_task(&self, task_id: u128) -> (r: Option<IndexTask>)
        ensures
            index_of_id(self.dead_letters(), task_id) >= 0 ==> r == Some(
                self.dead_letters()[index_of_id(self.dead_letters(), task_id)],
            ),
            index_of_id(self.dead_letters(), task_id) < 0 ==> r is None,
    {
        match self.find_dead_letter(task_id) {
            Some(pos) => {
                let t = self.dead_letter_queue[pos].clone();
                proof {
                    lemma_index_of_id(self.dead_letter_queue@, task_id);
                    assert(pos as int == index_of_id(self.dead_letter_queue@, task_id));
                }
                Some(t)
            },
            None => None,
        }
    }

    /// Removes and returns the first dead-lettered task with identifier
    /// `task_id`.
    pub fn remove_dead_letter_task(&mut self, task_id: u128) -> (r: Option<IndexTask>)
        requires
            old(self).well_formed(),
        ensures
            final(self).well_formed(),
            ({
                let k = index_of_id(old(self).dead_letters(), task_id);
                if k >= 0 {
                    &&& r == Some(old(self).dead_letters()[k])
                    &&& final(self).dead_letters() == old(self).dead_letters().remove(k)
                    &&& final(self).spec_stats() == (IndexerStats {
                        current_dead_letter_size: final(self).dead_letters().len() as u64,
                        ..old(self).spec_stats()
                    })
                } else {
                    &&& r is None
                    &&& final(self).dead_letters() == old(self).dead_letters()
                    &&& final(self).spec_stats() == old(self).spec_stats()
                }
            }),
            final(self).pending() == old(self).pending(),
            final(self).spec_config() == old(self).spec_config(),
            final(self).spec_shutdown() == old(self).spec_shutdown(),
    {
        match self.find_dead_letter(task_id) {
            Some(pos) => {
                let task = self.dead_letter_queue.remove(pos);
                self.stats.current_dead_letter_size = self.dead_letter_queue.len() as u64;
                Some(task)
            },
            None => None,
        }
    }

    /// Statistics of the dead letter queue at `now`: size, limit, the count of
    /// tasks per error type, and the ages of the oldest and newest tasks.
    pub fn dead_letter_stats_at(&self, now: u64) -> (s: DeadLetterStats)
        ensures
            s.total_count == self.dead_letters().len(),
            s.max_size == self.spec_config().dead_letter_max_size,
            key_counts_exact(s.by_error_type@, self.dead_letters()),
            self.dead_letters().len() == 0 ==> s.oldest_task_age_ms is None && s.newest_task_age_ms is None,
            self.dead_letters().len() > 0 ==> s.oldest_task_age_ms == Some(age_at(now, min_created(self.dead_letters())))
                && s.newest_task_age_ms == Some(age_at(now, max_created(self.dead_letters()))),
    {
        let q = &self.dead_letter_queue;
        let mut counts: Vec<(String, usize)> = Vec::new();
        let mut oldest: Option<u64> = None;
        let mut newest: Option<u64> = None;
        let mut i: usize = 0;
        while i < q.len()
            invariant
                i <= q@.len(),
                q@ == self.dead_letter_queue@,
                key_counts_exact(counts@, q@.take(i as int)),
                i == 0 ==> oldest is None && newest is None,
                i > 0 ==> oldest == Some(min_created(q@.take(i as int)) as u64) && newest == Some(max_created(q@.take(i as int)) as u64),
                i > 0 ==> 0 <= min_created(q@.take(i as int)) <= u64::MAX && 0 <= max_created(q@.take(i as int)) <= u64::MAX,
            decreases q@.len() - i,
        {
            let t = &q[i];
            let ghost prev = q@.take(i as int);
            proof {
                assert(q@.take(i + 1) =~= prev.push(*t));
                assert(prev.push(*t).drop_last() =~= prev);
            }
            let key = task_key(t);
            let mut j: usize = 0;
            let mut found = false;
            while j < counts.len()
                invariant_except_break
                    !found,
                invariant
                    j <= counts@.len(),
                    forall|k: int| 0 <= k < j ==> #[trigger] counts@[k].0@ != key@,
                ensures
                    j <= counts@.len(),
                    forall|k: int| 0 <= k < j ==> #[trigger] counts@[k].0@ != key@,
                    found ==> j < counts@.len() && counts@[j as int].0@ == key@,
                    !found ==> j == counts@.len(),
                decreases counts@.len() - j,
            {
                if str_eq(counts[j].0.as_str(), key.as_str()) {
                    found = true;
                    break;
                }
                j = j + 1;
            }
            let ghost old_counts = counts@;
            proof {
                lemma_count_key_bound(prev, key@);
            }
            if found {
                let c = counts[j].1;
                proof {
                    lemma_count_key_push(prev, *t, key@);
                    assert(c == count_key(prev, key@));
                    assert(c < usize::MAX) by {
                        assert(prev.len() < q@.len());
                    }
                }
                let name = counts[j].0.clone();
                counts.set(j, (name, c + 1));
                proof {
                    assert forall|k: int| 0 <= k < counts@.len() implies #[trigger] counts@[k].1
                        == count_key(prev.push(*t), counts@[k].0@) by {
                        lemma_count_key_push(prev, *t, counts@[k].0@);
                        if k != j {
                            assert(counts@[k] == old_counts[k]);
                            assert(old_counts[k].0@ != old_counts[j as int].0@);
                        }
                    }
                    assert forall|k: int| 0 <= k < counts@.len() implies count_key(prev.push(*t), #[trigger] counts@[k].0@) > 0 by {
                        lemma_count_key_push(prev, *t, counts@[k].0@);
                    }
                    assert forall|a: int, b: int| 0 <= a < b < counts@.len() implies #[trigger] counts@[a].0@ != #[trigger] counts@[b].0@ by {
                        assert(old_counts[a].0@ != old_counts[b].0@);
                    }
                    assert forall|k: int| 0 <= k < prev.push(*t).len() implies exists|m: int| 0 <= m < counts@.len() && #[trigger] counts@[m].0@ == task_error_key(#[trigger] prev.push(*t)[k]) by {
                        if k < prev.len() {
                            assert(prev.push(*t)[k] == prev[k]);
                            let m = choose|m: int| 0 <= m < old_counts.len() && #[trigger] old_counts[m].0@ == task_error_key(prev[k]);
                            assert(counts@[m].0@ == old_counts[m].0@);
                        } else {
                            assert(counts@[j as int].0@ == key@);
                        }
                    }
                }
            } else {
                counts.push((key, 1));
                proof {
                    lemma_count_key_push(prev, *t, key@);
                    assert forall|k: int| 0 <= k < counts@.len() implies #[trigger] counts@[k].1
                        == count_key(prev.push(*t), counts@[k].0@) by {
                        lemma_count_key_push(prev, *t, counts@[k].0@);
                        if k < old_counts.len() {
                            assert(counts@[k] == old_counts[k]);
                        } else {
                            assert(count_key(prev, key@) == 0) by {
                                if count_key(prev, key@) > 0 {
                                    lemma_count_key_positive(prev, key@);
                                    let z = choose|z: int| 0 <= z < prev.len() && task_error_key(#[trigger] prev[z]) == key@;
                                    let m = choose|m: int| 0 <= m < old_counts.len() && #[trigger] old_counts[m].0@ == task_error_key(prev[z]);
                                    assert(old_counts[m].0@ != key@);
                                }
                            }
                        }
                    }
                    assert forall|k: int| 0 <= k < counts@.len() implies count_key(prev.push(*t), #[trigger] counts@[k].0@) > 0 by {
                        lemma_count_key_push(prev, *t, counts@[k].0@);
                        if k < old_counts.len() {
                            assert(counts@[k] == old_counts[k]);
                        }
                    }
                    assert forall|a: int, b: int| 0 <= a < b < counts@.len() implies #[trigger] counts@[a].0@ != #[trigger] counts@[b].0@ by {
                        if b < old_counts.len() {
                            assert(old_counts[a].0@ != old_counts[b].0@);
                        } else {
                            assert(counts@[a] == old_counts[a]);
                        }
                    }
                    assert forall|k: int| 0 <= k < prev.push(*t).len() implies exists|m: int| 0 <= m < counts@.len() && #[trigger] counts@[m].0@ == task_error_key(#[trigger] prev.push(*t)[k]) by {
                        if k < prev.len() {
                            assert(prev.push(*t)[k] == prev[k]);
                            let m = choose|m: int| 0 <= m < old_counts.len() && #[trigger] old_counts[m].0@ == task_error_key(prev[k]);
                            assert(counts@[m] == old_counts[m]);
                        } else {
                            assert(counts@[old_counts.len() as int].0@ == key@);
                        }
                    }
                }
            }
            let c = t.created_at;
            match oldest {
                None => {
                    oldest = Some(c);
                },
                Some(o) => {
                    if c < o {
                        oldest = Some(c);
                    }
                },
            }
            match newest {
                None => {
                    newest = Some(c);
                },
                Some(o) => {
                    if c > o {
                        newest = Some(c);
                    }
                },
            }
            proof {
                if i == 0 {
                    assert(prev.push(*t).len() == 1);
                }
            }
            i = i + 1;
        }
        proof {
            assert(q@.take(q@.len() as int) =~= q@);
        }
        let oldest_age = match oldest {
            Some(o) => Some(if now >= o { now - o } else { 0 }),
            None => None,
        };
        let newest_age = match newest {
            Some(o) => Some(if now >= o { now - o } else { 0 }),
            None => None,
        };
        DeadLetterStats {
            total_count: q.len(),
            max_size: self.config.dead_letter_max_size,
            by_error_type: counts,
            oldest_task_age_ms: oldest_age,
            newest_task_age_ms: newest_age,
        }
    }

    /// Statistics of the dead letter queue now (see `dead_letter_stats_at`).
    pub fn dead_letter_stats(&self) -> (s: DeadLetterStats)
        ensures
            s.total_count == self.dead_letters().len(),
            s.max_size == self.spec_config().dead_letter_max_size,
            key_counts_exact(s.by_error_type@, self.dead_letters()),
    {
        let now = now_millis_u64();
        self.dead_letter_stats_at(now)
    }
}

proof fn lemma_count_key_positive(s: Seq<IndexTask>, key: Seq<char>)
    requires
        count_key(s, key) > 0,
    ensures
        exists|z: int| 0 <= z < s.len() && task_error_key(#[trigger] s[z]) == key,
    decreases s.len(),
{
    if task_error_key(s.last()) == key {
        assert(task_error_key(s[s.len() - 1]) == key);
    } else {
        lemma_count_key_positive(s.drop_last(), key);
        let z = choose|z: int| 0 <= z < s.drop_last().len() && task_error_key(#[trigger] s.drop_last()[z]) == key;
        assert(s.drop_last()[z] == s[z]);
    }
}

/// The tasks of `s` whose flag is set, in order.
pub open spec fn keep_flagged(s: Seq<IndexTask>, flags: Seq<bool>) -> Seq<IndexTask>
    decreases s.len(),
{
    if s.len() == 0 || flags.len() == 0 {
        Seq::empty()
    } else {
        let rest = keep_flagged(s.drop_last(), flags.drop_last());
        if flags.last() { rest.push(s.last()) } else { rest }
    }
}

impl ResilientBatchIndexer {
    /// Copies of the dead-lettered tasks whose last error passes `filter`, in
    /// queue order; tasks without an error are left out.
    pub fn get_dead_letter_tasks_by_error<F: Fn(&IndexError) -> bool>(&self, filter: F) -> (r: Vec<IndexTask>)
        requires
            forall|e: &IndexError| #[trigger] filter.requires((e,)),
        ensures
            exists|flags: Seq<bool>|
                #![trigger keep_flagged(self.dead_letters(), flags)]
                {
                    &&& flags.len() == self.dead_letters().len()
                    &&& r@ == keep_flagged(self.dead_letters(), flags)
                    &&& forall|i: int|
                        0 <= i < flags.len() ==> (#[trigger] flags[i] ==> (self.dead_letters()[i].last_error
                            matches Some(e) && filter.ensures((&e,), true)))
                    &&& forall|i: int|
                        0 <= i < flags.len() ==> (!#[trigger] flags[i] ==> (self.dead_letters()[i].last_error
                            matches Some(e) ==> filter.ensures((&e,), false)))
                },
    {
        let q = &self.dead_letter_queue;
        let mut r: Vec<IndexTask> = Vec::new();
        let ghost mut flags: Seq<bool> = Seq::empty();
        let mut i: usize = 0;
        while i < q.len()
            invariant
                i <= q@.len(),
                q@ == self.dead_letter_queue@,
                forall|e: &IndexError| #[trigger] filter.requires((e,)),
                flags.len() == i,
                r@ == keep_flagged(q@.take(i as int), flags),
                forall|k: int|
                    0 <= k < flags.len() ==> (#[trigger] flags[k] ==> (q@[k].last_error matches Some(e)
                        && filter.ensures((&e,), true))),
                forall|k: int|
                    0 <= k < flags.len() ==> (!#[trigger] flags[k] ==> (q@[k].last_error matches Some(e)
                        ==> filter.ensures((&e,), false))),
            decreases q@.len() - i,
        {
            let keep = match &q[i].last_error {
                Some(e) => filter(e),
                None => false,
            };
            proof {
                assert(q@.take(i + 1).drop_last() =~= q@.take(i as int));
                assert(flags.push(keep).drop_last() =~= flags);
            }
            if keep {
                r.push(q[i].clone());
            }
            proof {
                flags = flags.push(keep);
            }
            i = i + 1;
        }
        proof {
            assert(q@.take(q@.len() as int) =~= q@);
            assert(r@ == keep_flagged(self.dead_letters(), flags));
        }
        r
    }
}

/// Result of a file accessibility check.
#[derive(Debug, Clone, PartialEq, Eq)]
pub enum FileAccessResult {
    /// File is accessible and can be read
    Accessible,
    /// File does not exist
    NotFound,
    /// File is locked by another process
    Locked,
    /// Other IO error occurred
    Error(String),
}

/// The kind of an error from opening a file, as far as the check tells them
/// apart.
#[derive(Debug, Clone, Copy, PartialEq, Eq, Structural)]
pub enum OpenErrorKind {
    NotFound,
    PermissionDenied,
    Other,
}

/// Whether an open error means that another process holds the file: a
/// permission error, or the operating-system codes 32 (sharing violation) and
/// 33 (lock violation).
pub open spec fn open_error_locked(kind: OpenErrorKind, os_code: Option<i32>) -> bool {
    kind == OpenErrorKind::PermissionDenied || os_code == Some(32i32) || os_code == Some(33i32)
}

/// The outcome of a file access check, from whether the path exists and how
/// opening it went (`None` when it opened).
pub fn classify_file_access(exists: bool, open_error: Option<(OpenErrorKind, Option<i32>, String)>) -> (r: FileAccessResult)
    ensures
        !exists ==> r == FileAccessResult::NotFound,
        exists && open_error is None ==> r == FileAccessResult::Accessible,
        exists ==> (open_error matches Some((kind, code, msg)) ==> r == (
            if kind == OpenErrorKind::NotFound {
                FileAccessResult::NotFound
            } else if open_error_locked(kind, code) {
                FileAccessResult::Locked
            } else {
                FileAccessResult::Error(msg)
            })),
{
    if !exists {
        return FileAccessResult::NotFound;
    }
    match open_error {
        None => FileAccessResult::Accessible,
        Some((kind, code, msg)) => {
            match kind {
                OpenErrorKind::NotFound => FileAccessResult::NotFound,
                OpenErrorKind::PermissionDenied => FileAccessResult::Locked,
                OpenErrorKind::Other => {
                    if code == Some(32i32) || code == Some(33i32) {
                        FileAccessResult::Locked
                    } else {
                        FileAccessResult::Error(msg)
                    }
                },
            }
        },
    }
}

/// The indexing outcome of an access check of `path`: success for an
/// accessible file, otherwise the matching indexing error.
pub fn check_file_or_error(path: &str, access: FileAccessResult) -> (r: Result<(), IndexError>)
    ensures
        access == FileAccessResult::Accessible ==> r is Ok,
        access == FileAccessResult::NotFound ==> (r matches Err(IndexError::FileNotFound { path: p }) && p@ == path@),
        access == FileAccessResult::Locked ==> (r matches Err(IndexError::FileLocked { path: p }) && p@ == path@),
        access matches FileAccessResult::Error(reason) ==> r == Err::<(), IndexError>(IndexError::IoError { reason }),
{
    match access {
        FileAccessResult::Accessible => Ok(()),
        FileAccessResult::NotFound => Err(IndexError::FileNotFound { path: path.to_owned() }),
        FileAccessResult::Locked => Err(IndexError::FileLocked { path: path.to_owned() }),
        FileAccessResult::Error(reason) => Err(IndexError::IoError { reason }),
    }
}

/// `insert_in_order` places the task at some position of the sequence.
proof fn lemma_insert_in_order_position(s: Seq<IndexTask>, x: IndexTask) -> (p: int)
    ensures
        0 <= p <= s.len(),
        insert_in_order(s, x) == s.insert(p, x),
    decreases s.len(),
{
    if s.len() == 0 {
        assert(s.insert(0, x) =~= seq![x]);
        0
    } else if task_precedes(x, s[0]) {
        assert(s.insert(0, x) =~= seq![x] + s);
        0
    } else {
        let q = lemma_insert_in_order_position(s.drop_first(), x);
        assert(seq![s[0]] + s.drop_first().insert(q, x) =~= s.insert(q + 1, x));
        q + 1
    }
}

/// The queue order is a strict order: never both ways, and transitive.
proof fn lemma_precedes_strict(a: IndexTask, b: IndexTask, c: IndexTask)
    ensures
        !(task_precedes(a, b) && task_precedes(b, a)),
        task_precedes(a, b) && task_precedes(b, c) ==> task_precedes(a, c),
        !task_precedes(a, a),
{
}

/// Inserting into an ordered sequence keeps it in order.
proof fn lemma_insert_in_order_ordered(s: Seq<IndexTask>, x: IndexTask)
    requires
        in_queue_order(s),
    ensures
        in_queue_order(insert_in_order(s, x)),
    decreases s.len(),
{
    let r = insert_in_order(s, x);
    if s.len() == 0 {
    } else if task_precedes(x, s[0]) {
        assert forall|i: int, j: int| 0 <= i < j < r.len() implies !task_precedes(#[trigger] r[j], #[trigger] r[i]) by {
            if i == 0 {
                lemma_precedes_strict(r[j], x, s[0]);
                if j > 1 {
                    assert(!task_precedes(s[j - 1], s[0]));
                }
            } else {
                assert(r[i] == s[i - 1] && r[j] == s[j - 1]);
            }
        }
    } else {
        let t = s.drop_first();
        assert(in_queue_order(t)) by {
            assert forall|i: int, j: int| 0 <= i < j < t.len() implies !task_precedes(#[trigger] t[j], #[trigger] t[i]) by {
                assert(t[i] == s[i + 1] && t[j] == s[j + 1]);
            }
        }
        lemma_insert_in_order_ordered(t, x);
        let p = lemma_insert_in_order_position(t, x);
        let it = insert_in_order(t, x);
        assert(r =~= seq![s[0]] + it);
        assert forall|i: int, j: int| 0 <= i < j < r.len() implies !task_precedes(#[trigger] r[j], #[trigger] r[i]) by {
            if i == 0 {
                assert(r[j] == it[j - 1]);
                if j - 1 == p {
                    assert(it[j - 1] == x);
                } else if j - 1 < p {
                    assert(it[j - 1] == t[j - 1]);
                    assert(t[j - 1] == s[j]);
                } else {
                    assert(it[j - 1] == t[j - 2]);
                    assert(t[j - 2] == s[j - 1]);
                }
            } else {
                assert(r[i] == it[i - 1] && r[j] == it[j - 1]);
            }
        }
    }
}

/// Sorted tasks are in queue order: no task comes after one that it
/// precedes.
pub proof fn lemma_sort_tasks_ordered(s: Seq<IndexTask>)
    ensures
        in_queue_order(sort_tasks(s)),
    decreases s.len(),
{
    if s.len() > 0 {
        lemma_sort_tasks_ordered(s.drop_last());
        lemma_insert_in_order_ordered(sort_tasks(s.drop_last()), s.last());
    }
}

/// Sorting neither loses nor adds a task: the sorted tasks are a permutation
/// of the queue.
pub proof fn lemma_sort_tasks_permutation(s: Seq<IndexTask>)
    ensures
        sort_tasks(s).to_multiset() == s.to_multiset(),
        sort_tasks(s).len() == s.len(),
    decreases s.len(),
{
    broadcast use vstd::seq_lib::group_to_multiset_ensures;
    if s.len() > 0 {
        lemma_sort_tasks_permutation(s.drop_last());
        let p = lemma_insert_in_order_position(sort_tasks(s.drop_last()), s.last());
        assert(s.drop_last().push(s.last()) =~= s);
    }
}

/// The batch of ready tasks: it holds at most `cap` tasks, all ready at
/// `now`; the tasks left queued together with the batch are exactly the given
/// tasks; and a ready task stays queued only when the batch is full.
pub proof fn lemma_select_ready(s: Seq<IndexTask>, now: u64, cap: nat)
    ensures
        select_ready(s, now, cap).0.len() <= cap,
        forall|i: int| 0 <= i < select_ready(s, now, cap).0.len() ==> task_ready(#[trigger] select_ready(s, now, cap).0[i], now),
        select_ready(s, now, cap).0.to_multiset().add(select_ready(s, now, cap).1.to_multiset()) == s.to_multiset(),
        select_ready(s, now, cap).0.len() < cap ==> forall|i: int|
            0 <= i < select_ready(s, now, cap).1.len() ==> !task_ready(#[trigger] select_ready(s, now, cap).1[i], now),
    decreases s.len(),
{
    broadcast use vstd::seq_lib::group_to_multiset_ensures;
    broadcast use vstd::multiset::group_multiset_axioms;
    if s.len() > 0 {
        let (b, q) = select_ready(s.drop_last(), now, cap);
        lemma_select_ready(s.drop_last(), now, cap);
        assert(s.drop_last().push(s.last()) =~= s);
        let t = s.last();
        if task_ready(t, now) && b.len() < cap {
            assert(b.push(t).to_multiset().add(q.to_multiset()) =~= b.to_multiset().add(q.to_multiset()).insert(t));
        } else {
            assert(b.to_multiset().add(q.push(t).to_multiset()) =~= b.to_multiset().add(q.to_multiset()).insert(t));
        }
    }
}

/// A dead letter queue with room for `max` tasks (`max > 0`) never holds more
/// than `max` after an addition, and ends with the added task; a full queue
/// loses its oldest task, one with room loses none.
pub proof fn lemma_bounded_push_within_limit(s: Seq<IndexTask>, t: IndexTask, max: nat)
    requires
        max > 0,
    ensures
        bounded_push(s, t, max).len() <= max,
        bounded_push(s, t, max).len() > 0,
        bounded_push(s, t, max).last() == t,
        s.len() == max ==> bounded_push(s, t, max) == s.drop_first().push(t),
        s.len() < max ==> bounded_push(s, t, max) == s.push(t),
{
    if s.len() == max {
        assert(s.skip(1) =~= s.drop_first());
    }
}


/// Whether priority `p` is above priority `q` in the order
/// `Low < Normal < High < Urgent`.
pub open spec fn priority_above(p: TaskPriority, q: TaskPriority) -> bool {
    ||| p == TaskPriority::Urgent && q != TaskPriority::Urgent
    ||| p == TaskPriority::High && (q == TaskPriority::Normal || q == TaskPriority::Low)
    ||| p == TaskPriority::Normal && q == TaskPriority::Low
}

/// The queue goes by priority first: levels rise from `Low` through `Normal`
/// and `High` to `Urgent`, a task of higher priority precedes one of lower
/// priority whatever their retry times, and in a sorted queue no task comes
/// after one of lower priority.
pub proof fn lemma_priority_order(a: IndexTask, b: IndexTask, s: Seq<IndexTask>)
    ensures
        TaskPriority::Low.rank() < TaskPriority::Normal.rank(),
        TaskPriority::Normal.rank() < TaskPriority::High.rank(),
        TaskPriority::High.rank() < TaskPriority::Urgent.rank(),
        priority_above(a.priority, b.priority) ==> task_precedes(a, b) && !task_precedes(b, a),
        forall|i: int, j: int|
            0 <= i < j < sort_tasks(s).len() ==> !priority_above(#[trigger] sort_tasks(s)[j].priority, #[trigger] sort_tasks(s)[i].priority),
{
    lemma_sort_tasks_ordered(s);
    assert forall|i: int, j: int|
        0 <= i < j < sort_tasks(s).len() implies !priority_above(#[trigger] sort_tasks(s)[j].priority, #[trigger] sort_tasks(s)[i].priority) by {
        assert(!task_precedes(sort_tasks(s)[j], sort_tasks(s)[i]));
    }
}

} // verus!
