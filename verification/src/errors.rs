//! Error types of the application and their recovery strategies.

use vstd::prelude::*;

verus! {

/// An error of the `sqlx` database layer, carried as it is.
#[verifier::external_type_specification]
#[verifier::external_body]
pub struct ExSqlxError(sqlx::Error);

/// An I/O error of the standard library, carried as it is.
#[verifier::external_type_specification]
#[verifier::external_body]
pub struct ExIoError(std::io::Error);

/// Recovery action suggestions.
#[derive(Debug, Clone, Copy, PartialEq, Eq, Structural)]
pub enum RecoveryAction {
    /// Retry the operation
    Retry,
    /// Skip this item and continue
    Skip,
    /// Fall back to alternative method
    Fallback,
    /// Notify user and wait for input
    NotifyUser,
    /// Abort the operation
    Abort,
}

/// Error recovery strategies: whether to retry, after how long, and what to do.
pub trait ErrorRecovery {
    /// Whether the error is retryable.
    spec fn spec_retryable(&self) -> bool;

    /// The suggested retry delay in milliseconds, if any.
    spec fn spec_retry_delay_ms(&self) -> Option<u64>;

    /// The suggested recovery action.
    spec fn spec_recovery_action(&self) -> RecoveryAction;

    /// Check if the error is retryable.
    fn is_retryable(&self) -> (b: bool)
        ensures
            b == self.spec_retryable(),
    ;

    /// Get suggested retry delay in milliseconds.
    fn retry_delay_ms(&self) -> (d: Option<u64>)
        ensures
            d == self.spec_retry_delay_ms(),
    ;

    /// Get recovery action suggestion.
    fn recovery_action(&self) -> (a: RecoveryAction)
        ensures
            a == self.spec_recovery_action(),
    ;
}

/// Indexing-related errors.
#[derive(Debug)]
pub enum IndexError {
    FileNotFound { path: String },
    UnsupportedFileType { extension: String },
    ContentExtractionFailed { reason: String },
    EmbeddingFailed { reason: String },
    FileLocked { path: String },
    IndexCorrupted { reason: String },
    RetryLimitExceeded { path: String },
}

/// Search-related errors.
#[derive(Debug)]
pub enum SearchError {
    QueryParseFailed { reason: String },
    VectorSearchFailed { reason: String },
    TextSearchFailed { reason: String },
    Timeout { timeout_ms: u64 },
    InvalidFilter { reason: String },
}

/// Cloud API errors. The amounts of a cost limit are carried as the bit
/// patterns of their `f64` values in US dollars; this library does not read
/// them.
#[derive(Debug)]
pub enum CloudError {
    RequestFailed { reason: String },
    RateLimitExceeded,
    CostLimitReached { current: u64, limit: u64 },
    NetworkUnavailable,
    AuthenticationFailed,
    ResponseParseFailed { reason: String },
    Timeout { timeout_ms: u64 },
}

/// Database errors.
#[derive(Debug)]
pub enum DatabaseError {
    ConnectionFailed { reason: String },
    QueryFailed { reason: String },
    MigrationFailed { reason: String },
    TransactionFailed { reason: String },
    Corrupted { reason: String },
}

/// File system errors.
#[derive(Debug)]
pub enum FileSystemError {
    PathNotFound { path: String },
    PermissionDenied { path: String },
    WatchFailed { reason: String },
    ReadFailed { path: String, reason: String },
}

/// OS integration errors.
#[derive(Debug)]
pub enum OsError {
    DesktopTakeoverFailed { reason: String },
    ProgmanNotFound,
    WorkerWNotFound,
    SetParentFailed { reason: String },
    KeyboardHookFailed { reason: String },
    TaskbarControlFailed { reason: String },
    MonitorEnumFailed { reason: String },
    DisplayChangeFailed { reason: String },
    InvalidWindowHandle { reason: String },
    PlatformNotSupported { platform: String },
    ThumbnailExtractionFailed { reason: String },
    ShellItemCreationFailed { path: String },
    ComInitFailed { reason: String },
}

/// Configuration errors.
#[derive(Debug)]
pub enum ConfigError {
    FileNotFound { path: String },
    ParseFailed { reason: String },
    InvalidValue { field: String, value: String },
    SaveFailed { reason: String },
}

/// Main error type of the application.
#[derive(Debug)]
pub enum NeuralFSError {
    Index(IndexError),
    Search(SearchError),
    Cloud(CloudError),
    Database(sqlx::Error),
    DatabaseInternal(DatabaseError),
    FileSystem(FileSystemError),
    Config(ConfigError),
    Os(OsError),
    Io(std::io::Error),
    Internal(String),
    WatcherError(String),
    ConfigError(String),
}

impl ErrorRecovery for IndexError {
    open spec fn spec_retryable(&self) -> bool {
        match self {
            IndexError::FileLocked { .. } => true,
            IndexError::ContentExtractionFailed { .. } => true,
            IndexError::EmbeddingFailed { .. } => true,
            _ => false,
        }
    }

    open spec fn spec_retry_delay_ms(&self) -> Option<u64> {
        match self {
            IndexError::FileLocked { .. } => Some(2000),
            IndexError::ContentExtractionFailed { .. } => Some(1000),
            IndexError::EmbeddingFailed { .. } => Some(500),
            _ => None,
        }
    }

    open spec fn spec_recovery_action(&self) -> RecoveryAction {
        match self {
            IndexError::FileNotFound { .. } => RecoveryAction::Skip,
            IndexError::UnsupportedFileType { .. } => RecoveryAction::Skip,
            IndexError::FileLocked { .. } => RecoveryAction::Retry,
            IndexError::ContentExtractionFailed { .. } => RecoveryAction::Retry,
            IndexError::EmbeddingFailed { .. } => RecoveryAction::Retry,
            IndexError::IndexCorrupted { .. } => RecoveryAction::NotifyUser,
            IndexError::RetryLimitExceeded { .. } => RecoveryAction::Skip,
        }
    }

    fn is_retryable(&self) -> (b: bool) {
        match self {
            IndexError::FileLocked { .. } => true,
            IndexError::ContentExtractionFailed { .. } => true,
            IndexError::EmbeddingFailed { .. } => true,
            _ => false,
        }
    }

    fn retry_delay_ms(&self) -> (d: Option<u64>) {
        match self {
            IndexError::FileLocked { .. } => Some(2000),
            IndexError::ContentExtractionFailed { .. } => Some(1000),
            IndexError::EmbeddingFailed { .. } => Some(500),
            _ => None,
        }
    }

    fn recovery_action(&self) -> (a: RecoveryAction) {
        match self {
            IndexError::FileNotFound { .. } => RecoveryAction::Skip,
            IndexError::UnsupportedFileType { .. } => RecoveryAction::Skip,
            IndexError::FileLocked { .. } => RecoveryAction::Retry,
            IndexError::ContentExtractionFailed { .. } => RecoveryAction::Retry,
            IndexError::EmbeddingFailed { .. } => RecoveryAction::Retry,
            IndexError::IndexCorrupted { .. } => RecoveryAction::NotifyUser,
            IndexError::RetryLimitExceeded { .. } => RecoveryAction::Skip,
        }
    }
}

impl ErrorRecovery for SearchError {
    open spec fn spec_retryable(&self) -> bool {
        match self {
            SearchError::VectorSearchFailed { .. } => true,
            SearchError::TextSearchFailed { .. } => true,
            SearchError::Timeout { .. } => true,
            _ => false,
        }
    }

    open spec fn spec_retry_delay_ms(&self) -> Option<u64> {
        match self {
            SearchError::Timeout { .. } => Some(100),
            SearchError::VectorSearchFailed { .. } => Some(500),
            SearchError::TextSearchFailed { .. } => Some(500),
            _ => None,
        }
    }

    open spec fn spec_recovery_action(&self) -> RecoveryAction {
        match self {
            SearchError::QueryParseFailed { .. } => RecoveryAction::NotifyUser,
            SearchError::InvalidFilter { .. } => RecoveryAction::NotifyUser,
            SearchError::Timeout { .. } => RecoveryAction::Fallback,
            _ => RecoveryAction::Retry,
        }
    }

    fn is_retryable(&self) -> (b: bool) {
        match self {
            SearchError::VectorSearchFailed { .. } => true,
            SearchError::TextSearchFailed { .. } => true,
            SearchError::Timeout { .. } => true,
            _ => false,
        }
    }

    fn retry_delay_ms(&self) -> (d: Option<u64>) {
        match self {
            SearchError::Timeout { .. } => Some(100),
            SearchError::VectorSearchFailed { .. } => Some(500),
            SearchError::TextSearchFailed { .. } => Some(500),
            _ => None,
        }
    }

    fn recovery_action(&self) -> (a: RecoveryAction) {
        match self {
            SearchError::QueryParseFailed { .. } => RecoveryAction::NotifyUser,
            SearchError::InvalidFilter { .. } => RecoveryAction::NotifyUser,
            SearchError::Timeout { .. } => RecoveryAction::Fallback,
            _ => RecoveryAction::Retry,
        }
    }
}

impl ErrorRecovery for CloudError {
    open spec fn spec_retryable(&self) -> bool {
        match self {
            CloudError::RequestFailed { .. } => true,
            CloudError::Timeout { .. } => true,
            CloudError::NetworkUnavailable => true,
            _ => false,
        }
    }

    /// The rate-limit delay is a fallback; a caller that has a `Retry-After`
    /// answer should prefer it.
    open spec fn spec_retry_delay_ms(&self) -> Option<u64> {
        match self {
            CloudError::RateLimitExceeded => Some(60000),
            CloudError::Timeout { .. } => Some(1000),
            CloudError::RequestFailed { .. } => Some(2000),
            CloudError::NetworkUnavailable => Some(5000),
            _ => None,
        }
    }

    open spec fn spec_recovery_action(&self) -> RecoveryAction {
        match self {
            CloudError::CostLimitReached { .. } => RecoveryAction::Fallback,
            CloudError::AuthenticationFailed => RecoveryAction::NotifyUser,
            CloudError::NetworkUnavailable => RecoveryAction::Fallback,
            CloudError::RateLimitExceeded => RecoveryAction::Retry,
            _ => RecoveryAction::Retry,
        }
    }

    fn is_retryable(&self) -> (b: bool) {
        match self {
            CloudError::RequestFailed { .. } => true,
            CloudError::Timeout { .. } => true,
            CloudError::NetworkUnavailable => true,
            _ => false,
        }
    }

    fn retry_delay_ms(&self) -> (d: Option<u64>) {
        match self {
            CloudError::RateLimitExceeded => Some(60000),
            CloudError::Timeout { .. } => Some(1000),
            CloudError::RequestFailed { .. } => Some(2000),
            CloudError::NetworkUnavailable => Some(5000),
            _ => None,
        }
    }

    fn recovery_action(&self) -> (a: RecoveryAction) {
        match self {
            CloudError::CostLimitReached { .. } => RecoveryAction::Fallback,
            CloudError::AuthenticationFailed => RecoveryAction::NotifyUser,
            CloudError::NetworkUnavailable => RecoveryAction::Fallback,
            CloudError::RateLimitExceeded => RecoveryAction::Retry,
            _ => RecoveryAction::Retry,
        }
    }
}

impl ErrorRecovery for DatabaseError {
    open spec fn spec_retryable(&self) -> bool {
        match self {
            DatabaseError::ConnectionFailed { .. } => true,
            DatabaseError::TransactionFailed { .. } => true,
            _ => false,
        }
    }

    open spec fn spec_retry_delay_ms(&self) -> Option<u64> {
        match self {
            DatabaseError::ConnectionFailed { .. } => Some(1000),
            DatabaseError::TransactionFailed { .. } => Some(100),
            _ => None,
        }
    }

    open spec fn spec_recovery_action(&self) -> RecoveryAction {
        match self {
            DatabaseError::Corrupted { .. } => RecoveryAction::NotifyUser,
            DatabaseError::MigrationFailed { .. } => RecoveryAction::Abort,
            _ => RecoveryAction::Retry,
        }
    }

    fn is_retryable(&self) -> (b: bool) {
        match self {
            DatabaseError::ConnectionFailed { .. } => true,
            DatabaseError::TransactionFailed { .. } => true,
            _ => false,
        }
    }

    fn retry_delay_ms(&self) -> (d: Option<u64>) {
        match self {
            DatabaseError::ConnectionFailed { .. } => Some(1000),
            DatabaseError::TransactionFailed { .. } => Some(100),
            _ => None,
        }
    }

    fn recovery_action(&self) -> (a: RecoveryAction) {
        match self {
            DatabaseError::Corrupted { .. } => RecoveryAction::NotifyUser,
            DatabaseError::MigrationFailed { .. } => RecoveryAction::Abort,
            _ => RecoveryAction::Retry,
        }
    }
}

impl ErrorRecovery for FileSystemError {
    open spec fn spec_retryable(&self) -> bool {
        self is ReadFailed
    }

    open spec fn spec_retry_delay_ms(&self) -> Option<u64> {
        if self is ReadFailed {
            Some(500)
        } else {
            None
        }
    }

    open spec fn spec_recovery_action(&self) -> RecoveryAction {
        match self {
            FileSystemError::PathNotFound { .. } => RecoveryAction::Skip,
            FileSystemError::PermissionDenied { .. } => RecoveryAction::Skip,
            FileSystemError::WatchFailed { .. } => RecoveryAction::NotifyUser,
            FileSystemError::ReadFailed { .. } => RecoveryAction::Retry,
        }
    }

    fn is_retryable(&self) -> (b: bool) {
        match self {
            FileSystemError::ReadFailed { .. } => true,
            _ => false,
        }
    }

    fn retry_delay_ms(&self) -> (d: Option<u64>) {
        match self {
            FileSystemError::ReadFailed { .. } => Some(500),
            _ => None,
        }
    }

    fn recovery_action(&self) -> (a: RecoveryAction) {
        match self {
            FileSystemError::PathNotFound { .. } => RecoveryAction::Skip,
            FileSystemError::PermissionDenied { .. } => RecoveryAction::Skip,
            FileSystemError::WatchFailed { .. } => RecoveryAction::NotifyUser,
            FileSystemError::ReadFailed { .. } => RecoveryAction::Retry,
        }
    }
}

impl ErrorRecovery for OsError {
    open spec fn spec_retryable(&self) -> bool {
        match self {
            OsError::DesktopTakeoverFailed { .. } => true,
            OsError::SetParentFailed { .. } => true,
            OsError::DisplayChangeFailed { .. } => true,
            OsError::ThumbnailExtractionFailed { .. } => true,
            OsError::ShellItemCreationFailed { .. } => true,
            OsError::ComInitFailed { .. } => true,
            _ => false,
        }
    }

    open spec fn spec_retry_delay_ms(&self) -> Option<u64> {
        match self {
            OsError::DesktopTakeoverFailed { .. } => Some(1000),
            OsError::SetParentFailed { .. } => Some(500),
            OsError::DisplayChangeFailed { .. } => Some(500),
            OsError::ThumbnailExtractionFailed { .. } => Some(100),
            OsError::ShellItemCreationFailed { .. } => Some(100),
            OsError::ComInitFailed { .. } => Some(500),
            _ => None,
        }
    }

    open spec fn spec_recovery_action(&self) -> RecoveryAction {
        match self {
            OsError::PlatformNotSupported { .. } => RecoveryAction::Abort,
            OsError::ProgmanNotFound => RecoveryAction::NotifyUser,
            OsError::WorkerWNotFound => RecoveryAction::NotifyUser,
            OsError::KeyboardHookFailed { .. } => RecoveryAction::Skip,
            OsError::InvalidWindowHandle { .. } => RecoveryAction::Retry,
            OsError::ThumbnailExtractionFailed { .. } => RecoveryAction::Fallback,
            OsError::ShellItemCreationFailed { .. } => RecoveryAction::Skip,
            OsError::ComInitFailed { .. } => RecoveryAction::Retry,
            _ => RecoveryAction::Retry,
        }
    }

    fn is_retryable(&self) -> (b: bool) {
        match self {
            OsError::DesktopTakeoverFailed { .. } => true,
            OsError::SetParentFailed { .. } => true,
            OsError::DisplayChangeFailed { .. } => true,
            OsError::ThumbnailExtractionFailed { .. } => true,
            OsError::ShellItemCreationFailed { .. } => true,
            OsError::ComInitFailed { .. } => true,
            _ => false,
        }
    }

    fn retry_delay_ms(&self) -> (d: Option<u64>) {
        match self {
            OsError::DesktopTakeoverFailed { .. } => Some(1000),
            OsError::SetParentFailed { .. } => Some(500),
            OsError::DisplayChangeFailed { .. } => Some(500),
            OsError::ThumbnailExtractionFailed { .. } => Some(100),
            OsError::ShellItemCreationFailed { .. } => Some(100),
            OsError::ComInitFailed { .. } => Some(500),
            _ => None,
        }
    }

    fn recovery_action(&self) -> (a: RecoveryAction) {
        match self {
            OsError::PlatformNotSupported { .. } => RecoveryAction::Abort,
            OsError::ProgmanNotFound => RecoveryAction::NotifyUser,
            OsError::WorkerWNotFound => RecoveryAction::NotifyUser,
            OsError::KeyboardHookFailed { .. } => RecoveryAction::Skip,
            OsError::InvalidWindowHandle { .. } => RecoveryAction::Retry,
            OsError::ThumbnailExtractionFailed { .. } => RecoveryAction::Fallback,
            OsError::ShellItemCreationFailed { .. } => RecoveryAction::Skip,
            OsError::ComInitFailed { .. } => RecoveryAction::Retry,
            _ => RecoveryAction::Retry,
        }
    }
}

impl ErrorRecovery for NeuralFSError {
    /// Database-layer and I/O errors count as retryable; configuration,
    /// internal and watcher errors do not.
    open spec fn spec_retryable(&self) -> bool {
        match self {
            NeuralFSError::Index(e) => e.spec_retryable(),
            NeuralFSError::Search(e) => e.spec_retryable(),
            NeuralFSError::Cloud(e) => e.spec_retryable(),
            NeuralFSError::Database(_) => true,
            NeuralFSError::DatabaseInternal(e) => e.spec_retryable(),
            NeuralFSError::FileSystem(e) => e.spec_retryable(),
            NeuralFSError::Os(e) => e.spec_retryable(),
            NeuralFSError::Config(_) => false,
            NeuralFSError::Io(_) => true,
            NeuralFSError::Internal(_) => false,
            NeuralFSError::WatcherError(_) => false,
            NeuralFSError::ConfigError(_) => false,
        }
    }

    open spec fn spec_retry_delay_ms(&self) -> Option<u64> {
        match self {
            NeuralFSError::Index(e) => e.spec_retry_delay_ms(),
            NeuralFSError::Search(e) => e.spec_retry_delay_ms(),
            NeuralFSError::Cloud(e) => e.spec_retry_delay_ms(),
            NeuralFSError::Database(_) => Some(1000),
            NeuralFSError::DatabaseInternal(e) => e.spec_retry_delay_ms(),
            NeuralFSError::FileSystem(e) => e.spec_retry_delay_ms(),
            NeuralFSError::Os(e) => e.spec_retry_delay_ms(),
            NeuralFSError::Io(_) => Some(1000),
            _ => None,
        }
    }

    open spec fn spec_recovery_action(&self) -> RecoveryAction {
        match self {
            NeuralFSError::Index(e) => e.spec_recovery_action(),
            NeuralFSError::Search(e) => e.spec_recovery_action(),
            NeuralFSError::Cloud(e) => e.spec_recovery_action(),
            NeuralFSError::Database(_) => RecoveryAction::Retry,
            NeuralFSError::DatabaseInternal(e) => e.spec_recovery_action(),
            NeuralFSError::FileSystem(e) => e.spec_recovery_action(),
            NeuralFSError::Os(e) => e.spec_recovery_action(),
            NeuralFSError::Config(_) => RecoveryAction::NotifyUser,
            NeuralFSError::Io(_) => RecoveryAction::Retry,
            NeuralFSError::Internal(_) => RecoveryAction::Abort,
            NeuralFSError::WatcherError(_) => RecoveryAction::NotifyUser,
            NeuralFSError::ConfigError(_) => RecoveryAction::NotifyUser,
        }
    }

    fn is_retryable(&self) -> (b: bool) {
        match self {
            NeuralFSError::Index(e) => e.is_retryable(),
            NeuralFSError::Search(e) => e.is_retryable(),
            NeuralFSError::Cloud(e) => e.is_retryable(),
            NeuralFSError::Database(_) => true,
            NeuralFSError::DatabaseInternal(e) => e.is_retryable(),
            NeuralFSError::FileSystem(e) => e.is_retryable(),
            NeuralFSError::Os(e) => e.is_retryable(),
            NeuralFSError::Config(_) => false,
            NeuralFSError::Io(_) => true,
            NeuralFSError::Internal(_) => false,
            NeuralFSError::WatcherError(_) => false,
            NeuralFSError::ConfigError(_) => false,
        }
    }

    fn retry_delay_ms(&self) -> (d: Option<u64>) {
        match self {
            NeuralFSError::Index(e) => e.retry_delay_ms(),
            NeuralFSError::Search(e) => e.retry_delay_ms(),
            NeuralFSError::Cloud(e) => e.retry_delay_ms(),
            NeuralFSError::Database(_) => Some(1000),
            NeuralFSError::DatabaseInternal(e) => e.retry_delay_ms(),
            NeuralFSError::FileSystem(e) => e.retry_delay_ms(),
            NeuralFSError::Os(e) => e.retry_delay_ms(),
            NeuralFSError::Io(_) => Some(1000),
            _ => None,
        }
    }

    fn recovery_action(&self) -> (a: RecoveryAction) {
        match self {
            NeuralFSError::Index(e) => e.recovery_action(),
            NeuralFSError::Search(e) => e.recovery_action(),
            NeuralFSError::Cloud(e) => e.recovery_action(),
            NeuralFSError::Database(_) => RecoveryAction::Retry,
            NeuralFSError::DatabaseInternal(e) => e.recovery_action(),
            NeuralFSError::FileSystem(e) => e.recovery_action(),
            NeuralFSError::Os(e) => e.recovery_action(),
            NeuralFSError::Config(_) => RecoveryAction::NotifyUser,
            NeuralFSError::Io(_) => RecoveryAction::Retry,
            NeuralFSError::Internal(_) => RecoveryAction::Abort,
            NeuralFSError::WatcherError(_) => RecoveryAction::NotifyUser,
            NeuralFSError::ConfigError(_) => RecoveryAction::NotifyUser,
        }
    }
}

impl From<IndexError> for NeuralFSError {
    fn from(e: IndexError) -> (r: Self) {
        NeuralFSError::Index(e)
    }
}

impl vstd::std_specs::convert::FromSpecImpl<IndexError> for NeuralFSError {
    open spec fn obeys_from_spec() -> bool {
        true
    }

    open spec fn from_spec(e: IndexError) -> Self {
        NeuralFSError::Index(e)
    }
}

impl From<SearchError> for NeuralFSError {
    fn from(e: SearchError) -> (r: Self) {
        NeuralFSError::Search(e)
    }
}

impl vstd::std_specs::convert::FromSpecImpl<SearchError> for NeuralFSError {
    open spec fn obeys_from_spec() -> bool {
        true
    }

    open spec fn from_spec(e: SearchError) -> Self {
        NeuralFSError::Search(e)
    }
}

impl From<CloudError> for NeuralFSError {
    fn from(e: CloudError) -> (r: Self) {
        NeuralFSError::Cloud(e)
    }
}

impl vstd::std_specs::convert::FromSpecImpl<CloudError> for NeuralFSError {
    open spec fn obeys_from_spec() -> bool {
        true
    }

    open spec fn from_spec(e: CloudError) -> Self {
        NeuralFSError::Cloud(e)
    }
}

impl From<DatabaseError> for NeuralFSError {
    fn from(e: DatabaseError) -> (r: Self) {
        NeuralFSError::DatabaseInternal(e)
    }
}

impl vstd::std_specs::convert::FromSpecImpl<DatabaseError> for NeuralFSError {
    open spec fn obeys_from_spec() -> bool {
        true
    }

    open spec fn from_spec(e: DatabaseError) -> Self {
        NeuralFSError::DatabaseInternal(e)
    }
}

impl From<FileSystemError> for NeuralFSError {
    fn from(e: FileSystemError) -> (r: Self) {
        NeuralFSError::FileSystem(e)
    }
}

impl vstd::std_specs::convert::FromSpecImpl<FileSystemError> for NeuralFSError {
    open spec fn obeys_from_spec() -> bool {
        true
    }

    open spec fn from_spec(e: FileSystemError) -> Self {
        NeuralFSError::FileSystem(e)
    }
}

impl From<ConfigError> for NeuralFSError {
    fn from(e: ConfigError) -> (r: Self) {
        NeuralFSError::Config(e)
    }
}

impl vstd::std_specs::convert::FromSpecImpl<ConfigError> for NeuralFSError {
    open spec fn obeys_from_spec() -> bool {
        true
    }

    open spec fn from_spec(e: ConfigError) -> Self {
        NeuralFSError::Config(e)
    }
}

impl From<OsError> for NeuralFSError {
    fn from(e: OsError) -> (r: Self) {
        NeuralFSError::Os(e)
    }
}

impl vstd::std_specs::convert::FromSpecImpl<OsError> for NeuralFSError {
    open spec fn obeys_from_spec() -> bool {
        true
    }

    open spec fn from_spec(e: OsError) -> Self {
        NeuralFSError::Os(e)
    }
}

impl From<sqlx::Error> for NeuralFSError {
    fn from(e: sqlx::Error) -> (r: Self) {
        NeuralFSError::Database(e)
    }
}

impl vstd::std_specs::convert::FromSpecImpl<sqlx::Error> for NeuralFSError {
    open spec fn obeys_from_spec() -> bool {
        true
    }

    open spec fn from_spec(e: sqlx::Error) -> Self {
        NeuralFSError::Database(e)
    }
}

impl From<std::io::Error> for NeuralFSError {
    fn from(e: std::io::Error) -> (r: Self) {
        NeuralFSError::Io(e)
    }
}

impl vstd::std_specs::convert::FromSpecImpl<std::io::Error> for NeuralFSError {
    open spec fn obeys_from_spec() -> bool {
        true
    }

    open spec fn from_spec(e: std::io::Error) -> Self {
        NeuralFSError::Io(e)
    }
}

} // verus!
