use neural_fs::indexer::{
    classify_file_access, retry_base_delay_secs, FileAccessResult, IndexError, IndexTask, IndexerConfig,
    OpenErrorKind, ResilientBatchIndexer, RetryPolicy, TaskPriority, TaskStatus,
};

const FILE_ID: u128 = 0x0190_0000_0000_7000_8000_0000_0000_0001;

#[test]
fn test_task_creation() {
    let task = IndexTask::new(FILE_ID, "/test/file.txt".to_string(), TaskPriority::Normal);
    assert_eq!(task.file_id, FILE_ID);
    assert_eq!(task.path, "/test/file.txt");
    assert_eq!(task.priority, TaskPriority::Normal);
    assert_eq!(task.retry_count, 0);
    assert_eq!(task.max_retries, 5);
    assert_eq!(task.status, TaskStatus::Pending);
    assert!(task.next_retry_at.is_none());
    assert!(task.last_error.is_none());
}

#[test]
fn test_task_status_transitions() {
    assert!(TaskStatus::Pending.can_transition_to(TaskStatus::Processing));
    assert!(TaskStatus::Processing.can_transition_to(TaskStatus::Completed));
    assert!(TaskStatus::Processing.can_transition_to(TaskStatus::Failed));
    assert!(TaskStatus::Processing.can_transition_to(TaskStatus::DeadLetter));
    assert!(TaskStatus::Failed.can_transition_to(TaskStatus::Pending));
    assert!(TaskStatus::DeadLetter.can_transition_to(TaskStatus::Pending));

    assert!(!TaskStatus::Pending.can_transition_to(TaskStatus::Completed));
    assert!(!TaskStatus::Pending.can_transition_to(TaskStatus::Failed));
    assert!(!TaskStatus::Completed.can_transition_to(TaskStatus::Pending));
    assert!(!TaskStatus::Completed.can_transition_to(TaskStatus::Processing));
    assert!(!TaskStatus::Failed.can_transition_to(TaskStatus::Completed));
}

#[test]
fn test_task_mark_failed() {
    let mut task = IndexTask::new(FILE_ID, "/test".to_string(), TaskPriority::Normal);
    task.max_retries = 3;

    task.mark_failed(IndexError::Timeout, 1000);
    assert_eq!(task.retry_count, 1);
    assert_eq!(task.status, TaskStatus::Failed);
    assert!(task.next_retry_at.is_some());

    task.status = TaskStatus::Processing;
    task.mark_failed(IndexError::Timeout, 2000);
    assert_eq!(task.retry_count, 2);
    assert_eq!(task.status, TaskStatus::Failed);

    task.status = TaskStatus::Processing;
    task.mark_failed(IndexError::Timeout, 4000);
    assert_eq!(task.retry_count, 3);
    assert_eq!(task.status, TaskStatus::DeadLetter);
}

#[test]
fn test_mark_failed_at_schedules_retry() {
    let mut task = IndexTask::new(FILE_ID, "/test".to_string(), TaskPriority::Normal);
    task.mark_failed_at(IndexError::Timeout, 10_000, 2_000);
    assert_eq!(task.next_retry_at, Some(12_000));
    assert!(!task.is_ready_at(11_999));
    assert!(task.is_ready_at(12_000));
}

#[test]
fn test_task_is_ready() {
    let mut task = IndexTask::new(FILE_ID, "/test".to_string(), TaskPriority::Normal);
    let now: u64 = 1_000_000;
    assert!(task.is_ready());

    task.status = TaskStatus::Processing;
    assert!(!task.is_ready());

    task.status = TaskStatus::Completed;
    assert!(!task.is_ready());

    task.status = TaskStatus::DeadLetter;
    assert!(!task.is_ready());

    task.status = TaskStatus::Failed;
    task.next_retry_at = Some(now - 1000);
    assert!(task.is_ready_at(now));

    task.next_retry_at = Some(now + 100_000);
    assert!(!task.is_ready_at(now));
}

#[test]
fn test_error_is_retryable() {
    assert!(IndexError::FileLocked { path: String::new() }.is_retryable());
    assert!(IndexError::IoError { reason: "test".to_string() }.is_retryable());
    assert!(IndexError::Timeout.is_retryable());
    assert!(IndexError::StorageFailed { reason: "test".to_string() }.is_retryable());
    assert!(IndexError::EmbeddingFailed { reason: "test".to_string() }.is_retryable());

    assert!(!IndexError::FileNotFound { path: String::new() }.is_retryable());
    assert!(!IndexError::UnsupportedFileType { extension: "xyz".to_string() }.is_retryable());
    assert!(!IndexError::IndexCorrupted { reason: "test".to_string() }.is_retryable());
}

#[test]
fn test_retry_policy_file_lock_vs_exponential() {
    let policy = RetryPolicy::default();
    let file_lock_error = IndexError::FileLocked { path: "/test".to_string() };
    let delay = policy.calculate_base_delay_ms(5, &file_lock_error);
    assert_eq!(delay, policy.file_lock_delay_ms);

    let timeout_error = IndexError::Timeout;
    let delay = policy.calculate_base_delay_ms(0, &timeout_error);
    assert!(delay >= 750);
    assert!(delay <= 1250);
}

#[test]
fn test_backoff_doubles_and_caps() {
    let policy = RetryPolicy::default();
    assert_eq!(policy.capped_exponential_delay_ms(0), 1000);
    assert_eq!(policy.capped_exponential_delay_ms(3), 8000);
    assert_eq!(policy.capped_exponential_delay_ms(4), 16000);
    assert_eq!(policy.capped_exponential_delay_ms(30), 16000);
    assert_eq!(retry_base_delay_secs(0), 1);
    assert_eq!(retry_base_delay_secs(2), 4);
    assert_eq!(retry_base_delay_secs(9), 16);
    assert!(policy.should_retry(4, &IndexError::Timeout));
    assert!(!policy.should_retry(5, &IndexError::Timeout));
    assert!(!policy.should_retry(0, &IndexError::QueueFull));
}

#[test]
fn test_dead_letter_stats() {
    let config = IndexerConfig { dead_letter_max_size: 100, ..Default::default() };
    let mut indexer = ResilientBatchIndexer::new(config);
    for i in 0..5 {
        let mut task = IndexTask::new(FILE_ID + i as u128, format!("/test/{}", i), TaskPriority::Normal);
        task.max_retries = 0;
        task.status = TaskStatus::Processing;
        let error = if i % 2 == 0 {
            IndexError::Timeout
        } else {
            IndexError::FileLocked { path: format!("/test/{}", i) }
        };
        task.mark_failed(error.clone(), 1000);
        indexer.handle_failure(task, error, 1000);
    }
    let stats = indexer.dead_letter_stats();
    assert_eq!(stats.total_count, 5);
    assert!(!stats.is_at_capacity());
    assert!(stats.count_for("Timeout") > 0);
    assert!(stats.count_for("FileLocked") > 0);
    assert_eq!(stats.count_for("Timeout"), 3);
    assert_eq!(stats.count_for("FileLocked"), 2);
}

#[test]
fn test_file_access_check() {
    assert_eq!(classify_file_access(true, None), FileAccessResult::Accessible);
    assert_eq!(classify_file_access(false, None), FileAccessResult::NotFound);
    assert_eq!(
        classify_file_access(true, Some((OpenErrorKind::PermissionDenied, None, "denied".to_string()))),
        FileAccessResult::Locked
    );
    assert_eq!(
        classify_file_access(true, Some((OpenErrorKind::Other, Some(32), "sharing".to_string()))),
        FileAccessResult::Locked
    );
    assert_eq!(
        classify_file_access(true, Some((OpenErrorKind::Other, Some(5), "io".to_string()))),
        FileAccessResult::Error("io".to_string())
    );
}

#[test]
fn test_queue_order_and_retry_from_dead_letter() {
    let mut indexer = ResilientBatchIndexer::with_defaults();
    indexer.submit(IndexTask::new(1, "/low".to_string(), TaskPriority::Low)).unwrap();
    indexer.submit(IndexTask::new(2, "/high".to_string(), TaskPriority::High)).unwrap();
    indexer.submit(IndexTask::new(3, "/normal".to_string(), TaskPriority::Normal)).unwrap();
    assert_eq!(indexer.pending_count(), 3);
    let batch = indexer.collect_ready_tasks();
    let paths: Vec<&str> = batch.iter().map(|t| t.path.as_str()).collect();
    assert_eq!(paths, vec!["/high", "/normal", "/low"]);
    assert_eq!(indexer.pending_count(), 0);

    let mut task = IndexTask::new(4, "/dead".to_string(), TaskPriority::Normal);
    task.max_retries = 1;
    let id = task.id;
    indexer.handle_failure(task, IndexError::Timeout, 1000);
    assert_eq!(indexer.dead_letter_count(), 1);
    assert!(indexer.retry_dead_letter_task(id).is_ok());
    assert_eq!(indexer.dead_letter_count(), 0);
    assert_eq!(indexer.pending_count(), 1);
    assert!(indexer.retry_dead_letter_task(id).is_err());
}

#[test]
fn test_indexer_submit_and_collect() {
    let mut indexer = ResilientBatchIndexer::with_defaults();
    let task1 = IndexTask::new(11, "/test1".to_string(), TaskPriority::Normal);
    let task2 = IndexTask::new(12, "/test2".to_string(), TaskPriority::High);
    let task3 = IndexTask::new(13, "/test3".to_string(), TaskPriority::Low);
    indexer.submit(task1).unwrap();
    indexer.submit(task2).unwrap();
    indexer.submit(task3).unwrap();
    assert_eq!(indexer.pending_count(), 3);
    let ready = indexer.collect_ready_tasks();
    assert_eq!(ready.len(), 3);
    assert_eq!(ready[0].priority, TaskPriority::High);
    assert_eq!(ready[1].priority, TaskPriority::Normal);
    assert_eq!(ready[2].priority, TaskPriority::Low);
}

#[test]
fn test_dead_letter_queue_operations() {
    let config = IndexerConfig { dead_letter_max_size: 5, ..IndexerConfig::default() };
    let mut indexer = ResilientBatchIndexer::new(config);
    let mut task = IndexTask::new(21, "/test".to_string(), TaskPriority::Normal);
    task.max_retries = 1;
    task.mark_failed(IndexError::Timeout, 1000);
    assert_eq!(task.status, TaskStatus::DeadLetter);
    let task_id = task.id;
    indexer.handle_failure(task.clone(), IndexError::Timeout, 1000);
    assert_eq!(indexer.dead_letter_count(), 1);
    let dlq_tasks = indexer.get_dead_letter_tasks();
    assert_eq!(dlq_tasks.len(), 1);
    indexer.retry_dead_letter_task(task_id).unwrap();
    assert_eq!(indexer.dead_letter_count(), 0);
    assert_eq!(indexer.pending_count(), 1);
}

#[test]
fn dead_letter_queue_drops_oldest_when_full() {
    let config = IndexerConfig { dead_letter_max_size: 2, ..IndexerConfig::default() };
    let mut indexer = ResilientBatchIndexer::new(config);
    for n in 0..3u128 {
        let mut task = IndexTask::new_at(100 + n, 200 + n, format!("/dead{}", n), TaskPriority::Normal, 1_000);
        task.max_retries = 1;
        indexer.handle_failure_at(task, IndexError::Timeout, 2_000, 500);
        assert!(indexer.dead_letter_count() <= 2);
    }
    let paths: Vec<String> = indexer.get_dead_letter_tasks().iter().map(|t| t.path.clone()).collect();
    assert_eq!(paths, vec!["/dead1".to_string(), "/dead2".to_string()]);
    assert_eq!(indexer.stats().total_dead_letter, 3);
    assert_eq!(indexer.stats().current_dead_letter_size, 2);
}
