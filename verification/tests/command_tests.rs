use neural_fs::commands::{
    block_relation, block_relation_with_rule, confirm_relation, get_block_rules, parse_block_scope, parse_relation_type,
    reject_relation_with_rule, relation_type_to_string, remove_block_rule, BlockRelationRequest, BlockScope,
    ConfirmRelationRequest, RejectRelationRequest, RelationType,
};
use neural_fs::db::{
    is_migration_file, migration_from_file, migration_statements, AppliedMigration, Migration, MigrationManager, MigrationStep,
};
use neural_fs::numbers::{parse_i64, parse_u32, parse_u64};
use neural_fs::watchdog_args::{parse_watchdog_args, ArgsRequest};
use neural_fs::errors::DatabaseError;
use neural_fs::inference::{CloudModelType, InferenceError, InferenceOptions, LocalModelType, RateLimiter};
use neural_fs::search::{
    build_search_filters, get_search_suggestions, parse_file_type, str_contains, FileType, SearchFilesRequest, TimeRangeDto,
    DEFAULT_MIN_SCORE_BITS,
};
use neural_fs::tags::{parse_tag_type, tag_source_to_string, TagSource, TagType};

const REL: &str = "550e8400-e29b-41d4-a716-446655440000";

fn block_request(scope: &str, source: Option<&str>, target: Option<&str>) -> BlockRelationRequest {
    BlockRelationRequest {
        relation_id: REL.to_string(),
        scope: scope.to_string(),
        target_tag_id: target.map(|s| s.to_string()),
        source_tag_id: source.map(|s| s.to_string()),
    }
}

#[test]
fn test_confirm_relation_normalizes_id() {
    let r = confirm_relation(&ConfirmRelationRequest { relation_id: REL.to_uppercase() }).unwrap();
    assert!(r.success);
    assert_eq!(r.message, "Relation confirmed successfully");
    assert_eq!(r.affected_relations, vec![REL.to_string()]);
    assert!(r.created_block_rules.is_empty());
    let e = confirm_relation(&ConfirmRelationRequest { relation_id: "not-a-uuid".to_string() }).unwrap_err();
    assert!(e.starts_with("Invalid relation_id: "));
}

#[test]
fn test_reject_relation_blocks_when_asked() {
    let req = RejectRelationRequest { relation_id: REL.to_string(), reason: None, block_similar: Some(true) };
    let r = reject_relation_with_rule(&req, 1).unwrap();
    assert_eq!(r.message, "Relation rejected and similar relations blocked");
    assert_eq!(r.created_block_rules, vec!["00000000-0000-0000-0000-000000000001".to_string()]);
    let req = RejectRelationRequest { relation_id: REL.to_string(), reason: None, block_similar: None };
    let r = reject_relation_with_rule(&req, 1).unwrap();
    assert_eq!(r.message, "Relation rejected");
    assert!(r.created_block_rules.is_empty());
}

#[test]
fn test_block_scope_parsing() {
    let t = "00000000-0000-0000-0000-0000000000ff";
    assert_eq!(parse_block_scope(&block_request("PAIR", None, None)), Ok(BlockScope::ThisPairOnly));
    assert_eq!(
        parse_block_scope(&block_request("file_to_tag", None, Some(t))),
        Ok(BlockScope::SourceToTargetTag { target_tag_id: 255 })
    );
    assert_eq!(
        parse_block_scope(&block_request("source_to_target_tag", None, None)),
        Err("target_tag_id required for source_to_target_tag scope".to_string())
    );
    assert_eq!(
        parse_block_scope(&block_request("tag_to_tag", None, Some(t))),
        Err("source_tag_id required for tag_to_tag scope".to_string())
    );
    assert_eq!(
        parse_block_scope(&block_request("tag_to_tag", Some(t), Some(t))),
        Ok(BlockScope::TagToTag { source_tag_id: 255, target_tag_id: 255 })
    );
    assert!(parse_block_scope(&block_request("tag_to_tag", Some("x"), Some(t))).unwrap_err().starts_with("Invalid source_tag_id: "));
    assert_eq!(parse_block_scope(&block_request("everything", None, None)), Err("Unknown block scope: everything".to_string()));
}

#[test]
fn test_block_relation_messages() {
    let r = block_relation_with_rule(&block_request("pair", None, None), 2).unwrap();
    assert_eq!(r.message, "Block rule created with scope: pair");
    assert_eq!(r.affected_relations, vec![REL.to_string()]);
    assert_eq!(r.created_block_rules, vec!["00000000-0000-0000-0000-000000000002".to_string()]);
    let r = block_relation(&block_request("pair", None, None)).unwrap();
    assert_eq!(r.created_block_rules.len(), 1);
    assert!(block_relation(&block_request("bogus", None, None)).is_err());
}

#[test]
fn test_block_rule_commands() {
    let r = remove_block_rule(REL).unwrap();
    assert_eq!(r.message, "Block rule removed");
    assert!(remove_block_rule("zz").unwrap_err().starts_with("Invalid rule_id: "));
    assert!(get_block_rules(None).unwrap().is_empty());
    assert!(get_block_rules(Some(REL)).unwrap().is_empty());
    assert!(get_block_rules(Some("zz")).is_err());
}

#[test]
fn test_relation_type_names() {
    assert_eq!(parse_relation_type("Similar"), Ok(RelationType::ContentSimilar));
    assert_eq!(parse_relation_type("nope"), Err("Unknown relation type: nope".to_string()));
    assert_eq!(relation_type_to_string(&RelationType::SameAuthor), "same_author");
    assert_eq!(parse_relation_type(&relation_type_to_string(&RelationType::Workflow)), Ok(RelationType::Workflow));
}

#[test]
fn test_tag_names() {
    assert_eq!(parse_tag_type("Category"), TagType::Category);
    assert_eq!(parse_tag_type("file_type"), TagType::FileType);
    assert_eq!(parse_tag_type("AUTO_GENERATED"), TagType::AutoGenerated);
    assert_eq!(parse_tag_type("whatever"), TagType::Custom);
    assert_eq!(tag_source_to_string(&TagSource::AIGenerated), "ai_generated");
    assert_eq!(tag_source_to_string(&TagSource::Imported), "imported");
}

#[test]
fn test_inference_defaults() {
    let o = InferenceOptions::default();
    assert!(o.enable_cloud);
    assert_eq!(o.cloud_timeout_ms, 500);
    assert_eq!(o.local_model, LocalModelType::Fast);
    assert_eq!(o.cloud_model, Some(CloudModelType::GPT4oMini));
    assert_eq!(o.max_results, 20);
    assert_ne!(CloudModelType::ClaudeHaiku, CloudModelType::Custom("local-llm".to_string()));
}

#[test]
fn test_search_suggestions() {
    let s = get_search_suggestions("PDF", None);
    let texts: Vec<&str> = s.iter().map(|x| x.text.as_str()).collect();
    assert_eq!(texts, vec!["type:pdf_documents", "tag:PDF", "PDF files", "PDF content"]);
    let s = get_search_suggestions("d", Some(2));
    let texts: Vec<&str> = s.iter().map(|x| x.text.as_str()).collect();
    assert_eq!(texts, vec!["type:pdf_documents", "type:word_documents"]);
    assert!(get_search_suggestions("", None).iter().all(|x| x.suggestion_type == "file_type"));
    assert!(str_contains("image", "mag"));
    assert!(!str_contains("image", "video"));
    assert_eq!(parse_file_type("JPEG"), Some(FileType::Image));
    assert_eq!(parse_file_type("3d"), Some(FileType::Model3D));
    assert_eq!(parse_file_type("unknown"), None);
}

#[test]
fn test_migration_planning() {
    let mut manager = MigrationManager::new();
    manager.add_migration(Migration::new(2, "second", "CREATE TABLE b (x);"));
    manager.add_migration(Migration::new(1, "first", "CREATE TABLE a (x);"));
    assert_eq!(manager.migrations[0].version, 1);
    assert_eq!(manager.migrations[1].version, 2);
    let first = &manager.migrations[0];
    let applied = vec![AppliedMigration {
        version: 1,
        name: "first".to_string(),
        applied_at: "2024-01-01T00:00:00Z".to_string(),
        checksum: first.checksum.clone(),
    }];
    let plan = manager.plan_migrations(&applied);
    assert_eq!(plan.steps, vec![MigrationStep::Skip(0), MigrationStep::Apply(1)]);
    assert!(plan.failure.is_none());
    let tampered = vec![AppliedMigration { checksum: "0".to_string(), ..applied[0].clone() }];
    let plan = manager.plan_migrations(&tampered);
    assert!(plan.steps.is_empty());
    assert!(plan.failure.is_some());
    assert_ne!(Migration::calculate_checksum("a"), Migration::calculate_checksum("b"));
    assert_eq!(Migration::calculate_checksum("a"), Migration::calculate_checksum("a"));
}

#[test]
fn test_migration_statements_split() {
    let v = migration_statements("CREATE TABLE a (x);\n  INSERT INTO a VALUES (1) ;; \n");
    assert_eq!(v, vec!["CREATE TABLE a (x)".to_string(), "INSERT INTO a VALUES (1)".to_string()]);
}

#[test]
fn test_rate_limiter_creation() {
    let limiter = RateLimiter::new(60);
    assert_eq!(limiter.available_tokens(), 60);
}

#[test]
fn test_rate_limiter_budget() {
    let mut limiter = RateLimiter::new_at(2, 1_000);
    assert!(limiter.acquire_at(1_000).is_ok());
    assert!(limiter.acquire_at(30_000).is_ok());
    match limiter.acquire_at(60_999) {
        Err(InferenceError::RateLimitExceeded { retry_after_secs }) => assert_eq!(retry_after_secs, 60),
        _ => panic!("third request granted"),
    }
    assert_eq!(limiter.available_tokens(), 0);
    // a minute after the last refill the budget is whole again
    assert!(limiter.acquire_at(61_000).is_ok());
    assert_eq!(limiter.available_tokens(), 1);
    let mut limiter = RateLimiter::new(2);
    assert!(limiter.acquire().is_ok());
    assert!(limiter.acquire().is_ok());
    assert!(limiter.acquire().is_err());
}

#[test]
fn test_migration_files() {
    assert!(is_migration_file("/m/001_initial_schema.sql"));
    assert!(!is_migration_file("/m/README.md"));
    assert!(!is_migration_file("/m/sql"));
    let m = migration_from_file("/m/001_initial_schema.sql", "CREATE TABLE a (x);").unwrap();
    assert_eq!(m.version, 1);
    assert_eq!(m.name, "001_initial_schema");
    assert_eq!(m.up_sql, "CREATE TABLE a (x);");
    match migration_from_file("/m/initial.sql", "") {
        Err(DatabaseError::MigrationFailed { reason }) => assert_eq!(reason, "Invalid migration version in filename: initial"),
        _ => panic!("bad name accepted"),
    }
    match migration_from_file("/", "") {
        Err(DatabaseError::MigrationFailed { reason }) => assert_eq!(reason, "Invalid migration filename"),
        _ => panic!("root accepted"),
    }
}

#[test]
fn test_parse_i64_like_std() {
    for s in ["0", "42", "-7", "+8", "007", "9223372036854775807", "-9223372036854775808", "9223372036854775808", "", "-", "+", "1a", " 1", "99999999999999999999999"] {
        assert_eq!(parse_i64(s), s.parse::<i64>().ok(), "{}", s);
        assert_eq!(parse_u64(s), s.parse::<u64>().ok(), "{}", s);
        assert_eq!(parse_u32(s), s.parse::<u32>().ok(), "{}", s);
    }
    for s in ["4294967295", "4294967296", "18446744073709551615", "18446744073709551616", "-0", "+0"] {
        assert_eq!(parse_u64(s), s.parse::<u64>().ok(), "{}", s);
        assert_eq!(parse_u32(s), s.parse::<u32>().ok(), "{}", s);
    }
}

#[test]
fn test_build_search_filters() {
    let request = SearchFilesRequest {
        query: "report".to_string(),
        file_types: Some(vec!["PDF".to_string(), "nonsense".to_string(), "jpg".to_string()]),
        tag_ids: Some(vec!["bad".to_string(), REL.to_string()]),
        time_range: Some(TimeRangeDto { start: Some("1970-01-01T00:00:01Z".to_string()), end: Some("never".to_string()) }),
        min_score: None,
        exclude_private: None,
        enable_cloud: None,
        offset: None,
        limit: None,
    };
    let f = build_search_filters(&request).unwrap();
    assert_eq!(f.file_types, Some(vec![FileType::Pdf, FileType::Image]));
    assert_eq!(f.tags, Some(vec![0x550e8400_e29b_41d4_a716_446655440000u128]));
    let range = f.time_range.unwrap();
    assert_eq!(range.start, Some(1000));
    assert_eq!(range.end, None);
    assert_eq!(f.min_score, DEFAULT_MIN_SCORE_BITS);
    assert_eq!(f32::from_bits(f.min_score), 0.3f32);
    assert!(!f.exclude_private);
    let empty = SearchFilesRequest { file_types: Some(vec!["x".to_string()]), tag_ids: None, time_range: None, ..request };
    let f = build_search_filters(&empty).unwrap();
    assert!(f.file_types.is_none());
    assert!(f.time_range.is_none());
}

fn words(v: &[&str]) -> Vec<String> {
    v.iter().map(|s| s.to_string()).collect()
}

#[test]
fn test_watchdog_args() {
    match parse_watchdog_args(&words(&["-e", "/bin/nfs", "-t", "500", "--max-restarts", "7", "-v", "--args", "x", "-h"])) {
        Ok(ArgsRequest::Run(a)) => {
            assert_eq!(a.executable, "/bin/nfs");
            assert_eq!(a.timeout_ms, 500);
            assert_eq!(a.max_restarts, 7);
            assert!(a.verbose);
            assert_eq!(a.args, words(&["x", "-h"]));
        }
        _ => panic!("not a run request"),
    }
    match parse_watchdog_args(&words(&["--executable", "/bin/nfs"])) {
        Ok(ArgsRequest::Run(a)) => {
            assert_eq!(a.timeout_ms, 3000);
            assert_eq!(a.max_restarts, 3);
            assert!(!a.verbose);
            assert!(a.args.is_empty());
        }
        _ => panic!("not a run request"),
    }
    assert!(matches!(parse_watchdog_args(&words(&["-v", "--help", "--bogus"])), Ok(ArgsRequest::Help)));
    assert_eq!(parse_watchdog_args(&words(&["-t", "soon"])).unwrap_err(), "Invalid timeout value");
    assert_eq!(parse_watchdog_args(&words(&["-m", "-1"])).unwrap_err(), "Invalid max-restarts value");
    assert_eq!(parse_watchdog_args(&words(&["--bogus"])).unwrap_err(), "Unknown argument: --bogus");
    assert_eq!(parse_watchdog_args(&words(&["-v"])).unwrap_err(), "--executable is required");
    assert_eq!(parse_watchdog_args(&words(&["-e"])).unwrap_err(), "--executable is required");
}
