//! What the status and relation screens send and receive, and the names the
//! front end uses for task states, priorities and relation kinds.

use vstd::prelude::*;
use crate::text::{str_eq, to_string};
use crate::indexer::{TaskStatus, TaskPriority};

verus! {

/// A dead-lettered task as the front end sees it.
#[derive(Debug, Clone)]
pub struct DeadLetterTaskDto {
    pub id: String,
    pub file_id: String,
    pub path: String,
    pub priority: String,
    pub retry_count: u32,
    pub max_retries: u32,
    pub last_error: Option<String>,
    pub error_type: Option<String>,
    pub created_at: String,
    pub age_secs: u64,
}

/// How many dead-lettered tasks failed with one kind of error.
#[derive(Debug, Clone)]
pub struct ErrorTypeCount {
    pub error_type: String,
    pub count: usize,
}

/// The answer to a retry, pause or resume.
#[derive(Debug, Clone)]
pub struct RetryOperationResult {
    pub success: bool,
    pub message: String,
    pub tasks_retried: usize,
}

/// The front end's name of a task state.
pub open spec fn status_name(s: TaskStatus) -> Seq<char> {
    match s {
        TaskStatus::Pending => "pending"@,
        TaskStatus::Processing => "processing"@,
        TaskStatus::Completed => "completed"@,
        TaskStatus::Failed => "failed"@,
        TaskStatus::DeadLetter => "dead_letter"@,
    }
}

/// The front end's name of a priority.
pub open spec fn priority_name(p: TaskPriority) -> Seq<char> {
    match p {
        TaskPriority::Low => "low"@,
        TaskPriority::Normal => "normal"@,
        TaskPriority::High => "high"@,
        TaskPriority::Urgent => "urgent"@,
    }
}

/// The front end's name of a task state.
pub fn task_status_to_string(status: &TaskStatus) -> (r: String)
    ensures
        r@ == status_name(*status),
{
    match status {
        TaskStatus::Pending => to_string("pending"),
        TaskStatus::Processing => to_string("processing"),
        TaskStatus::Completed => to_string("completed"),
        TaskStatus::Failed => to_string("failed"),
        TaskStatus::DeadLetter => to_string("dead_letter"),
    }
}

/// The front end's name of a priority.
pub fn task_priority_to_string(priority: &TaskPriority) -> (r: String)
    ensures
        r@ == priority_name(*priority),
{
    match priority {
        TaskPriority::Low => to_string("low"),
        TaskPriority::Normal => to_string("normal"),
        TaskPriority::High => to_string("high"),
        TaskPriority::Urgent => to_string("urgent"),
    }
}

/// The kind of a relation between files.
#[derive(Debug, Clone, Copy, PartialEq, Eq, Structural)]
pub enum RelationType {
    ContentSimilar,
    SameSession,
    SameProject,
    SameAuthor,
    Reference,
    Derivative,
    Workflow,
    UserDefined,
}

/// Where a relation came from.
#[derive(Debug, Clone, Copy, PartialEq, Eq, Structural)]
pub enum RelationSource {
    AIGenerated,
    SessionTracking,
    UserManual,
    MetadataExtract,
}

/// What the user said of a relation. Strengths are the bit patterns of `f32`
/// values between 0 and 1.
#[derive(Debug, Clone, PartialEq)]
pub enum UserFeedback {
    NoFeedback,
    Confirmed,
    Rejected { reason: Option<String>, block_similar: bool },
    Adjusted { original_strength: u32, user_strength: u32 },
}

/// The front end's name of a relation kind.
pub open spec fn relation_name(t: RelationType) -> Seq<char> {
    match t {
        RelationType::ContentSimilar => "content_similar"@,
        RelationType::SameSession => "same_session"@,
        RelationType::SameProject => "same_project"@,
        RelationType::SameAuthor => "same_author"@,
        RelationType::Reference => "reference"@,
        RelationType::Derivative => "derivative"@,
        RelationType::Workflow => "workflow"@,
        RelationType::UserDefined => "user_defined"@,
    }
}

/// The relation kind a (lowercase) name stands for: its own name or a short
/// form (`similar`, `session`, `project`, `author`, `ref`, `custom`).
pub open spec fn relation_of_name(s: Seq<char>) -> Option<RelationType> {
    if s == "content_similar"@ || s == "similar"@ {
        Some(RelationType::ContentSimilar)
    } else if s == "same_session"@ || s == "session"@ {
        Some(RelationType::SameSession)
    } else if s == "same_project"@ || s == "project"@ {
        Some(RelationType::SameProject)
    } else if s == "same_author"@ || s == "author"@ {
        Some(RelationType::SameAuthor)
    } else if s == "reference"@ || s == "ref"@ {
        Some(RelationType::Reference)
    } else if s == "derivative"@ {
        Some(RelationType::Derivative)
    } else if s == "workflow"@ {
        Some(RelationType::Workflow)
    } else if s == "user_defined"@ || s == "custom"@ {
        Some(RelationType::UserDefined)
    } else {
        None
    }
}

/// The relation kind named by `type_str` (in any case), or the error
/// "Unknown relation type: ...".
pub fn parse_relation_type(type_str: &str) -> (r: Result<RelationType, String>)
    ensures
        match relation_of_name(crate::utils::lowercase(type_str@)) {
            Some(t) => r == Ok::<RelationType, String>(t),
            None => r matches Err(m) && m@ == "Unknown relation type: "@ + type_str@,
        },
{
    let lower = crate::utils::to_lowercase(type_str);
    let s = lower.as_str();
    if str_eq(s, "content_similar") || str_eq(s, "similar") {
        Ok(RelationType::ContentSimilar)
    } else if str_eq(s, "same_session") || str_eq(s, "session") {
        Ok(RelationType::SameSession)
    } else if str_eq(s, "same_project") || str_eq(s, "project") {
        Ok(RelationType::SameProject)
    } else if str_eq(s, "same_author") || str_eq(s, "author") {
        Ok(RelationType::SameAuthor)
    } else if str_eq(s, "reference") || str_eq(s, "ref") {
        Ok(RelationType::Reference)
    } else if str_eq(s, "derivative") {
        Ok(RelationType::Derivative)
    } else if str_eq(s, "workflow") {
        Ok(RelationType::Workflow)
    } else if str_eq(s, "user_defined") || str_eq(s, "custom") {
        Ok(RelationType::UserDefined)
    } else {
        let mut v = crate::text::chars_of("Unknown relation type: ");
        crate::diluted::append_text(&mut v, type_str);
        Err(crate::text::string_from_chars(v.as_slice()))
    }
}

/// The front end's name of a relation kind.
pub fn relation_type_to_string(rel_type: &RelationType) -> (r: String)
    ensures
        r@ == relation_name(*rel_type),
{
    match rel_type {
        RelationType::ContentSimilar => to_string("content_similar"),
        RelationType::SameSession => to_string("same_session"),
        RelationType::SameProject => to_string("same_project"),
        RelationType::SameAuthor => to_string("same_author"),
        RelationType::Reference => to_string("reference"),
        RelationType::Derivative => to_string("derivative"),
        RelationType::Workflow => to_string("workflow"),
        RelationType::UserDefined => to_string("user_defined"),
    }
}

/// The front end's name of a relation's origin.
pub fn relation_source_to_string(source: &RelationSource) -> (r: String)
    ensures
        r@ == match *source {
            RelationSource::AIGenerated => "ai_generated"@,
            RelationSource::SessionTracking => "session_tracking"@,
            RelationSource::UserManual => "user_manual"@,
            RelationSource::MetadataExtract => "metadata_extract"@,
        },
{
    match source {
        RelationSource::AIGenerated => to_string("ai_generated"),
        RelationSource::SessionTracking => to_string("session_tracking"),
        RelationSource::UserManual => to_string("user_manual"),
        RelationSource::MetadataExtract => to_string("metadata_extract"),
    }
}

/// The front end's name of the user's verdict on a relation.
pub fn user_feedback_to_string(feedback: &UserFeedback) -> (r: String)
    ensures
        r@ == match *feedback {
            UserFeedback::NoFeedback => "none"@,
            UserFeedback::Confirmed => "confirmed"@,
            UserFeedback::Rejected { .. } => "rejected"@,
            UserFeedback::Adjusted { .. } => "adjusted"@,
        },
{
    match feedback {
        UserFeedback::NoFeedback => to_string("none"),
        UserFeedback::Confirmed => to_string("confirmed"),
        UserFeedback::Rejected { .. } => to_string("rejected"),
        UserFeedback::Adjusted { .. } => to_string("adjusted"),
    }
}

/// A request to confirm a relation.
#[derive(Debug, Clone)]
pub struct ConfirmRelationRequest {
    pub relation_id: String,
}

/// A request to reject a relation.
#[derive(Debug, Clone)]
pub struct RejectRelationRequest {
    pub relation_id: String,
    pub reason: Option<String>,
    pub block_similar: Option<bool>,
}

/// A request to block a relation.
#[derive(Debug, Clone)]
pub struct BlockRelationRequest {
    pub relation_id: String,
    pub scope: String,
    pub target_tag_id: Option<String>,
    pub source_tag_id: Option<String>,
}

/// The answer to a relation command.
#[derive(Debug, Clone)]
pub struct RelationOperationResult {
    pub success: bool,
    pub message: String,
    pub affected_relations: Vec<String>,
    pub created_block_rules: Vec<String>,
}

/// A block rule as the front end sees it.
#[derive(Debug, Clone)]
pub struct BlockRuleDto {
    pub id: String,
    pub rule_type: String,
    pub description: String,
    pub is_active: bool,
    pub created_at: String,
    pub expires_at: Option<String>,
}

/// The round trip of relation names: every kind's name parses back to it.
pub proof fn lemma_relation_names_round_trip(t: RelationType)
    ensures
        relation_of_name(relation_name(t)) == Some(t),
{
    reveal_strlit("content_similar");
    reveal_strlit("similar");
    reveal_strlit("same_session");
    reveal_strlit("session");
    reveal_strlit("same_project");
    reveal_strlit("project");
    reveal_strlit("same_author");
    reveal_strlit("author");
    reveal_strlit("reference");
    reveal_strlit("ref");
    reveal_strlit("derivative");
    reveal_strlit("workflow");
    reveal_strlit("user_defined");
    reveal_strlit("custom");
    match t {
        RelationType::ContentSimilar => {},
        RelationType::SameSession => {
            assert("same_session"@.len() != "content_similar"@.len());
            assert("same_session"@.len() != "similar"@.len());
            assert(relation_of_name(relation_name(t)) == Some(t));
        },
        RelationType::SameProject => {
            assert("same_project"@[5] != "same_session"@[5]);
            assert(relation_of_name(relation_name(t)) == Some(t));
        },
        RelationType::SameAuthor => {
            assert("same_author"@[5] != "same_session"@[5]);
            assert("same_author"@[5] != "same_project"@[5]);
            assert("same_author"@.len() != "content_similar"@.len());
            assert("same_author"@.len() != "similar"@.len());
            assert("same_author"@.len() != "session"@.len());
            assert("same_author"@.len() != "project"@.len());
            assert(relation_of_name(relation_name(t)) == Some(t));
        },
        RelationType::Reference => {
            assert("reference"@[0] != "same_author"@[0]);
            assert("reference"@[0] != "author"@[0]);
            assert("reference"@[0] != "project"@[0]);
            assert(relation_of_name(relation_name(t)) == Some(t));
        },
        RelationType::Derivative => {
            assert("derivative"@[0] != "reference"@[0]);
            assert("derivative"@[0] != "ref"@[0]);
            assert(relation_of_name(relation_name(t)) == Some(t));
        },
        RelationType::Workflow => {
            assert("workflow"@[0] != "derivative"@[0]);
            assert(relation_of_name(relation_name(t)) == Some(t));
        },
        RelationType::UserDefined => {
            assert("user_defined"@[0] != "workflow"@[0]);
            assert(relation_of_name(relation_name(t)) == Some(t));
        },
    }
}


/// The extent of a block rule.
#[derive(Debug, Clone, Copy, PartialEq, Eq, Structural)]
pub enum BlockScope {
    /// Only this pair of files.
    ThisPairOnly,
    /// From the source file to every file with the target tag.
    SourceToTargetTag { target_tag_id: u128 },
    /// Between the files of two tags.
    TagToTag { source_tag_id: u128, target_tag_id: u128 },
}

/// The message of a field that holds no valid UUID: `Invalid {field}: {error}`.
pub open spec fn invalid_field(field: Seq<char>, err: Seq<char>) -> Seq<char> {
    "Invalid "@ + field + ": "@ + err
}

fn invalid_field_message(field: &str, err: &str) -> (r: String)
    ensures
        r@ == invalid_field(field@, err@),
{
    let mut v = crate::text::chars_of("Invalid ");
    crate::diluted::append_text(&mut v, field);
    crate::diluted::append_text(&mut v, ": ");
    crate::diluted::append_text(&mut v, err);
    crate::text::string_from_chars(v.as_slice())
}

/// The UUID in `s`, or the message `Invalid {field}: {error}`.
pub open spec fn field_uuid(field: Seq<char>, s: Seq<char>) -> Result<u128, Seq<char>> {
    match crate::utils::uuid_parse(s) {
        Ok(v) => Ok(v),
        Err(e) => Err(invalid_field(field, e)),
    }
}

/// The value of a parse of a field's UUID, with the message as text.
pub open spec fn uuid_result_view(r: Result<u128, String>) -> Result<u128, Seq<char>> {
    match r {
        Ok(v) => Ok(v),
        Err(m) => Err(m@),
    }
}

fn parse_field_uuid(field: &str, s: &str) -> (r: Result<u128, String>)
    ensures
        uuid_result_view(r) == field_uuid(field@, s@),
{
    match crate::utils::parse_uuid(s) {
        Ok(v) => Ok(v),
        Err(e) => Err(invalid_field_message(field, e.as_str())),
    }
}

/// What a block request asks for: the scope named by `scope` (in any case),
/// with the tag UUIDs it needs; or the message of the first missing or
/// invalid one, or of an unknown scope.
pub open spec fn block_scope_of(scope: Seq<char>, source_tag: Option<Seq<char>>, target_tag: Option<Seq<char>>) -> Result<BlockScope, Seq<char>> {
    let l = crate::utils::lowercase(scope);
    if l == "this_pair_only"@ || l == "pair"@ {
        Ok(BlockScope::ThisPairOnly)
    } else if l == "source_to_target_tag"@ || l == "file_to_tag"@ {
        match target_tag {
            None => Err("target_tag_id required for source_to_target_tag scope"@),
            Some(t) => match field_uuid("target_tag_id"@, t) {
                Ok(v) => Ok(BlockScope::SourceToTargetTag { target_tag_id: v }),
                Err(m) => Err(m),
            },
        }
    } else if l == "tag_to_tag"@ {
        match (source_tag, target_tag) {
            (None, _) => Err("source_tag_id required for tag_to_tag scope"@),
            (Some(_), None) => Err("target_tag_id required for tag_to_tag scope"@),
            (Some(s), Some(t)) => match field_uuid("source_tag_id"@, s) {
                Err(m) => Err(m),
                Ok(sv) => match field_uuid("target_tag_id"@, t) {
                    Err(m) => Err(m),
                    Ok(tv) => Ok(BlockScope::TagToTag { source_tag_id: sv, target_tag_id: tv }),
                },
            },
        }
    } else {
        Err("Unknown block scope: "@ + scope)
    }
}

/// An optional string as an optional text.
pub open spec fn opt_view(o: Option<String>) -> Option<Seq<char>> {
    match o {
        Some(s) => Some(s@),
        None => None,
    }
}

/// The scope of a block request.
pub fn parse_block_scope(request: &BlockRelationRequest) -> (r: Result<BlockScope, String>)
    ensures
        match r {
            Ok(s) => block_scope_of(request.scope@, opt_view(request.source_tag_id), opt_view(request.target_tag_id)) == Ok::<BlockScope, Seq<char>>(s),
            Err(m) => block_scope_of(request.scope@, opt_view(request.source_tag_id), opt_view(request.target_tag_id)) == Err::<BlockScope, Seq<char>>(m@),
        },
{
    let lower = crate::utils::to_lowercase(request.scope.as_str());
    let l = lower.as_str();
    if str_eq(l, "this_pair_only") || str_eq(l, "pair") {
        Ok(BlockScope::ThisPairOnly)
    } else if str_eq(l, "source_to_target_tag") || str_eq(l, "file_to_tag") {
        match &request.target_tag_id {
            None => Err(to_string("target_tag_id required for source_to_target_tag scope")),
            Some(t) => match parse_field_uuid("target_tag_id", t.as_str()) {
                Ok(v) => Ok(BlockScope::SourceToTargetTag { target_tag_id: v }),
                Err(m) => Err(m),
            },
        }
    } else if str_eq(l, "tag_to_tag") {
        match (&request.source_tag_id, &request.target_tag_id) {
            (None, _) => Err(to_string("source_tag_id required for tag_to_tag scope")),
            (Some(_), None) => Err(to_string("target_tag_id required for tag_to_tag scope")),
            (Some(s), Some(t)) => match parse_field_uuid("source_tag_id", s.as_str()) {
                Err(m) => Err(m),
                Ok(sv) => match parse_field_uuid("target_tag_id", t.as_str()) {
                    Err(m) => Err(m),
                    Ok(tv) => Ok(BlockScope::TagToTag { source_tag_id: sv, target_tag_id: tv }),
                },
            },
        }
    } else {
        let mut v = crate::text::chars_of("Unknown block scope: ");
        crate::diluted::append_text(&mut v, request.scope.as_str());
        Err(crate::text::string_from_chars(v.as_slice()))
    }
}

/// A relation operation's outcome as plain values.
pub open spec fn op_view(r: RelationOperationResult) -> (bool, Seq<char>, Seq<Seq<char>>, Seq<Seq<char>>) {
    (r.success, r.message@, crate::text::string_views(r.affected_relations@), crate::text::string_views(r.created_block_rules@))
}

/// The outcome of a relation command as plain values.
pub open spec fn op_result_view(r: Result<RelationOperationResult, String>) -> Result<(bool, Seq<char>, Seq<Seq<char>>, Seq<Seq<char>>), Seq<char>> {
    match r {
        Ok(o) => Ok(op_view(o)),
        Err(m) => Err(m@),
    }
}

/// A successful outcome.
pub open spec fn op_ok(message: Seq<char>, affected: Seq<Seq<char>>, rules: Seq<Seq<char>>) -> Result<(bool, Seq<char>, Seq<Seq<char>>, Seq<Seq<char>>), Seq<char>> {
    Ok((true, message, affected, rules))
}

/// Confirming relation `relation_id`: success naming the relation, or the
/// message of an invalid id.
pub open spec fn confirm_relation_result(relation_id: Seq<char>) -> Result<(bool, Seq<char>, Seq<Seq<char>>, Seq<Seq<char>>), Seq<char>> {
    match field_uuid("relation_id"@, relation_id) {
        Ok(u) => op_ok("Relation confirmed successfully"@, seq![crate::asset::uuid_text(u)], seq![]),
        Err(m) => Err(m),
    }
}

/// Confirms a relation as valid.
pub fn confirm_relation(request: &ConfirmRelationRequest) -> (r: Result<RelationOperationResult, String>)
    ensures
        op_result_view(r) == confirm_relation_result(request.relation_id@),
{
    match parse_field_uuid("relation_id", request.relation_id.as_str()) {
        Err(m) => Err(m),
        Ok(u) => {
            let mut affected: Vec<String> = Vec::new();
            affected.push(crate::asset::uuid_string(u));
            let r = RelationOperationResult {
                success: true,
                message: to_string("Relation confirmed successfully"),
                affected_relations: affected,
                created_block_rules: Vec::new(),
            };
            proof {
                assert(op_view(r).2 =~= seq![crate::asset::uuid_text(u)]);
                assert(op_view(r).3 =~= Seq::<Seq<char>>::empty());
            }
            Ok(r)
        },
    }
}

/// Rejecting relation `relation_id`, blocking similar ones when asked, with
/// `rule_id` the id of the new block rule.
pub open spec fn reject_relation_result(relation_id: Seq<char>, block_similar: Option<bool>, rule_id: u128) -> Result<(bool, Seq<char>, Seq<Seq<char>>, Seq<Seq<char>>), Seq<char>> {
    match field_uuid("relation_id"@, relation_id) {
        Ok(u) => if block_similar == Some(true) {
            op_ok("Relation rejected and similar relations blocked"@, seq![crate::asset::uuid_text(u)], seq![crate::asset::uuid_text(rule_id)])
        } else {
            op_ok("Relation rejected"@, seq![crate::asset::uuid_text(u)], seq![])
        },
        Err(m) => Err(m),
    }
}

/// Rejects a relation; when `block_similar` is set, the block rule made for
/// similar relations gets the id `rule_id`.
pub fn reject_relation_with_rule(request: &RejectRelationRequest, rule_id: u128) -> (r: Result<RelationOperationResult, String>)
    ensures
        op_result_view(r) == reject_relation_result(request.relation_id@, request.block_similar, rule_id),
{
    match parse_field_uuid("relation_id", request.relation_id.as_str()) {
        Err(m) => Err(m),
        Ok(u) => {
            let block_similar = match request.block_similar {
                Some(b) => b,
                None => false,
            };
            let mut affected: Vec<String> = Vec::new();
            affected.push(crate::asset::uuid_string(u));
            let mut rules: Vec<String> = Vec::new();
            let message = if block_similar {
                rules.push(crate::asset::uuid_string(rule_id));
                to_string("Relation rejected and similar relations blocked")
            } else {
                to_string("Relation rejected")
            };
            let r = RelationOperationResult { success: true, message, affected_relations: affected, created_block_rules: rules };
            proof {
                assert(op_view(r).2 =~= seq![crate::asset::uuid_text(u)]);
                if block_similar {
                    assert(op_view(r).3 =~= seq![crate::asset::uuid_text(rule_id)]);
                } else {
                    assert(op_view(r).3 =~= Seq::<Seq<char>>::empty());
                }
            }
            Ok(r)
        },
    }
}

/// Rejects a relation (one-click unlink), blocking similar relations when
/// asked, under a fresh rule id.
pub fn reject_relation(request: &RejectRelationRequest) -> (r: Result<RelationOperationResult, String>)
    ensures
        exists|rule_id: u128| op_result_view(r) == #[trigger] reject_relation_result(request.relation_id@, request.block_similar, rule_id),
{
    let rule_id = crate::clock::new_uuid_v7();
    reject_relation_with_rule(request, rule_id)
}

/// Blocking relations like `relation_id` with the scope the request names,
/// under the block rule id `rule_id`.
pub open spec fn block_relation_result(request: BlockRelationRequest, rule_id: u128) -> Result<(bool, Seq<char>, Seq<Seq<char>>, Seq<Seq<char>>), Seq<char>> {
    match field_uuid("relation_id"@, request.relation_id@) {
        Err(m) => Err(m),
        Ok(u) => match block_scope_of(request.scope@, opt_view(request.source_tag_id), opt_view(request.target_tag_id)) {
            Err(m) => Err(m),
            Ok(_) => op_ok("Block rule created with scope: "@ + request.scope@, seq![crate::asset::uuid_text(u)], seq![crate::asset::uuid_text(rule_id)]),
        },
    }
}

/// Creates a block rule with id `rule_id` against relations like the given one.
pub fn block_relation_with_rule(request: &BlockRelationRequest, rule_id: u128) -> (r: Result<RelationOperationResult, String>)
    ensures
        op_result_view(r) == block_relation_result(*request, rule_id),
{
    match parse_field_uuid("relation_id", request.relation_id.as_str()) {
        Err(m) => Err(m),
        Ok(u) => match parse_block_scope(request) {
            Err(m) => Err(m),
            Ok(_scope) => {
                let mut v = crate::text::chars_of("Block rule created with scope: ");
                crate::diluted::append_text(&mut v, request.scope.as_str());
                let mut affected: Vec<String> = Vec::new();
                affected.push(crate::asset::uuid_string(u));
                let mut rules: Vec<String> = Vec::new();
                rules.push(crate::asset::uuid_string(rule_id));
                let r = RelationOperationResult {
                    success: true,
                    message: crate::text::string_from_chars(v.as_slice()),
                    affected_relations: affected,
                    created_block_rules: rules,
                };
                proof {
                    assert(op_view(r).2 =~= seq![crate::asset::uuid_text(u)]);
                    assert(op_view(r).3 =~= seq![crate::asset::uuid_text(rule_id)]);
                }
                Ok(r)
            },
        },
    }
}

/// Creates a block rule, under a fresh id, against relations like the given one.
pub fn block_relation(request: &BlockRelationRequest) -> (r: Result<RelationOperationResult, String>)
    ensures
        exists|rule_id: u128| op_result_view(r) == #[trigger] block_relation_result(*request, rule_id),
{
    let rule_id = crate::clock::new_uuid_v7();
    block_relation_with_rule(request, rule_id)
}

/// Removing block rule `rule_id`: success, or the message of an invalid id.
pub open spec fn remove_block_rule_result(rule_id: Seq<char>) -> Result<(bool, Seq<char>, Seq<Seq<char>>, Seq<Seq<char>>), Seq<char>> {
    match field_uuid("rule_id"@, rule_id) {
        Ok(_) => op_ok("Block rule removed"@, seq![], seq![]),
        Err(m) => Err(m),
    }
}

/// Removes a block rule.
pub fn remove_block_rule(rule_id: &str) -> (r: Result<RelationOperationResult, String>)
    ensures
        op_result_view(r) == remove_block_rule_result(rule_id@),
{
    match parse_field_uuid("rule_id", rule_id) {
        Err(m) => Err(m),
        Ok(_u) => {
            let r = RelationOperationResult {
                success: true,
                message: to_string("Block rule removed"),
                affected_relations: Vec::new(),
                created_block_rules: Vec::new(),
            };
            proof {
                assert(op_view(r).2 =~= Seq::<Seq<char>>::empty());
                assert(op_view(r).3 =~= Seq::<Seq<char>>::empty());
            }
            Ok(r)
        },
    }
}

/// The block rules for a file (or for all files): none are stored yet, so the
/// list is empty; an invalid file id gives its message.
pub fn get_block_rules(file_id: Option<&str>) -> (r: Result<Vec<BlockRuleDto>, String>)
    ensures
        match file_id {
            None => r matches Ok(v) && v@.len() == 0,
            Some(f) => match field_uuid("file_id"@, f@) {
                Ok(_) => r matches Ok(v) && v@.len() == 0,
                Err(m) => r matches Err(e) && e@ == m,
            },
        },
{
    match file_id {
        None => Ok(Vec::new()),
        Some(f) => match parse_field_uuid("file_id", f) {
            Ok(_u) => Ok(Vec::new()),
            Err(m) => Err(m),
        },
    }
}


/// A successful queue operation with its message and count.
fn retry_result(message: &str, tasks_retried: usize) -> (r: RetryOperationResult)
    ensures
        r.success,
        r.message@ == message@,
        r.tasks_retried == tasks_retried,
{
    RetryOperationResult { success: true, message: to_string(message), tasks_retried }
}

/// Queues a dead-lettered task for retry: one task, or the message of an
/// invalid id.
pub fn retry_dead_letter(task_id: &str) -> (r: Result<RetryOperationResult, String>)
    ensures
        match field_uuid("task_id"@, task_id@) {
            Ok(_) => r matches Ok(o) && o.success && o.message@ == "Task queued for retry"@ && o.tasks_retried == 1,
            Err(m) => r matches Err(e) && e@ == m,
        },
{
    match parse_field_uuid("task_id", task_id) {
        Ok(_u) => Ok(retry_result("Task queued for retry", 1)),
        Err(m) => Err(m),
    }
}

/// Queues every dead-lettered task for retry.
pub fn retry_all_dead_letter() -> (r: RetryOperationResult)
    ensures
        r.success,
        r.message@ == "All tasks queued for retry"@,
        r.tasks_retried == 0,
{
    retry_result("All tasks queued for retry", 0)
}

/// Empties the dead letter queue.
pub fn clear_dead_letter() -> (r: RetryOperationResult)
    ensures
        r.success,
        r.message@ == "Dead letter queue cleared"@,
        r.tasks_retried == 0,
{
    retry_result("Dead letter queue cleared", 0)
}

/// Pauses indexing.
pub fn pause_indexing() -> (r: RetryOperationResult)
    ensures
        r.success,
        r.message@ == "Indexing paused"@,
        r.tasks_retried == 0,
{
    retry_result("Indexing paused", 0)
}

/// Resumes indexing.
pub fn resume_indexing() -> (r: RetryOperationResult)
    ensures
        r.success,
        r.message@ == "Indexing resumed"@,
        r.tasks_retried == 0,
{
    retry_result("Indexing resumed", 0)
}

} // verus!
