//! Tag commands: the values exchanged with the front end, and the names of
//! tag kinds and tag sources.

use vstd::prelude::*;
use crate::text::{str_eq, to_string};
use crate::utils::lowercase;

verus! {

/// Kind of a tag.
#[derive(Debug, Clone, Copy, PartialEq, Eq, Structural)]
pub enum TagType {
    /// A category.
    Category,
    /// A file type.
    FileType,
    /// A project.
    Project,
    /// A status.
    Status,
    /// Made by the AI.
    AutoGenerated,
    /// Made by the user.
    Custom,
}

/// How a tag came to a file.
#[derive(Debug, Clone, Copy, PartialEq, Eq, Structural)]
pub enum TagSource {
    /// Given by the user.
    Manual,
    /// Proposed by the AI.
    AIGenerated,
    /// Inherited from a parent tag.
    Inherited,
    /// Imported.
    Imported,
}

/// A tag, as shown by the front end.
#[derive(Debug, Clone)]
pub struct TagDto {
    /// Tag id.
    pub id: String,
    /// Tag name.
    pub name: String,
    /// Localized display name.
    pub display_name: Option<String>,
    /// Parent tag id.
    pub parent_id: Option<String>,
    /// Tag kind.
    pub tag_type: String,
    /// Colour (hex).
    pub color: String,
    /// Icon.
    pub icon: Option<String>,
    /// Whether this is a system tag.
    pub is_system: bool,
    /// Number of uses.
    pub usage_count: u64,
}

/// Request to add a tag to a file.
#[derive(Debug, Clone)]
pub struct AddTagRequest {
    /// File id.
    pub file_id: String,
    /// Tag id.
    pub tag_id: String,
}

/// Request to remove a tag from a file.
#[derive(Debug, Clone)]
pub struct RemoveTagRequest {
    /// File id.
    pub file_id: String,
    /// Tag id.
    pub tag_id: String,
}

/// Request to confirm a proposed tag.
#[derive(Debug, Clone)]
pub struct ConfirmTagRequest {
    /// File id.
    pub file_id: String,
    /// Tag id.
    pub tag_id: String,
}

/// Request to reject a proposed tag.
#[derive(Debug, Clone)]
pub struct RejectTagRequest {
    /// File id.
    pub file_id: String,
    /// Tag id.
    pub tag_id: String,
    /// Whether to block similar tags too.
    pub block_similar: Option<bool>,
}

/// Request to create a tag.
#[derive(Debug, Clone)]
pub struct CreateTagRequest {
    /// Tag name.
    pub name: String,
    /// Parent tag id.
    pub parent_id: Option<String>,
    /// Tag kind, by name.
    pub tag_type: Option<String>,
    /// Colour (hex).
    pub color: Option<String>,
}

/// Outcome of a tag operation.
#[derive(Debug, Clone)]
pub struct TagOperationResult {
    /// Whether the operation succeeded.
    pub success: bool,
    /// Message for the user.
    pub message: String,
    /// Files affected.
    pub affected_files: Vec<String>,
    /// Tags affected.
    pub affected_tags: Vec<String>,
    /// The tag created, if any.
    pub created_tag: Option<TagDto>,
}

/// The tag kind named by a lowercase name; `Custom` for any other name.
pub open spec fn tag_type_of_name(s: Seq<char>) -> TagType {
    if s == "category"@ {
        TagType::Category
    } else if s == "filetype"@ || s == "file_type"@ {
        TagType::FileType
    } else if s == "project"@ {
        TagType::Project
    } else if s == "status"@ {
        TagType::Status
    } else if s == "autogenerated"@ || s == "auto_generated"@ {
        TagType::AutoGenerated
    } else {
        TagType::Custom
    }
}

/// The tag kind named by `type_str`, in any case; `Custom` when the name is
/// not one of the known kinds.
pub fn parse_tag_type(type_str: &str) -> (t: TagType)
    ensures
        t == tag_type_of_name(lowercase(type_str@)),
{
    let lower = crate::utils::to_lowercase(type_str);
    let s = lower.as_str();
    if str_eq(s, "category") {
        TagType::Category
    } else if str_eq(s, "filetype") || str_eq(s, "file_type") {
        TagType::FileType
    } else if str_eq(s, "project") {
        TagType::Project
    } else if str_eq(s, "status") {
        TagType::Status
    } else if str_eq(s, "autogenerated") || str_eq(s, "auto_generated") {
        TagType::AutoGenerated
    } else {
        TagType::Custom
    }
}

/// The name of a tag source.
pub open spec fn tag_source_name(s: TagSource) -> Seq<char> {
    match s {
        TagSource::Manual => "manual"@,
        TagSource::AIGenerated => "ai_generated"@,
        TagSource::Inherited => "inherited"@,
        TagSource::Imported => "imported"@,
    }
}

/// The name of a tag source: `manual`, `ai_generated`, `inherited` or
/// `imported`.
pub fn tag_source_to_string(source: &TagSource) -> (r: String)
    ensures
        r@ == tag_source_name(*source),
{
    match source {
        TagSource::Manual => to_string("manual"),
        TagSource::AIGenerated => to_string("ai_generated"),
        TagSource::Inherited => to_string("inherited"),
        TagSource::Imported => to_string("imported"),
    }
}

} // verus!
