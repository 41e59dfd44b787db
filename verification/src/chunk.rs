//! Content chunks: the pieces a document is split into for embedding.

use vstd::prelude::*;

verus! {

/// The kind of content a chunk holds.
#[derive(Debug, Clone, Copy, PartialEq, Eq, Structural)]
pub enum ChunkType {
    Paragraph,
    Heading,
    CodeBlock,
    Table,
    Image,
    Caption,
}

/// Where a chunk lies in its file.
#[derive(Debug, Clone, Copy, PartialEq, Eq)]
pub struct ChunkLocation {
    /// Byte offset of the chunk's start.
    pub start_offset: u64,
    /// Byte offset just past the chunk's end.
    pub end_offset: u64,
    /// First line (text files).
    pub start_line: Option<u32>,
    /// Last line (text files).
    pub end_line: Option<u32>,
    /// Page (PDF).
    pub page_number: Option<u32>,
    /// Image region `(x, y, width, height)`, each normalized to 0..1 and held
    /// as the bit pattern of an `f32`.
    pub bounding_box: Option<(u32, u32, u32, u32)>,
}

impl Default for ChunkLocation {
    fn default() -> (r: Self)
        ensures
            r.start_offset == 0,
            r.end_offset == 0,
            r.start_line is None,
            r.end_line is None,
            r.page_number is None,
            r.bounding_box is None,
    {
        ChunkLocation {
            start_offset: 0,
            end_offset: 0,
            start_line: None,
            end_line: None,
            page_number: None,
            bounding_box: None,
        }
    }
}

/// A piece of a document, ready for vector storage.
#[derive(Debug)]
pub struct ContentChunk {
    /// The chunk's identifier (a UUID's 128 bits).
    pub id: u128,
    /// The identifier of the file it comes from.
    pub file_id: u128,
    /// Its position among the file's chunks, from 0.
    pub chunk_index: u32,
    /// What it holds.
    pub chunk_type: ChunkType,
    /// Its text.
    pub content: String,
    /// Where it lies in the file.
    pub location: ChunkLocation,
    /// Its vector's identifier in the vector store (0 until assigned).
    pub vector_id: u64,
    /// When it was made, in milliseconds since the Unix epoch.
    pub created_at: i64,
}

} // verus!
