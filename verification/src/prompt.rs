//! The prompt that asks the cloud about a query: the query itself with what
//! the local analysis found (matching tags, the parsed intent, recent files
//! and searches, the file structure).

use vstd::prelude::*;
use crate::chunk::ChunkType;
use crate::inference::FileStructureContext;
use crate::search::{FileType, SearchIntent};
use crate::text::{append_chars, chars_of, string_from_chars, string_views};
use crate::utils::dec_str;

verus! {

/// The name of a file type, as its `Debug` form writes it.
pub open spec fn file_type_name(t: FileType) -> Seq<char> {
    match t {
        FileType::TextDocument => "TextDocument"@,
        FileType::Pdf => "Pdf"@,
        FileType::OfficeDocument => "OfficeDocument"@,
        FileType::Image => "Image"@,
        FileType::Video => "Video"@,
        FileType::Audio => "Audio"@,
        FileType::Code => "Code"@,
        FileType::Model3D => "Model3D"@,
        FileType::Archive => "Archive"@,
        FileType::Other => "Other"@,
    }
}

fn file_type_text(t: FileType) -> (s: Vec<char>)
    ensures
        s@ == file_type_name(t),
{
    match t {
        FileType::TextDocument => chars_of("TextDocument"),
        FileType::Pdf => chars_of("Pdf"),
        FileType::OfficeDocument => chars_of("OfficeDocument"),
        FileType::Image => chars_of("Image"),
        FileType::Video => chars_of("Video"),
        FileType::Audio => chars_of("Audio"),
        FileType::Code => chars_of("Code"),
        FileType::Model3D => chars_of("Model3D"),
        FileType::Archive => chars_of("Archive"),
        FileType::Other => chars_of("Other"),
    }
}

/// The name of a chunk type, as its `Debug` form writes it.
pub open spec fn chunk_type_name(t: ChunkType) -> Seq<char> {
    match t {
        ChunkType::Paragraph => "Paragraph"@,
        ChunkType::Heading => "Heading"@,
        ChunkType::CodeBlock => "CodeBlock"@,
        ChunkType::Table => "Table"@,
        ChunkType::Image => "Image"@,
        ChunkType::Caption => "Caption"@,
    }
}

fn chunk_type_text(t: ChunkType) -> (s: Vec<char>)
    ensures
        s@ == chunk_type_name(t),
{
    match t {
        ChunkType::Paragraph => chars_of("Paragraph"),
        ChunkType::Heading => chars_of("Heading"),
        ChunkType::CodeBlock => chars_of("CodeBlock"),
        ChunkType::Table => chars_of("Table"),
        ChunkType::Image => chars_of("Image"),
        ChunkType::Caption => chars_of("Caption"),
    }
}

/// How the prompt describes the parsed intent: finding files (with the file
/// type, and whether time is limited), finding content (with the content
/// type, and whether its place is needed), or an unclear intent.
pub open spec fn intent_description(intent: SearchIntent) -> Seq<char> {
    match intent {
        SearchIntent::FindFile { file_type_hint, time_hint } => "查找文件"@ + match file_type_hint {
            Some(ft) => " (类型: "@ + file_type_name(ft) + ")"@,
            None => Seq::empty(),
        } + if time_hint is Some {
            " (有时间限制)"@
        } else {
            Seq::empty()
        },
        SearchIntent::FindContent { content_type, need_location } => "查找内容"@ + match content_type {
            Some(ct) => " (类型: "@ + chunk_type_name(ct) + ")"@,
            None => Seq::empty(),
        } + if need_location {
            " (需要定位)"@
        } else {
            Seq::empty()
        },
        SearchIntent::Ambiguous { .. } => "意图不明确"@,
    }
}

/// The intent's description.
fn describe_intent(intent: &SearchIntent) -> (s: Vec<char>)
    ensures
        s@ == intent_description(*intent),
{
    match intent {
        SearchIntent::FindFile { file_type_hint, time_hint } => {
            let mut s = chars_of("查找文件");
            match file_type_hint {
                Some(ft) => {
                    append_chars(&mut s, &chars_of(" (类型: "));
                    append_chars(&mut s, &file_type_text(*ft));
                    append_chars(&mut s, &chars_of(")"));
                },
                None => {},
            }
            let ghost a = s@;
            if time_hint.is_some() {
                append_chars(&mut s, &chars_of(" (有时间限制)"));
            } else {
                proof {
                    assert(a + Seq::<char>::empty() =~= a);
                }
            }
            proof {
                if file_type_hint is None {
                    assert("查找文件"@ + Seq::<char>::empty() =~= "查找文件"@);
                }
            }
            s
        },
        SearchIntent::FindContent { content_type, need_location } => {
            let mut s = chars_of("查找内容");
            match content_type {
                Some(ct) => {
                    append_chars(&mut s, &chars_of(" (类型: "));
                    append_chars(&mut s, &chunk_type_text(*ct));
                    append_chars(&mut s, &chars_of(")"));
                },
                None => {},
            }
            let ghost a = s@;
            if *need_location {
                append_chars(&mut s, &chars_of(" (需要定位)"));
            } else {
                proof {
                    assert(a + Seq::<char>::empty() =~= a);
                }
            }
            proof {
                if content_type is None {
                    assert("查找内容"@ + Seq::<char>::empty() =~= "查找内容"@);
                }
            }
            s
        },
        SearchIntent::Ambiguous { .. } => chars_of("意图不明确"),
    }
}

/// The items joined with `sep` between them.
pub open spec fn joined(items: Seq<Seq<char>>, sep: Seq<char>) -> Seq<char>
    decreases items.len(),
{
    if items.len() == 0 {
        Seq::empty()
    } else if items.len() == 1 {
        items[0]
    } else {
        joined(items.drop_last(), sep) + sep + items.last()
    }
}

/// Appends the first `n` items joined with `, `.
fn append_joined(out: &mut Vec<char>, items: &Vec<String>, n: usize)
    requires
        n <= items@.len(),
    ensures
        final(out)@ == old(out)@ + joined(string_views(items@).take(n as int), ", "@),
{
    let ghost start = old(out)@;
    let ghost v = string_views(items@);
    let sep = chars_of(", ");
    let mut i: usize = 0;
    proof {
        assert(v.take(0) =~= Seq::<Seq<char>>::empty());
        assert(start + Seq::<char>::empty() =~= start);
    }
    while i < n
        invariant
            i <= n <= items@.len(),
            v == string_views(items@),
            sep@ == ", "@,
            out@ == start + joined(v.take(i as int), ", "@),
        decreases n - i,
    {
        if i > 0 {
            append_chars(out, &sep);
        }
        let item = chars_of(items[i].as_str());
        append_chars(out, &item);
        proof {
            assert(v.take(i + 1).drop_last() =~= v.take(i as int));
            assert(v.take(i + 1).last() == items@[i as int]@);
            if i == 0 {
                assert(v.take(1).len() == 1);
                assert(Seq::<char>::empty() + item@ =~= item@);
                assert(start + Seq::<char>::empty() =~= start);
            }
        }
        i = i + 1;
    }
}

/// The most recent searches named in the prompt.
pub const PROMPT_RECENT_SEARCHES: usize = 3;

/// The prompt for a query, in the order: the query; the matching tags (or
/// "无", none); the parsed intent; the number of recently opened files; the
/// file structure's summary (or none); up to three recent searches, when
/// there are any; and the request to analyze the intent.
pub open spec fn cloud_prompt(
    query: Seq<char>,
    tag_names: Seq<Seq<char>>,
    intent: SearchIntent,
    recent_file_count: nat,
    file_structure: Option<Seq<char>>,
    recent_searches: Seq<Seq<char>>,
) -> Seq<char> {
    "用户查询: \""@ + query + "\"\n\n"@ + "上下文信息:\n"@ + (if tag_names.len() > 0 {
        "- 相关标签: "@ + joined(tag_names, ", "@) + "\n"@
    } else {
        "- 相关标签: 无\n"@
    }) + "- 解析意图: "@ + intent_description(intent) + "\n"@ + "- 最近访问文件数: "@ + dec_str(
        recent_file_count,
    ) + "\n"@ + match file_structure {
        Some(summary) => "- 文件结构: "@ + summary + "\n"@,
        None => "- 文件结构: 无\n"@,
    } + (if recent_searches.len() > 0 {
        "- 最近搜索: "@ + joined(
            recent_searches.take(
                if recent_searches.len() < PROMPT_RECENT_SEARCHES {
                    recent_searches.len() as int
                } else {
                    PROMPT_RECENT_SEARCHES as int
                },
            ),
            ", "@,
        ) + "\n"@
    } else {
        Seq::empty()
    }) + "\n请分析用户意图并提供搜索建议。"@
}

/// The prompt asking the cloud about `query`, given the names of the tags
/// that matched it, its parsed intent, how many files were opened recently,
/// the file structure, if known, and the recent searches (see
/// `cloud_prompt`).
pub fn generate_cloud_prompt(
    query: &str,
    tag_names: &Vec<String>,
    intent: &SearchIntent,
    recent_file_count: usize,
    file_structure: &Option<FileStructureContext>,
    recent_searches: &Vec<String>,
) -> (r: String)
    ensures
        r@ == cloud_prompt(
            query@,
            string_views(tag_names@),
            *intent,
            recent_file_count as nat,
            match file_structure {
                Some(fs) => Some(fs.summary@),
                None => None,
            },
            string_views(recent_searches@),
        ),
{
    let mut p = chars_of("用户查询: \"");
    append_chars(&mut p, &chars_of(query));
    append_chars(&mut p, &chars_of("\"\n\n"));
    append_chars(&mut p, &chars_of("上下文信息:\n"));
    let ghost p1 = p@;
    if tag_names.len() > 0 {
        append_chars(&mut p, &chars_of("- 相关标签: "));
        append_joined(&mut p, tag_names, tag_names.len());
        append_chars(&mut p, &chars_of("\n"));
        proof {
            assert(string_views(tag_names@).take(tag_names@.len() as int) =~= string_views(tag_names@));
        }
    } else {
        append_chars(&mut p, &chars_of("- 相关标签: 无\n"));
    }
    let ghost p2 = p@;
    append_chars(&mut p, &chars_of("- 解析意图: "));
    append_chars(&mut p, &describe_intent(intent));
    append_chars(&mut p, &chars_of("\n"));
    append_chars(&mut p, &chars_of("- 最近访问文件数: "));
    crate::utils::push_decimal(&mut p, recent_file_count as u128);
    append_chars(&mut p, &chars_of("\n"));
    let ghost p3 = p@;
    match file_structure {
        Some(fs) => {
            append_chars(&mut p, &chars_of("- 文件结构: "));
            append_chars(&mut p, &chars_of(fs.summary.as_str()));
            append_chars(&mut p, &chars_of("\n"));
        },
        None => {
            append_chars(&mut p, &chars_of("- 文件结构: 无\n"));
        },
    }
    let ghost p4 = p@;
    if recent_searches.len() > 0 {
        let n = if recent_searches.len() < PROMPT_RECENT_SEARCHES {
            recent_searches.len()
        } else {
            PROMPT_RECENT_SEARCHES
        };
        append_chars(&mut p, &chars_of("- 最近搜索: "));
        append_joined(&mut p, recent_searches, n);
        append_chars(&mut p, &chars_of("\n"));
    } else {
        proof {
            assert(p4 + Seq::<char>::empty() =~= p4);
        }
    }
    append_chars(&mut p, &chars_of("\n请分析用户意图并提供搜索建议。"));
    proof {
        let fsv = match file_structure {
            Some(fs) => Some(fs.summary@),
            None => None,
        };
        assert(p@ =~= cloud_prompt(
            query@,
            string_views(tag_names@),
            *intent,
            recent_file_count as nat,
            fsv,
            string_views(recent_searches@),
        ));
    }
    string_from_chars(p.as_slice())
}

} // verus!
