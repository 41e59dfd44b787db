use neural_fs::chunk::ChunkType;
use neural_fs::inference::FileStructureContext;
use neural_fs::prompt::generate_cloud_prompt;
use neural_fs::search::{FileType, SearchIntent, TimeRange};

#[test]
fn prompt_for_a_file_search() {
    let prompt = generate_cloud_prompt(
        "报告",
        &vec!["工作".to_string(), "季度".to_string()],
        &SearchIntent::FindFile { file_type_hint: Some(FileType::Pdf), time_hint: None },
        2,
        &None,
        &vec!["a".to_string(), "b".to_string(), "c".to_string(), "d".to_string()],
    );
    assert_eq!(
        prompt,
        "用户查询: \"报告\"\n\n上下文信息:\n- 相关标签: 工作, 季度\n- 解析意图: 查找文件 (类型: Pdf)\n- 最近访问文件数: 2\n- 文件结构: 无\n- 最近搜索: a, b, c\n\n请分析用户意图并提供搜索建议。"
    );
}

#[test]
fn prompt_for_a_content_search() {
    let structure = FileStructureContext {
        summary: "3 folders".to_string(),
        top_directories: vec![],
        total_files: 10,
        file_type_counts: vec![],
    };
    let prompt = generate_cloud_prompt(
        "q",
        &vec![],
        &SearchIntent::FindContent { content_type: Some(ChunkType::CodeBlock), need_location: true },
        0,
        &Some(structure),
        &vec![],
    );
    assert_eq!(
        prompt,
        "用户查询: \"q\"\n\n上下文信息:\n- 相关标签: 无\n- 解析意图: 查找内容 (类型: CodeBlock) (需要定位)\n- 最近访问文件数: 0\n- 文件结构: 3 folders\n\n请分析用户意图并提供搜索建议。"
    );
}

#[test]
fn prompt_for_an_unclear_query() {
    let time = TimeRange { start: Some(1), end: None };
    let file = generate_cloud_prompt(
        "x",
        &vec![],
        &SearchIntent::FindFile { file_type_hint: None, time_hint: Some(time) },
        12,
        &None,
        &vec!["only".to_string()],
    );
    assert!(file.contains("- 解析意图: 查找文件 (有时间限制)\n"));
    assert!(file.contains("- 最近访问文件数: 12\n"));
    assert!(file.contains("- 最近搜索: only\n"));
    let unclear = generate_cloud_prompt(
        "x",
        &vec![],
        &SearchIntent::Ambiguous { possible_intents: vec![], clarification_questions: vec![] },
        0,
        &None,
        &vec![],
    );
    assert!(unclear.contains("- 解析意图: 意图不明确\n"));
}
