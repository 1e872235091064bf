use mc_mcp::config::{DocumentSource, ReferenceConfig, SourceType};
use mc_mcp::domain::{DocumentFragment, SearchQuery};
use mc_mcp::file_system::{
    collect_raw_documents, docs_path_or_default, has_markdown_extension, index_files,
    DocumentIndex, DocumentMap,
};
use mc_mcp::initialization::{artifact_downloads, service_settings};
use mc_mcp::reference_service::{
    chunk_records, missing_embedding_error, source_for_path, IndexingAction, IndexingRun,
};
use mc_mcp::simple_server::{
    no_match_reply, project_command, project_result, route_simple_call, search_error_reply,
    simple_forge_test, ProjectCommand, QueryArgument, SimpleCall,
};
use mc_mcp::handler::{CommandOutcome, ToolReply};
use mc_mcp::vector_db::{plan_upsert, UpsertPlan, VectorDb};

fn files(list: &[(&str, &str)]) -> Vec<(String, String)> {
    list.iter().map(|(p, c)| (p.to_string(), c.to_string())).collect()
}

#[test]
fn markdown_files_are_recognised_by_extension() {
    assert!(has_markdown_extension("file1.md"));
    assert!(has_markdown_extension("a.b.md"));
    assert!(has_markdown_extension("..md"));
    assert!(!has_markdown_extension(".md"));
    assert!(!has_markdown_extension("not_markdown.txt"));
    assert!(!has_markdown_extension("file.MD"));
    assert!(!has_markdown_extension("md"));
    assert!(!has_markdown_extension("file.mdx"));
    assert_eq!(docs_path_or_default(None), "metacontract/mc/site/docs");
    assert_eq!(docs_path_or_default(Some("/docs".to_string())), "/docs");
}

#[test]
fn index_maps_each_file_to_its_text_and_source() {
    let mut index: DocumentIndex = DocumentMap::new();
    assert!(index.is_empty());
    index_files(
        &mut index,
        &files(&[("/d/file1.md", "# Title 1\nContent 1\n"), ("/d/sub/file2.md", "* List item\n")]),
        "mc-docs",
    );
    assert_eq!(index.len(), 2);
    assert_eq!(
        index.get("/d/file1.md"),
        Some(&("Title 1 Content 1".to_string(), "mc-docs".to_string()))
    );
    assert_eq!(index.get("/d/sub/file2.md"), Some(&("List item".to_string(), "mc-docs".to_string())));
    assert!(!index.contains_key("/d/not_markdown.txt"));
}

#[test]
fn index_of_several_sources_keeps_each_source() {
    let mut index: DocumentIndex = DocumentMap::new();
    index_files(&mut index, &files(&[("/main/main.md", "# Main doc")]), "mc-docs");
    index_files(&mut index, &files(&[("/a1/add1.md", "# Add1 doc")]), "additional-1");
    index_files(&mut index, &files(&[("/a2/add2.md", "# Add2 doc")]), "additional-2");
    assert_eq!(index.len(), 3);
    assert_eq!(index.get("/main/main.md"), Some(&("Main doc".to_string(), "mc-docs".to_string())));
    assert_eq!(index.get("/a1/add1.md"), Some(&("Add1 doc".to_string(), "additional-1".to_string())));
    assert_eq!(index.get("/a2/add2.md"), Some(&("Add2 doc".to_string(), "additional-2".to_string())));
}

#[test]
fn a_later_write_replaces_an_earlier_one() {
    let mut map: DocumentMap<String> = DocumentMap::new();
    map.insert("a".to_string(), "1".to_string());
    map.insert("b".to_string(), "2".to_string());
    map.insert("a".to_string(), "3".to_string());
    assert_eq!(map.len(), 2);
    assert_eq!(map.get("a"), Some(&"3".to_string()));
    assert_eq!(map.get("b"), Some(&"2".to_string()));
    assert_eq!(map.get("c"), None);
    let keys: Vec<&str> = map.entries().iter().map(|(k, _)| k.as_str()).collect();
    assert_eq!(keys, vec!["a", "b"]);
}

#[test]
fn raw_documents_keep_their_content() {
    let map = collect_raw_documents(files(&[
        ("/s/file1.md", "# Content 1\n"),
        ("/s/subdir/file2.md", "Content 2\n"),
    ]));
    assert_eq!(map.len(), 2);
    assert_eq!(map.get("/s/file1.md"), Some(&"# Content 1\n".to_string()));
    assert_eq!(map.get("/s/subdir/file2.md"), Some(&"Content 2\n".to_string()));
    assert!(collect_raw_documents(Vec::new()).is_empty());
}

#[test]
fn chunk_records_name_their_document_and_source() {
    let records = chunk_records(
        "mc-docs",
        "test_doc.md",
        "# Test Document\n\nThis is the first paragraph.\n\nThis is the second paragraph.",
    );
    assert_eq!(records.len(), 3);
    assert_eq!(records[2].content_chunk, "This is the second paragraph.");
    for r in &records {
        assert_eq!(r.file_path, "test_doc.md");
        assert_eq!(r.source.as_deref(), Some("mc-docs"));
    }
    assert!(chunk_records("s", "empty.md", "\n\n").is_empty());
}

#[test]
fn bare_path_becomes_the_default_source() {
    let source = source_for_path(Some("/docs".to_string())).unwrap();
    assert_eq!(source.name, "default_mc_docs");
    assert_eq!(source.source_type, SourceType::Local);
    assert_eq!(source.path, "/docs");
    assert_eq!(
        source_for_path(None).unwrap_err(),
        "index_documents requires a path when called directly"
    );
    let query = SearchQuery { text: "xyzzy".to_string(), limit: None, sources: None };
    assert_eq!(query.effective_limit(), 5);
    assert_eq!(missing_embedding_error(&query), "Failed to generate embedding for query: xyzzy");
    let fragment = DocumentFragment { text: "t".to_string() };
    assert_eq!(fragment.text, "t");
}

fn source(name: &str, kind: SourceType) -> DocumentSource {
    DocumentSource {
        name: name.to_string(),
        source_type: kind,
        path: format!("/{}", name),
        repo: None,
        branch: None,
        github_path: None,
    }
}

#[test]
fn indexing_run_visits_sources_in_order() {
    let sources = vec![
        source("mc-docs", SourceType::Local),
        source("gh", SourceType::Github),
        source("extra", SourceType::Local),
    ];
    let (mut run, action) = IndexingRun::start(&sources);
    assert!(matches!(action, IndexingAction::Load(0)));
    assert!(matches!(run.advance(true), IndexingAction::Skip(1)));
    assert!(matches!(run.advance(true), IndexingAction::Load(2)));
    assert!(matches!(run.advance(false), IndexingAction::Finish(Err(ref m))
        if m == "One or more errors occurred during indexing. See logs for details."));

    let (mut run, _) = IndexingRun::start(&sources[..1].to_vec());
    assert!(matches!(run.advance(true), IndexingAction::Finish(Ok(()))));
    let (_, action) = IndexingRun::start(&Vec::new());
    assert!(matches!(action, IndexingAction::Finish(Ok(()))));
}

#[test]
fn service_settings_default_when_unset() {
    let s = service_settings(None, None, None);
    assert_eq!(s.qdrant_url, "http://localhost:6334");
    assert_eq!(s.collection_name, "mc_docs");
    assert_eq!(s.vector_dim, 384);
    let s = service_settings(
        Some("http://q:6334".to_string()),
        Some("docs".to_string()),
        Some("768".to_string()),
    );
    assert_eq!(s.qdrant_url, "http://q:6334");
    assert_eq!(s.collection_name, "docs");
    assert_eq!(s.vector_dim, 768);
    assert_eq!(service_settings(None, None, Some("abc".to_string())).vector_dim, 384);
}

#[test]
fn artifacts_follow_the_configured_paths() {
    let reference = ReferenceConfig::with_cache_dir(Some("/c".to_string()));
    let downloads = artifact_downloads(&reference);
    assert_eq!(downloads.len(), 2);
    assert_eq!(
        downloads[0].url,
        "https://github.com/metacontract/mc-mcp/releases/latest/download/prebuilt_index.jsonl.gz"
    );
    assert_eq!(downloads[0].dest, "/c/prebuilt_index.jsonl.gz");
    assert_eq!(
        downloads[1].url,
        "https://github.com/metacontract/mc-mcp/releases/latest/download/docs.tar.gz"
    );
    assert_eq!(downloads[1].dest, "/c/docs.tar.gz");
    assert!(artifact_downloads(&ReferenceConfig::with_cache_dir(None)).is_empty());
}

#[test]
fn vector_db_settings_are_checked() {
    let err = VectorDb::new("".to_string(), 4).unwrap_err();
    assert!(err.contains("Collection name cannot be empty"));
    let err = VectorDb::new("valid_name".to_string(), 0).unwrap_err();
    assert!(err.contains("Vector size must be greater than zero"));
    let db = VectorDb::new("test".to_string(), 3).unwrap();
    assert_eq!(db.collection_name(), "test");
    assert_eq!(db.vector_size(), 3);
    assert_eq!(
        db.check_query_dimension(2).unwrap_err(),
        "Query vector dimension (2) does not match collection dimension (3)"
    );
    assert!(db.check_query_dimension(3).is_ok());
    assert_eq!(plan_upsert(0, 0), UpsertPlan::Nothing);
    assert_eq!(plan_upsert(3, 0), UpsertPlan::Nothing);
    assert_eq!(plan_upsert(3, 2), UpsertPlan::Send);
}

#[test]
fn simple_server_routes_and_reports() {
    assert!(matches!(route_simple_call("forge_test", QueryArgument::NoArguments), SimpleCall::ForgeTest));
    assert!(matches!(route_simple_call("search_docs", QueryArgument::Text("q".to_string())),
        SimpleCall::SearchDocs(ref q) if q == "q"));
    assert!(matches!(route_simple_call("search_docs", QueryArgument::NotText),
        SimpleCall::Answer(ToolReply::Failure(ref m)) if m == "Invalid 'query' parameter: must be a string."));
    assert!(matches!(route_simple_call("search_docs", QueryArgument::Missing),
        SimpleCall::Answer(ToolReply::Failure(ref m)) if m == "Missing 'query' parameter."));
    assert!(matches!(route_simple_call("search_docs", QueryArgument::NoArguments),
        SimpleCall::Answer(ToolReply::Failure(ref m)) if m == "Missing arguments object."));
    assert!(matches!(route_simple_call("other", QueryArgument::NoArguments), SimpleCall::MethodNotFound));

    let setup = project_command(ProjectCommand::Setup);
    assert_eq!(setup.program, "git");
    assert_eq!(setup.args, vec!["clone", "https://github.com/metacontract/template.git", "mc-template"]);
    assert_eq!(project_command(ProjectCommand::Upgrade).args, vec!["upgrade"]);
    let ok = CommandOutcome::Exited { exit_code: Some(0), stdout: b"done".to_vec(), stderr: vec![] };
    assert_eq!(
        project_result(ProjectCommand::Deploy, &ok),
        Ok("デプロイ成功なのだ！\nDeploy Results:\nExit Code: 0\n\nStdout:\ndone\nStderr:\n".to_string())
    );
    let failed = CommandOutcome::Exited { exit_code: Some(1), stdout: vec![], stderr: b"e".to_vec() };
    assert_eq!(
        project_result(ProjectCommand::Setup, &failed),
        Err("プロジェクトセットアップ失敗なのだ…\nSetup Results:\nExit Code: 1\n\nStdout:\n\nStderr:\ne".to_string())
    );
    assert_eq!(
        project_result(ProjectCommand::Upgrade, &CommandOutcome::NotStarted("x".to_string())),
        Err("forge upgradeコマンドの実行に失敗したのだ: x".to_string())
    );
    assert_eq!(
        simple_forge_test(&failed),
        Ok("Forge Test Results:\nExit Code: 1\n\nStdout:\n\nStderr:\ne".to_string())
    );
    assert_eq!(
        simple_forge_test(&CommandOutcome::NotStarted("nf".to_string())),
        Err("Failed to execute forge command: nf".to_string())
    );
    assert_eq!(no_match_reply("q"), "No documents found matching 'q' (semantic)");
    assert_eq!(search_error_reply("e"), "Semantic search error: e");
}
