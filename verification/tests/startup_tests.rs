use mc_mcp::config::ReferenceConfig;
use mc_mcp::file_system::{prebuilt_index_from_bytes, prebuilt_parse_error, PrebuiltIndex};
use mc_mcp::initialization::{Startup, StartupAction, StartupEvent, StartupStage};

fn documents(bytes: &[u8]) -> mc_mcp::file_system::DocumentIndex {
    match prebuilt_index_from_bytes(bytes) {
        PrebuiltIndex::Documents(index) => index,
        other => panic!("expected documents, got {:?}", other),
    }
}

fn records(bytes: &[u8]) -> Vec<Vec<u8>> {
    match prebuilt_index_from_bytes(bytes) {
        PrebuiltIndex::Records(lines) => lines,
        other => panic!("expected records, got {:?}", other),
    }
}

#[test]
fn prebuilt_index_parses_a_json_object() {
    let text = r#"{"file1.md":["Dummy content 1","mc-docs"],"file2.md":["Dummy content 2","mc-docs"]}"#;
    let index = documents(text.as_bytes());
    assert_eq!(index.len(), 2);
    assert_eq!(index.get("file1.md"), Some(&("Dummy content 1".to_string(), "mc-docs".to_string())));
    assert_eq!(index.get("file2.md"), Some(&("Dummy content 2".to_string(), "mc-docs".to_string())));
    assert!(documents(b"{}").is_empty());
}

#[test]
fn prebuilt_jsonl_is_split_into_records() {
    let line1 = r#"{"file_path":"a.md","vector":[0.1,0.2],"source":"prebuilt","content_chunk":"A","metadata":null}"#;
    let line2 = r#"{"file_path":"b.md","vector":[0.3,0.4],"source":"prebuilt","content_chunk":"B","metadata":null}"#;
    let text = format!("{}\n{}\n", line1, line2);
    assert_eq!(records(text.as_bytes()), vec![line1.as_bytes().to_vec(), line2.as_bytes().to_vec()]);
    let spaced = format!("\n{}\r\n  \n{}", line1, line2);
    assert_eq!(
        records(spaced.as_bytes()),
        vec![format!("{}\r", line1).into_bytes(), line2.as_bytes().to_vec()]
    );
    assert!(records(b"").is_empty());
    assert!(records(b" \n\n").is_empty());
    assert_eq!(records(b"not json"), vec![b"not json".to_vec()]);
    assert_eq!(records(&[0x1f, 0x8b, 0x08, b'\n', 0x00]), vec![vec![0x1f, 0x8b, 0x08], vec![0x00]]);
}

#[test]
fn prebuilt_parse_errors_name_the_format() {
    assert_eq!(
        prebuilt_parse_error("expected value at line 1 column 1"),
        "Failed to parse prebuilt index JSON: expected value at line 1 column 1"
    );
}

fn drive(reference: &ReferenceConfig, events: Vec<StartupEvent>) -> Vec<StartupAction> {
    let (mut startup, first) = Startup::start(reference);
    let mut actions = vec![first];
    for event in events {
        assert!(startup.accepts(&event));
        let (next, action) = startup.step(event);
        startup = next;
        actions.push(action);
    }
    actions
}

#[test]
fn startup_publishes_after_every_step() {
    let reference = ReferenceConfig::with_cache_dir(Some("/c".to_string()));
    let actions = drive(
        &reference,
        vec![
            StartupEvent::QdrantChecked(Err("Docker is not installed or not runnable.".to_string())),
            StartupEvent::DirectoryPrepared(Ok(())),
            StartupEvent::Downloaded(Ok(Err("offline".to_string()))),
            StartupEvent::DirectoryPrepared(Ok(())),
            StartupEvent::Downloaded(Ok(Ok(()))),
            StartupEvent::ClientBuilt(Ok(())),
            StartupEvent::EmbedderReady(Ok(())),
            StartupEvent::StoreReady(Ok(())),
            StartupEvent::PrebuiltLoaded(Ok(Ok(3))),
            StartupEvent::PrebuiltStored(Err("upsert failed".to_string())),
            StartupEvent::SourcesIndexed(Err("One or more errors occurred during indexing. See logs for details.".to_string())),
        ],
    );
    assert!(matches!(actions[0], StartupAction::CheckQdrant));
    assert!(matches!(&actions[1], StartupAction::PrepareDirectory(d) if d == "/c/prebuilt_index.jsonl.gz"));
    assert!(matches!(&actions[2], StartupAction::Download(d)
        if d.url == "https://github.com/metacontract/mc-mcp/releases/latest/download/prebuilt_index.jsonl.gz"));
    assert!(matches!(&actions[3], StartupAction::PrepareDirectory(d) if d == "/c/docs.tar.gz"));
    assert!(matches!(&actions[4], StartupAction::Download(d) if d.dest == "/c/docs.tar.gz"));
    assert!(matches!(actions[5], StartupAction::Connect));
    assert!(matches!(actions[6], StartupAction::LoadEmbedder));
    assert!(matches!(actions[7], StartupAction::OpenStore));
    assert!(matches!(&actions[8], StartupAction::LoadPrebuilt(p) if p == "/c/prebuilt_index.jsonl.gz"));
    assert!(matches!(actions[9], StartupAction::StorePrebuilt));
    assert!(matches!(actions[10], StartupAction::IndexSources));
    assert!(matches!(actions[11], StartupAction::Publish));
}

#[test]
fn startup_without_artifacts_skips_downloads_and_prebuilt() {
    let reference = ReferenceConfig::with_cache_dir(None);
    let actions = drive(
        &reference,
        vec![
            StartupEvent::QdrantChecked(Ok(())),
            StartupEvent::ClientBuilt(Ok(())),
            StartupEvent::EmbedderReady(Ok(())),
            StartupEvent::StoreReady(Ok(())),
            StartupEvent::SourcesIndexed(Ok(())),
        ],
    );
    assert!(matches!(actions[1], StartupAction::Connect));
    assert!(matches!(actions[4], StartupAction::IndexSources));
    assert!(matches!(actions[5], StartupAction::Publish));
}

#[test]
fn startup_stops_on_fatal_failures() {
    let reference = ReferenceConfig::with_cache_dir(Some("/c".to_string()));
    let actions = drive(
        &reference,
        vec![StartupEvent::QdrantChecked(Ok(())), StartupEvent::DirectoryPrepared(Err("read-only".to_string()))],
    );
    assert!(matches!(&actions[2], StartupAction::Fail(e) if e == "read-only"));

    let none = ReferenceConfig::with_cache_dir(None);
    let actions = drive(&none, vec![StartupEvent::QdrantChecked(Ok(())), StartupEvent::ClientBuilt(Err("bad url".to_string()))]);
    assert!(matches!(&actions[2], StartupAction::Fail(e) if e == "bad url"));
    let actions = drive(
        &none,
        vec![
            StartupEvent::QdrantChecked(Ok(())),
            StartupEvent::ClientBuilt(Ok(())),
            StartupEvent::EmbedderReady(Err("no model".to_string())),
        ],
    );
    assert!(matches!(&actions[3], StartupAction::Fail(e) if e == "no model"));
    let actions = drive(
        &none,
        vec![
            StartupEvent::QdrantChecked(Ok(())),
            StartupEvent::ClientBuilt(Ok(())),
            StartupEvent::EmbedderReady(Ok(())),
            StartupEvent::StoreReady(Err("Failed to create collection: x".to_string())),
        ],
    );
    assert!(matches!(&actions[4], StartupAction::Fail(e) if e == "Failed to create collection: x"));
}

#[test]
fn prebuilt_load_failure_is_only_reported() {
    let reference = ReferenceConfig::with_cache_dir(Some("/c".to_string()));
    let (mut startup, _) = Startup::start(&reference);
    startup.stage = StartupStage::LoadingPrebuilt;
    assert!(!startup.accepts(&StartupEvent::SourcesIndexed(Ok(()))));
    let (next, action) = startup.step(StartupEvent::PrebuiltLoaded(Ok(Err("missing".to_string()))));
    assert!(matches!(action, StartupAction::IndexSources));
    assert_eq!(next.stage, StartupStage::Indexing);
    let (_, action) = next.step(StartupEvent::SourcesIndexed(Ok(())));
    assert!(matches!(action, StartupAction::Publish));
    let (mut empty, _) = Startup::start(&reference);
    empty.stage = StartupStage::LoadingPrebuilt;
    let (_, action) = empty.step(StartupEvent::PrebuiltLoaded(Ok(Ok(0))));
    assert!(matches!(action, StartupAction::IndexSources));
    let (mut joined, _) = Startup::start(&reference);
    joined.stage = StartupStage::LoadingPrebuilt;
    let (_, action) = joined.step(StartupEvent::PrebuiltLoaded(Err("task cancelled".to_string())));
    assert!(matches!(action, StartupAction::Fail(ref e) if e == "task cancelled"));
}
