use mc_mcp::config::{
    get_latest_release_download_url, path_join, validate_config, McpConfig, ReferenceConfig,
    ScriptsConfig, SetupConfig, DOCS_ARCHIVE_FILENAME, GITHUB_REPO_NAME, GITHUB_REPO_OWNER,
    PREBUILT_INDEX_FILENAME,
};

#[test]
fn release_download_url_is_built_from_its_parts() {
    assert_eq!(
        get_latest_release_download_url(GITHUB_REPO_OWNER, GITHUB_REPO_NAME, DOCS_ARCHIVE_FILENAME),
        "https://github.com/metacontract/mc-mcp/releases/latest/download/docs.tar.gz"
    );
    assert_eq!(
        get_latest_release_download_url("a", "b", "c"),
        "https://github.com/a/b/releases/latest/download/c"
    );
}

#[test]
fn path_join_adds_one_separator() {
    assert_eq!(path_join("/cache", "x.gz"), "/cache/x.gz");
    assert_eq!(path_join("/cache/", "x.gz"), "/cache/x.gz");
    assert_eq!(path_join("", "x.gz"), "x.gz");
}

#[test]
fn reference_defaults_live_in_the_cache_directory() {
    let config = ReferenceConfig::with_cache_dir(Some("/home/u/.cache/mc-mcp".to_string()));
    assert!(config.sources.is_empty());
    assert_eq!(
        config.prebuilt_index_path.as_deref(),
        Some("/home/u/.cache/mc-mcp/prebuilt_index.jsonl.gz")
    );
    assert_eq!(config.docs_archive_path.as_deref(), Some("/home/u/.cache/mc-mcp/docs.tar.gz"));
    assert_eq!(config.embedding_cache_dir.as_deref(), Some("/home/u/.cache/mc-mcp"));
    assert_eq!(PREBUILT_INDEX_FILENAME, "prebuilt_index.jsonl.gz");

    let none = ReferenceConfig::with_cache_dir(None);
    assert!(none.prebuilt_index_path.is_none());
    assert!(none.docs_archive_path.is_none());
    assert!(none.embedding_cache_dir.is_none());
}

#[test]
fn default_config_has_no_scripts_and_no_force() {
    let config = McpConfig::default();
    assert!(config.scripts.deploy.is_none());
    assert!(config.scripts.upgrade.is_none());
    assert!(config.scripts.rpc_url.is_none());
    assert!(config.scripts.private_key_env_var.is_none());
    assert!(!config.setup.force);
    assert!(config.reference.sources.is_empty());
    if let Some(p) = &config.reference.prebuilt_index_path {
        assert!(p.ends_with("prebuilt_index.jsonl.gz"));
    }
    assert!(validate_config(&config).is_ok());
}

fn config_with(prebuilt: Option<&str>, archive: Option<&str>) -> McpConfig {
    McpConfig {
        reference: ReferenceConfig {
            sources: Vec::new(),
            prebuilt_index_path: prebuilt.map(|s| s.to_string()),
            docs_archive_path: archive.map(|s| s.to_string()),
            embedding_cache_dir: None,
        },
        scripts: ScriptsConfig::default(),
        setup: SetupConfig::default(),
    }
}

#[test]
fn validate_config_rejects_empty_paths() {
    assert_eq!(validate_config(&config_with(None, None)), Ok(()));
    assert_eq!(validate_config(&config_with(Some("/x"), Some("/y"))), Ok(()));
    assert_eq!(
        validate_config(&config_with(Some(""), Some("/y"))),
        Err("Configured prebuilt_index_path cannot be empty".to_string())
    );
    assert_eq!(
        validate_config(&config_with(Some(""), Some(""))),
        Err("Configured prebuilt_index_path cannot be empty".to_string())
    );
    assert_eq!(
        validate_config(&config_with(None, Some(""))),
        Err("Configured docs_archive_path cannot be empty".to_string())
    );
}
