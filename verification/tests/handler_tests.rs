use mc_mcp::config::ScriptsConfig;
use mc_mcp::handler::{
    erc7201_command, erc7201_reply, forge_script_reply, forge_test_command, forge_test_reply,
    plan_forge_script, plan_semantic_search, script_kind, search_failed_reply, CommandOutcome,
    DirListing, ScriptKind, ScriptRequest, Setup, SetupAction, SetupEvent, ToolReply,
};

fn scripts(
    deploy: Option<&str>,
    upgrade: Option<&str>,
    rpc_url: Option<&str>,
    key_var: Option<&str>,
) -> ScriptsConfig {
    ScriptsConfig {
        deploy: deploy.map(|s| s.to_string()),
        upgrade: upgrade.map(|s| s.to_string()),
        rpc_url: rpc_url.map(|s| s.to_string()),
        private_key_env_var: key_var.map(|s| s.to_string()),
    }
}

fn failure_text(request: ScriptRequest) -> String {
    match request {
        ScriptRequest::Answer(ToolReply::Failure(t)) => t,
        other => panic!("expected a failure, got {:?}", other),
    }
}

fn exited(code: i32, stdout: &str, stderr: &str) -> CommandOutcome {
    CommandOutcome::Exited {
        exit_code: Some(code),
        stdout: stdout.as_bytes().to_vec(),
        stderr: stderr.as_bytes().to_vec(),
    }
}

#[test]
fn script_kinds_are_deploy_and_upgrade() {
    assert_eq!(script_kind("deploy"), Some(ScriptKind::Deploy));
    assert_eq!(script_kind("upgrade"), Some(ScriptKind::Upgrade));
    assert_eq!(script_kind("Deploy"), None);
    assert_eq!(script_kind(""), None);
}

#[test]
fn dry_run_deploy_runs_forge_script() {
    let config = scripts(Some("scripts/Deploy.s.sol"), None, None, None);
    match plan_forge_script(&config, "deploy", false) {
        ScriptRequest::Run { kind, script_path, command } => {
            assert_eq!(kind, ScriptKind::Deploy);
            assert_eq!(script_path, "scripts/Deploy.s.sol");
            assert_eq!(command.program, "forge");
            assert_eq!(command.args, vec!["script", "scripts/Deploy.s.sol"]);
        }
        other => panic!("unexpected {:?}", other),
    }
}

#[test]
fn broadcast_upgrade_passes_rpc_url_and_key_variable() {
    let config = scripts(
        Some("scripts/Deploy.s.sol"),
        Some("scripts/Upgrade.s.sol"),
        Some("http://localhost:8545"),
        Some("TEST_PRIVATE_KEY_UPGRADE"),
    );
    match plan_forge_script(&config, "upgrade", true) {
        ScriptRequest::Run { kind, script_path, command } => {
            assert_eq!(kind, ScriptKind::Upgrade);
            assert_eq!(script_path, "scripts/Upgrade.s.sol");
            assert_eq!(
                command.args,
                vec![
                    "script",
                    "scripts/Upgrade.s.sol",
                    "--broadcast",
                    "--rpc-url",
                    "http://localhost:8545",
                    "--private-key",
                    "$TEST_PRIVATE_KEY_UPGRADE",
                ]
            );
        }
        other => panic!("unexpected {:?}", other),
    }
}

#[test]
fn invalid_script_type_is_an_internal_error() {
    let config = scripts(Some("d"), Some("u"), None, None);
    match plan_forge_script(&config, "verify", false) {
        ScriptRequest::Answer(ToolReply::InternalError(m)) => assert_eq!(m, "Invalid script type"),
        other => panic!("unexpected {:?}", other),
    }
}

#[test]
fn missing_or_empty_script_is_refused() {
    let config = scripts(Some("scripts/Deploy.s.sol"), None, None, None);
    assert_eq!(
        failure_text(plan_forge_script(&config, "upgrade", false)),
        "Upgrade script path is not configured in mcp_config.toml ([scripts].upgrade)"
    );
    let config = scripts(Some(""), None, None, None);
    assert_eq!(
        failure_text(plan_forge_script(&config, "deploy", true)),
        "Deploy script path is not configured in mcp_config.toml ([scripts].deploy)"
    );
}

#[test]
fn broadcast_without_rpc_url_or_key_is_refused() {
    let no_rpc = scripts(Some("scripts/Deploy.s.sol"), Some("scripts/Upgrade.s.sol"), None, Some("TEST_PK_ENV"));
    let text = failure_text(plan_forge_script(&no_rpc, "deploy", true));
    assert!(text.contains("requires an RPC URL configured"));
    let no_key = scripts(Some("scripts/Deploy.s.sol"), Some("scripts/Upgrade.s.sol"), Some("http://localhost:8545"), None);
    let text = failure_text(plan_forge_script(&no_key, "deploy", true));
    assert!(text.contains("requires a private key environment variable name configured"));
    let neither = scripts(Some("d"), None, None, None);
    assert_eq!(
        failure_text(plan_forge_script(&neither, "deploy", true)),
        "Broadcast requires an RPC URL configured in mcp_config.toml ([scripts].rpc_url)."
    );
    let empty_rpc = scripts(Some("d"), None, Some(""), Some(""));
    assert_eq!(
        failure_text(plan_forge_script(&empty_rpc, "deploy", true)),
        "Broadcast requires a non-empty RPC URL configured in mcp_config.toml ([scripts].rpc_url)."
    );
    let empty_key = scripts(Some("d"), None, Some("http://x"), Some(""));
    assert_eq!(
        failure_text(plan_forge_script(&empty_key, "deploy", true)),
        "Broadcast requires a non-empty private key environment variable name configured in mcp_config.toml ([scripts].private_key_env_var)."
    );
    // A dry run needs neither.
    assert!(matches!(plan_forge_script(&neither, "deploy", false), ScriptRequest::Run { .. }));
}

#[test]
fn deploy_report_of_a_successful_broadcast() {
    let reply = forge_script_reply(
        ScriptKind::Deploy,
        "scripts/Deploy.s.sol",
        true,
        &exited(0, "TxHash: 0x123abc\n", ""),
    );
    match reply {
        ToolReply::Success(text) => {
            assert_eq!(
                text,
                "Forge Deploy Results:\nScript: scripts/Deploy.s.sol\nBroadcast: true\nExit Code: 0\n\nStdout:\nTxHash: 0x123abc\n\nStderr:\n"
            );
            assert!(text.contains("Broadcast: true"));
            assert!(text.contains("Exit Code: 0"));
            assert!(text.contains("TxHash: 0x123abc"));
        }
        other => panic!("unexpected {:?}", other),
    }
}

#[test]
fn upgrade_dry_run_failure_is_an_error_result() {
    let reply = forge_script_reply(
        ScriptKind::Upgrade,
        "scripts/Upgrade.s.sol",
        false,
        &exited(1, "", "Error: Upgrade dry run failed simulation.\n"),
    );
    match reply {
        ToolReply::Failure(text) => {
            assert!(text.starts_with("Forge Upgrade Dry Run Results:"));
            assert!(text.contains("Exit Code: 1"));
            assert!(text.contains("Error: Upgrade dry run failed simulation."));
            assert!(text.contains("Broadcast: false"));
        }
        other => panic!("unexpected {:?}", other),
    }
}

#[test]
fn killed_script_reports_no_exit_code() {
    let reply = forge_script_reply(
        ScriptKind::Deploy,
        "s.sol",
        false,
        &CommandOutcome::Exited { exit_code: None, stdout: vec![], stderr: vec![0xff] },
    );
    match reply {
        ToolReply::Failure(text) => assert_eq!(
            text,
            "Forge Deploy Dry Run Results:\nScript: s.sol\nBroadcast: false\nExit Code: N/A\n\nStdout:\n\nStderr:\n\u{fffd}"
        ),
        other => panic!("unexpected {:?}", other),
    }
}

#[test]
fn forge_not_found_for_a_script() {
    let reply = forge_script_reply(
        ScriptKind::Deploy,
        "s.sol",
        true,
        &CommandOutcome::NotStarted("No such file or directory (os error 2)".to_string()),
    );
    match reply {
        ToolReply::Failure(text) => assert_eq!(
            text,
            "Failed to execute forge script command for 's.sol': No such file or directory (os error 2). Make sure 'forge' is installed and in PATH."
        ),
        other => panic!("unexpected {:?}", other),
    }
}

#[test]
fn forge_test_command_and_reports() {
    let command = forge_test_command();
    assert_eq!(command.program, "forge");
    assert_eq!(command.args, vec!["test"]);
    match forge_test_reply(&exited(0, "ok", "")) {
        ToolReply::Success(t) => assert_eq!(t, "Forge Test Results:\nExit Code: 0\n\nStdout:\nok\nStderr:\n"),
        other => panic!("unexpected {:?}", other),
    }
    assert!(matches!(forge_test_reply(&exited(1, "", "fail")), ToolReply::Failure(_)));
    match forge_test_reply(&CommandOutcome::NotStarted("boom".to_string())) {
        ToolReply::Failure(t) => assert_eq!(
            t,
            "Failed to execute forge command: boom. Make sure 'forge' is installed and in PATH."
        ),
        other => panic!("unexpected {:?}", other),
    }
}

#[test]
fn search_waits_for_the_service() {
    match plan_semantic_search(false, "any query".to_string(), None) {
        Err(ToolReply::Failure(t)) => assert!(t.contains("service is still initializing")),
        other => panic!("unexpected {:?}", other),
    }
    let query = plan_semantic_search(true, "test query".to_string(), None).unwrap();
    assert_eq!(query.text, "test query");
    assert_eq!(query.limit, Some(5));
    assert!(query.sources.is_none());
    let query = plan_semantic_search(true, "q".to_string(), Some(2)).unwrap();
    assert_eq!(query.limit, Some(2));
    match search_failed_reply("timeout") {
        ToolReply::Failure(t) => assert_eq!(t, "Semantic search failed: timeout"),
        other => panic!("unexpected {:?}", other),
    }
}

#[test]
fn erc7201_slot_is_checked() {
    let command = erc7201_command("NFT.ERC721State");
    assert_eq!(command.program, "cast");
    assert_eq!(command.args, vec!["index-erc7201", "NFT.ERC721State"]);
    let slot = format!("0x{}", "ab".repeat(32));
    match erc7201_reply(&exited(0, &format!("{}\n", slot), "")) {
        ToolReply::Success(t) => assert_eq!(t, slot),
        other => panic!("unexpected {:?}", other),
    }
    match erc7201_reply(&exited(0, "0x1234\n", "warn")) {
        ToolReply::Failure(t) => {
            assert_eq!(t, "cast index-erc7201 returned invalid slot: '0x1234'.\nStderr:\nwarn")
        }
        other => panic!("unexpected {:?}", other),
    }
    match erc7201_reply(&exited(2, "", "bad namespace")) {
        ToolReply::Failure(t) => assert_eq!(t, "cast index-erc7201 failed: Some(2)\nbad namespace"),
        other => panic!("unexpected {:?}", other),
    }
    match erc7201_reply(&CommandOutcome::NotStarted("not found".to_string())) {
        ToolReply::Failure(t) => assert_eq!(t, "Failed to execute cast: not found"),
        other => panic!("unexpected {:?}", other),
    }
}

fn run_setup(force: bool, events: Vec<SetupEvent>) -> Vec<SetupAction> {
    let (mut setup, first) = Setup::start(force);
    let mut actions = vec![first];
    for event in events {
        let (next, action) = setup.step(event);
        setup = next;
        actions.push(action);
    }
    actions
}

fn finish_text(action: &SetupAction) -> (&'static str, String) {
    match action {
        SetupAction::Finish(ToolReply::Success(t)) => ("success", t.clone()),
        SetupAction::Finish(ToolReply::Failure(t)) => ("failure", t.clone()),
        SetupAction::Finish(ToolReply::InternalError(t)) => ("internal", t.clone()),
        other => panic!("expected an answer, got {:?}", other),
    }
}

#[test]
fn setup_in_an_empty_directory_runs_forge_init() {
    let actions = run_setup(
        false,
        vec![
            SetupEvent::ProjectRoot(Some("/work/p".to_string())),
            SetupEvent::Exists(true),
            SetupEvent::Entered(Ok(())),
            SetupEvent::Listed(DirListing::IsEmpty(true)),
            SetupEvent::TemplateCache(None),
            SetupEvent::Ran(Ok(exited(0, "", ""))),
        ],
    );
    assert!(matches!(actions[0], SetupAction::ReadProjectRoot));
    assert!(matches!(&actions[1], SetupAction::CheckExists(p) if p == "/work/p"));
    assert!(matches!(&actions[2], SetupAction::EnterDirectory(p) if p == "/work/p"));
    assert!(matches!(actions[3], SetupAction::ListWorkingDirectory));
    assert!(matches!(actions[4], SetupAction::ReadTemplateCache));
    match &actions[5] {
        SetupAction::Run(c) => {
            assert_eq!(c.program, "forge");
            assert_eq!(c.args, vec!["init", ".", "-t", "metacontract/template"]);
        }
        other => panic!("unexpected {:?}", other),
    }
    assert_eq!(
        finish_text(&actions[6]),
        ("success", "Successfully initialized Foundry project with template: metacontract/template".to_string())
    );
}

#[test]
fn setup_refuses_a_non_empty_directory() {
    let actions = run_setup(
        false,
        vec![
            SetupEvent::ProjectRoot(Some("/work/p".to_string())),
            SetupEvent::Exists(true),
            SetupEvent::Entered(Ok(())),
            SetupEvent::Listed(DirListing::IsEmpty(false)),
        ],
    );
    let (kind, text) = finish_text(&actions[4]);
    assert_eq!(kind, "failure");
    assert!(text.contains("The current directory is not empty"));
}

#[test]
fn forced_setup_allows_a_non_empty_directory() {
    let actions = run_setup(
        true,
        vec![
            SetupEvent::ProjectRoot(Some("/work/p".to_string())),
            SetupEvent::Exists(true),
            SetupEvent::Entered(Ok(())),
            SetupEvent::Listed(DirListing::IsEmpty(false)),
            SetupEvent::TemplateCache(Some("/cache/template".to_string())),
            SetupEvent::Ran(Ok(exited(1, "", "already exists"))),
        ],
    );
    match &actions[5] {
        SetupAction::Run(c) => assert_eq!(c.args, vec!["init", ".", "-t", "/cache/template", "--no-git"]),
        other => panic!("unexpected {:?}", other),
    }
    assert_eq!(
        finish_text(&actions[6]),
        ("failure", "forge init failed with exit code: Some(1).\nStderr:\nalready exists".to_string())
    );
}

#[test]
fn setup_errors_before_forge_runs() {
    let actions = run_setup(false, vec![SetupEvent::ProjectRoot(None)]);
    assert_eq!(
        finish_text(&actions[1]),
        ("internal", "MC_PROJECT_ROOT is not set. Please set MC_PROJECT_ROOT to your project root directory.".to_string())
    );
    let actions = run_setup(
        false,
        vec![SetupEvent::ProjectRoot(Some("/nope".to_string())), SetupEvent::Exists(false)],
    );
    assert_eq!(finish_text(&actions[2]), ("failure", "MC_PROJECT_ROOT does not exist: /nope".to_string()));
    let actions = run_setup(
        false,
        vec![
            SetupEvent::ProjectRoot(Some("/p".to_string())),
            SetupEvent::Exists(true),
            SetupEvent::Entered(Err("denied".to_string())),
        ],
    );
    assert_eq!(finish_text(&actions[3]), ("internal", "Failed to set current dir: denied".to_string()));
    let actions = run_setup(
        false,
        vec![
            SetupEvent::ProjectRoot(Some("/p".to_string())),
            SetupEvent::Exists(true),
            SetupEvent::Entered(Ok(())),
            SetupEvent::Listed(DirListing::ReadDirFailed("io".to_string())),
        ],
    );
    assert_eq!(finish_text(&actions[4]), ("internal", "Failed to read current dir: io".to_string()));
}

#[test]
fn setup_reports_a_missing_forge() {
    let actions = run_setup(
        false,
        vec![
            SetupEvent::ProjectRoot(Some("/p".to_string())),
            SetupEvent::Exists(true),
            SetupEvent::Entered(Ok(())),
            SetupEvent::Listed(DirListing::IsEmpty(true)),
            SetupEvent::TemplateCache(None),
            SetupEvent::Ran(Ok(CommandOutcome::NotStarted("not found".to_string()))),
        ],
    );
    assert_eq!(
        finish_text(&actions[6]),
        ("failure", "Failed to execute forge init command: not found. Make sure 'forge' is installed and in PATH.".to_string())
    );
}

#[test]
fn setup_reports_listing_and_task_failures() {
    let actions = run_setup(
        false,
        vec![
            SetupEvent::ProjectRoot(Some("/p".to_string())),
            SetupEvent::Exists(true),
            SetupEvent::Entered(Ok(())),
            SetupEvent::Listed(DirListing::CurrentDirFailed("gone".to_string())),
        ],
    );
    assert_eq!(finish_text(&actions[4]), ("internal", "Failed to get current dir: gone".to_string()));
    let actions = run_setup(
        false,
        vec![
            SetupEvent::ProjectRoot(Some("/p".to_string())),
            SetupEvent::Exists(true),
            SetupEvent::Entered(Ok(())),
            SetupEvent::Listed(DirListing::IsEmpty(true)),
            SetupEvent::TemplateCache(None),
            SetupEvent::Ran(Err("task panicked".to_string())),
        ],
    );
    assert_eq!(finish_text(&actions[6]), ("internal", "Spawn blocking task failed: task panicked".to_string()));
}

#[test]
fn setup_accepts_only_the_awaited_event() {
    let (setup, _) = Setup::start(false);
    assert!(setup.accepts(&SetupEvent::ProjectRoot(None)));
    assert!(!setup.accepts(&SetupEvent::Exists(true)));
    let (setup, _) = setup.step(SetupEvent::ProjectRoot(Some("/p".to_string())));
    assert!(setup.accepts(&SetupEvent::Exists(false)));
    assert!(!setup.accepts(&SetupEvent::TemplateCache(None)));
}
