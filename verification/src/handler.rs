//! What the MCP tools decide: which command a tool runs, what it refuses to run, and the text
//! it answers with. The caller runs the commands and reports what came of them.
use vstd::prelude::*;
use crate::config::{opt_view, ScriptsConfig};
use crate::domain::{search_limit, SearchQuery, DEFAULT_SEARCH_LIMIT};
use crate::text::{
    format_i32, lossy_utf8, signed_decimal, str_eq, string_push_str, trim, trim_str, utf8_len,
    utf8_len_is, utf8_lossy,
};

verus! {

/// What a tool answers.
#[derive(Clone, Debug)]
pub enum ToolReply {
    /// A result with this text.
    Success(String),
    /// A result flagged as an error, with this text.
    Failure(String),
    /// An internal error of the server, with this message.
    InternalError(String),
}

/// The view of a [`ToolReply`].
pub enum ReplyView {
    Success(Seq<char>),
    Failure(Seq<char>),
    InternalError(Seq<char>),
}

impl View for ToolReply {
    type V = ReplyView;

    open spec fn view(&self) -> ReplyView {
        match self {
            ToolReply::Success(t) => ReplyView::Success(t@),
            ToolReply::Failure(t) => ReplyView::Failure(t@),
            ToolReply::InternalError(t) => ReplyView::InternalError(t@),
        }
    }
}

/// A program and its arguments.
#[derive(Clone, Debug)]
pub struct CommandLine {
    /// The program.
    pub program: String,
    /// Its arguments, in order.
    pub args: Vec<String>,
}

/// The views of a sequence of strings.
pub open spec fn strings_view(v: Seq<String>) -> Seq<Seq<char>> {
    v.map_values(|a: String| a@)
}

impl View for CommandLine {
    type V = (Seq<char>, Seq<Seq<char>>);

    open spec fn view(&self) -> (Seq<char>, Seq<Seq<char>>) {
        (self.program@, strings_view(self.args@))
    }
}

/// What came of running a command.
#[derive(Clone, Debug)]
pub enum CommandOutcome {
    /// The command ran to its end: its exit code (none when a signal ended it) and the bytes
    /// it wrote to standard output and standard error.
    Exited { exit_code: Option<i32>, stdout: Vec<u8>, stderr: Vec<u8> },
    /// The command could not be run; the text of the error.
    NotStarted(String),
}

/// Whether an exit code is a success: only a zero exit status is.
pub open spec fn exit_success(code: Option<i32>) -> bool {
    code == Some(0i32)
}

/// The text of an exit code, or `N/A` when there is none.
pub open spec fn exit_code_text(code: Option<i32>) -> Seq<char> {
    match code {
        Some(c) => signed_decimal(c as int),
        None => "N/A"@,
    }
}

/// The debug text of an optional exit code: `Some(n)` or `None`.
pub open spec fn debug_exit_code(code: Option<i32>) -> Seq<char> {
    match code {
        Some(c) => "Some("@ + signed_decimal(c as int) + ")"@,
        None => "None"@,
    }
}

/// The text of a boolean.
pub open spec fn bool_text(b: bool) -> Seq<char> {
    if b {
        "true"@
    } else {
        "false"@
    }
}

fn exit_code_string(code: Option<i32>) -> (s: String)
    ensures
        s@ == exit_code_text(code),
{
    match code {
        Some(c) => format_i32(c),
        None => "N/A".to_string(),
    }
}

fn debug_exit_code_string(code: Option<i32>) -> (s: String)
    ensures
        s@ == debug_exit_code(code),
{
    match code {
        Some(c) => {
            let mut s = "Some(".to_string();
            let digits = format_i32(c);
            string_push_str(&mut s, digits.as_str());
            string_push_str(&mut s, ")");
            s
        },
        None => "None".to_string(),
    }
}

fn is_exit_success(code: Option<i32>) -> (b: bool)
    ensures
        b == exit_success(code),
{
    match code {
        Some(c) => c == 0,
        None => false,
    }
}

/// A reply that is a success when the command succeeded and a failure otherwise.
pub open spec fn reply_for(success: bool, text: Seq<char>) -> ReplyView {
    if success {
        ReplyView::Success(text)
    } else {
        ReplyView::Failure(text)
    }
}

fn make_reply(success: bool, text: String) -> (r: ToolReply)
    ensures
        r@ == reply_for(success, text@),
{
    if success {
        ToolReply::Success(text)
    } else {
        ToolReply::Failure(text)
    }
}

// ---------------------------------------------------------------------------
// Deploy and upgrade scripts
// ---------------------------------------------------------------------------
/// The two Foundry scripts the server runs.
#[derive(Clone, Copy, Debug, PartialEq, Eq, Structural)]
pub enum ScriptKind {
    /// The script of the `mc_deploy` tool.
    Deploy,
    /// The script of the `mc_upgrade` tool.
    Upgrade,
}

/// The kind of script a type name names: `deploy` or `upgrade`.
pub open spec fn script_kind_of(name: Seq<char>) -> Option<ScriptKind> {
    if name == "deploy"@ {
        Some(ScriptKind::Deploy)
    } else if name == "upgrade"@ {
        Some(ScriptKind::Upgrade)
    } else {
        None
    }
}

/// Reads a script type name.
pub fn script_kind(name: &str) -> (k: Option<ScriptKind>)
    ensures
        k == script_kind_of(name@),
{
    if str_eq(name, "deploy") {
        Some(ScriptKind::Deploy)
    } else if str_eq(name, "upgrade") {
        Some(ScriptKind::Upgrade)
    } else {
        None
    }
}

/// The configuration key of a script kind.
pub open spec fn kind_key(k: ScriptKind) -> Seq<char> {
    match k {
        ScriptKind::Deploy => "deploy"@,
        ScriptKind::Upgrade => "upgrade"@,
    }
}

/// The capitalised name of a script kind.
pub open spec fn kind_label(k: ScriptKind) -> Seq<char> {
    match k {
        ScriptKind::Deploy => "Deploy"@,
        ScriptKind::Upgrade => "Upgrade"@,
    }
}

/// The answer when a script type is neither deploy nor upgrade.
pub const INVALID_SCRIPT_TYPE: &'static str = "Invalid script type";

/// The answer to a broadcast when no RPC URL is configured.
pub const BROADCAST_NO_RPC_URL: &'static str =
    "Broadcast requires an RPC URL configured in mcp_config.toml ([scripts].rpc_url).";

/// The answer to a broadcast when the configured RPC URL is empty.
pub const BROADCAST_EMPTY_RPC_URL: &'static str =
    "Broadcast requires a non-empty RPC URL configured in mcp_config.toml ([scripts].rpc_url).";

/// The answer to a broadcast when no private key variable is configured.
pub const BROADCAST_NO_KEY_VAR: &'static str =
    "Broadcast requires a private key environment variable name configured in mcp_config.toml ([scripts].private_key_env_var).";

/// The answer to a broadcast when the configured private key variable name is empty.
pub const BROADCAST_EMPTY_KEY_VAR: &'static str =
    "Broadcast requires a non-empty private key environment variable name configured in mcp_config.toml ([scripts].private_key_env_var).";

/// The answer when the script of a kind is not configured (or is empty).
pub open spec fn script_not_configured(k: ScriptKind) -> Seq<char> {
    kind_label(k) + " script path is not configured in mcp_config.toml ([scripts]."@ + kind_key(k)
        + ")"@
}

/// The configured script of a kind.
pub open spec fn script_path_of(scripts: ScriptsConfig, k: ScriptKind) -> Option<Seq<char>> {
    match k {
        ScriptKind::Deploy => opt_view(scripts.deploy),
        ScriptKind::Upgrade => opt_view(scripts.upgrade),
    }
}

/// Why a broadcast cannot go ahead with the configured RPC URL and private key variable, if
/// it cannot.
pub open spec fn broadcast_refusal(rpc_url: Option<Seq<char>>, key_var: Option<Seq<char>>) -> Option<
    Seq<char>,
> {
    match rpc_url {
        None => Some(BROADCAST_NO_RPC_URL@),
        Some(url) => match key_var {
            None => Some(BROADCAST_NO_KEY_VAR@),
            Some(var) => if url.len() == 0 {
                Some(BROADCAST_EMPTY_RPC_URL@)
            } else if var.len() == 0 {
                Some(BROADCAST_EMPTY_KEY_VAR@)
            } else {
                None
            },
        },
    }
}

/// The arguments of `forge` for a script: a dry run names the script alone; a broadcast adds
/// the RPC URL and the private key, passed as a reference to its environment variable.
pub open spec fn forge_script_args(
    path: Seq<char>,
    rpc_url: Seq<char>,
    key_var: Seq<char>,
    broadcast: bool,
) -> Seq<Seq<char>> {
    if broadcast {
        seq![
            "script"@,
            path,
            "--broadcast"@,
            "--rpc-url"@,
            rpc_url,
            "--private-key"@,
            seq!['$'] + key_var,
        ]
    } else {
        seq!["script"@, path]
    }
}

/// The value of an optional text, or the empty text.
pub open spec fn or_empty(o: Option<Seq<char>>) -> Seq<char> {
    match o {
        Some(s) => s,
        None => seq![],
    }
}

/// What a request to run a deploy or upgrade script comes to.
#[derive(Clone, Debug)]
pub enum ScriptRequest {
    /// The tool answers at once, without running anything.
    Answer(ToolReply),
    /// The tool runs this command for this script.
    Run { kind: ScriptKind, script_path: String, command: CommandLine },
}

/// The view of a [`ScriptRequest`].
pub enum ScriptRequestView {
    Answer(ReplyView),
    Run(ScriptKind, Seq<char>, (Seq<char>, Seq<Seq<char>>)),
}

impl View for ScriptRequest {
    type V = ScriptRequestView;

    open spec fn view(&self) -> ScriptRequestView {
        match self {
            ScriptRequest::Answer(r) => ScriptRequestView::Answer(r@),
            ScriptRequest::Run { kind, script_path, command } => ScriptRequestView::Run(
                *kind,
                script_path@,
                command@,
            ),
        }
    }
}

/// What a request to run the script of a type comes to, given the configured scripts.
pub open spec fn script_request(scripts: ScriptsConfig, script_type: Seq<char>, broadcast: bool) -> ScriptRequestView {
    match script_kind_of(script_type) {
        None => ScriptRequestView::Answer(ReplyView::InternalError(INVALID_SCRIPT_TYPE@)),
        Some(k) => {
            let path = script_path_of(scripts, k);
            let rpc_url = opt_view(scripts.rpc_url);
            let key_var = opt_view(scripts.private_key_env_var);
            if !(path is Some && path->0.len() > 0) {
                ScriptRequestView::Answer(ReplyView::Failure(script_not_configured(k)))
            } else if broadcast && broadcast_refusal(rpc_url, key_var) is Some {
                ScriptRequestView::Answer(
                    ReplyView::Failure(broadcast_refusal(rpc_url, key_var)->0),
                )
            } else {
                ScriptRequestView::Run(
                    k,
                    path->0,
                    (
                        "forge"@,
                        forge_script_args(path->0, or_empty(rpc_url), or_empty(key_var), broadcast),
                    ),
                )
            }
        },
    }
}

fn not_configured_message(k: ScriptKind) -> (m: String)
    ensures
        m@ == script_not_configured(k),
{
    let (label, key) = match k {
        ScriptKind::Deploy => ("Deploy", "deploy"),
        ScriptKind::Upgrade => ("Upgrade", "upgrade"),
    };
    let mut m = String::new();
    string_push_str(&mut m, label);
    string_push_str(&mut m, " script path is not configured in mcp_config.toml ([scripts].");
    string_push_str(&mut m, key);
    string_push_str(&mut m, ")");
    m
}

fn failure(text: &str) -> (r: ToolReply)
    ensures
        r@ == ReplyView::Failure(text@),
{
    ToolReply::Failure(text.to_string())
}

fn dry_run_args(path: &String) -> (v: Vec<String>)
    ensures
        strings_view(v@) == forge_script_args(path@, seq![], seq![], false),
{
    let v = vec!["script".to_string(), path.clone()];
    assert(strings_view(v@) =~= forge_script_args(path@, seq![], seq![], false));
    v
}

fn broadcast_args(path: &String, url: &String, var: &String) -> (v: Vec<String>)
    ensures
        strings_view(v@) == forge_script_args(path@, url@, var@, true),
{
    let mut key_arg = "$".to_string();
    string_push_str(&mut key_arg, var.as_str());
    proof {
        reveal_strlit("$");
    }
    assert(key_arg@ =~= seq!['$'] + var@);
    let v = vec![
        "script".to_string(),
        path.clone(),
        "--broadcast".to_string(),
        "--rpc-url".to_string(),
        url.clone(),
        "--private-key".to_string(),
        key_arg,
    ];
    assert(strings_view(v@) =~= forge_script_args(path@, url@, var@, true));
    v
}

/// Decides what a deploy or upgrade request does: the script type must be `deploy` or
/// `upgrade`; its script must be configured and not empty; a broadcast needs a non-empty RPC
/// URL and a non-empty private key variable name. When all holds, the request runs
/// `forge script <path>`, with `--broadcast --rpc-url <url> --private-key $<var>` for a
/// broadcast.
pub fn plan_forge_script(scripts: &ScriptsConfig, script_type: &str, broadcast: bool) -> (r:
    ScriptRequest)
    ensures
        r@ == script_request(*scripts, script_type@, broadcast),
{
    let kind = match script_kind(script_type) {
        Some(k) => k,
        None => {
            return ScriptRequest::Answer(ToolReply::InternalError(INVALID_SCRIPT_TYPE.to_string()));
        },
    };
    let configured = match kind {
        ScriptKind::Deploy => &scripts.deploy,
        ScriptKind::Upgrade => &scripts.upgrade,
    };
    let script_path = match configured {
        Some(p) => {
            if p.as_str().is_empty() {
                return ScriptRequest::Answer(ToolReply::Failure(not_configured_message(kind)));
            }
            p.clone()
        },
        None => {
            return ScriptRequest::Answer(ToolReply::Failure(not_configured_message(kind)));
        },
    };
    let args = if broadcast {
        match &scripts.rpc_url {
            None => {
                return ScriptRequest::Answer(failure(BROADCAST_NO_RPC_URL));
            },
            Some(url) => match &scripts.private_key_env_var {
                None => {
                    return ScriptRequest::Answer(failure(BROADCAST_NO_KEY_VAR));
                },
                Some(var) => {
                    if url.as_str().is_empty() {
                        return ScriptRequest::Answer(failure(BROADCAST_EMPTY_RPC_URL));
                    }
                    if var.as_str().is_empty() {
                        return ScriptRequest::Answer(failure(BROADCAST_EMPTY_KEY_VAR));
                    }
                    broadcast_args(&script_path, url, var)
                },
            },
        }
    } else {
        dry_run_args(&script_path)
    };
    let command = CommandLine { program: "forge".to_string(), args };
    ScriptRequest::Run { kind, script_path, command }
}

/// The title of the report of a script run.
pub open spec fn script_title(k: ScriptKind, broadcast: bool) -> Seq<char> {
    match (k, broadcast) {
        (ScriptKind::Deploy, true) => "Forge Deploy Results"@,
        (ScriptKind::Deploy, false) => "Forge Deploy Dry Run Results"@,
        (ScriptKind::Upgrade, true) => "Forge Upgrade Results"@,
        (ScriptKind::Upgrade, false) => "Forge Upgrade Dry Run Results"@,
    }
}

/// The output part of a report: the exit code, then standard output and standard error.
pub open spec fn output_report(code: Option<i32>, stdout: Seq<char>, stderr: Seq<char>) -> Seq<char> {
    "Exit Code: "@ + exit_code_text(code) + "\n\nStdout:\n"@ + stdout + "\nStderr:\n"@ + stderr
}

/// The report of a script run.
pub open spec fn script_report(
    k: ScriptKind,
    path: Seq<char>,
    broadcast: bool,
    code: Option<i32>,
    stdout: Seq<char>,
    stderr: Seq<char>,
) -> Seq<char> {
    script_title(k, broadcast) + ":\nScript: "@ + path + "\nBroadcast: "@ + bool_text(broadcast)
        + "\n"@ + output_report(code, stdout, stderr)
}

/// What a deploy or upgrade tool answers once its script has run: the report, as a success
/// exactly when forge exited with status zero; or, when forge could not be run, why.
pub open spec fn forge_script_answer(
    k: ScriptKind,
    path: Seq<char>,
    broadcast: bool,
    outcome: CommandOutcome,
) -> ReplyView {
    match outcome {
        CommandOutcome::Exited { exit_code, stdout, stderr } => reply_for(
            exit_success(exit_code),
            script_report(
                k,
                path,
                broadcast,
                exit_code,
                lossy_utf8(stdout@),
                lossy_utf8(stderr@),
            ),
        ),
        CommandOutcome::NotStarted(e) => ReplyView::Failure(
            "Failed to execute forge script command for '"@ + path + "': "@ + e@
                + ". Make sure 'forge' is installed and in PATH."@,
        ),
    }
}

fn push_output_report(text: &mut String, code: Option<i32>, stdout: &[u8], stderr: &[u8])
    ensures
        final(text)@ == old(text)@ + output_report(code, lossy_utf8(stdout@), lossy_utf8(stderr@)),
{
    let code_text = exit_code_string(code);
    let out = utf8_lossy(stdout);
    let err = utf8_lossy(stderr);
    string_push_str(text, "Exit Code: ");
    string_push_str(text, code_text.as_str());
    string_push_str(text, "\n\nStdout:\n");
    string_push_str(text, out.as_str());
    string_push_str(text, "\nStderr:\n");
    string_push_str(text, err.as_str());
}

/// The answer of a deploy or upgrade tool once its script has run.
pub fn forge_script_reply(kind: ScriptKind, script_path: &str, broadcast: bool, outcome: &CommandOutcome) -> (r:
    ToolReply)
    ensures
        r@ == forge_script_answer(kind, script_path@, broadcast, *outcome),
{
    match outcome {
        CommandOutcome::Exited { exit_code, stdout, stderr } => {
            let title = match kind {
                ScriptKind::Deploy => if broadcast {
                    "Forge Deploy Results"
                } else {
                    "Forge Deploy Dry Run Results"
                },
                ScriptKind::Upgrade => if broadcast {
                    "Forge Upgrade Results"
                } else {
                    "Forge Upgrade Dry Run Results"
                },
            };
            let mut text = String::new();
            string_push_str(&mut text, title);
            string_push_str(&mut text, ":\nScript: ");
            string_push_str(&mut text, script_path);
            string_push_str(&mut text, "\nBroadcast: ");
            string_push_str(&mut text, if broadcast { "true" } else { "false" });
            string_push_str(&mut text, "\n");
            push_output_report(&mut text, *exit_code, stdout.as_slice(), stderr.as_slice());
            make_reply(is_exit_success(*exit_code), text)
        },
        CommandOutcome::NotStarted(e) => {
            let mut text = String::new();
            string_push_str(&mut text, "Failed to execute forge script command for '");
            string_push_str(&mut text, script_path);
            string_push_str(&mut text, "': ");
            string_push_str(&mut text, e.as_str());
            string_push_str(&mut text, ". Make sure 'forge' is installed and in PATH.");
            ToolReply::Failure(text)
        },
    }
}

// ---------------------------------------------------------------------------
// forge test
// ---------------------------------------------------------------------------
/// The command of the `mc_test` tool: `forge test`.
pub fn forge_test_command() -> (c: CommandLine)
    ensures
        c@ == ("forge"@, seq!["test"@]),
{
    let c = CommandLine { program: "forge".to_string(), args: vec!["test".to_string()] };
    assert(strings_view(c.args@) =~= seq!["test"@]);
    c
}

/// What the `mc_test` tool answers once `forge test` has run.
pub open spec fn forge_test_answer(outcome: CommandOutcome) -> ReplyView {
    match outcome {
        CommandOutcome::Exited { exit_code, stdout, stderr } => reply_for(
            exit_success(exit_code),
            "Forge Test Results:\n"@ + output_report(
                exit_code,
                lossy_utf8(stdout@),
                lossy_utf8(stderr@),
            ),
        ),
        CommandOutcome::NotStarted(e) => ReplyView::Failure(
            "Failed to execute forge command: "@ + e@
                + ". Make sure 'forge' is installed and in PATH."@,
        ),
    }
}

/// The answer of the `mc_test` tool: the report of `forge test`, a success exactly when it
/// exited with status zero.
pub fn forge_test_reply(outcome: &CommandOutcome) -> (r: ToolReply)
    ensures
        r@ == forge_test_answer(*outcome),
{
    match outcome {
        CommandOutcome::Exited { exit_code, stdout, stderr } => {
            let mut text = "Forge Test Results:\n".to_string();
            push_output_report(&mut text, *exit_code, stdout.as_slice(), stderr.as_slice());
            make_reply(is_exit_success(*exit_code), text)
        },
        CommandOutcome::NotStarted(e) => {
            let mut text = "Failed to execute forge command: ".to_string();
            string_push_str(&mut text, e.as_str());
            string_push_str(&mut text, ". Make sure 'forge' is installed and in PATH.");
            ToolReply::Failure(text)
        },
    }
}

// ---------------------------------------------------------------------------
// Semantic search
// ---------------------------------------------------------------------------
/// The answer while the search service is not ready yet.
pub const SEARCH_INITIALIZING: &'static str =
    "The document search service is still initializing. Please try again shortly.";

/// Prepares a semantic search: while the search service is not ready, the tool answers that
/// it is still initializing; otherwise it searches for the text with the given limit, five
/// by default, over all sources.
pub fn plan_semantic_search(service_ready: bool, query: String, limit: Option<usize>) -> (r:
    Result<SearchQuery, ToolReply>)
    ensures
        service_ready <==> r is Ok,
        r matches Ok(q) ==> q.text@ == query@ && q.limit == Some(search_limit(limit))
            && q.sources is None,
        r matches Ok(q) ==> (limit matches Some(n) ==> q.limit == Some(n)),
        r matches Ok(q) ==> (limit is None ==> q.limit == Some(5usize)),
        r matches Err(reply) ==> reply@ == ReplyView::Failure(SEARCH_INITIALIZING@),
{
    if !service_ready {
        return Err(failure(SEARCH_INITIALIZING));
    }
    let n = match limit {
        Some(n) => n,
        None => DEFAULT_SEARCH_LIMIT,
    };
    Ok(SearchQuery { text: query, limit: Some(n), sources: None })
}

/// The answer when the search itself failed.
pub fn search_failed_reply(error: &str) -> (r: ToolReply)
    ensures
        r@ == ReplyView::Failure("Semantic search failed: "@ + error@),
{
    let mut text = "Semantic search failed: ".to_string();
    string_push_str(&mut text, error);
    ToolReply::Failure(text)
}

// ---------------------------------------------------------------------------
// ERC-7201 storage slots
// ---------------------------------------------------------------------------
/// The command of the `mc_erc7201_slot` tool: `cast index-erc7201 <slot>`.
pub fn erc7201_command(slot: &str) -> (c: CommandLine)
    ensures
        c@ == ("cast"@, seq!["index-erc7201"@, slot@]),
{
    let c = CommandLine {
        program: "cast".to_string(),
        args: vec!["index-erc7201".to_string(), slot.to_string()],
    };
    assert(strings_view(c.args@) =~= seq!["index-erc7201"@, slot@]);
    c
}

/// Whether a text looks like a storage slot: `0x` followed by what makes 66 bytes in all.
pub open spec fn is_slot_text(s: Seq<char>) -> bool {
    s.len() >= 2 && s[0] == '0' && s[1] == 'x' && utf8_len(s) == 66
}

/// What the `mc_erc7201_slot` tool answers once `cast` has run: the trimmed output when cast
/// succeeded and printed a slot; otherwise why not.
pub open spec fn erc7201_answer(outcome: CommandOutcome) -> ReplyView {
    match outcome {
        CommandOutcome::Exited { exit_code, stdout, stderr } => {
            let out = trim(lossy_utf8(stdout@));
            let err = lossy_utf8(stderr@);
            if !exit_success(exit_code) {
                ReplyView::Failure(
                    "cast index-erc7201 failed: "@ + debug_exit_code(exit_code) + "\n"@ + err,
                )
            } else if is_slot_text(out) {
                ReplyView::Success(out)
            } else {
                ReplyView::Failure(
                    "cast index-erc7201 returned invalid slot: '"@ + out + "'.\nStderr:\n"@ + err,
                )
            }
        },
        CommandOutcome::NotStarted(e) => ReplyView::Failure("Failed to execute cast: "@ + e@),
    }
}

/// The answer of the `mc_erc7201_slot` tool.
pub fn erc7201_reply(outcome: &CommandOutcome) -> (r: ToolReply)
    ensures
        r@ == erc7201_answer(*outcome),
{
    match outcome {
        CommandOutcome::Exited { exit_code, stdout, stderr } => {
            let raw = utf8_lossy(stdout.as_slice());
            let out = trim_str(raw.as_str());
            let err = utf8_lossy(stderr.as_slice());
            if !is_exit_success(*exit_code) {
                let mut text = "cast index-erc7201 failed: ".to_string();
                let code = debug_exit_code_string(*exit_code);
                string_push_str(&mut text, code.as_str());
                string_push_str(&mut text, "\n");
                string_push_str(&mut text, err.as_str());
                return ToolReply::Failure(text);
            }
            let v = crate::text::chars_of(out.as_str());
            if v.len() >= 2 && v[0] == '0' && v[1] == 'x' && utf8_len_is(out.as_str(), 66) {
                ToolReply::Success(out)
            } else {
                let mut text = "cast index-erc7201 returned invalid slot: '".to_string();
                string_push_str(&mut text, out.as_str());
                string_push_str(&mut text, "'.\nStderr:\n");
                string_push_str(&mut text, err.as_str());
                ToolReply::Failure(text)
            }
        },
        CommandOutcome::NotStarted(e) => {
            let mut text = "Failed to execute cast: ".to_string();
            string_push_str(&mut text, e.as_str());
            ToolReply::Failure(text)
        },
    }
}

// ---------------------------------------------------------------------------
// Project setup
// ---------------------------------------------------------------------------
/// The template the setup tool initialises a project from when no local template cache is
/// configured.
pub const MC_TEMPLATE_REPO: &'static str = "metacontract/template";

/// The internal error when the project root variable is not set.
pub const PROJECT_ROOT_NOT_SET: &'static str =
    "MC_PROJECT_ROOT is not set. Please set MC_PROJECT_ROOT to your project root directory.";

/// The answer when the project directory is not empty and setup is not forced.
pub const DIRECTORY_NOT_EMPTY: &'static str =
    "The current directory is not empty. Please run setup in a new directory or set [setup].force = true in mcp_config.toml.";

/// How far a setup has come.
#[derive(Clone, Debug)]
pub enum SetupStage {
    /// Waiting for the value of `MC_PROJECT_ROOT`.
    AwaitingProjectRoot,
    /// Waiting to know whether this project root exists.
    AwaitingRootCheck(String),
    /// Waiting for the project root to become the working directory.
    AwaitingEnter,
    /// Waiting to know whether the working directory is empty.
    AwaitingListing,
    /// Waiting for the value of `MC_TEMPLATE_CACHE`.
    AwaitingTemplate,
    /// Waiting for `forge init` from this template to end.
    AwaitingInit(String),
    /// The setup has answered.
    Done,
}

/// The view of a [`SetupStage`].
pub enum SetupStageView {
    AwaitingProjectRoot,
    AwaitingRootCheck(Seq<char>),
    AwaitingEnter,
    AwaitingListing,
    AwaitingTemplate,
    AwaitingInit(Seq<char>),
    Done,
}

impl View for SetupStage {
    type V = SetupStageView;

    open spec fn view(&self) -> SetupStageView {
        match self {
            SetupStage::AwaitingProjectRoot => SetupStageView::AwaitingProjectRoot,
            SetupStage::AwaitingRootCheck(r) => SetupStageView::AwaitingRootCheck(r@),
            SetupStage::AwaitingEnter => SetupStageView::AwaitingEnter,
            SetupStage::AwaitingListing => SetupStageView::AwaitingListing,
            SetupStage::AwaitingTemplate => SetupStageView::AwaitingTemplate,
            SetupStage::AwaitingInit(t) => SetupStageView::AwaitingInit(t@),
            SetupStage::Done => SetupStageView::Done,
        }
    }
}

/// What the setup asks of its caller next.
#[derive(Clone, Debug)]
pub enum SetupAction {
    /// Read the environment variable `MC_PROJECT_ROOT`.
    ReadProjectRoot,
    /// Tell whether this path exists.
    CheckExists(String),
    /// Make this path the working directory.
    EnterDirectory(String),
    /// Tell whether the working directory is empty.
    ListWorkingDirectory,
    /// Read the environment variable `MC_TEMPLATE_CACHE`.
    ReadTemplateCache,
    /// Run this command in the working directory.
    Run(CommandLine),
    /// Answer the tool call with this.
    Finish(ToolReply),
}

/// The view of a [`SetupAction`].
pub enum SetupActionView {
    ReadProjectRoot,
    CheckExists(Seq<char>),
    EnterDirectory(Seq<char>),
    ListWorkingDirectory,
    ReadTemplateCache,
    Run((Seq<char>, Seq<Seq<char>>)),
    Finish(ReplyView),
}

impl View for SetupAction {
    type V = SetupActionView;

    open spec fn view(&self) -> SetupActionView {
        match self {
            SetupAction::ReadProjectRoot => SetupActionView::ReadProjectRoot,
            SetupAction::CheckExists(p) => SetupActionView::CheckExists(p@),
            SetupAction::EnterDirectory(p) => SetupActionView::EnterDirectory(p@),
            SetupAction::ListWorkingDirectory => SetupActionView::ListWorkingDirectory,
            SetupAction::ReadTemplateCache => SetupActionView::ReadTemplateCache,
            SetupAction::Run(c) => SetupActionView::Run(c@),
            SetupAction::Finish(r) => SetupActionView::Finish(r@),
        }
    }
}

/// What listing the working directory gave.
#[derive(Clone, Debug)]
pub enum DirListing {
    /// Whether the directory is empty.
    IsEmpty(bool),
    /// The working directory could not be determined; the error's text.
    CurrentDirFailed(String),
    /// The working directory could not be read; the error's text.
    ReadDirFailed(String),
}

/// What the caller reports back to the setup.
#[derive(Debug)]
pub enum SetupEvent {
    /// The value of `MC_PROJECT_ROOT`, if set.
    ProjectRoot(Option<String>),
    /// Whether the project root exists.
    Exists(bool),
    /// Whether the project root became the working directory, or why not.
    Entered(Result<(), String>),
    /// What listing the working directory gave.
    Listed(DirListing),
    /// The value of `MC_TEMPLATE_CACHE`, if set.
    TemplateCache(Option<String>),
    /// What came of `forge init`; an error when the task running it could not be joined.
    Ran(Result<CommandOutcome, String>),
}

/// Whether a stage waits for this kind of event.
pub open spec fn setup_accepts(stage: SetupStageView, event: SetupEvent) -> bool {
    match stage {
        SetupStageView::AwaitingProjectRoot => event is ProjectRoot,
        SetupStageView::AwaitingRootCheck(_) => event is Exists,
        SetupStageView::AwaitingEnter => event is Entered,
        SetupStageView::AwaitingListing => event is Listed,
        SetupStageView::AwaitingTemplate => event is TemplateCache,
        SetupStageView::AwaitingInit(_) => event is Ran,
        SetupStageView::Done => false,
    }
}

/// The arguments of `forge init` from a template: `--no-git` is added when setup is forced.
pub open spec fn init_args(template: Seq<char>, force: bool) -> Seq<Seq<char>> {
    if force {
        seq!["init"@, "."@, "-t"@, template, "--no-git"@]
    } else {
        seq!["init"@, "."@, "-t"@, template]
    }
}

/// What the setup answers once `forge init` has ended.
pub open spec fn init_answer(template: Seq<char>, ran: Result<CommandOutcome, String>) -> ReplyView {
    match ran {
        Err(e) => ReplyView::InternalError("Spawn blocking task failed: "@ + e@),
        Ok(CommandOutcome::NotStarted(e)) => ReplyView::Failure(
            "Failed to execute forge init command: "@ + e@
                + ". Make sure 'forge' is installed and in PATH."@,
        ),
        Ok(CommandOutcome::Exited { exit_code, stdout, stderr }) => if exit_success(exit_code) {
            ReplyView::Success("Successfully initialized Foundry project with template: "@ + template)
        } else {
            ReplyView::Failure(
                "forge init failed with exit code: "@ + debug_exit_code(exit_code) + ".\nStderr:\n"@
                    + lossy_utf8(stderr@),
            )
        },
    }
}

/// One step of the setup: from a stage and what the caller reported, the next stage and what
/// the caller is to do.
pub open spec fn setup_next(stage: SetupStageView, force: bool, event: SetupEvent) -> (
    SetupStageView,
    SetupActionView,
) {
    match stage {
        SetupStageView::AwaitingProjectRoot => match event {
            SetupEvent::ProjectRoot(Some(r)) => (
                SetupStageView::AwaitingRootCheck(r@),
                SetupActionView::CheckExists(r@),
            ),
            _ => (
                SetupStageView::Done,
                SetupActionView::Finish(ReplyView::InternalError(PROJECT_ROOT_NOT_SET@)),
            ),
        },
        SetupStageView::AwaitingRootCheck(root) => match event {
            SetupEvent::Exists(true) => (
                SetupStageView::AwaitingEnter,
                SetupActionView::EnterDirectory(root),
            ),
            _ => (
                SetupStageView::Done,
                SetupActionView::Finish(
                    ReplyView::Failure("MC_PROJECT_ROOT does not exist: "@ + root),
                ),
            ),
        },
        SetupStageView::AwaitingEnter => match event {
            SetupEvent::Entered(Err(e)) => (
                SetupStageView::Done,
                SetupActionView::Finish(
                    ReplyView::InternalError("Failed to set current dir: "@ + e@),
                ),
            ),
            _ => (SetupStageView::AwaitingListing, SetupActionView::ListWorkingDirectory),
        },
        SetupStageView::AwaitingListing => match event {
            SetupEvent::Listed(DirListing::CurrentDirFailed(e)) => (
                SetupStageView::Done,
                SetupActionView::Finish(
                    ReplyView::InternalError("Failed to get current dir: "@ + e@),
                ),
            ),
            SetupEvent::Listed(DirListing::ReadDirFailed(e)) => (
                SetupStageView::Done,
                SetupActionView::Finish(
                    ReplyView::InternalError("Failed to read current dir: "@ + e@),
                ),
            ),
            SetupEvent::Listed(DirListing::IsEmpty(empty)) => if !force && !empty {
                (
                    SetupStageView::Done,
                    SetupActionView::Finish(ReplyView::Failure(DIRECTORY_NOT_EMPTY@)),
                )
            } else {
                (SetupStageView::AwaitingTemplate, SetupActionView::ReadTemplateCache)
            },
            _ => (stage, SetupActionView::ListWorkingDirectory),
        },
        SetupStageView::AwaitingTemplate => {
            let template = match event {
                SetupEvent::TemplateCache(Some(t)) => t@,
                _ => MC_TEMPLATE_REPO@,
            };
            (
                SetupStageView::AwaitingInit(template),
                SetupActionView::Run(("forge"@, init_args(template, force))),
            )
        },
        SetupStageView::AwaitingInit(template) => match event {
            SetupEvent::Ran(ran) => (
                SetupStageView::Done,
                SetupActionView::Finish(init_answer(template, ran)),
            ),
            _ => (stage, SetupActionView::ReadTemplateCache),
        },
        SetupStageView::Done => (stage, SetupActionView::ReadProjectRoot),
    }
}

/// A run of the `mc_setup` tool: it initialises a Foundry project from the template in the
/// project root, which must exist and be empty unless setup is forced.
#[derive(Clone, Debug)]
pub struct Setup {
    /// How far the setup has come.
    pub stage: SetupStage,
    /// Whether setup goes ahead in a directory that is not empty.
    pub force: bool,
}

fn init_command(template: &String, force: bool) -> (c: CommandLine)
    ensures
        c@ == ("forge"@, init_args(template@, force)),
{
    let mut args = vec![
        "init".to_string(),
        ".".to_string(),
        "-t".to_string(),
        template.clone(),
    ];
    if force {
        args.push("--no-git".to_string());
    }
    let c = CommandLine { program: "forge".to_string(), args };
    assert(strings_view(c.args@) =~= init_args(template@, force));
    c
}

fn init_reply(template: &String, ran: &Result<CommandOutcome, String>) -> (r: ToolReply)
    ensures
        r@ == init_answer(template@, *ran),
{
    match ran {
        Err(e) => {
            let mut text = "Spawn blocking task failed: ".to_string();
            string_push_str(&mut text, e.as_str());
            ToolReply::InternalError(text)
        },
        Ok(CommandOutcome::NotStarted(e)) => {
            let mut text = "Failed to execute forge init command: ".to_string();
            string_push_str(&mut text, e.as_str());
            string_push_str(&mut text, ". Make sure 'forge' is installed and in PATH.");
            ToolReply::Failure(text)
        },
        Ok(CommandOutcome::Exited { exit_code, stdout: _, stderr }) => {
            if is_exit_success(*exit_code) {
                let mut text = "Successfully initialized Foundry project with template: ".to_string();
                string_push_str(&mut text, template.as_str());
                ToolReply::Success(text)
            } else {
                let mut text = "forge init failed with exit code: ".to_string();
                let code = debug_exit_code_string(*exit_code);
                string_push_str(&mut text, code.as_str());
                string_push_str(&mut text, ".\nStderr:\n");
                let err = utf8_lossy(stderr.as_slice());
                string_push_str(&mut text, err.as_str());
                ToolReply::Failure(text)
            }
        },
    }
}

fn prefixed(prefix: &str, text: &String) -> (s: String)
    ensures
        s@ == prefix@ + text@,
{
    let mut s = prefix.to_string();
    string_push_str(&mut s, text.as_str());
    s
}

impl Setup {
    /// Starts a setup: the caller is first to read `MC_PROJECT_ROOT`.
    pub fn start(force: bool) -> (r: (Setup, SetupAction))
        ensures
            r.0.stage@ == SetupStageView::AwaitingProjectRoot,
            r.0.force == force,
            r.1@ == SetupActionView::ReadProjectRoot,
    {
        (Setup { stage: SetupStage::AwaitingProjectRoot, force }, SetupAction::ReadProjectRoot)
    }

    /// Whether the setup waits for this kind of event.
    pub fn accepts(&self, event: &SetupEvent) -> (b: bool)
        ensures
            b == setup_accepts(self.stage@, *event),
    {
        match self.stage {
            SetupStage::AwaitingProjectRoot => matches!(event, SetupEvent::ProjectRoot(_)),
            SetupStage::AwaitingRootCheck(_) => matches!(event, SetupEvent::Exists(_)),
            SetupStage::AwaitingEnter => matches!(event, SetupEvent::Entered(_)),
            SetupStage::AwaitingListing => matches!(event, SetupEvent::Listed(_)),
            SetupStage::AwaitingTemplate => matches!(event, SetupEvent::TemplateCache(_)),
            SetupStage::AwaitingInit(_) => matches!(event, SetupEvent::Ran(_)),
            SetupStage::Done => false,
        }
    }

    /// Takes the setup one step further with what the caller reported.
    pub fn step(self, event: SetupEvent) -> (r: (Setup, SetupAction))
        requires
            setup_accepts(self.stage@, event),
        ensures
            (r.0.stage@, r.1@) == setup_next(self.stage@, self.force, event),
            r.0.force == self.force,
    {
        let force = self.force;
        let (stage, action) = match self.stage {
            SetupStage::AwaitingProjectRoot => match event {
                SetupEvent::ProjectRoot(Some(root)) => {
                    let check = root.clone();
                    (SetupStage::AwaitingRootCheck(root), SetupAction::CheckExists(check))
                },
                _ => (
                    SetupStage::Done,
                    SetupAction::Finish(ToolReply::InternalError(PROJECT_ROOT_NOT_SET.to_string())),
                ),
            },
            SetupStage::AwaitingRootCheck(root) => match event {
                SetupEvent::Exists(true) => (SetupStage::AwaitingEnter, SetupAction::EnterDirectory(root)),
                _ => (
                    SetupStage::Done,
                    SetupAction::Finish(
                        ToolReply::Failure(prefixed("MC_PROJECT_ROOT does not exist: ", &root)),
                    ),
                ),
            },
            SetupStage::AwaitingEnter => match event {
                SetupEvent::Entered(Err(e)) => (
                    SetupStage::Done,
                    SetupAction::Finish(
                        ToolReply::InternalError(prefixed("Failed to set current dir: ", &e)),
                    ),
                ),
                _ => (SetupStage::AwaitingListing, SetupAction::ListWorkingDirectory),
            },
            SetupStage::AwaitingListing => match event {
                SetupEvent::Listed(DirListing::CurrentDirFailed(e)) => (
                    SetupStage::Done,
                    SetupAction::Finish(
                        ToolReply::InternalError(prefixed("Failed to get current dir: ", &e)),
                    ),
                ),
                SetupEvent::Listed(DirListing::ReadDirFailed(e)) => (
                    SetupStage::Done,
                    SetupAction::Finish(
                        ToolReply::InternalError(prefixed("Failed to read current dir: ", &e)),
                    ),
                ),
                SetupEvent::Listed(DirListing::IsEmpty(empty)) => {
                    if !force && !empty {
                        (SetupStage::Done, SetupAction::Finish(failure(DIRECTORY_NOT_EMPTY)))
                    } else {
                        (SetupStage::AwaitingTemplate, SetupAction::ReadTemplateCache)
                    }
                },
                _ => (SetupStage::AwaitingListing, SetupAction::ListWorkingDirectory),
            },
            SetupStage::AwaitingTemplate => {
                let template = match event {
                    SetupEvent::TemplateCache(Some(t)) => t,
                    _ => MC_TEMPLATE_REPO.to_string(),
                };
                let command = init_command(&template, force);
                (SetupStage::AwaitingInit(template), SetupAction::Run(command))
            },
            SetupStage::AwaitingInit(template) => match event {
                SetupEvent::Ran(ran) => {
                    let reply = init_reply(&template, &ran);
                    (SetupStage::Done, SetupAction::Finish(reply))
                },
                _ => (SetupStage::AwaitingInit(template), SetupAction::ReadTemplateCache),
            },
            SetupStage::Done => (SetupStage::Done, SetupAction::ReadProjectRoot),
        };
        (Setup { stage, force }, action)
    }
}

/// The stage a setup reaches after the caller has reported these events in turn.
pub open spec fn setup_after(force: bool, events: Seq<SetupEvent>) -> SetupStageView
    decreases events.len(),
{
    if events.len() == 0 {
        SetupStageView::AwaitingProjectRoot
    } else {
        setup_next(setup_after(force, events.drop_last()), force, events.last()).0
    }
}

/// Whether an event reports an empty working directory, or any listing when setup is forced.
pub open spec fn empty_or_forced(event: SetupEvent, force: bool) -> bool {
    event matches SetupEvent::Listed(DirListing::IsEmpty(empty)) && (empty || force)
}

proof fn lemma_template_stage_follows_listing(force: bool, events: Seq<SetupEvent>)
    ensures
        (setup_after(force, events) is AwaitingTemplate || setup_after(force, events) is AwaitingInit)
            ==> exists|i: int| 0 <= i < events.len() && #[trigger] empty_or_forced(events[i], force),
    decreases events.len(),
{
    if events.len() > 0 {
        let prev = events.drop_last();
        lemma_template_stage_follows_listing(force, prev);
        let s = setup_after(force, prev);
        let t = setup_after(force, events);
        if t is AwaitingTemplate || t is AwaitingInit {
            if s is AwaitingTemplate || s is AwaitingInit {
                let i = choose|i: int| 0 <= i < prev.len() && #[trigger] empty_or_forced(prev[i], force);
                assert(events[i] == prev[i]);
                assert(empty_or_forced(events[i], force));
            } else {
                let last = events.len() - 1;
                assert(events[last] == events.last());
                assert(empty_or_forced(events[last], force));
            }
        }
    }
}

/// Setup runs `forge init` only after the working directory was reported empty, or, when
/// setup is forced, after it was listed at all: a directory that is not empty is never
/// initialised unless `[setup].force` is set.
pub proof fn law_setup_init_needs_empty_or_forced(
    force: bool,
    events: Seq<SetupEvent>,
    event: SetupEvent,
)
    requires
        setup_next(setup_after(force, events), force, event).1 is Run,
    ensures
        exists|i: int| 0 <= i < events.len() && #[trigger] empty_or_forced(events[i], force),
{
    lemma_template_stage_follows_listing(force, events);
}

/// How many steps a setup has left at most.
pub open spec fn setup_rank(stage: SetupStageView) -> nat {
    match stage {
        SetupStageView::AwaitingProjectRoot => 6,
        SetupStageView::AwaitingRootCheck(_) => 5,
        SetupStageView::AwaitingEnter => 4,
        SetupStageView::AwaitingListing => 3,
        SetupStageView::AwaitingTemplate => 2,
        SetupStageView::AwaitingInit(_) => 1,
        SetupStageView::Done => 0,
    }
}

/// Every step of a setup brings it closer to its answer: a setup answers after at most six
/// steps, and once it has answered it waits for nothing more.
pub proof fn law_setup_terminates(stage: SetupStageView, force: bool, event: SetupEvent)
    requires
        setup_accepts(stage, event),
    ensures
        setup_rank(setup_next(stage, force, event).0) < setup_rank(stage),
        setup_next(stage, force, event).0 is Done <==> setup_next(stage, force, event).1 is Finish,
        !setup_accepts(SetupStageView::Done, event),
{
}

/// A dry run of a deploy or upgrade script passes forge the script alone: no broadcast, no
/// RPC URL and no private key.
pub proof fn law_dry_run_passes_script_alone(scripts: ScriptsConfig, script_type: Seq<char>)
    ensures
        script_request(scripts, script_type, false) matches ScriptRequestView::Run(_, path, command)
            ==> command.1 == seq!["script"@, path],
{
}

/// A broadcast that is not refused runs the configured script of its kind with the broadcast
/// flag, the configured RPC URL and the configured private key variable (as `$` and its
/// name), for deploy and upgrade alike.
pub proof fn law_broadcast_passes_rpc_url_and_key(
    scripts: ScriptsConfig,
    script_type: Seq<char>,
    kind: ScriptKind,
    path: Seq<char>,
    command: (Seq<char>, Seq<Seq<char>>),
)
    requires
        script_request(scripts, script_type, true) == ScriptRequestView::Run(kind, path, command),
    ensures
        scripts.rpc_url is Some,
        scripts.private_key_env_var is Some,
        scripts.rpc_url->0@.len() > 0,
        scripts.private_key_env_var->0@.len() > 0,
        script_type == "deploy"@ ==> kind == ScriptKind::Deploy && scripts.deploy is Some && path
            == scripts.deploy->0@,
        script_type == "upgrade"@ ==> kind == ScriptKind::Upgrade && scripts.upgrade is Some && path
            == scripts.upgrade->0@,
        command.0 == "forge"@,
        command.1 == seq![
            "script"@,
            path,
            "--broadcast"@,
            "--rpc-url"@,
            scripts.rpc_url->0@,
            "--private-key"@,
            seq!['$'] + scripts.private_key_env_var->0@,
        ],
{
    reveal_strlit("deploy");
    reveal_strlit("upgrade");
}

/// A broadcast of a configured script with a non-empty RPC URL and a non-empty private key
/// variable is never refused: it runs, for deploy and upgrade alike.
pub proof fn law_configured_broadcast_runs(scripts: ScriptsConfig, script_type: Seq<char>)
    requires
        script_type == "deploy"@ || script_type == "upgrade"@,
        script_type == "deploy"@ ==> scripts.deploy is Some && scripts.deploy->0@.len() > 0,
        script_type == "upgrade"@ ==> scripts.upgrade is Some && scripts.upgrade->0@.len() > 0,
        scripts.rpc_url is Some && scripts.rpc_url->0@.len() > 0,
        scripts.private_key_env_var is Some && scripts.private_key_env_var->0@.len() > 0,
    ensures
        script_request(scripts, script_type, true) is Run,
        script_request(scripts, script_type, false) is Run,
{
    reveal_strlit("deploy");
    reveal_strlit("upgrade");
}

/// The listing decides a setup thus: an empty working directory always goes on to the
/// template, and so does any directory when setup is forced; a directory that is not empty
/// and not forced is refused with the not-empty answer.
pub proof fn law_setup_listing_decision(force: bool, empty: bool)
    ensures
        empty || force ==> setup_next(
            SetupStageView::AwaitingListing,
            force,
            SetupEvent::Listed(DirListing::IsEmpty(empty)),
        ) == (SetupStageView::AwaitingTemplate, SetupActionView::ReadTemplateCache),
        !empty && !force ==> setup_next(
            SetupStageView::AwaitingListing,
            force,
            SetupEvent::Listed(DirListing::IsEmpty(empty)),
        ) == (
            SetupStageView::Done,
            SetupActionView::Finish(ReplyView::Failure(DIRECTORY_NOT_EMPTY@)),
        ),
{
}

/// After the template is known, setup runs `forge init . -t <template>`, with `--no-git`
/// exactly when it is forced; the template is the cache when one is set, and the
/// metacontract template otherwise.
pub proof fn law_setup_runs_init_from_template(force: bool, cache: Option<String>)
    ensures
        setup_next(SetupStageView::AwaitingTemplate, force, SetupEvent::TemplateCache(cache))
            == ({
            let template = match cache {
                Some(t) => t@,
                None => MC_TEMPLATE_REPO@,
            };
            (
                SetupStageView::AwaitingInit(template),
                SetupActionView::Run(
                    (
                        "forge"@,
                        if force {
                            seq!["init"@, "."@, "-t"@, template, "--no-git"@]
                        } else {
                            seq!["init"@, "."@, "-t"@, template]
                        },
                    ),
                ),
            )
        }),
{
}

/// When cast exits with status zero and its trimmed output is `0x` followed by what makes 66
/// bytes in all, the answer is that output, whatever cast wrote to standard error.
pub proof fn law_erc7201_slot_answered_whatever_stderr(stdout: Vec<u8>, stderr: Vec<u8>)
    requires
        ({
            let out = trim(lossy_utf8(stdout@));
            &&& out.len() >= 2
            &&& out[0] == '0'
            &&& out[1] == 'x'
            &&& vstd::utf8::encode_utf8(out).len() == 66
        }),
    ensures
        erc7201_answer(CommandOutcome::Exited { exit_code: Some(0i32), stdout, stderr })
            == ReplyView::Success(trim(lossy_utf8(stdout@))),
{
    crate::text::law_utf8_len_counts_encoded_bytes(trim(lossy_utf8(stdout@)));
}

/// The answer of cast does not depend on its standard error when it succeeds with a slot:
/// two runs that differ only in standard error give the same answer.
pub proof fn law_erc7201_success_ignores_stderr(
    stdout: Vec<u8>,
    stderr1: Vec<u8>,
    stderr2: Vec<u8>,
)
    requires
        erc7201_answer(CommandOutcome::Exited { exit_code: Some(0i32), stdout, stderr: stderr1 })
            is Success,
    ensures
        erc7201_answer(CommandOutcome::Exited { exit_code: Some(0i32), stdout, stderr: stderr2 })
            == erc7201_answer(
            CommandOutcome::Exited { exit_code: Some(0i32), stdout, stderr: stderr1 },
        ),
{
}

} // verus!
