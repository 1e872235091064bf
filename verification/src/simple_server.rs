//! The tools of the simple stdio server: `forge_test` and a keyword `search_docs`, and the
//! project commands it runs (clone the template, run the deploy script, upgrade forge). The
//! caller runs the commands and reports what came of them.
use vstd::prelude::*;
use crate::handler::{
    exit_code_text, exit_success, output_report, strings_view, CommandLine, CommandOutcome,
    ReplyView, ToolReply,
};
use crate::text::{lossy_utf8, str_eq, string_push_str, utf8_lossy};

verus! {

/// How many results the simple server's search returns.
pub const SIMPLE_SEARCH_RESULTS: usize = 5;

/// The project commands of the simple server.
#[derive(Clone, Copy, Debug, PartialEq, Eq, Structural)]
pub enum ProjectCommand {
    /// Clone the metacontract template into `mc-template`.
    Setup,
    /// Run `forge script` in the working directory.
    Deploy,
    /// Run `forge upgrade` in the working directory.
    Upgrade,
}

/// The command line of a project command.
pub open spec fn project_command_line(c: ProjectCommand) -> (Seq<char>, Seq<Seq<char>>) {
    match c {
        ProjectCommand::Setup => (
            "git"@,
            seq!["clone"@, "https://github.com/metacontract/template.git"@, "mc-template"@],
        ),
        ProjectCommand::Deploy => ("forge"@, seq!["script"@]),
        ProjectCommand::Upgrade => ("forge"@, seq!["upgrade"@]),
    }
}

/// The command a project command runs.
pub fn project_command(c: ProjectCommand) -> (r: CommandLine)
    ensures
        r@ == project_command_line(c),
{
    match c {
        ProjectCommand::Setup => {
            let args = vec![
                "clone".to_string(),
                "https://github.com/metacontract/template.git".to_string(),
                "mc-template".to_string(),
            ];
            assert(strings_view(args@) =~= project_command_line(c).1);
            CommandLine { program: "git".to_string(), args }
        },
        ProjectCommand::Deploy => {
            let args = vec!["script".to_string()];
            assert(strings_view(args@) =~= project_command_line(c).1);
            CommandLine { program: "forge".to_string(), args }
        },
        ProjectCommand::Upgrade => {
            let args = vec!["upgrade".to_string()];
            assert(strings_view(args@) =~= project_command_line(c).1);
            CommandLine { program: "forge".to_string(), args }
        },
    }
}

/// The title of a project command's report.
pub open spec fn project_title(c: ProjectCommand) -> Seq<char> {
    match c {
        ProjectCommand::Setup => "Setup Results:\n"@,
        ProjectCommand::Deploy => "Deploy Results:\n"@,
        ProjectCommand::Upgrade => "Upgrade Results:\n"@,
    }
}

/// The line that heads the answer when a project command succeeded.
pub open spec fn project_success(c: ProjectCommand) -> Seq<char> {
    match c {
        ProjectCommand::Setup => "プロジェクトセットアップ成功なのだ！\n"@,
        ProjectCommand::Deploy => "デプロイ成功なのだ！\n"@,
        ProjectCommand::Upgrade => "アップグレード成功なのだ！\n"@,
    }
}

/// The line that heads the answer when a project command failed.
pub open spec fn project_failure(c: ProjectCommand) -> Seq<char> {
    match c {
        ProjectCommand::Setup => "プロジェクトセットアップ失敗なのだ…\n"@,
        ProjectCommand::Deploy => "デプロイ失敗なのだ…\n"@,
        ProjectCommand::Upgrade => "アップグレード失敗なのだ…\n"@,
    }
}

/// The answer when a project command could not be run.
pub open spec fn project_not_started(c: ProjectCommand) -> Seq<char> {
    match c {
        ProjectCommand::Setup => "git cloneコマンドの実行に失敗したのだ: "@,
        ProjectCommand::Deploy => "forge scriptコマンドの実行に失敗したのだ: "@,
        ProjectCommand::Upgrade => "forge upgradeコマンドの実行に失敗したのだ: "@,
    }
}

/// What a project command answers: its report headed by a success line when it exited with
/// status zero, and an error headed by a failure line otherwise.
pub open spec fn project_answer(c: ProjectCommand, outcome: CommandOutcome) -> Result<
    Seq<char>,
    Seq<char>,
> {
    match outcome {
        CommandOutcome::Exited { exit_code, stdout, stderr } => {
            let report = project_title(c) + output_report(
                exit_code,
                lossy_utf8(stdout@),
                lossy_utf8(stderr@),
            );
            if exit_success(exit_code) {
                Ok(project_success(c) + report)
            } else {
                Err(project_failure(c) + report)
            }
        },
        CommandOutcome::NotStarted(e) => Err(project_not_started(c) + e@),
    }
}

fn push_report(text: &mut String, code: Option<i32>, stdout: &[u8], stderr: &[u8])
    ensures
        final(text)@ == old(text)@ + output_report(code, lossy_utf8(stdout@), lossy_utf8(stderr@)),
{
    let code_text = match code {
        Some(c) => crate::text::format_i32(c),
        None => "N/A".to_string(),
    };
    assert(code_text@ == exit_code_text(code));
    let out = utf8_lossy(stdout);
    let err = utf8_lossy(stderr);
    string_push_str(text, "Exit Code: ");
    string_push_str(text, code_text.as_str());
    string_push_str(text, "\n\nStdout:\n");
    string_push_str(text, out.as_str());
    string_push_str(text, "\nStderr:\n");
    string_push_str(text, err.as_str());
}

/// The answer of a project command once it has run.
pub fn project_result(c: ProjectCommand, outcome: &CommandOutcome) -> (r: Result<String, String>)
    ensures
        match (r, project_answer(c, *outcome)) {
            (Ok(t), Ok(u)) => t@ == u,
            (Err(t), Err(u)) => t@ == u,
            _ => false,
        },
{
    let (title, good, bad, not_started) = match c {
        ProjectCommand::Setup => (
            "Setup Results:\n",
            "プロジェクトセットアップ成功なのだ！\n",
            "プロジェクトセットアップ失敗なのだ…\n",
            "git cloneコマンドの実行に失敗したのだ: ",
        ),
        ProjectCommand::Deploy => (
            "Deploy Results:\n",
            "デプロイ成功なのだ！\n",
            "デプロイ失敗なのだ…\n",
            "forge scriptコマンドの実行に失敗したのだ: ",
        ),
        ProjectCommand::Upgrade => (
            "Upgrade Results:\n",
            "アップグレード成功なのだ！\n",
            "アップグレード失敗なのだ…\n",
            "forge upgradeコマンドの実行に失敗したのだ: ",
        ),
    };
    match outcome {
        CommandOutcome::Exited { exit_code, stdout, stderr } => {
            let success = match exit_code {
                Some(code) => *code == 0,
                None => false,
            };
            let mut text = if success {
                good.to_string()
            } else {
                bad.to_string()
            };
            string_push_str(&mut text, title);
            push_report(&mut text, *exit_code, stdout.as_slice(), stderr.as_slice());
            if success {
                Ok(text)
            } else {
                Err(text)
            }
        },
        CommandOutcome::NotStarted(e) => {
            let mut text = not_started.to_string();
            string_push_str(&mut text, e.as_str());
            Err(text)
        },
    }
}

/// What the simple server's `forge_test` gives: the report of `forge test` whatever its exit
/// status, or an error when forge could not be run.
pub open spec fn simple_forge_test_answer(outcome: CommandOutcome) -> Result<Seq<char>, Seq<char>> {
    match outcome {
        CommandOutcome::Exited { exit_code, stdout, stderr } => Ok(
            "Forge Test Results:\n"@ + output_report(
                exit_code,
                lossy_utf8(stdout@),
                lossy_utf8(stderr@),
            ),
        ),
        CommandOutcome::NotStarted(e) => Err("Failed to execute forge command: "@ + e@),
    }
}

/// The simple server's `forge_test`.
pub fn simple_forge_test(outcome: &CommandOutcome) -> (r: Result<String, String>)
    ensures
        match (r, simple_forge_test_answer(*outcome)) {
            (Ok(t), Ok(u)) => t@ == u,
            (Err(t), Err(u)) => t@ == u,
            _ => false,
        },
{
    match outcome {
        CommandOutcome::Exited { exit_code, stdout, stderr } => {
            let mut text = "Forge Test Results:\n".to_string();
            push_report(&mut text, *exit_code, stdout.as_slice(), stderr.as_slice());
            Ok(text)
        },
        CommandOutcome::NotStarted(e) => {
            let mut text = "Failed to execute forge command: ".to_string();
            string_push_str(&mut text, e.as_str());
            Err(text)
        },
    }
}

/// The `query` argument of a call, as the caller found it.
#[derive(Clone, Debug)]
pub enum QueryArgument {
    /// The call has no arguments.
    NoArguments,
    /// The arguments have no `query`.
    Missing,
    /// The `query` is not a string.
    NotText,
    /// The `query` string.
    Text(String),
}

/// Where a call of the simple server goes.
#[derive(Clone, Debug)]
pub enum SimpleCall {
    /// Run `forge test`.
    ForgeTest,
    /// Search the documents for this query, for at most five results.
    SearchDocs(String),
    /// Answer at once.
    Answer(ToolReply),
    /// No tool has this name.
    MethodNotFound,
}

/// The view of a [`SimpleCall`].
pub enum SimpleCallView {
    ForgeTest,
    SearchDocs(Seq<char>),
    Answer(ReplyView),
    MethodNotFound,
}

impl View for SimpleCall {
    type V = SimpleCallView;

    open spec fn view(&self) -> SimpleCallView {
        match self {
            SimpleCall::ForgeTest => SimpleCallView::ForgeTest,
            SimpleCall::SearchDocs(q) => SimpleCallView::SearchDocs(q@),
            SimpleCall::Answer(r) => SimpleCallView::Answer(r@),
            SimpleCall::MethodNotFound => SimpleCallView::MethodNotFound,
        }
    }
}

/// Where a call with this tool name and query argument goes.
pub open spec fn simple_call_of(name: Seq<char>, query: QueryArgument) -> SimpleCallView {
    if name == "forge_test"@ {
        SimpleCallView::ForgeTest
    } else if name == "search_docs"@ {
        match query {
            QueryArgument::Text(q) => SimpleCallView::SearchDocs(q@),
            QueryArgument::NotText => SimpleCallView::Answer(
                ReplyView::Failure("Invalid 'query' parameter: must be a string."@),
            ),
            QueryArgument::Missing => SimpleCallView::Answer(
                ReplyView::Failure("Missing 'query' parameter."@),
            ),
            QueryArgument::NoArguments => SimpleCallView::Answer(
                ReplyView::Failure("Missing arguments object."@),
            ),
        }
    } else {
        SimpleCallView::MethodNotFound
    }
}

/// Routes a call of the simple server by its tool name.
pub fn route_simple_call(name: &str, query: QueryArgument) -> (r: SimpleCall)
    ensures
        r@ == simple_call_of(name@, query),
{
    if str_eq(name, "forge_test") {
        SimpleCall::ForgeTest
    } else if str_eq(name, "search_docs") {
        match query {
            QueryArgument::Text(q) => SimpleCall::SearchDocs(q),
            QueryArgument::NotText => SimpleCall::Answer(
                ToolReply::Failure("Invalid 'query' parameter: must be a string.".to_string()),
            ),
            QueryArgument::Missing => SimpleCall::Answer(
                ToolReply::Failure("Missing 'query' parameter.".to_string()),
            ),
            QueryArgument::NoArguments => SimpleCall::Answer(
                ToolReply::Failure("Missing arguments object.".to_string()),
            ),
        }
    } else {
        SimpleCall::MethodNotFound
    }
}

/// The answer of the simple search when nothing matched.
pub fn no_match_reply(query: &str) -> (r: String)
    ensures
        r@ == "No documents found matching '"@ + query@ + "' (semantic)"@,
{
    let mut text = "No documents found matching '".to_string();
    string_push_str(&mut text, query);
    string_push_str(&mut text, "' (semantic)");
    text
}

/// The answer of the simple search when it failed.
pub fn search_error_reply(error: &str) -> (r: String)
    ensures
        r@ == "Semantic search error: "@ + error@,
{
    let mut text = "Semantic search error: ".to_string();
    string_push_str(&mut text, error);
    text
}

} // verus!
