//! Making sure a Qdrant container runs under Docker: check that Docker is there, find the
//! container, start it or create it, then poll Qdrant's HTTP endpoint until it answers.
//! The decisions stand here as a state machine; the caller runs the commands, performs the
//! requests and the waits, and reports back.
use vstd::prelude::*;
use crate::handler::{exit_success, strings_view, CommandLine, CommandOutcome};
use crate::text::{
    has_substring, lossy_utf8, str_contains, string_push_str, trim, trim_str, utf8_lossy,
};

verus! {

/// The name of the Qdrant container.
pub const QDRANT_CONTAINER_NAME: &'static str = "mc-mcp-qdrant";

/// The endpoint polled to tell whether Qdrant is up.
pub const QDRANT_HEALTH_URL: &'static str = "http://localhost:6333/collections";

/// How many times Qdrant is polled at most.
pub const HEALTH_CHECK_ATTEMPTS: u32 = 10;

/// How long one poll may take, in seconds.
pub const HEALTH_CHECK_TIMEOUT_SECS: u64 = 2;

/// How long to wait after a failed poll, in seconds.
pub const HEALTH_CHECK_WAIT_SECS: u64 = 3;

/// The error when Docker cannot be run.
pub const DOCKER_MISSING: &'static str = "Docker is not installed or not runnable.";

/// The error when Qdrant never answered.
pub const QDRANT_UNREACHABLE: &'static str =
    "Failed to connect to Qdrant after retries. Check Docker container logs and network settings.";

/// How far the check has come.
#[derive(Clone, Copy, Debug, PartialEq, Eq, Structural)]
pub enum QdrantStage {
    /// Waiting for `docker --version`.
    CheckingDocker,
    /// Waiting for the listing of the container.
    ListingContainer,
    /// Waiting for the existing container to start.
    StartingContainer,
    /// Waiting for a new container to be created and started.
    CreatingContainer,
    /// Waiting for the answer to this poll (counted from one).
    Polling(u32),
    /// Waiting after this failed poll.
    Waiting(u32),
    /// The check has ended.
    Done,
}

/// What the check asks of its caller next.
#[derive(Debug)]
pub enum QdrantAction {
    /// Run this command.
    Run(CommandLine),
    /// Send a GET request to this URL, giving up after this many seconds.
    Poll { url: String, timeout_secs: u64 },
    /// Wait this many seconds.
    Wait(u64),
    /// The check has ended with this result.
    Finish(Result<(), String>),
}

/// The view of a [`QdrantAction`].
pub enum QdrantActionView {
    Run((Seq<char>, Seq<Seq<char>>)),
    Poll(Seq<char>, u64),
    Wait(u64),
    Finish(Result<(), Seq<char>>),
}

impl View for QdrantAction {
    type V = QdrantActionView;

    open spec fn view(&self) -> QdrantActionView {
        match self {
            QdrantAction::Run(c) => QdrantActionView::Run(c@),
            QdrantAction::Poll { url, timeout_secs } => QdrantActionView::Poll(url@, *timeout_secs),
            QdrantAction::Wait(s) => QdrantActionView::Wait(*s),
            QdrantAction::Finish(Ok(())) => QdrantActionView::Finish(Ok(())),
            QdrantAction::Finish(Err(e)) => QdrantActionView::Finish(Err(e@)),
        }
    }
}

/// What the caller reports back to the check.
#[derive(Debug)]
pub enum QdrantEvent {
    /// What came of the command.
    Ran(CommandOutcome),
    /// The HTTP status of the answer to the poll, or why there was none.
    Polled(Result<u16, String>),
    /// The wait is over.
    Waited,
}

/// Whether a stage waits for this kind of event.
pub open spec fn qdrant_accepts(stage: QdrantStage, event: QdrantEvent) -> bool {
    match stage {
        QdrantStage::CheckingDocker | QdrantStage::ListingContainer
        | QdrantStage::StartingContainer | QdrantStage::CreatingContainer => event is Ran,
        QdrantStage::Polling(_) => event is Polled,
        QdrantStage::Waiting(_) => event is Waited,
        QdrantStage::Done => false,
    }
}

/// Whether the polls counted in a stage are within the limit.
pub open spec fn qdrant_stage_valid(stage: QdrantStage) -> bool {
    match stage {
        QdrantStage::Polling(i) | QdrantStage::Waiting(i) => 1 <= i <= HEALTH_CHECK_ATTEMPTS,
        _ => true,
    }
}

/// `docker ps -a --filter name=mc-mcp-qdrant --format {{.Status}}`.
pub open spec fn docker_ps_args() -> Seq<Seq<char>> {
    seq![
        "ps"@,
        "-a"@,
        "--filter"@,
        "name="@ + QDRANT_CONTAINER_NAME@,
        "--format"@,
        "{{.Status}}"@,
    ]
}

/// `docker run -d --name mc-mcp-qdrant -p 6333:6333 -p 6334:6334 qdrant/qdrant`.
pub open spec fn docker_run_args() -> Seq<Seq<char>> {
    seq![
        "run"@,
        "-d"@,
        "--name"@,
        QDRANT_CONTAINER_NAME@,
        "-p"@,
        "6333:6333"@,
        "-p"@,
        "6334:6334"@,
        "qdrant/qdrant"@,
    ]
}

/// The first poll of Qdrant.
pub open spec fn first_poll() -> (QdrantStage, QdrantActionView) {
    (QdrantStage::Polling(1), QdrantActionView::Poll(QDRANT_HEALTH_URL@, HEALTH_CHECK_TIMEOUT_SECS))
}

/// Ends the check with an error.
pub open spec fn fail_with(message: Seq<char>) -> (QdrantStage, QdrantActionView) {
    (QdrantStage::Done, QdrantActionView::Finish(Err(message)))
}

/// One step of the check: from a stage and what the caller reported, the next stage and what
/// the caller is to do.
pub open spec fn qdrant_next(stage: QdrantStage, event: QdrantEvent) -> (QdrantStage, QdrantActionView) {
    match (stage, event) {
        (QdrantStage::CheckingDocker, QdrantEvent::Ran(CommandOutcome::NotStarted(_))) => fail_with(
            DOCKER_MISSING@,
        ),
        (QdrantStage::CheckingDocker, _) => (
            QdrantStage::ListingContainer,
            QdrantActionView::Run(("docker"@, docker_ps_args())),
        ),
        (QdrantStage::ListingContainer, QdrantEvent::Ran(CommandOutcome::NotStarted(e))) => fail_with(
            "Failed to execute docker ps: "@ + e@,
        ),
        (
            QdrantStage::ListingContainer,
            QdrantEvent::Ran(CommandOutcome::Exited { exit_code, stdout, stderr }),
        ) => if !exit_success(exit_code) {
            fail_with("Failed to check container status: "@ + lossy_utf8(stderr@))
        } else if has_substring(lossy_utf8(stdout@), "Up"@) {
            first_poll()
        } else if trim(lossy_utf8(stdout@)).len() > 0 {
            (
                QdrantStage::StartingContainer,
                QdrantActionView::Run(("docker"@, seq!["start"@, QDRANT_CONTAINER_NAME@])),
            )
        } else {
            (QdrantStage::CreatingContainer, QdrantActionView::Run(("docker"@, docker_run_args())))
        },
        (QdrantStage::StartingContainer, QdrantEvent::Ran(CommandOutcome::NotStarted(e))) => fail_with(
            "Failed to execute docker start: "@ + e@,
        ),
        (
            QdrantStage::StartingContainer,
            QdrantEvent::Ran(CommandOutcome::Exited { exit_code, stdout: _, stderr }),
        ) => if exit_success(exit_code) {
            first_poll()
        } else {
            fail_with(
                "Failed to start existing Qdrant container '"@ + QDRANT_CONTAINER_NAME@ + "': "@
                    + lossy_utf8(stderr@),
            )
        },
        (QdrantStage::CreatingContainer, QdrantEvent::Ran(CommandOutcome::NotStarted(e))) => fail_with(
            "Failed to execute docker run: "@ + e@,
        ),
        (
            QdrantStage::CreatingContainer,
            QdrantEvent::Ran(CommandOutcome::Exited { exit_code, stdout: _, stderr }),
        ) => if exit_success(exit_code) {
            first_poll()
        } else {
            fail_with(
                "Failed to start new Qdrant container '"@ + QDRANT_CONTAINER_NAME@ + "': "@
                    + lossy_utf8(stderr@),
            )
        },
        (QdrantStage::Polling(_), QdrantEvent::Polled(Ok(200u16))) => (
            QdrantStage::Done,
            QdrantActionView::Finish(Ok(())),
        ),
        (QdrantStage::Polling(i), _) => (
            QdrantStage::Waiting(i),
            QdrantActionView::Wait(HEALTH_CHECK_WAIT_SECS),
        ),
        (QdrantStage::Waiting(i), _) => if i < HEALTH_CHECK_ATTEMPTS {
            (
                QdrantStage::Polling((i + 1) as u32),
                QdrantActionView::Poll(QDRANT_HEALTH_URL@, HEALTH_CHECK_TIMEOUT_SECS),
            )
        } else {
            fail_with(QDRANT_UNREACHABLE@)
        },
        (stage, _) => (stage, QdrantActionView::Wait(0)),
    }
}

/// A check that a Qdrant container runs.
#[derive(Clone, Copy, Debug)]
pub struct QdrantCheck {
    /// How far the check has come.
    pub stage: QdrantStage,
}

fn docker_command(args: Vec<String>) -> (c: CommandLine)
    ensures
        c@ == ("docker"@, strings_view(args@)),
{
    CommandLine { program: "docker".to_string(), args }
}

fn docker_ps_command() -> (c: CommandLine)
    ensures
        c@ == ("docker"@, docker_ps_args()),
{
    let mut filter = "name=".to_string();
    string_push_str(&mut filter, QDRANT_CONTAINER_NAME);
    let args = vec![
        "ps".to_string(),
        "-a".to_string(),
        "--filter".to_string(),
        filter,
        "--format".to_string(),
        "{{.Status}}".to_string(),
    ];
    assert(strings_view(args@) =~= docker_ps_args());
    docker_command(args)
}

fn docker_start_command() -> (c: CommandLine)
    ensures
        c@ == ("docker"@, seq!["start"@, QDRANT_CONTAINER_NAME@]),
{
    let args = vec!["start".to_string(), QDRANT_CONTAINER_NAME.to_string()];
    assert(strings_view(args@) =~= seq!["start"@, QDRANT_CONTAINER_NAME@]);
    docker_command(args)
}

fn docker_run_command() -> (c: CommandLine)
    ensures
        c@ == ("docker"@, docker_run_args()),
{
    let args = vec![
        "run".to_string(),
        "-d".to_string(),
        "--name".to_string(),
        QDRANT_CONTAINER_NAME.to_string(),
        "-p".to_string(),
        "6333:6333".to_string(),
        "-p".to_string(),
        "6334:6334".to_string(),
        "qdrant/qdrant".to_string(),
    ];
    assert(strings_view(args@) =~= docker_run_args());
    docker_command(args)
}

fn poll_action() -> (a: QdrantAction)
    ensures
        a@ == first_poll().1,
{
    QdrantAction::Poll { url: QDRANT_HEALTH_URL.to_string(), timeout_secs: HEALTH_CHECK_TIMEOUT_SECS }
}

fn fail(prefix: &str, detail: &str) -> (a: QdrantAction)
    ensures
        a@ == QdrantActionView::Finish(Err(prefix@ + detail@)),
{
    let mut text = prefix.to_string();
    string_push_str(&mut text, detail);
    QdrantAction::Finish(Err(text))
}

fn fail_with_stderr(prefix: &str, stderr: &Vec<u8>) -> (a: QdrantAction)
    ensures
        a@ == QdrantActionView::Finish(Err(prefix@ + lossy_utf8(stderr@))),
{
    let err = utf8_lossy(stderr.as_slice());
    fail(prefix, err.as_str())
}

fn container_failure(prefix: &str, stderr: &Vec<u8>) -> (a: QdrantAction)
    ensures
        a@ == QdrantActionView::Finish(
            Err(prefix@ + QDRANT_CONTAINER_NAME@ + "': "@ + lossy_utf8(stderr@)),
        ),
{
    let mut text = prefix.to_string();
    string_push_str(&mut text, QDRANT_CONTAINER_NAME);
    string_push_str(&mut text, "': ");
    let err = utf8_lossy(stderr.as_slice());
    string_push_str(&mut text, err.as_str());
    QdrantAction::Finish(Err(text))
}

fn is_success(code: Option<i32>) -> (b: bool)
    ensures
        b == exit_success(code),
{
    match code {
        Some(c) => c == 0,
        None => false,
    }
}

impl QdrantCheck {
    /// Starts the check: the caller is first to run `docker --version`.
    pub fn start() -> (r: (QdrantCheck, QdrantAction))
        ensures
            r.0.stage == QdrantStage::CheckingDocker,
            r.1@ == QdrantActionView::Run(("docker"@, seq!["--version"@])),
    {
        let args = vec!["--version".to_string()];
        assert(strings_view(args@) =~= seq!["--version"@]);
        (QdrantCheck { stage: QdrantStage::CheckingDocker }, QdrantAction::Run(docker_command(args)))
    }

    /// Whether the check waits for this kind of event.
    pub fn accepts(&self, event: &QdrantEvent) -> (b: bool)
        ensures
            b == qdrant_accepts(self.stage, *event),
    {
        match self.stage {
            QdrantStage::CheckingDocker | QdrantStage::ListingContainer
            | QdrantStage::StartingContainer | QdrantStage::CreatingContainer => match event {
                QdrantEvent::Ran(_) => true,
                _ => false,
            },
            QdrantStage::Polling(_) => match event {
                QdrantEvent::Polled(_) => true,
                _ => false,
            },
            QdrantStage::Waiting(_) => match event {
                QdrantEvent::Waited => true,
                _ => false,
            },
            QdrantStage::Done => false,
        }
    }

    /// Takes the check one step further with what the caller reported.
    pub fn step(self, event: QdrantEvent) -> (r: (QdrantCheck, QdrantAction))
        requires
            qdrant_accepts(self.stage, event),
        ensures
            (r.0.stage, r.1@) == qdrant_next(self.stage, event),
    {
        let (stage, action) = match self.stage {
            QdrantStage::CheckingDocker => match event {
                QdrantEvent::Ran(CommandOutcome::NotStarted(_)) => (
                    QdrantStage::Done,
                    QdrantAction::Finish(Err(DOCKER_MISSING.to_string())),
                ),
                _ => (QdrantStage::ListingContainer, QdrantAction::Run(docker_ps_command())),
            },
            QdrantStage::ListingContainer => match event {
                QdrantEvent::Ran(CommandOutcome::NotStarted(e)) => (
                    QdrantStage::Done,
                    fail("Failed to execute docker ps: ", e.as_str()),
                ),
                QdrantEvent::Ran(CommandOutcome::Exited { exit_code, stdout, stderr }) => {
                    if !is_success(exit_code) {
                        (
                            QdrantStage::Done,
                            fail_with_stderr("Failed to check container status: ", &stderr),
                        )
                    } else {
                        let out = utf8_lossy(stdout.as_slice());
                        if str_contains(out.as_str(), "Up") {
                            (QdrantStage::Polling(1), poll_action())
                        } else {
                            let trimmed = trim_str(out.as_str());
                            if !trimmed.as_str().is_empty() {
                                (
                                    QdrantStage::StartingContainer,
                                    QdrantAction::Run(docker_start_command()),
                                )
                            } else {
                                (
                                    QdrantStage::CreatingContainer,
                                    QdrantAction::Run(docker_run_command()),
                                )
                            }
                        }
                    }
                },
                _ => (QdrantStage::ListingContainer, QdrantAction::Wait(0)),
            },
            QdrantStage::StartingContainer => match event {
                QdrantEvent::Ran(CommandOutcome::NotStarted(e)) => (
                    QdrantStage::Done,
                    fail("Failed to execute docker start: ", e.as_str()),
                ),
                QdrantEvent::Ran(CommandOutcome::Exited { exit_code, stdout: _, stderr }) => {
                    if is_success(exit_code) {
                        (QdrantStage::Polling(1), poll_action())
                    } else {
                        (
                            QdrantStage::Done,
                            container_failure("Failed to start existing Qdrant container '", &stderr),
                        )
                    }
                },
                _ => (QdrantStage::StartingContainer, QdrantAction::Wait(0)),
            },
            QdrantStage::CreatingContainer => match event {
                QdrantEvent::Ran(CommandOutcome::NotStarted(e)) => (
                    QdrantStage::Done,
                    fail("Failed to execute docker run: ", e.as_str()),
                ),
                QdrantEvent::Ran(CommandOutcome::Exited { exit_code, stdout: _, stderr }) => {
                    if is_success(exit_code) {
                        (QdrantStage::Polling(1), poll_action())
                    } else {
                        (
                            QdrantStage::Done,
                            container_failure("Failed to start new Qdrant container '", &stderr),
                        )
                    }
                },
                _ => (QdrantStage::CreatingContainer, QdrantAction::Wait(0)),
            },
            QdrantStage::Polling(i) => match event {
                QdrantEvent::Polled(Ok(status)) => {
                    if status == 200 {
                        (QdrantStage::Done, QdrantAction::Finish(Ok(())))
                    } else {
                        (QdrantStage::Waiting(i), QdrantAction::Wait(HEALTH_CHECK_WAIT_SECS))
                    }
                },
                _ => (QdrantStage::Waiting(i), QdrantAction::Wait(HEALTH_CHECK_WAIT_SECS)),
            },
            QdrantStage::Waiting(i) => {
                if i < HEALTH_CHECK_ATTEMPTS {
                    (
                        QdrantStage::Polling(i + 1),
                        QdrantAction::Poll {
                            url: QDRANT_HEALTH_URL.to_string(),
                            timeout_secs: HEALTH_CHECK_TIMEOUT_SECS,
                        },
                    )
                } else {
                    (QdrantStage::Done, QdrantAction::Finish(Err(QDRANT_UNREACHABLE.to_string())))
                }
            },
            QdrantStage::Done => (QdrantStage::Done, QdrantAction::Wait(0)),
        };
        (QdrantCheck { stage }, action)
    }
}

/// The stage a check reaches after the caller has reported these events in turn.
pub open spec fn qdrant_after(events: Seq<QdrantEvent>) -> QdrantStage
    decreases events.len(),
{
    if events.len() == 0 {
        QdrantStage::CheckingDocker
    } else {
        qdrant_next(qdrant_after(events.drop_last()), events.last()).0
    }
}

/// How many times a check has polled Qdrant after these events.
pub open spec fn polls_made(events: Seq<QdrantEvent>) -> nat
    decreases events.len(),
{
    if events.len() == 0 {
        0
    } else {
        polls_made(events.drop_last()) + if qdrant_next(
            qdrant_after(events.drop_last()),
            events.last(),
        ).1 is Poll {
            1nat
        } else {
            0nat
        }
    }
}

proof fn lemma_polls_counted(events: Seq<QdrantEvent>)
    ensures
        match qdrant_after(events) {
            QdrantStage::Polling(i) | QdrantStage::Waiting(i) => 1 <= i <= HEALTH_CHECK_ATTEMPTS
                && polls_made(events) == i,
            QdrantStage::Done => polls_made(events) <= HEALTH_CHECK_ATTEMPTS,
            _ => polls_made(events) == 0,
        },
    decreases events.len(),
{
    if events.len() > 0 {
        lemma_polls_counted(events.drop_last());
    }
}

/// However the calls, answers and waits go, a check polls Qdrant at most ten times.
pub proof fn law_qdrant_polls_at_most_ten(events: Seq<QdrantEvent>)
    ensures
        polls_made(events) <= HEALTH_CHECK_ATTEMPTS,
{
    lemma_polls_counted(events);
}

/// How many steps a check has left at most.
pub open spec fn qdrant_rank(stage: QdrantStage) -> nat {
    match stage {
        QdrantStage::CheckingDocker => 24,
        QdrantStage::ListingContainer => 23,
        QdrantStage::StartingContainer | QdrantStage::CreatingContainer => 22,
        QdrantStage::Polling(i) => if i <= HEALTH_CHECK_ATTEMPTS {
            (2 * (HEALTH_CHECK_ATTEMPTS - i) + 2) as nat
        } else {
            0
        },
        QdrantStage::Waiting(i) => if i <= HEALTH_CHECK_ATTEMPTS {
            (2 * (HEALTH_CHECK_ATTEMPTS - i) + 1) as nat
        } else {
            0
        },
        QdrantStage::Done => 0,
    }
}

/// Every step of a check brings it closer to its end, and the polls it counts stay within the
/// limit: a check ends after at most twenty-four steps.
pub proof fn law_qdrant_terminates(stage: QdrantStage, event: QdrantEvent)
    requires
        qdrant_accepts(stage, event),
        qdrant_stage_valid(stage),
    ensures
        qdrant_rank(qdrant_next(stage, event).0) < qdrant_rank(stage),
        qdrant_stage_valid(qdrant_next(stage, event).0),
        qdrant_next(stage, event).0 is Done <==> qdrant_next(stage, event).1 is Finish,
{
}

/// A check succeeds only when Qdrant answered a poll with status 200.
pub proof fn law_qdrant_ok_only_on_answer(stage: QdrantStage, event: QdrantEvent)
    requires
        qdrant_next(stage, event).1 == QdrantActionView::Finish(Ok(())),
    ensures
        stage is Polling,
        event matches QdrantEvent::Polled(Ok(status)) && status == 200,
{
}

/// A poll that Qdrant does not answer with 200 (another status or no answer) is followed by a
/// three-second wait, whichever of the ten polls it is.
pub proof fn law_qdrant_failed_poll_waits(i: u32, event: QdrantEvent)
    requires
        1 <= i <= 10,
        event is Polled,
        !(event matches QdrantEvent::Polled(Ok(status)) && status == 200),
    ensures
        qdrant_next(QdrantStage::Polling(i), event) == (
            QdrantStage::Waiting(i),
            QdrantActionView::Wait(3),
        ),
{
}

/// After the wait that follows a failed poll, Qdrant is polled again, at the health URL with
/// a two-second timeout, until ten polls have been made; only after the tenth does the check
/// give up, with the unreachable error.
pub proof fn law_qdrant_waits_then_polls_again(i: u32)
    requires
        1 <= i <= 10,
    ensures
        i < 10 ==> qdrant_next(QdrantStage::Waiting(i), QdrantEvent::Waited) == (
            QdrantStage::Polling((i + 1) as u32),
            QdrantActionView::Poll(QDRANT_HEALTH_URL@, 2),
        ),
        i == 10 ==> qdrant_next(QdrantStage::Waiting(i), QdrantEvent::Waited) == (
            QdrantStage::Done,
            QdrantActionView::Finish(Err(QDRANT_UNREACHABLE@)),
        ),
{
}

proof fn lemma_prefix_differs(p: Seq<char>, x: Seq<char>, u: Seq<char>, k: int)
    requires
        0 <= k < p.len(),
        k < u.len(),
        p[k] != u[k],
    ensures
        p + x != u,
{
    assert((p + x)[k] == p[k]);
}

/// A check gives up on Qdrant as unreachable only after it has polled it ten times, however
/// the calls, answers and waits went before.
pub proof fn law_qdrant_gives_up_only_after_ten_polls(events: Seq<QdrantEvent>, event: QdrantEvent)
    requires
        qdrant_next(qdrant_after(events), event).1 == QdrantActionView::Finish(
            Err(QDRANT_UNREACHABLE@),
        ),
    ensures
        polls_made(events) == 10,
{
    lemma_polls_counted(events);
    let u = QDRANT_UNREACHABLE@;
    reveal_strlit(
        "Failed to connect to Qdrant after retries. Check Docker container logs and network settings.",
    );
    reveal_strlit("Docker is not installed or not runnable.");
    reveal_strlit("Failed to execute docker ps: ");
    reveal_strlit("Failed to check container status: ");
    reveal_strlit("Failed to execute docker start: ");
    reveal_strlit("Failed to execute docker run: ");
    reveal_strlit("Failed to start existing Qdrant container '");
    reveal_strlit("Failed to start new Qdrant container '");
    reveal_strlit("mc-mcp-qdrant");
    reveal_strlit("': ");
    match (qdrant_after(events), event) {
        (QdrantStage::CheckingDocker, _) => {
            assert(DOCKER_MISSING@[0] != u[0]);
        },
        (QdrantStage::ListingContainer, QdrantEvent::Ran(CommandOutcome::NotStarted(e))) => {
            lemma_prefix_differs("Failed to execute docker ps: "@, e@, u, 10);
        },
        (
            QdrantStage::ListingContainer,
            QdrantEvent::Ran(CommandOutcome::Exited { exit_code, stdout, stderr }),
        ) => {
            lemma_prefix_differs(
                "Failed to check container status: "@,
                lossy_utf8(stderr@),
                u,
                11,
            );
        },
        (QdrantStage::StartingContainer, QdrantEvent::Ran(CommandOutcome::NotStarted(e))) => {
            lemma_prefix_differs("Failed to execute docker start: "@, e@, u, 10);
        },
        (
            QdrantStage::StartingContainer,
            QdrantEvent::Ran(CommandOutcome::Exited { exit_code, stdout, stderr }),
        ) => {
            let p = "Failed to start existing Qdrant container '"@;
            let rest = QDRANT_CONTAINER_NAME@ + "': "@ + lossy_utf8(stderr@);
            assert(p + QDRANT_CONTAINER_NAME@ + "': "@ + lossy_utf8(stderr@) == p + rest);
            lemma_prefix_differs(p, rest, u, 10);
        },
        (QdrantStage::CreatingContainer, QdrantEvent::Ran(CommandOutcome::NotStarted(e))) => {
            lemma_prefix_differs("Failed to execute docker run: "@, e@, u, 10);
        },
        (
            QdrantStage::CreatingContainer,
            QdrantEvent::Ran(CommandOutcome::Exited { exit_code, stdout, stderr }),
        ) => {
            let p = "Failed to start new Qdrant container '"@;
            let rest = QDRANT_CONTAINER_NAME@ + "': "@ + lossy_utf8(stderr@);
            assert(p + QDRANT_CONTAINER_NAME@ + "': "@ + lossy_utf8(stderr@) == p + rest);
            lemma_prefix_differs(p, rest, u, 10);
        },
        _ => {},
    }
}

} // verus!
