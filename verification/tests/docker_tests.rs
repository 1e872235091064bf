use mc_mcp::docker::{QdrantAction, QdrantCheck, QdrantEvent, QdrantStage};
use mc_mcp::handler::CommandOutcome;

fn exited(code: i32, stdout: &str, stderr: &str) -> QdrantEvent {
    QdrantEvent::Ran(CommandOutcome::Exited {
        exit_code: Some(code),
        stdout: stdout.as_bytes().to_vec(),
        stderr: stderr.as_bytes().to_vec(),
    })
}

fn run(events: Vec<QdrantEvent>) -> (QdrantCheck, Vec<QdrantAction>) {
    let (mut check, first) = QdrantCheck::start();
    let mut actions = vec![first];
    for event in events {
        let (next, action) = check.step(event);
        check = next;
        actions.push(action);
    }
    (check, actions)
}

fn args_of(action: &QdrantAction) -> Vec<String> {
    match action {
        QdrantAction::Run(c) => {
            assert_eq!(c.program, "docker");
            c.args.clone()
        }
        other => panic!("expected a command, got {:?}", other),
    }
}

#[test]
fn running_container_is_polled_until_it_answers() {
    let (check, actions) = run(vec![
        exited(0, "Docker version 27.0.1\n", ""),
        exited(0, "Up 3 minutes\n", ""),
        QdrantEvent::Polled(Err("connection refused".to_string())),
        QdrantEvent::Waited,
        QdrantEvent::Polled(Ok(200)),
    ]);
    assert_eq!(args_of(&actions[0]), vec!["--version"]);
    assert_eq!(
        args_of(&actions[1]),
        vec!["ps", "-a", "--filter", "name=mc-mcp-qdrant", "--format", "{{.Status}}"]
    );
    match &actions[2] {
        QdrantAction::Poll { url, timeout_secs } => {
            assert_eq!(url, "http://localhost:6333/collections");
            assert_eq!(*timeout_secs, 2);
        }
        other => panic!("unexpected {:?}", other),
    }
    assert!(matches!(actions[3], QdrantAction::Wait(3)));
    assert!(matches!(actions[4], QdrantAction::Poll { .. }));
    assert!(matches!(actions[5], QdrantAction::Finish(Ok(()))));
    assert_eq!(check.stage, QdrantStage::Done);
}

#[test]
fn stopped_container_is_started() {
    let (_, actions) = run(vec![
        exited(0, "", ""),
        exited(0, "Exited (0) 2 hours ago\n", ""),
        exited(0, "mc-mcp-qdrant\n", ""),
        QdrantEvent::Polled(Ok(200)),
    ]);
    assert_eq!(args_of(&actions[2]), vec!["start", "mc-mcp-qdrant"]);
    assert!(matches!(actions[3], QdrantAction::Poll { .. }));
    assert!(matches!(actions[4], QdrantAction::Finish(Ok(()))));
}

#[test]
fn missing_container_is_created() {
    let (_, actions) = run(vec![exited(0, "", ""), exited(0, "  \n", ""), exited(125, "", "port is taken")]);
    assert_eq!(
        args_of(&actions[2]),
        vec!["run", "-d", "--name", "mc-mcp-qdrant", "-p", "6333:6333", "-p", "6334:6334", "qdrant/qdrant"]
    );
    match &actions[3] {
        QdrantAction::Finish(Err(e)) => {
            assert_eq!(e, "Failed to start new Qdrant container 'mc-mcp-qdrant': port is taken")
        }
        other => panic!("unexpected {:?}", other),
    }
}

#[test]
fn docker_missing_or_failing() {
    let (_, actions) = run(vec![QdrantEvent::Ran(CommandOutcome::NotStarted("not found".to_string()))]);
    match &actions[1] {
        QdrantAction::Finish(Err(e)) => assert_eq!(e, "Docker is not installed or not runnable."),
        other => panic!("unexpected {:?}", other),
    }
    let (_, actions) = run(vec![exited(0, "", ""), exited(1, "", "daemon down")]);
    match &actions[2] {
        QdrantAction::Finish(Err(e)) => assert_eq!(e, "Failed to check container status: daemon down"),
        other => panic!("unexpected {:?}", other),
    }
    let (_, actions) = run(vec![exited(0, "", ""), exited(0, "Created\n", ""), exited(1, "", "no such container")]);
    match &actions[3] {
        QdrantAction::Finish(Err(e)) => assert_eq!(
            e,
            "Failed to start existing Qdrant container 'mc-mcp-qdrant': no such container"
        ),
        other => panic!("unexpected {:?}", other),
    }
}

#[test]
fn qdrant_is_polled_ten_times_at_most() {
    let (mut check, _) = QdrantCheck::start();
    let mut polls = 0;
    let mut events = vec![exited(0, "", ""), exited(0, "Up", "")];
    let mut last = None;
    loop {
        let event = if !events.is_empty() {
            events.remove(0)
        } else {
            match last {
                Some(QdrantAction::Poll { .. }) => QdrantEvent::Polled(Ok(503)),
                Some(QdrantAction::Wait(_)) => QdrantEvent::Waited,
                _ => unreachable!(),
            }
        };
        let (next, action) = check.step(event);
        check = next;
        if matches!(action, QdrantAction::Poll { .. }) {
            polls += 1;
        }
        if let QdrantAction::Finish(result) = &action {
            assert_eq!(
                result,
                &Err("Failed to connect to Qdrant after retries. Check Docker container logs and network settings.".to_string())
            );
            break;
        }
        last = Some(action);
    }
    assert_eq!(polls, 10);
}

#[test]
fn docker_commands_that_cannot_run() {
    let not_started = || QdrantEvent::Ran(CommandOutcome::NotStarted("denied".to_string()));
    let (_, actions) = run(vec![exited(0, "", ""), not_started()]);
    assert!(matches!(&actions[2], QdrantAction::Finish(Err(e)) if e == "Failed to execute docker ps: denied"));
    let (_, actions) = run(vec![exited(0, "", ""), exited(0, "Exited (1)", ""), not_started()]);
    assert!(matches!(&actions[3], QdrantAction::Finish(Err(e)) if e == "Failed to execute docker start: denied"));
    let (_, actions) = run(vec![exited(0, "", ""), exited(0, "", ""), not_started()]);
    assert!(matches!(&actions[3], QdrantAction::Finish(Err(e)) if e == "Failed to execute docker run: denied"));
}

#[test]
fn check_accepts_only_the_awaited_event() {
    let (check, _) = QdrantCheck::start();
    assert!(check.accepts(&exited(0, "", "")));
    assert!(!check.accepts(&QdrantEvent::Waited));
    assert!(!check.accepts(&QdrantEvent::Polled(Ok(200))));
}
