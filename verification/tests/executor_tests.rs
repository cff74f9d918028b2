use switchboard_core::environment::EnvMap;
use switchboard_core::executor::{
    event_of_action, event_of_outcome, is_local_host, is_loopback, CommandExecutor,
    EnvironmentKind, ExecuteError, Execution, ExecutionPhase, Performed, SshExecutor, WorkerEvent,
};
use switchboard_core::models::{AuthMethod, Command, ExecutionUpdate, Host, Timestamp};
use switchboard_core::run_environment::{
    BackgroundHandle, LocalRunEnvironment, Observation, Outcome, OutputChunk, ProcessStatus,
    RunEnvironment, RunEnvironmentError, RunStep,
};

fn host(name: &str, hostname: &str, username: &str) -> Host {
    Host {
        id: 1,
        name: name.into(),
        hostname: hostname.into(),
        port: 22,
        username: username.into(),
        auth: AuthMethod::Password("pw".into()),
    }
}

fn command(script: &str) -> Command {
    Command {
        id: 77,
        name: "cmd".into(),
        description: None,
        script: script.into(),
        working_directory: None,
        env_vars: vec![],
        host: None,
        user: None,
        target_hosts: vec![],
        created_at: Timestamp { secs: 0, nanos: 0 },
        background: false,
        source_path: None,
    }
}

fn feed(run: &mut Execution, events: Vec<WorkerEvent>) -> Vec<ExecutionUpdate> {
    let mut told = Vec::new();
    for event in events {
        told.extend(run.handle(event));
    }
    told
}

#[test]
fn loopback_address_routes_locally_with_any_user() {
    assert!(is_local_host(&host("Remote", "127.0.0.1", "deploy")));
    assert!(is_local_host(&host("Remote", "127.0.0.1", "")));
    let job = SshExecutor
        .execute(5, &command("true"), &host("Remote", "127.0.0.1", "deploy"), EnvMap::new())
        .unwrap();
    assert_eq!(job.environment, EnvironmentKind::Local);
}

#[test]
fn loopback_aliases_are_matched_in_any_case() {
    assert!(is_loopback("local"));
    assert!(is_loopback("LOCAL"));
    assert!(is_loopback("localhost"));
    assert!(is_loopback("LocalHost"));
    assert!(is_loopback("127.0.0.1"));
    assert!(!is_loopback("127.0.0.2"));
    assert!(!is_loopback("localhost "));
    assert!(!is_loopback(""));
    assert!(!is_loopback("example.com"));
    assert!(is_local_host(&host("Local", "build.example", "ci")));
    assert!(is_local_host(&host("anything", "LOCALHOST", "ci")));
    assert!(is_local_host(&host("localhost", "build.example", "ci")));
    assert!(!is_local_host(&host("Remote", "build.example", "ci")));
}

#[test]
fn execute_prepares_a_job_and_runs_nothing() {
    let mut env = EnvMap::new();
    env.insert("A".into(), "1".into());
    let cmd = command("echo hello");
    let target = host("Remote", "build.example", "ci");
    let job = SshExecutor.execute(42, &cmd, &target, env.duplicate()).unwrap();
    assert_eq!(job.environment, EnvironmentKind::RemoteShell);
    assert_eq!(job.command, cmd);
    assert_eq!(job.host, target);
    assert_eq!(job.env_vars, env);
    assert_eq!(job.execution.id(), 42);
    assert_eq!(job.execution.phase(), ExecutionPhase::NotStarted);
    assert!(!job.execution.is_finished());
}

#[test]
fn echo_hello_is_started_output_exit() {
    let mut run = Execution::new(9);
    let told = feed(
        &mut run,
        vec![
            WorkerEvent::Begin,
            WorkerEvent::Launched,
            WorkerEvent::Output(OutputChunk::Stdout("hello\n".into())),
            WorkerEvent::Exited(0),
        ],
    );
    assert_eq!(
        told,
        vec![
            ExecutionUpdate::Started(9),
            ExecutionUpdate::Stdout("hello\n".into()),
            ExecutionUpdate::Exit(0),
        ]
    );
    assert_eq!(run.phase(), ExecutionPhase::Completed);
    assert!(run.is_finished());
}

#[test]
fn nothing_follows_the_exit() {
    let mut run = Execution::new(9);
    feed(&mut run, vec![WorkerEvent::Begin, WorkerEvent::Launched, WorkerEvent::Exited(0)]);
    let late = feed(
        &mut run,
        vec![
            WorkerEvent::Output(OutputChunk::Stdout("late".into())),
            WorkerEvent::Exited(3),
            WorkerEvent::Cancelled,
            WorkerEvent::Broken("x".into()),
            WorkerEvent::Begin,
        ],
    );
    assert!(late.is_empty());
    assert_eq!(run.phase(), ExecutionPhase::Completed);
}

#[test]
fn cancellation_ends_with_exit_minus_one() {
    let mut run = Execution::new(9);
    let told = feed(
        &mut run,
        vec![
            WorkerEvent::Begin,
            WorkerEvent::Launched,
            WorkerEvent::Output(OutputChunk::Stdout("working".into())),
            WorkerEvent::Output(OutputChunk::Stderr("\n[Killing execution...]\n".into())),
            WorkerEvent::Cancelled,
            WorkerEvent::Output(OutputChunk::Stdout("too late".into())),
            WorkerEvent::Exited(0),
        ],
    );
    assert_eq!(
        told,
        vec![
            ExecutionUpdate::Started(9),
            ExecutionUpdate::Stdout("working".into()),
            ExecutionUpdate::Stderr("\n[Killing execution...]\n".into()),
            ExecutionUpdate::Exit(-1),
        ]
    );
    assert_eq!(run.phase(), ExecutionPhase::Killed);
}

#[test]
fn connection_failure_is_started_stderr_exit() {
    let mut run = Execution::new(3);
    let told = feed(
        &mut run,
        vec![WorkerEvent::Begin, WorkerEvent::Broken("Connection failed: refused".into())],
    );
    assert_eq!(
        told,
        vec![
            ExecutionUpdate::Started(3),
            ExecutionUpdate::Stderr("Connection failed: refused".into()),
            ExecutionUpdate::Exit(-1),
        ]
    );
    assert_eq!(run.phase(), ExecutionPhase::Failed);
}

#[test]
fn nonzero_exit_is_a_failure() {
    let mut run = Execution::new(3);
    let told = feed(&mut run, vec![WorkerEvent::Begin, WorkerEvent::Launched, WorkerEvent::Exited(2)]);
    assert_eq!(told, vec![ExecutionUpdate::Started(3), ExecutionUpdate::Exit(2)]);
    assert_eq!(run.phase(), ExecutionPhase::Failed);
}

#[test]
fn events_before_the_start_are_dropped() {
    let mut run = Execution::new(3);
    let told = feed(
        &mut run,
        vec![
            WorkerEvent::Output(OutputChunk::Stdout("early".into())),
            WorkerEvent::Exited(0),
            WorkerEvent::Cancelled,
            WorkerEvent::Launched,
        ],
    );
    assert!(told.is_empty());
    assert_eq!(run.phase(), ExecutionPhase::NotStarted);
    // an exit without a running process is dropped too
    let told = feed(&mut run, vec![WorkerEvent::Begin, WorkerEvent::Exited(0)]);
    assert_eq!(told, vec![ExecutionUpdate::Started(3)]);
    assert_eq!(run.phase(), ExecutionPhase::Started);
}

#[test]
fn preamble_and_background_start() {
    let mut run = Execution::new(4);
    let told = feed(
        &mut run,
        vec![
            WorkerEvent::Begin,
            WorkerEvent::Output(OutputChunk::Stdout("Logging to /tmp.".into())),
            WorkerEvent::Detached(BackgroundHandle { pid_or_hint: "4711".into() }),
            WorkerEvent::Exited(1),
        ],
    );
    assert_eq!(
        told,
        vec![
            ExecutionUpdate::Started(4),
            ExecutionUpdate::Stdout("Logging to /tmp.".into()),
            ExecutionUpdate::Stdout("Background process started: 4711\n".into()),
            ExecutionUpdate::Exit(0),
        ]
    );
    assert_eq!(run.phase(), ExecutionPhase::Completed);
}

#[test]
fn execute_error_messages() {
    assert_eq!(ExecuteError::SshError("no route".into()).message(), "SSH error: no route");
    assert_eq!(ExecuteError::ConnectionFailed.message(), "Connection failed");
}

#[test]
fn outcomes_become_events() {
    assert_eq!(event_of_outcome(Outcome::Continue), None);
    assert_eq!(event_of_outcome(Outcome::Exited(3)), Some(WorkerEvent::Exited(3)));
    assert_eq!(event_of_outcome(Outcome::Killed), Some(WorkerEvent::Cancelled));
}

// A run on this machine as its worker drives it, with the looks at the
// process given: output while it runs, then the end, or a cancel request.
fn drive(looks: Vec<Observation>, pending: Vec<OutputChunk>) -> (Vec<ExecutionUpdate>, ExecutionPhase) {
    let env = LocalRunEnvironment::new();
    let mut run = Execution::new(1);
    let mut told = run.handle(WorkerEvent::Begin);
    told.extend(run.handle(WorkerEvent::Launched));
    let mut pending = Some(pending);
    for seen in looks {
        let decision = env.poll(seen);
        for step in decision.steps {
            match step {
                RunStep::Emit(chunk) => told.extend(run.handle(WorkerEvent::Output(chunk))),
                RunStep::EmitPending => {
                    for chunk in pending.take().unwrap_or_default() {
                        told.extend(run.handle(WorkerEvent::Output(chunk)));
                    }
                }
                _ => {}
            }
        }
        if let Some(event) = event_of_outcome(decision.outcome) {
            told.extend(run.handle(event));
        }
    }
    (told, run.phase())
}

#[test]
fn a_local_run_with_exit_zero_ends_with_one_exit() {
    let (told, phase) = drive(
        vec![
            Observation { cancelled: false, output: vec![], status: ProcessStatus::Running },
            Observation {
                cancelled: false,
                output: vec![OutputChunk::Stdout("hel".into())],
                status: ProcessStatus::Ended(Some(0)),
            },
            // a look after the end changes nothing
            Observation { cancelled: true, output: vec![], status: ProcessStatus::Running },
        ],
        vec![OutputChunk::Stdout("lo\n".into())],
    );
    assert_eq!(
        told,
        vec![
            ExecutionUpdate::Started(1),
            ExecutionUpdate::Stdout("hel".into()),
            ExecutionUpdate::Stdout("lo\n".into()),
            ExecutionUpdate::Exit(0),
        ]
    );
    assert_eq!(told.iter().filter(|u| matches!(u, ExecutionUpdate::Exit(_))).count(), 1);
    assert_eq!(phase, ExecutionPhase::Completed);
}

#[test]
fn a_cancelled_local_run_ends_with_exit_minus_one() {
    let (told, phase) = drive(
        vec![
            Observation {
                cancelled: false,
                output: vec![OutputChunk::Stdout("working".into())],
                status: ProcessStatus::Running,
            },
            Observation {
                cancelled: true,
                output: vec![OutputChunk::Stdout("dropped".into())],
                status: ProcessStatus::Running,
            },
            Observation {
                cancelled: false,
                output: vec![OutputChunk::Stdout("late".into())],
                status: ProcessStatus::Ended(Some(0)),
            },
        ],
        vec![],
    );
    assert_eq!(
        told,
        vec![
            ExecutionUpdate::Started(1),
            ExecutionUpdate::Stdout("working".into()),
            ExecutionUpdate::Stderr("\n[Killing execution...]\n".into()),
            ExecutionUpdate::Exit(-1),
        ]
    );
    assert_eq!(phase, ExecutionPhase::Killed);
}

#[test]
fn performed_actions_become_events() {
    assert_eq!(event_of_action(Performed::Staged(Ok(()))), None);
    assert_eq!(
        event_of_action(Performed::Staged(Err(RunEnvironmentError::UploadFailed("full".into())))),
        Some(WorkerEvent::Broken("Upload failed: full".into()))
    );
    assert_eq!(
        event_of_action(Performed::Said(OutputChunk::Stdout("hint".into()))),
        Some(WorkerEvent::Output(OutputChunk::Stdout("hint".into())))
    );
    let handle = || BackgroundHandle { pid_or_hint: "17".into() };
    assert_eq!(
        event_of_action(Performed::Started(false, Ok(handle()))),
        Some(WorkerEvent::Launched)
    );
    assert_eq!(
        event_of_action(Performed::Started(true, Ok(handle()))),
        Some(WorkerEvent::Detached(handle()))
    );
    for detached in [false, true] {
        assert_eq!(
            event_of_action(Performed::Started(detached, Err(RunEnvironmentError::Io("no bash".into())))),
            Some(WorkerEvent::Broken("IO error: no bash".into()))
        );
    }
}

#[test]
fn a_failed_staging_ends_the_run_before_anything_starts() {
    let mut run = Execution::new(8);
    let mut told = run.handle(WorkerEvent::Begin);
    let event =
        event_of_action(Performed::Staged(Err(RunEnvironmentError::Io("denied".into())))).unwrap();
    told.extend(run.handle(event));
    assert!(run.is_finished());
    told.extend(run.handle(WorkerEvent::Launched));
    told.extend(run.handle(WorkerEvent::Exited(0)));
    assert_eq!(
        told,
        vec![
            ExecutionUpdate::Started(8),
            ExecutionUpdate::Stderr("IO error: denied".into()),
            ExecutionUpdate::Exit(-1),
        ]
    );
    assert_eq!(run.phase(), ExecutionPhase::Failed);
}
