use switchboard_core::edit::{CommandEditState, WorkflowEditState};
use switchboard_core::environment::EnvMap;
use switchboard_core::models::{
    AuthMethod, Command, CommandV0, EnvVar, ExecutionResult, ExecutionUpdate, Host, Timestamp,
    Workflow, WorkflowV0,
};
use switchboard_core::persistence::{
    executions_dir, snapshots_dir, store_file, temp_path, SavePhase,
};
use switchboard_core::navigation::{
    save_current_command, save_current_workflow, Navigation, Selection,
};
use switchboard_core::prompt::{
    asked, confirm_pending, declared_ask, resolve_workflow, run_environment,
    trigger_command_execution, trigger_workflow_execution, vars_to_ask, ActiveWorkflow,
    PendingExecution, Trigger, WorkflowProgress,
};
use switchboard_core::session::{
    create_new_command, create_new_workflow, elapsed_ms, host_for_command, log_name,
    recall_history, sort_by_start, ExecutionState,
};
use switchboard_core::store::CommandStore;

fn at(secs: i64, nanos: u32) -> Timestamp {
    Timestamp { secs, nanos }
}

fn var(key: &str, value: &str, ask_user: bool) -> EnvVar {
    EnvVar { key: key.into(), value: value.into(), ask_user }
}

fn command(id: u128, env_vars: Vec<EnvVar>) -> Command {
    Command {
        id,
        name: format!("cmd {}", id),
        description: Some("what it does".into()),
        script: "echo".into(),
        working_directory: Some("/srv".into()),
        env_vars,
        host: None,
        user: None,
        target_hosts: vec![4, 5],
        created_at: at(10, 0),
        background: false,
        source_path: Some("/src/cmd.sh".into()),
    }
}

fn workflow(id: u128, commands: Vec<u128>, env_vars: Vec<EnvVar>) -> Workflow {
    Workflow { id, name: "wf".into(), description: None, commands, env_vars, created_at: at(10, 0) }
}

fn env(items: &[(&str, &str)]) -> EnvMap {
    let mut map = EnvMap::new();
    for (k, v) in items {
        map.insert(k.to_string(), v.to_string());
    }
    map
}

#[test]
fn navigation_keeps_a_history() {
    let mut nav = Navigation::new();
    assert!(!nav.navigate_to(Selection::Command(1)));
    assert_eq!(nav.active, Some(Selection::Command(1)));
    assert!(nav.history.is_empty());
    // going to what is shown changes nothing
    assert!(!nav.navigate_to(Selection::Command(1)));
    assert!(nav.history.is_empty());
    assert!(nav.navigate_to(Selection::Workflow(1)));
    assert!(nav.navigate_to(Selection::Execution(2)));
    assert_eq!(nav.history, vec![Selection::Command(1), Selection::Workflow(1)]);
    assert!(nav.navigate_back());
    assert_eq!(nav.active, Some(Selection::Workflow(1)));
    assert!(nav.navigate_back());
    assert_eq!(nav.active, Some(Selection::Command(1)));
    assert!(nav.navigate_back());
    assert_eq!(nav.active, None);
    assert!(!nav.navigate_back());
    assert_eq!(nav, Navigation::new());
}

#[test]
fn elapsed_counts_whole_milliseconds() {
    assert_eq!(elapsed_ms(at(10, 0), at(10, 0)), Some(0));
    assert_eq!(elapsed_ms(at(10, 0), at(12, 500_000_000)), Some(2500));
    assert_eq!(elapsed_ms(at(10, 900_000_000), at(11, 100_000_000)), Some(200));
    assert_eq!(elapsed_ms(at(10, 0), at(10, 999_999)), Some(0));
    assert_eq!(elapsed_ms(at(10, 0), at(10, 1_000_000)), Some(1));
    assert_eq!(elapsed_ms(at(-5, 0), at(5, 0)), Some(10_000));
    // the clock went back
    assert_eq!(elapsed_ms(at(10, 1), at(10, 0)), None);
    assert_eq!(elapsed_ms(at(11, 0), at(10, 999_999_999)), None);
    // too long to count
    assert_eq!(elapsed_ms(at(i64::MIN, 0), at(i64::MAX, 0)), None);
    assert_eq!(elapsed_ms(at(0, 0), at(i64::MAX, 0)), None);
    assert_eq!(
        elapsed_ms(at(0, 0), at(18_446_744_073_709_551, 615_999_999)),
        Some(u64::MAX)
    );
    assert_eq!(elapsed_ms(at(0, 0), at(18_446_744_073_709_551, 616_000_000)), None);
}

#[test]
fn log_name_is_the_identity_with_suffix() {
    assert_eq!(
        log_name(0xa1a2a3a4b1b2c1c2d1d2d3d4d5d6d7d8),
        "a1a2a3a4-b1b2-c1c2-d1d2-d3d4d5d6d7d8.log.gz"
    );
    let id = uuid::Uuid::new_v4();
    assert_eq!(log_name(id.as_u128()), format!("{}.log.gz", id));
}

#[test]
fn host_for_a_command_without_host_is_this_machine() {
    let cmd = command(1, vec![]);
    assert_eq!(
        host_for_command(&cmd, 99, "me"),
        Host {
            id: 99,
            name: "local".into(),
            hostname: "localhost".into(),
            port: 22,
            username: "me".into(),
            auth: AuthMethod::Agent
        }
    );
    let mut remote = command(1, vec![]);
    remote.host = Some("build.example".into());
    remote.user = Some("ci".into());
    assert_eq!(
        host_for_command(&remote, 98, "me"),
        Host {
            id: 98,
            name: "Remote".into(),
            hostname: "build.example".into(),
            port: 22,
            username: "ci".into(),
            auth: AuthMethod::Agent
        }
    );
}

#[test]
fn a_run_gathers_output_and_ends_with_a_record() {
    let cmd = command(7, vec![]);
    let mut state = ExecutionState::started(3, &cmd, at(100, 0));
    assert!(state.is_running);
    assert_eq!(state.command_name, "cmd 7");
    assert_eq!(state.working_directory, Some("/srv".to_string()));
    assert!(state.is_local);
    assert!(state.output_loaded);
    assert!(!state.is_from_history);

    assert_eq!(state.apply(ExecutionUpdate::Started(3), at(100, 1)), None);
    assert_eq!(state.apply(ExecutionUpdate::Stdout("STDOUT_CONTENT\n".into()), at(100, 2)), None);
    assert_eq!(state.apply(ExecutionUpdate::Stderr("STDERR_CONTENT".into()), at(100, 3)), None);
    assert_eq!(state.output_buffer, "STDOUT_CONTENT\nSTDERR_CONTENT");
    assert!(state.is_running);

    let record = state.apply(ExecutionUpdate::Exit(2), at(101, 250_000_000)).unwrap();
    assert!(!state.is_running);
    assert_eq!(state.exit_code, Some(2));
    assert_eq!(
        record,
        ExecutionResult {
            id: 3,
            command_id: 7,
            host_id: 0,
            started_at: at(100, 0),
            finished_at: Some(at(101, 250_000_000)),
            exit_code: Some(2),
            duration_ms: Some(1250),
            log_file: "00000000-0000-0000-0000-000000000003.log.gz".into(),
        }
    );

    // the record and the gathered output go to the store together
    let mut store = CommandStore::new();
    let blob = store.add_execution(&record, &state.output_buffer).unwrap();
    assert_eq!(
        store.get_execution_log(&3, &blob.bytes),
        Some("STDOUT_CONTENT\nSTDERR_CONTENT".to_string())
    );

    let recalled = ExecutionState::from_history(&record, "cmd 7");
    assert_eq!(recalled.output_buffer, "(Click to load logs)");
    assert!(!recalled.is_running);
    assert!(recalled.is_from_history);
    assert!(!recalled.output_loaded);
    assert_eq!(recalled.exit_code, Some(2));
    assert_eq!(recalled.started_at, at(100, 0));
}

#[test]
fn workflow_moves_on_after_success_and_stops_after_failure() {
    let wf = workflow(1, vec![10, 11, 12], vec![]);
    let mut active = ActiveWorkflow::start(1, EnvMap::new());
    assert_eq!(active.current_step_index, 0);
    assert_eq!(active.current_execution_id, None);
    // no run is current yet
    assert_eq!(active.check_workflow_progress(50, 0, Some(&wf)), WorkflowProgress::Unchanged);
    active.current_execution_id = Some(50);
    // another run ends
    assert_eq!(active.check_workflow_progress(51, 0, Some(&wf)), WorkflowProgress::Unchanged);
    assert_eq!(active.check_workflow_progress(50, 0, Some(&wf)), WorkflowProgress::Next(11));
    assert_eq!(active.current_step_index, 1);
    active.current_execution_id = Some(60);
    // the workflow is gone from the store
    assert_eq!(active.check_workflow_progress(60, 0, None), WorkflowProgress::Unchanged);
    assert_eq!(active.current_step_index, 1);
    assert_eq!(active.check_workflow_progress(60, 0, Some(&wf)), WorkflowProgress::Next(12));
    active.current_execution_id = Some(70);
    assert_eq!(active.check_workflow_progress(70, 0, Some(&wf)), WorkflowProgress::Done);
    assert_eq!(active.current_step_index, 2);

    let mut failing = ActiveWorkflow::start(1, EnvMap::new());
    failing.current_execution_id = Some(50);
    assert_eq!(failing.check_workflow_progress(50, 1, Some(&wf)), WorkflowProgress::Stopped);
    assert_eq!(failing.check_workflow_progress(50, -1, None), WorkflowProgress::Stopped);
    assert_eq!(failing.current_step_index, 0);

    let mut beyond = ActiveWorkflow::start(1, EnvMap::new());
    beyond.current_step_index = usize::MAX;
    beyond.current_execution_id = Some(1);
    assert_eq!(beyond.check_workflow_progress(1, 0, Some(&wf)), WorkflowProgress::Done);
}

#[test]
fn run_environment_prefers_the_workflow_over_answers() {
    let cmd = command(1, vec![var("A", "default", false), var("B", "default", true)]);
    assert_eq!(run_environment(&cmd, None, None), env(&[("A", "default"), ("B", "default")]));
    let answers = env(&[("B", "answer")]);
    assert_eq!(
        run_environment(&cmd, None, Some(&answers)),
        env(&[("A", "default"), ("B", "answer")])
    );
    let active = ActiveWorkflow::start(1, env(&[("A", "workflow"), ("C", "extra")]));
    assert_eq!(
        run_environment(&cmd, Some(&active), Some(&answers)),
        env(&[("A", "workflow"), ("B", "default"), ("C", "extra")])
    );
}

#[test]
fn command_without_questions_runs_at_once() {
    let mut store = CommandStore::new();
    store.add_command(command(1, vec![var("A", "1", false)]));
    assert_eq!(trigger_command_execution(&store, 1), Trigger::RunCommand(1, None));
    assert_eq!(trigger_command_execution(&store, 2), Trigger::Nothing);
}

#[test]
fn command_with_questions_prompts_and_runs_with_answers() {
    let mut store = CommandStore::new();
    let vars = vec![var("A", "1", false), var("B", "2", true), var("C", "3", true)];
    store.add_command(command(1, vars));
    let trigger = trigger_command_execution(&store, 1);
    let expected = PendingExecution {
        cmd_id: Some(1),
        workflow_id: None,
        initial_vars: env(&[("A", "1"), ("B", "2"), ("C", "3")]),
        vars_to_ask: vec![var("B", "2", true), var("C", "3", true)],
    };
    assert_eq!(trigger, Trigger::Prompt(expected));
    let mut pending = match trigger {
        Trigger::Prompt(p) => p,
        _ => unreachable!(),
    };
    pending.vars_to_ask[0].value = "answered".into();
    assert_eq!(
        confirm_pending(&store, pending),
        Trigger::RunCommand(1, Some(env(&[("A", "1"), ("B", "answered"), ("C", "3")])))
    );
}

#[test]
fn workflow_resolution_lets_the_workflow_override_its_steps() {
    let mut store = CommandStore::new();
    store.add_command(command(
        10,
        vec![var("SHARED", "from step 1", true), var("ONLY1", "one", false), var("QUIET", "q", true)],
    ));
    store.add_command(command(
        11,
        vec![var("SHARED", "from step 2", false), var("ONLY2", "two", true), var("ONLY1", "late", true)],
    ));
    let wf = workflow(
        1,
        vec![10, 99, 11],
        vec![var("SHARED", "from workflow", false), var("WF", "w", true), var("QUIET", "wq", false)],
    );
    let (resolved, asks) = resolve_workflow(&store, &wf);
    assert_eq!(
        resolved,
        env(&[
            ("SHARED", "from workflow"),
            ("WF", "w"),
            ("QUIET", "wq"),
            ("ONLY1", "one"),
            ("ONLY2", "two")
        ])
    );
    // SHARED and QUIET are declared by the workflow without a question, so
    // the steps do not ask; ONLY1 is asked by the second step with the value
    // of the first.
    assert_eq!(asks, vec![var("WF", "w", true), var("ONLY2", "two", true), var("ONLY1", "one", true)]);

    store.add_workflow(wf);
    let trigger = trigger_workflow_execution(&store, 1);
    let pending = match trigger {
        Trigger::Prompt(p) => p,
        other => panic!("expected a prompt, got {:?}", other),
    };
    assert_eq!(pending.cmd_id, None);
    assert_eq!(pending.workflow_id, Some(1));
    assert_eq!(pending.initial_vars, resolved);
    assert_eq!(pending.vars_to_ask, asks);

    let confirmed = confirm_pending(&store, pending);
    assert_eq!(confirmed, Trigger::StartWorkflow(ActiveWorkflow::start(1, resolved), 10));
}

#[test]
fn workflow_without_questions_starts_at_once() {
    let mut store = CommandStore::new();
    store.add_command(command(10, vec![var("A", "1", false)]));
    store.add_workflow(workflow(1, vec![10], vec![var("A", "2", false)]));
    store.add_workflow(workflow(2, vec![], vec![var("A", "2", true)]));
    assert_eq!(
        trigger_workflow_execution(&store, 1),
        Trigger::StartWorkflow(ActiveWorkflow::start(1, env(&[("A", "2")])), 10)
    );
    assert_eq!(trigger_workflow_execution(&store, 2), Trigger::Nothing);
    assert_eq!(trigger_workflow_execution(&store, 3), Trigger::Nothing);
}

#[test]
fn confirming_for_a_workflow_that_is_gone_does_nothing() {
    let store = CommandStore::new();
    let pending = PendingExecution {
        cmd_id: None,
        workflow_id: Some(1),
        initial_vars: EnvMap::new(),
        vars_to_ask: vec![],
    };
    assert_eq!(confirm_pending(&store, pending), Trigger::Nothing);
    let neither = PendingExecution {
        cmd_id: None,
        workflow_id: None,
        initial_vars: EnvMap::new(),
        vars_to_ask: vec![],
    };
    assert_eq!(confirm_pending(&store, neither), Trigger::Nothing);
}

#[test]
fn questions_are_found_by_name() {
    let vars = vec![var("A", "1", false), var("B", "2", true), var("A", "3", true)];
    assert_eq!(vars_to_ask(&vars), vec![var("B", "2", true), var("A", "3", true)]);
    assert!(asked(&vars, "A"));
    assert!(!asked(&vars, "C"));
    assert_eq!(declared_ask(&vars, "A"), Some(false));
    assert_eq!(declared_ask(&vars, "B"), Some(true));
    assert_eq!(declared_ask(&vars, "C"), None);
}

#[test]
fn command_edit_state_round_trip() {
    let mut cmd = command(1, vec![var("A", "1", true)]);
    let state = CommandEditState::from_command(&cmd);
    assert_eq!(
        state,
        CommandEditState {
            name: "cmd 1".into(),
            description: "what it does".into(),
            host: "".into(),
            user: "".into(),
            working_directory: "/srv".into(),
            script: "echo".into(),
            is_local: true,
            background: false,
            env_vars: vec![var("A", "1", true)],
        }
    );
    let before = cmd.clone();
    state.apply_to_command(&mut cmd);
    assert_eq!(cmd, before);
}

#[test]
fn command_edit_state_applies_edits() {
    let mut cmd = command(1, vec![]);
    let state = CommandEditState {
        name: "renamed".into(),
        description: "".into(),
        host: "".into(),
        user: "ci".into(),
        working_directory: "".into(),
        script: "ls".into(),
        is_local: false,
        background: true,
        env_vars: vec![var("X", "y", false)],
    };
    state.apply_to_command(&mut cmd);
    assert_eq!(cmd.name, "renamed");
    assert_eq!(cmd.description, None);
    // a cleared host does not make the command local
    assert_eq!(cmd.host, Some("".to_string()));
    assert_eq!(cmd.user, Some("ci".to_string()));
    assert_eq!(cmd.working_directory, None);
    assert_eq!(cmd.script, "ls");
    assert!(cmd.background);
    assert_eq!(cmd.env_vars, vec![var("X", "y", false)]);
    // untouched
    assert_eq!(cmd.id, 1);
    assert_eq!(cmd.target_hosts, vec![4, 5]);
    assert_eq!(cmd.created_at, at(10, 0));
    assert_eq!(cmd.source_path, Some("/src/cmd.sh".to_string()));

    let local = CommandEditState { is_local: true, ..CommandEditState::from_command(&cmd) };
    local.apply_to_command(&mut cmd);
    assert_eq!(cmd.host, None);
    assert_eq!(cmd.user, None);
}

#[test]
fn workflow_edit_state_round_trip() {
    let mut wf = workflow(1, vec![3, 4], vec![var("A", "1", false)]);
    wf.description = Some("d".into());
    let mut state = WorkflowEditState::from_workflow(&wf);
    assert_eq!(state.name, "wf");
    assert_eq!(state.description, "d");
    assert_eq!(state.commands, vec![3, 4]);
    let before = wf.clone();
    state.apply_to_workflow(&mut wf);
    assert_eq!(wf, before);
    state.description = "".into();
    state.commands = vec![4];
    state.apply_to_workflow(&mut wf);
    assert_eq!(wf.description, None);
    assert_eq!(wf.commands, vec![4]);
    assert_eq!(wf.id, 1);
}

#[test]
fn old_records_are_upgraded() {
    let old = CommandV0 {
        id: 1,
        name: "n".into(),
        description: Some("d".into()),
        script: "s".into(),
        working_directory: None,
        environment: vec![("A".to_string(), "1".to_string()), ("B".to_string(), "2".to_string())],
        host: Some("h".into()),
        user: None,
        target_hosts: vec![7],
        created_at: at(1, 2),
        source_path: Some("/p".into()),
    };
    let new = Command::from(old);
    assert_eq!(
        new,
        Command {
            id: 1,
            name: "n".into(),
            description: Some("d".into()),
            script: "s".into(),
            working_directory: None,
            env_vars: vec![var("A", "1", false), var("B", "2", false)],
            host: Some("h".into()),
            user: None,
            target_hosts: vec![7],
            created_at: at(1, 2),
            background: false,
            source_path: Some("/p".into()),
        }
    );
    let wf = Workflow::from(WorkflowV0 {
        id: 2,
        name: "w".into(),
        description: None,
        commands: vec![1],
        created_at: at(3, 4),
    });
    assert_eq!(wf, workflow_with(2, "w", vec![1], at(3, 4)));
}

fn workflow_with(id: u128, name: &str, commands: Vec<u128>, created_at: Timestamp) -> Workflow {
    Workflow { id, name: name.into(), description: None, commands, env_vars: vec![], created_at }
}

#[test]
fn save_steps_follow_the_discipline() {
    let mut phase = SavePhase::start();
    let mut seen = vec![phase];
    while !phase.finished() {
        phase = phase.advance(true);
        seen.push(phase);
    }
    assert_eq!(
        seen,
        vec![
            SavePhase::WriteTemp,
            SavePhase::SyncTemp,
            SavePhase::Rename,
            SavePhase::SyncDirectory,
            SavePhase::Saved
        ]
    );
    // a failure before the rename cleans up and fails
    for failing in [SavePhase::WriteTemp, SavePhase::SyncTemp, SavePhase::Rename] {
        assert_eq!(failing.advance(false), SavePhase::CleanUp);
    }
    assert_eq!(SavePhase::CleanUp.advance(true), SavePhase::Failed);
    assert_eq!(SavePhase::CleanUp.advance(false), SavePhase::Failed);
    // the directory sync is best effort
    assert_eq!(SavePhase::SyncDirectory.advance(false), SavePhase::Saved);
    assert_eq!(SavePhase::Saved.advance(false), SavePhase::Saved);
    assert_eq!(SavePhase::Failed.advance(true), SavePhase::Failed);
    assert!(SavePhase::Failed.finished());
    assert!(!SavePhase::CleanUp.finished());
}

#[test]
fn layout_names() {
    assert_eq!(store_file(), "store.json");
    assert_eq!(executions_dir(), "executions");
    assert_eq!(snapshots_dir(), "snapshots");
    assert_eq!(temp_path("/data/store.json"), "/data/store.json.tmp");
}

fn run_record(id: u128, command_id: u128, started: Timestamp, exit_code: i32) -> ExecutionResult {
    ExecutionResult {
        id,
        command_id,
        host_id: 0,
        started_at: started,
        finished_at: None,
        exit_code: Some(exit_code),
        duration_ms: None,
        log_file: log_name(id),
    }
}

#[test]
fn history_is_recalled_command_by_command() {
    let mut store = CommandStore::new();
    store.add_command(command(1, vec![]));
    store.add_command(command(2, vec![]));
    store.record_execution(&run_record(10, 2, at(5, 0), 0), None);
    store.record_execution(&run_record(11, 1, at(3, 0), 1), None);
    store.record_execution(&run_record(12, 2, at(1, 0), 0), None);
    // the command of this run is gone
    store.record_execution(&run_record(13, 9, at(0, 0), 0), None);

    let recalled = recall_history(&store);
    let ids: Vec<u128> = recalled.iter().map(|r| r.id).collect();
    assert_eq!(ids, vec![11, 10, 12]);
    assert_eq!(recalled[0].command_name, "cmd 1");
    assert_eq!(recalled[1].command_name, "cmd 2");
    assert_eq!(recalled[0].exit_code, Some(1));
    assert!(recalled.iter().all(|r| r.is_from_history && !r.is_running));

    let sorted = sort_by_start(recalled);
    let ids: Vec<u128> = sorted.iter().map(|r| r.id).collect();
    assert_eq!(ids, vec![12, 11, 10]);
}

#[test]
fn sorting_by_start_is_stable() {
    let cmd = command(1, vec![]);
    let mk = |id: u128, secs: i64, nanos: u32| ExecutionState::started(id, &cmd, at(secs, nanos));
    let sorted = sort_by_start(vec![
        mk(1, 5, 0),
        mk(2, 1, 7),
        mk(3, 5, 0),
        mk(4, 1, 6),
        mk(5, -3, 999),
        mk(6, 5, 0),
    ]);
    let ids: Vec<u128> = sorted.iter().map(|r| r.id).collect();
    assert_eq!(ids, vec![5, 4, 2, 1, 3, 6]);
    assert!(sort_by_start(vec![]).is_empty());
}

#[test]
fn new_records_start_blank() {
    let cmd = create_new_command(5, Some("me".to_string()), at(9, 1));
    assert_eq!(cmd.id, 5);
    assert_eq!(cmd.name, "New Command");
    assert_eq!(cmd.script, "");
    assert_eq!(cmd.user, Some("me".to_string()));
    assert_eq!(cmd.host, None);
    assert_eq!(cmd.created_at, at(9, 1));
    assert!(!cmd.background);
    assert!(cmd.env_vars.is_empty() && cmd.target_hosts.is_empty());
    assert_eq!(create_new_command(6, None, at(0, 0)).user, None);
    let wf = create_new_workflow(7, at(9, 2));
    assert_eq!(wf, Workflow {
        id: 7,
        name: "New Workflow".into(),
        description: None,
        commands: vec![],
        env_vars: vec![],
        created_at: at(9, 2),
    });
}

#[test]
fn edits_are_saved_for_what_is_shown() {
    let mut store = CommandStore::new();
    store.add_command(command(1, vec![]));
    store.add_workflow(workflow(2, vec![1], vec![]));
    let mut edits = CommandEditState::from_command(&store.get_command(&1).unwrap());
    edits.name = "edited".into();

    // nothing shown, another kind shown, nothing under edit, command gone
    assert!(!save_current_command(&mut store, None, Some(&edits)));
    assert!(!save_current_command(&mut store, Some(Selection::Workflow(1)), Some(&edits)));
    assert!(!save_current_command(&mut store, Some(Selection::Command(1)), None));
    assert!(!save_current_command(&mut store, Some(Selection::Command(3)), Some(&edits)));
    assert_eq!(store.get_command(&1).unwrap().name, "cmd 1");

    assert!(save_current_command(&mut store, Some(Selection::Command(1)), Some(&edits)));
    assert_eq!(store.get_command(&1).unwrap().name, "edited");
    assert_eq!(store.list_commands().len(), 1);

    let mut wf_edits = WorkflowEditState::from_workflow(&store.get_workflow(&2).unwrap());
    wf_edits.commands = vec![1, 1];
    assert!(!save_current_workflow(&mut store, Some(Selection::Command(2)), Some(&wf_edits)));
    assert!(save_current_workflow(&mut store, Some(Selection::Workflow(2)), Some(&wf_edits)));
    assert_eq!(store.get_workflow(&2).unwrap().commands, vec![1, 1]);
}
