use switchboard_core::models::{
    AuthMethod, Command, EnvVar, ExecutionResult, ExecutionStatus, Host, Timestamp, Workflow,
};
use switchboard_core::persistence::save_command;
use switchboard_core::store::{read_log, seal_snapshot, CommandStore, StoreData, StoreError};
use uuid::Uuid;

fn now() -> Timestamp {
    let t = chrono::Utc::now();
    Timestamp { secs: t.timestamp(), nanos: t.timestamp_subsec_nanos() }
}

fn new_id() -> u128 {
    Uuid::new_v4().as_u128()
}

fn make_exec(cmd_id: u128, host_id: u128) -> (u128, ExecutionResult) {
    let exec_id = new_id();
    let exec = ExecutionResult {
        id: exec_id,
        command_id: cmd_id,
        host_id,
        started_at: now(),
        finished_at: Some(now()),
        exit_code: Some(0),
        duration_ms: Some(100),
        log_file: format!("{}.log.gz", Uuid::from_u128(exec_id)),
    };
    (exec_id, exec)
}

fn make_command(id: u128, name: &str, script: &str) -> Command {
    Command {
        id,
        name: name.into(),
        description: None,
        script: script.into(),
        working_directory: None,
        env_vars: vec![],
        host: None,
        user: None,
        target_hosts: vec![],
        created_at: now(),
        background: false,
        source_path: None,
    }
}

fn make_workflow(id: u128, name: &str, commands: Vec<u128>) -> Workflow {
    Workflow { id, name: name.into(), description: None, commands, env_vars: vec![], created_at: now() }
}

#[test]
fn test_execution_log_write_read() {
    let mut store = CommandStore::new_test();

    let cmd_id = new_id();
    let host_id = new_id();
    let (exec_id, exec) = make_exec(cmd_id, host_id);

    let blob = store
        .add_execution(&exec, "STDOUT_CONTENT\nSTDERR_CONTENT")
        .expect("Log not compressed");
    assert_eq!(blob.file_name, exec.log_file);
    assert_eq!(store.execution_log_name(&exec_id), Some(exec.log_file.clone()));

    let log = store.get_execution_log(&exec_id, &blob.bytes).expect("Log missing");
    assert!(log.contains("STDOUT_CONTENT"));
    assert!(log.contains("STDERR_CONTENT"));
    assert_eq!(log, "STDOUT_CONTENT\nSTDERR_CONTENT");
}

#[test]
fn test_export_import_cycle() {
    let mut store = CommandStore::new_test();

    // 1. Create Data
    let cmd = make_command(new_id(), "Test Command", "echo hello");
    store.add_command(cmd.clone());

    let host = Host {
        id: new_id(),
        name: "Test Host".into(),
        hostname: "localhost".into(),
        port: 22,
        username: "user".into(),
        auth: AuthMethod::Agent,
    };
    store.add_host(host.clone());

    let wf = make_workflow(new_id(), "Test Workflow", vec![cmd.id]);
    store.add_workflow(wf.clone());

    let (_, exec) = make_exec(cmd.id, host.id);
    store.add_execution(&exec, "STDOUT_CONTENT\nSTDERR_CONTENT");

    // 2. Export
    let exported = store.export_json();

    // Setup fresh store and import
    let mut store2 = CommandStore::new_test();
    store2.import_json(Ok(exported)).expect("Import failed");

    // 3. Verify metadata round-trips
    let cmds = store2.list_commands();
    assert_eq!(cmds.len(), 1);
    assert_eq!(cmds[0].id, cmd.id);

    let hosts = store2.list_hosts();
    assert_eq!(hosts.len(), 1);
    assert_eq!(hosts[0].id, host.id);

    let wfs = store2.list_workflows();
    assert_eq!(wfs.len(), 1);
    assert_eq!(wfs[0].id, wf.id);

    let history = store2.get_execution_history(&cmd.id);
    assert_eq!(history.len(), 1);
    assert_eq!(history[0].id, exec.id);

    assert_eq!(cmds[0], cmd);
    assert_eq!(hosts[0], host);
    assert_eq!(wfs[0], wf);
    assert_eq!(history[0], exec);
    assert_eq!(store2.export_json(), store.export_json());
}

#[test]
fn test_workflow_crud() {
    let mut store = CommandStore::new_test();

    // Create Workflow
    let wf_id = new_id();
    let wf = Workflow {
        id: wf_id,
        name: "Test Workflow".to_string(),
        description: Some("Description".into()),
        commands: vec![],
        env_vars: vec![],
        created_at: now(),
    };

    store.add_workflow(wf.clone());

    // Get Workflow
    let fetched = store.get_workflow(&wf_id).unwrap();
    assert_eq!(fetched.id, wf_id);
    assert_eq!(fetched.name, "Test Workflow");

    // List Workflows
    let list = store.list_workflows();
    assert!(list.iter().any(|w| w.id == wf_id));

    // Remove Workflow
    store.remove_workflow(&wf_id);
    assert!(store.get_workflow(&wf_id).is_none());
}

#[test]
fn test_workflow_integrity() {
    let mut store = CommandStore::new_test();

    // Create Command
    let cmd_id = new_id();
    let cmd = make_command(cmd_id, "Test Cmd", "echo hi");
    store.add_command(cmd);

    // Create Workflow with Command
    let wf_id = new_id();
    let wf = make_workflow(wf_id, "Integrity Flow", vec![cmd_id]);
    store.add_workflow(wf);

    // Check Integrity
    assert!(store.is_command_in_workflow(&cmd_id));

    // Remove Workflow
    store.remove_workflow(&wf_id);
    assert!(!store.is_command_in_workflow(&cmd_id));
}

#[test]
fn referenced_command_cannot_be_removed() {
    let mut store = CommandStore::new();
    let cmd = make_command(7, "Step", "true");
    store.add_command(cmd.clone());
    store.add_workflow(make_workflow(1, "Uses it", vec![3, 7]));
    store.add_workflow(make_workflow(2, "Does not", vec![3]));

    assert_eq!(store.remove_command(&7), Err(StoreError::CommandInUse));
    assert_eq!(store.get_command(&7), Some(cmd));

    store.remove_workflow(&2);
    assert_eq!(store.remove_command(&7), Err(StoreError::CommandInUse));

    store.remove_workflow(&1);
    assert_eq!(store.remove_command(&7), Ok(()));
    assert_eq!(store.get_command(&7), None);
    assert!(store.list_commands().is_empty());
}

#[test]
fn removing_an_absent_command_changes_nothing() {
    let mut store = CommandStore::new();
    store.add_command(make_command(1, "One", "true"));
    let before = store.export_json();
    assert_eq!(store.remove_command(&2), Ok(()));
    assert_eq!(store.export_json(), before);
}

#[test]
fn add_command_twice_keeps_one_record_with_latest_fields() {
    let mut store = CommandStore::new();
    let mut first = make_command(5, "First name", "echo 1");
    let other = make_command(6, "Other", "echo other");
    assert_eq!(store.add_command(first.clone()), 5);
    store.add_command(other.clone());

    first.name = "Second name".into();
    first.script = "echo 2".into();
    first.env_vars = vec![EnvVar { key: "A".into(), value: "b".into(), ask_user: true }];
    assert_eq!(store.add_command(first.clone()), 5);

    let all = store.list_commands();
    assert_eq!(all.len(), 2);
    assert_eq!(all.iter().filter(|c| c.id == 5).count(), 1);
    assert_eq!(store.get_command(&5), Some(first.clone()));
    // the rewritten record moves to the end, the other keeps its place
    assert_eq!(all, vec![other, first]);
}

#[test]
fn hosts_are_upserted_and_found() {
    let mut store = CommandStore::new();
    let mut host = Host {
        id: 9,
        name: "build".into(),
        hostname: "build.example".into(),
        port: 2222,
        username: "ci".into(),
        auth: AuthMethod::KeyFile("/keys/ci".into()),
    };
    assert_eq!(store.add_host(host.clone()), 9);
    host.auth = AuthMethod::Password("secret".into());
    assert_eq!(store.add_host(host.clone()), 9);
    assert_eq!(store.list_hosts(), vec![host.clone()]);
    assert_eq!(store.get_host(&9), Some(host));
    assert_eq!(store.get_host(&10), None);
}

#[test]
fn history_is_filtered_by_command_in_order() {
    let mut store = CommandStore::new();
    let (_, a) = make_exec(1, 0);
    let (_, b) = make_exec(2, 0);
    let (_, c) = make_exec(1, 0);
    store.record_execution(&a, None);
    store.record_execution(&b, None);
    store.record_execution(&c, None);
    assert_eq!(store.get_execution_history(&1), vec![a.clone(), c.clone()]);
    assert_eq!(store.get_execution_history(&2), vec![b]);
    assert!(store.get_execution_history(&3).is_empty());

    // writing a run again replaces it and moves it to the end
    let mut again = a.clone();
    again.exit_code = Some(3);
    store.record_execution(&again, None);
    assert_eq!(store.get_execution_history(&1), vec![c, again]);
}

#[test]
fn record_execution_names_the_blob() {
    let mut store = CommandStore::new();
    let (_, exec) = make_exec(1, 0);
    assert_eq!(store.record_execution(&exec, None), None);
    let blob = store.record_execution(&exec, Some(vec![1, 2, 3])).unwrap();
    assert_eq!(blob.file_name, exec.log_file);
    assert_eq!(blob.bytes, vec![1, 2, 3]);
}

#[test]
fn log_of_unknown_run_is_none() {
    let mut store = CommandStore::new();
    let (_, exec) = make_exec(1, 0);
    let blob = store.add_execution(&exec, "text").unwrap();
    assert_eq!(store.execution_log_name(&12345), None);
    assert_eq!(store.get_execution_log(&12345, &blob.bytes), None);
}

#[test]
fn damaged_blob_gives_no_log() {
    let mut store = CommandStore::new();
    let (id, exec) = make_exec(1, 0);
    let blob = store.add_execution(&exec, "some output").unwrap();
    // a gzip stream, not the text itself
    assert_ne!(blob.bytes, b"some output".to_vec());
    assert_eq!(&blob.bytes[0..2], &[0x1f, 0x8b]);
    assert_eq!(read_log(&blob.bytes), Some("some output".to_string()));
    assert_eq!(read_log(b"not gzip at all"), None);
    assert_eq!(store.get_execution_log(&id, &blob.bytes[..blob.bytes.len() - 4]), None);
}

#[test]
fn status_is_derived_from_exit_code() {
    let (_, mut exec) = make_exec(1, 0);
    assert_eq!(exec.status(), ExecutionStatus::Completed);
    exec.exit_code = Some(2);
    assert_eq!(exec.status(), ExecutionStatus::Failed);
    exec.exit_code = Some(-1);
    assert_eq!(exec.status(), ExecutionStatus::Failed);
    exec.exit_code = None;
    assert_eq!(exec.status(), ExecutionStatus::Failed);
}

#[test]
fn import_replaces_and_failed_import_keeps() {
    let mut store = CommandStore::new();
    store.add_command(make_command(1, "old", "true"));
    let replacement = StoreData {
        commands: vec![make_command(2, "new", "false")],
        workflows: vec![],
        hosts: vec![],
        executions: vec![],
    };
    assert_eq!(store.import_json(Ok(replacement.clone())), Ok(()));
    assert_eq!(store.export_json(), replacement);

    let failed = store.import_json(Err("expected value at line 1 column 1".to_string()));
    assert_eq!(
        failed,
        Err(StoreError::Serialization("expected value at line 1 column 1".to_string()))
    );
    assert_eq!(store.export_json(), replacement);
    assert_eq!(
        failed.unwrap_err().message(),
        "invalid store data: expected value at line 1 column 1"
    );
}

#[test]
fn load_falls_back_to_what_is_there() {
    let mut store = CommandStore::new();
    store.load(None);
    assert!(store.list_commands().is_empty());
    let data = StoreData {
        commands: vec![make_command(2, "new", "false")],
        workflows: vec![],
        hosts: vec![],
        executions: vec![],
    };
    store.load(Some(data.clone()));
    assert_eq!(store.export_json(), data);
    store.load(None);
    assert_eq!(store.export_json(), data);
}

#[test]
fn snapshot_is_named_by_the_digest_of_its_text() {
    let snapshot = CommandStore::snapshot_state("abc").unwrap();
    assert_eq!(snapshot.hash_hex.len(), 64);
    // SHA-256 of "abc"
    assert_eq!(
        snapshot.hash_hex,
        "ba7816bf8f01cfea414140de5dae2223b00361a396177a9cb410ff61f20015ad"
    );
    assert_eq!(
        snapshot.file_name,
        "ba7816bf8f01cfea414140de5dae2223b00361a396177a9cb410ff61f20015ad.json.gz"
    );
    assert_eq!(read_log(&snapshot.bytes), Some("abc".to_string()));

    // equal states give equal names and blobs, other states other names
    let again = CommandStore::snapshot_state("abc").unwrap();
    assert_eq!(again, snapshot);
    let other = CommandStore::snapshot_state("abd").unwrap();
    assert_ne!(other.hash_hex, snapshot.hash_hex);
}

#[test]
fn seal_snapshot_writes_lower_case_hex() {
    let sealed = seal_snapshot(&[0x00, 0x0f, 0xa0, 0xff], Some(vec![9, 9])).unwrap();
    assert_eq!(sealed.hash_hex, "000fa0ff");
    assert_eq!(sealed.file_name, "000fa0ff.json.gz");
    assert_eq!(sealed.bytes, vec![9, 9]);
    assert_eq!(seal_snapshot(&[1], None), Err(StoreError::Compression));
    assert_eq!(StoreError::Compression.message(), "compression failed");
    assert_eq!(StoreError::CommandInUse.message(), "command is part of a workflow");
}

#[test]
fn save_command_upserts() {
    let mut store = CommandStore::new();
    let mut cmd = make_command(1, "a", "true");
    save_command(&mut store, &cmd);
    cmd.name = "b".into();
    save_command(&mut store, &cmd);
    assert_eq!(store.list_commands(), vec![cmd]);
}

#[test]
fn snapshot_succeeds_on_any_text() {
    for text in ["", "{}", "ünïcödé", &"x".repeat(100_000)] {
        let snapshot = CommandStore::snapshot_state(text).unwrap();
        assert_eq!(snapshot.hash_hex.len(), 64);
        assert!(snapshot.hash_hex.chars().all(|c| c.is_ascii_digit() || ('a'..='f').contains(&c)));
        assert_eq!(snapshot.file_name, format!("{}.json.gz", snapshot.hash_hex));
        assert_eq!(read_log(&snapshot.bytes), Some(text.to_string()));
    }
}
