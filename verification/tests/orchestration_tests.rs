use switchboard_core::environment::EnvMap;
use switchboard_core::models::{AuthMethod, Command, ExecutionUpdate, Host, Timestamp};
use switchboard_core::orchestration::{
    background_started, build_exec_command, build_inner_command, env_exports, inject_run_variables,
    log_file, map_chunk, orchestrate_execution, script_path, RunAction,
};
use switchboard_core::run_environment::ssh::ConnectOutcome;
use switchboard_core::run_environment::{
    BackgroundHandle, FileWrite, Launch, LocalRunEnvironment, OutputChunk, SshRunEnvironment,
};

const ID: u128 = 0xa1a2a3a4b1b2c1c2d1d2d3d4d5d6d7d8;
const ID_TEXT: &str = "a1a2a3a4-b1b2-c1c2-d1d2-d3d4d5d6d7d8";

fn command(script: &str, working_directory: Option<&str>, background: bool) -> Command {
    Command {
        id: 1,
        name: "cmd".into(),
        description: None,
        script: script.into(),
        working_directory: working_directory.map(|d| d.to_string()),
        env_vars: vec![],
        host: None,
        user: None,
        target_hosts: vec![],
        created_at: Timestamp { secs: 0, nanos: 0 },
        background,
        source_path: None,
    }
}

fn remote_host() -> Host {
    Host {
        id: 2,
        name: "Remote".into(),
        hostname: "build.example".into(),
        port: 22,
        username: "ci".into(),
        auth: AuthMethod::Agent,
    }
}

fn entries(env: &EnvMap) -> Vec<(String, String)> {
    (0..env.len()).map(|i| (env.key_at(i).clone(), env.value_at(i).clone())).collect()
}

#[test]
fn paths_are_derived_from_the_run_identity() {
    assert_eq!(script_path(ID), format!("/tmp/switchboard_{}.sh", ID_TEXT));
    assert_eq!(log_file(ID), format!("/tmp/switchboard_{}.log", ID_TEXT));
    assert_eq!(script_path(0), "/tmp/switchboard_00000000-0000-0000-0000-000000000000.sh");
    assert_eq!(log_file(u128::MAX), "/tmp/switchboard_ffffffff-ffff-ffff-ffff-ffffffffffff.log");
    let id = uuid::Uuid::new_v4();
    assert_eq!(script_path(id.as_u128()), format!("/tmp/switchboard_{}.sh", id));
}

#[test]
fn run_variables_are_injected() {
    let mut env = EnvMap::new();
    env.insert("A".into(), "1".into());
    env.insert("SWITCHBOARD_RUN".into(), "stale".into());
    inject_run_variables(&mut env, ID);
    assert_eq!(
        entries(&env),
        vec![
            ("A".to_string(), "1".to_string()),
            ("SWITCHBOARD_RUN".to_string(), ID_TEXT.to_string()),
            ("SWITCHBOARD_LOG".to_string(), format!("/tmp/switchboard_{}.log", ID_TEXT)),
        ]
    );
}

#[test]
fn exports_quote_each_value() {
    let mut env = EnvMap::new();
    assert_eq!(env_exports(&env), "");
    env.insert("GREETING".into(), "it's".into());
    env.insert("EMPTY".into(), "".into());
    env.insert("SPACED".into(), "a b".into());
    assert_eq!(
        env_exports(&env),
        "export GREETING='it'\\''s'; export EMPTY=''; export SPACED='a b'; "
    );
}

#[test]
fn inner_command_removes_the_script_in_any_case() {
    let mut env = EnvMap::new();
    env.insert("A".into(), "1".into());
    assert_eq!(
        build_inner_command(&env, "/tmp/s.sh", "/srv"),
        "export A='1'; chmod +x /tmp/s.sh && cd /srv && bash -l /tmp/s.sh; rm -f /tmp/s.sh"
    );
    assert_eq!(
        build_inner_command(&EnvMap::new(), "/tmp/s.sh", "/"),
        "chmod +x /tmp/s.sh && cd / && bash -l /tmp/s.sh; rm -f /tmp/s.sh"
    );
}

#[test]
fn exec_command_tees_or_redirects() {
    assert_eq!(
        build_exec_command("echo 'x'", "/tmp/l.log", false),
        "/bin/bash -c 'echo '\\''x'\\''' | tee /tmp/l.log"
    );
    assert_eq!(
        build_exec_command("echo 'x'", "/tmp/l.log", true),
        "nohup bash -c 'echo '\\''x'\\''' > /tmp/l.log 2>&1 &"
    );
}

#[test]
fn local_foreground_plan() {
    let mut env = EnvMap::new();
    env.insert("GREETING".into(), "it's".into());
    let cmd = command("echo hello", None, false);
    let plan = orchestrate_execution(ID, &LocalRunEnvironment::new(), &cmd, &remote_host(), env);

    let script = format!("/tmp/switchboard_{}.sh", ID_TEXT);
    let log = format!("/tmp/switchboard_{}.log", ID_TEXT);
    let exports = format!(
        "export GREETING='it'\\''s'; export SWITCHBOARD_RUN='{}'; export SWITCHBOARD_LOG='{}'; ",
        ID_TEXT, log
    );
    let inner = format!(
        "{}chmod +x {} && cd {} && bash -l {}; rm -f {}",
        exports, script, "/", script, script
    );
    let line = format!("/bin/bash -c '{}' | tee {}", inner.replace('\'', "'\\''"), log);

    assert_eq!(plan.script_path, script);
    assert_eq!(plan.log_file, log);
    assert_eq!(
        plan.staging,
        FileWrite { path: script.clone(), contents: b"echo hello".to_vec(), mode: Some(0o755) }
    );
    assert!(plan.preamble.is_empty());
    assert_eq!(plan.command_line, line);
    assert_eq!(
        plan.launch,
        Launch::Process {
            program: "/bin/bash".into(),
            args: vec!["-c".to_string(), line],
            detached: false
        }
    );
    assert!(!plan.background);
    assert_eq!(plan.env_vars.get("SWITCHBOARD_RUN"), Some(ID_TEXT.to_string()));
    assert_eq!(plan.env_vars.get("SWITCHBOARD_LOG"), Some(log));
    assert_eq!(plan.env_vars.get("GREETING"), Some("it's".to_string()));
}

#[test]
fn local_background_plan() {
    let cmd = command("sleep 5", Some("/srv/app"), true);
    let plan =
        orchestrate_execution(ID, &LocalRunEnvironment::new(), &cmd, &remote_host(), EnvMap::new());
    let script = format!("/tmp/switchboard_{}.sh", ID_TEXT);
    let log = format!("/tmp/switchboard_{}.log", ID_TEXT);
    let inner = format!(
        "export SWITCHBOARD_RUN='{}'; export SWITCHBOARD_LOG='{}'; chmod +x {} && cd /srv/app && bash -l {}; rm -f {}",
        ID_TEXT, log, script, script, script
    );
    let line = format!("nohup bash -c '{}' > {} 2>&1 &", inner.replace('\'', "'\\''"), log);
    assert_eq!(plan.command_line, line);
    assert_eq!(
        plan.launch,
        Launch::Process {
            program: "nohup".into(),
            args: vec!["/bin/bash".to_string(), "-c".to_string(), line],
            detached: true
        }
    );
    assert!(plan.background);
}

#[test]
fn remote_plan_has_a_preamble_and_a_session_launch() {
    let host = remote_host();
    let session = SshRunEnvironment::connect(&host, ConnectOutcome::Authenticated, &vec![]).unwrap();
    let cmd = command("echo hi", None, false);
    let plan = orchestrate_execution(ID, &session, &cmd, &host, EnvMap::new());
    let log = format!("/tmp/switchboard_{}.log", ID_TEXT);
    assert_eq!(
        plan.preamble,
        vec![
            OutputChunk::Stdout(
                "Logging to /tmp. Tail it with the following command:\n".to_string()
            ),
            OutputChunk::Stdout(format!(
                "\n\nssh {}@{} -- tail -f {}\n\n----------------\n",
                "ci", "build.example", log
            )),
        ]
    );
    assert_eq!(plan.staging.mode, None);
    assert_eq!(plan.staging.contents, b"echo hi".to_vec());
    assert_eq!(
        plan.launch,
        Launch::Session { command: plan.command_line.clone(), detached: false }
    );
    let background = orchestrate_execution(ID, &session, &command("x", None, true), &host, EnvMap::new());
    assert_eq!(
        background.launch,
        Launch::Session { command: background.command_line.clone(), detached: true }
    );
}

#[test]
fn chunks_become_updates() {
    assert_eq!(map_chunk(OutputChunk::Stdout("o".into())), ExecutionUpdate::Stdout("o".into()));
    assert_eq!(map_chunk(OutputChunk::Stderr("e".into())), ExecutionUpdate::Stderr("e".into()));
}

#[test]
fn background_start_is_told_and_exits_with_zero() {
    let handle = BackgroundHandle { pid_or_hint: "remote background process".into() };
    assert_eq!(
        background_started(&handle),
        vec![
            ExecutionUpdate::Stdout(
                "Background process started: remote background process\n".to_string()
            ),
            ExecutionUpdate::Exit(0),
        ]
    );
}

#[test]
fn a_plan_is_carried_out_in_order() {
    let host = remote_host();
    let session = SshRunEnvironment::connect(&host, ConnectOutcome::Authenticated, &vec![]).unwrap();
    let plan = orchestrate_execution(ID, &session, &command("echo hi", None, false), &host, EnvMap::new());
    let actions = plan.actions();
    assert_eq!(actions.len(), 4);
    assert_eq!(actions[0], RunAction::Stage(plan.staging.clone()));
    assert_eq!(actions[1], RunAction::Say(plan.preamble[0].clone()));
    assert_eq!(actions[2], RunAction::Say(plan.preamble[1].clone()));
    assert_eq!(actions[3], RunAction::Start(plan.launch.clone()));

    let local = orchestrate_execution(
        ID,
        &LocalRunEnvironment::new(),
        &command("echo hi", None, true),
        &host,
        EnvMap::new(),
    );
    assert_eq!(
        local.actions(),
        vec![RunAction::Stage(local.staging.clone()), RunAction::Start(local.launch.clone())]
    );
}

#[test]
fn detached_line_quotes_values_with_spaces() {
    let mut env = EnvMap::new();
    env.insert("K".into(), "a b".into());
    let inner = build_inner_command(&env, "/tmp/s.sh", "/");
    assert_eq!(
        inner,
        "export K='a b'; chmod +x /tmp/s.sh && cd / && bash -l /tmp/s.sh; rm -f /tmp/s.sh"
    );
    assert_eq!(
        build_exec_command(&inner, "/tmp/l.log", true),
        "nohup bash -c 'export K='\\''a b'\\''; chmod +x /tmp/s.sh && cd / && bash -l /tmp/s.sh; rm -f /tmp/s.sh' > /tmp/l.log 2>&1 &"
    );
}
