//! Preparing a run: where the script and the log go, what the environment
//! of the run holds, and the one shell command line that does it all.
//!
//! The command line exports every variable, marks the staged script as
//! executable, changes into the working directory, runs the script under a
//! login shell, and removes the script whether or not the run succeeded.

use crate::codec::hyphenated;
use crate::codec::id_text;
use crate::environment::bound;
use crate::environment::Binding;
use crate::environment::EnvMap;
use crate::models::Command;
use crate::models::CommandView;
use crate::models::ExecutionUpdate;
use crate::models::ExecutionUpdateView;
use crate::models::Host;
use crate::run_environment::BackgroundHandle;
use crate::run_environment::FileWrite;
use crate::run_environment::FileWriteView;
use crate::run_environment::Launch;
use crate::run_environment::LaunchView;
use crate::run_environment::OutputChunk;
use crate::run_environment::OutputChunkView;
use crate::run_environment::RunEnvironment;
use crate::text::lemma_quoted_survives;
use crate::text::quote;
use crate::text::word_value;
use crate::text::quoted;
use vstd::prelude::*;
use vstd::string::StringSliceAdditionalSpecFns;

verus! {

/// Where the script of the run `id` is staged.
pub open spec fn script_path_of(id: u128) -> Seq<char> {
    "/tmp/switchboard_"@ + hyphenated(id) + ".sh"@
}

/// Where the output of the run `id` is logged.
pub open spec fn log_file_of(id: u128) -> Seq<char> {
    "/tmp/switchboard_"@ + hyphenated(id) + ".log"@
}

/// Different runs have different script files and different log files.
pub proof fn lemma_paths_unique(a: u128, b: u128)
    requires
        a != b,
    ensures
        script_path_of(a) != script_path_of(b),
        log_file_of(a) != log_file_of(b),
{
    if script_path_of(a) == script_path_of(b) {
        crate::codec::lemma_framed_text_determines("/tmp/switchboard_"@, ".sh"@, a, b);
    }
    if log_file_of(a) == log_file_of(b) {
        crate::codec::lemma_framed_text_determines("/tmp/switchboard_"@, ".log"@, a, b);
    }
}

/// The environment of the run `id`: what the caller resolved, and the two
/// variables by which a script can refer to its own run, its identity and
/// its log file.
pub open spec fn injected(env: Seq<Binding>, id: u128) -> Seq<Binding> {
    bound(bound(env, "SWITCHBOARD_RUN"@, hyphenated(id)), "SWITCHBOARD_LOG"@, log_file_of(id))
}

/// The shell statement that exports one variable. The value is quoted, so
/// the shell takes it for what it is, whatever it holds.
pub open spec fn export_of(binding: Binding) -> Seq<char> {
    "export "@ + binding.0 + "="@ + quoted(binding.1) + "; "@
}

/// The statements that export each variable of `env`, in order.
pub open spec fn exports(env: Seq<Binding>) -> Seq<char>
    decreases env.len(),
{
    if env.len() == 0 {
        Seq::<char>::empty()
    } else {
        exports(env.drop_last()) + export_of(env.last())
    }
}

/// The directory in which a command runs: its own, or the root.
pub open spec fn work_dir_of(command: CommandView) -> Seq<char> {
    match command.working_directory {
        Some(dir) => dir,
        None => "/"@,
    }
}

/// The command line that runs the staged script. The removal follows a
/// semicolon, not `&&`, so the script is removed after a failed run too.
pub open spec fn inner_command(env: Seq<Binding>, script_path: Seq<char>, work_dir: Seq<char>) -> Seq<
    char,
> {
    exports(env) + "chmod +x "@ + script_path + " && cd "@ + work_dir + " && bash -l "@
        + script_path + "; rm -f "@ + script_path
}

/// The command line of a detached run: both streams go to the log file.
/// The inner command is quoted, so the shell that is started runs it as it
/// was built.
pub open spec fn background_command(inner: Seq<char>, log_file: Seq<char>) -> Seq<char> {
    "nohup bash -c "@ + quoted(inner) + " > "@ + log_file + " 2>&1 &"@
}

/// The command line of a run that is waited for: the output goes to the
/// caller and, beside that, to the log file. The inner command is quoted,
/// so the shell that is started runs it as it was built.
pub open spec fn foreground_command(inner: Seq<char>, log_file: Seq<char>) -> Seq<char> {
    "/bin/bash -c "@ + quoted(inner) + " | tee "@ + log_file
}

/// The command line for the run, detached or not.
pub open spec fn exec_command(inner: Seq<char>, log_file: Seq<char>, background: bool) -> Seq<
    char,
> {
    if background {
        background_command(inner, log_file)
    } else {
        foreground_command(inner, log_file)
    }
}

/// Values survive the shell. Each export statement holds its value as one
/// quoted word that the shell takes for the value, whatever the value
/// holds; and the command line of a run, detached or not, holds the inner
/// command as one quoted word that the shell takes for the inner command.
/// So the shell that runs the script is given the inner command as it was
/// built, and in it each variable has the value that was resolved.
pub proof fn lemma_values_survive(
    binding: Binding,
    inner: Seq<char>,
    log_file: Seq<char>,
    background: bool,
)
    ensures
        export_of(binding) == "export "@ + binding.0 + "="@ + quoted(binding.1) + "; "@,
        word_value(quoted(binding.1)) == Some(binding.1),
        exec_command(inner, log_file, background) == if background {
            "nohup bash -c "@ + quoted(inner) + " > "@ + log_file + " 2>&1 &"@
        } else {
            "/bin/bash -c "@ + quoted(inner) + " | tee "@ + log_file
        },
        word_value(quoted(inner)) == Some(inner),
{
    lemma_quoted_survives(binding.1);
    lemma_quoted_survives(inner);
}

/// The update that a chunk of output becomes.
pub open spec fn update_of(chunk: OutputChunkView) -> ExecutionUpdateView {
    match chunk {
        OutputChunkView::Stdout(text) => ExecutionUpdateView::Stdout(text),
        OutputChunkView::Stderr(text) => ExecutionUpdateView::Stderr(text),
    }
}

/// What the caller is told when a run was detached: that it was started,
/// with what is known of the process, and at once that the run is over
/// with success.
pub open spec fn background_updates(hint: Seq<char>) -> Seq<ExecutionUpdateView> {
    seq![
        ExecutionUpdateView::Stdout("Background process started: "@ + hint + "\n"@),
        ExecutionUpdateView::Exit(0i32),
    ]
}

/// All that is settled before a run starts.
#[derive(Debug, PartialEq, Eq)]
pub struct ExecutionPlan {
    /// Where the script is staged.
    pub script_path: String,
    /// Where the output is logged.
    pub log_file: String,
    /// The environment of the run.
    pub env_vars: EnvMap,
    /// The script file to write.
    pub staging: FileWrite,
    /// What the environment says before the run.
    pub preamble: Vec<OutputChunk>,
    /// The command line.
    pub command_line: String,
    /// How the command line is started.
    pub launch: Launch,
    /// Whether the run is detached.
    pub background: bool,
}

pub struct ExecutionPlanView {
    pub script_path: Seq<char>,
    pub log_file: Seq<char>,
    pub env_vars: Seq<Binding>,
    pub staging: FileWriteView,
    pub preamble: Seq<OutputChunkView>,
    pub command_line: Seq<char>,
    pub launch: LaunchView,
    pub background: bool,
}

impl View for ExecutionPlan {
    type V = ExecutionPlanView;

    open spec fn view(&self) -> ExecutionPlanView {
        ExecutionPlanView {
            script_path: self.script_path@,
            log_file: self.log_file@,
            env_vars: self.env_vars@,
            staging: self.staging@,
            preamble: self.preamble.deep_view(),
            command_line: self.command_line@,
            launch: self.launch@,
            background: self.background,
        }
    }
}

/// One thing to do before a run goes, in the words of whoever drives it.
#[derive(Debug, PartialEq, Eq)]
pub enum RunAction {
    /// Write the script file.
    Stage(FileWrite),
    /// Hand what the environment says to the caller.
    Say(OutputChunk),
    /// Start the command line.
    Start(Launch),
}

pub enum RunActionView {
    Stage(FileWriteView),
    Say(OutputChunkView),
    Start(LaunchView),
}

impl View for RunAction {
    type V = RunActionView;

    open spec fn view(&self) -> RunActionView {
        match self {
            RunAction::Stage(file) => RunActionView::Stage(file@),
            RunAction::Say(chunk) => RunActionView::Say(chunk@),
            RunAction::Start(launch) => RunActionView::Start(launch@),
        }
    }
}

impl DeepView for RunAction {
    type V = RunActionView;

    open spec fn deep_view(&self) -> RunActionView {
        self@
    }
}

/// The actions that hand each of `chunks` to the caller, in order.
pub open spec fn says(chunks: Seq<OutputChunkView>) -> Seq<RunActionView> {
    Seq::new(chunks.len(), |i: int| RunActionView::Say(chunks[i]))
}

impl ExecutionPlanView {
    /// What is done with a plan, in this order: the script is staged, what
    /// the environment has to say is said, and the command line is
    /// started. Where an action fails, the ones behind it are not taken.
    pub open spec fn actions(self) -> Seq<RunActionView> {
        seq![RunActionView::Stage(self.staging)] + says(self.preamble) + seq![
            RunActionView::Start(self.launch),
        ]
    }
}

impl ExecutionPlan {
    /// What is done with the plan, in order.
    pub fn actions(&self) -> (list: Vec<RunAction>)
        ensures
            list.deep_view() == self@.actions(),
    {
        let mut list: Vec<RunAction> = Vec::new();
        list.push(RunAction::Stage(self.staging.clone()));
        let ghost head = seq![RunActionView::Stage(self@.staging)];
        assert(list.deep_view() == head + says(self@.preamble.take(0)));
        let mut i: usize = 0;
        while i < self.preamble.len()
            invariant
                0 <= i <= self.preamble.len(),
                head == seq![RunActionView::Stage(self@.staging)],
                list.deep_view() == head + says(self@.preamble.take(i as int)),
            decreases self.preamble.len() - i,
        {
            let ghost before = list.deep_view();
            let chunk = self.preamble[i].clone();
            let ghost said = chunk@;
            list.push(RunAction::Say(chunk));
            assert(list.deep_view() == before.push(RunActionView::Say(said)));
            assert(says(self@.preamble.take(i + 1)) == says(self@.preamble.take(i as int)).push(
                RunActionView::Say(self@.preamble[i as int]),
            ));
            i += 1;
        }
        assert(self@.preamble.take(i as int) == self@.preamble);
        let ghost before = list.deep_view();
        list.push(RunAction::Start(self.launch.clone()));
        assert(list.deep_view() == before.push(RunActionView::Start(self@.launch)));
        list
    }
}

/// The plan for running `command` as the run `id` in `env`, with the
/// resolved variables `env_vars`.
pub open spec fn planned<E: RunEnvironment>(
    env: E,
    id: u128,
    command: CommandView,
    env_vars: Seq<Binding>,
) -> ExecutionPlanView {
    let script_path = script_path_of(id);
    let log_file = log_file_of(id);
    let effective = injected(env_vars, id);
    let inner = inner_command(effective, script_path, work_dir_of(command));
    let command_line = exec_command(inner, log_file, command.background);
    ExecutionPlanView {
        script_path,
        log_file,
        env_vars: effective,
        staging: env.staged(script_path, vstd::utf8::encode_utf8(command.script)),
        preamble: env.preamble(log_file),
        command_line,
        launch: env.launched(command_line, command.background),
        background: command.background,
    }
}

/// Where the script of the run `id` is staged.
pub fn script_path(id: u128) -> (path: String)
    ensures
        path@ == script_path_of(id),
{
    let mut path = String::from_str("/tmp/switchboard_");
    path.append(id_text(id).as_str());
    path.append(".sh");
    path
}

/// Where the output of the run `id` is logged.
pub fn log_file(id: u128) -> (path: String)
    ensures
        path@ == log_file_of(id),
{
    let mut path = String::from_str("/tmp/switchboard_");
    path.append(id_text(id).as_str());
    path.append(".log");
    path
}

/// Adds the two variables of the run itself to `env_vars`.
pub fn inject_run_variables(env_vars: &mut EnvMap, id: u128)
    ensures
        final(env_vars)@ == injected(old(env_vars)@, id),
{
    env_vars.insert(String::from_str("SWITCHBOARD_RUN"), id_text(id));
    env_vars.insert(String::from_str("SWITCHBOARD_LOG"), log_file(id));
}

/// The statements that export each variable of `env_vars`.
pub fn env_exports(env_vars: &EnvMap) -> (text: String)
    ensures
        text@ == exports(env_vars@),
{
    let ghost all = env_vars@;
    let mut text = String::new();
    let mut i: usize = 0;
    assert(all.take(0) == Seq::<Binding>::empty());
    while i < env_vars.len()
        invariant
            0 <= i <= env_vars@.len(),
            all == env_vars@,
            text@ == exports(all.take(i as int)),
        decreases env_vars@.len() - i,
    {
        assert(all.take(i + 1).drop_last() == all.take(i as int));
        text.append("export ");
        text.append(env_vars.key_at(i).as_str());
        text.append("=");
        text.append(quote(env_vars.value_at(i).as_str()).as_str());
        text.append("; ");
        i += 1;
    }
    assert(all.take(i as int) == all);
    text
}

/// The command line that runs the staged script.
pub fn build_inner_command(env_vars: &EnvMap, script_path: &str, work_dir: &str) -> (text: String)
    ensures
        text@ == inner_command(env_vars@, script_path@, work_dir@),
{
    let mut text = env_exports(env_vars);
    text.append("chmod +x ");
    text.append(script_path);
    text.append(" && cd ");
    text.append(work_dir);
    text.append(" && bash -l ");
    text.append(script_path);
    text.append("; rm -f ");
    text.append(script_path);
    text
}

/// The command line for the run, detached or not.
pub fn build_exec_command(inner: &str, log_file: &str, background: bool) -> (text: String)
    ensures
        text@ == exec_command(inner@, log_file@, background),
{
    if background {
        let mut text = String::from_str("nohup bash -c ");
        text.append(quote(inner).as_str());
        text.append(" > ");
        text.append(log_file);
        text.append(" 2>&1 &");
        text
    } else {
        let mut text = String::from_str("/bin/bash -c ");
        text.append(quote(inner).as_str());
        text.append(" | tee ");
        text.append(log_file);
        text
    }
}

/// The update that a chunk of output becomes.
pub fn map_chunk(chunk: OutputChunk) -> (update: ExecutionUpdate)
    ensures
        update@ == update_of(chunk@),
{
    match chunk {
        OutputChunk::Stdout(text) => ExecutionUpdate::Stdout(text),
        OutputChunk::Stderr(text) => ExecutionUpdate::Stderr(text),
    }
}

/// What the caller is told when a run was detached.
pub fn background_started(handle: &BackgroundHandle) -> (updates: Vec<ExecutionUpdate>)
    ensures
        updates.deep_view() == background_updates(handle.pid_or_hint@),
{
    let mut text = String::from_str("Background process started: ");
    text.append(handle.pid_or_hint.as_str());
    text.append("\n");
    let mut updates: Vec<ExecutionUpdate> = Vec::new();
    updates.push(ExecutionUpdate::Stdout(text));
    updates.push(ExecutionUpdate::Exit(0));
    assert(updates.deep_view() =~= background_updates(handle.pid_or_hint@));
    updates
}

/// Settles all that a run needs before it starts: the two paths, the
/// environment with the variables of the run itself, the script file to
/// stage, what the environment says first, and the command line with the way
/// to start it. The host is the one that `env` stands for; the plan does
/// not depend on it otherwise.
pub fn orchestrate_execution<E: RunEnvironment>(
    exec_id: u128,
    env: &E,
    command: &Command,
    _host: &Host,
    env_vars: EnvMap,
) -> (plan: ExecutionPlan)
    ensures
        plan@ == planned(*env, exec_id, command@, env_vars@),
{
    let mut env_vars = env_vars;
    let log = log_file(exec_id);
    let script = script_path(exec_id);
    inject_run_variables(&mut env_vars, exec_id);
    let staging = env.write_file(script.as_str(), command.script.as_str().as_bytes());
    let inner = match &command.working_directory {
        Some(dir) => build_inner_command(&env_vars, script.as_str(), dir.as_str()),
        None => build_inner_command(&env_vars, script.as_str(), "/"),
    };
    let preamble = env.emit_preamble(log.as_str());
    let command_line = build_exec_command(inner.as_str(), log.as_str(), command.background);
    let launch = if command.background {
        env.run_background(command_line.as_str())
    } else {
        env.run(command_line.as_str())
    };
    ExecutionPlan {
        script_path: script,
        log_file: log,
        env_vars,
        staging,
        preamble,
        command_line,
        launch,
        background: command.background,
    }
}

} // verus!
