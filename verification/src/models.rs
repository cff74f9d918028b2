//! The records that the store keeps and the events that a run reports.
//!
//! Every record has a view: the same fields with texts as sequences of
//! characters and lists as sequences. Contracts throughout the library are
//! stated over these views.

use vstd::prelude::*;

verus! {

/// An instant: whole seconds since the Unix epoch and the nanoseconds past
/// that second.
#[derive(Debug, Clone, Copy, PartialEq, Eq, Structural)]
pub struct Timestamp {
    pub secs: i64,
    pub nanos: u32,
}

/// One declared environment variable: its name, its default value, and
/// whether the value is asked for when a run starts.
#[derive(Debug, PartialEq, Eq)]
pub struct EnvVar {
    pub key: String,
    pub value: String,
    pub ask_user: bool,
}

pub struct EnvVarView {
    pub key: Seq<char>,
    pub value: Seq<char>,
    pub ask_user: bool,
}

impl View for EnvVar {
    type V = EnvVarView;

    open spec fn view(&self) -> EnvVarView {
        EnvVarView { key: self.key@, value: self.value@, ask_user: self.ask_user }
    }
}

impl DeepView for EnvVar {
    type V = EnvVarView;

    open spec fn deep_view(&self) -> EnvVarView {
        self@
    }
}

impl Clone for EnvVar {
    fn clone(&self) -> (copy: Self)
        ensures
            copy@ == self@,
    {
        EnvVar { key: self.key.clone(), value: self.value.clone(), ask_user: self.ask_user }
    }
}

/// A copy of a list of variables, entry by entry.
pub fn clone_env_vars(vars: &Vec<EnvVar>) -> (copy: Vec<EnvVar>)
    ensures
        copy.deep_view() == vars.deep_view(),
{
    let copy = vars.clone();
    assert(copy.deep_view() =~= vars.deep_view());
    copy
}

/// A copy of an optional text.
pub fn clone_text(text: &Option<String>) -> (copy: Option<String>)
    ensures
        copy.deep_view() == text.deep_view(),
{
    match text {
        Some(t) => Some(t.clone()),
        None => None,
    }
}

/// How a host is authenticated to.
#[derive(Debug, PartialEq, Eq)]
pub enum AuthMethod {
    Password(String),
    KeyFile(String),
    Agent,
}

pub enum AuthMethodView {
    Password(Seq<char>),
    KeyFile(Seq<char>),
    Agent,
}

impl View for AuthMethod {
    type V = AuthMethodView;

    open spec fn view(&self) -> AuthMethodView {
        match self {
            AuthMethod::Password(p) => AuthMethodView::Password(p@),
            AuthMethod::KeyFile(k) => AuthMethodView::KeyFile(k@),
            AuthMethod::Agent => AuthMethodView::Agent,
        }
    }
}

impl Clone for AuthMethod {
    fn clone(&self) -> (copy: Self)
        ensures
            copy@ == self@,
    {
        match self {
            AuthMethod::Password(p) => AuthMethod::Password(p.clone()),
            AuthMethod::KeyFile(k) => AuthMethod::KeyFile(k.clone()),
            AuthMethod::Agent => AuthMethod::Agent,
        }
    }
}

/// A machine that commands run on.
#[derive(Debug, PartialEq, Eq)]
pub struct Host {
    pub id: u128,
    pub name: String,
    pub hostname: String,
    pub port: u16,
    pub username: String,
    pub auth: AuthMethod,
}

pub struct HostView {
    pub id: u128,
    pub name: Seq<char>,
    pub hostname: Seq<char>,
    pub port: u16,
    pub username: Seq<char>,
    pub auth: AuthMethodView,
}

impl View for Host {
    type V = HostView;

    open spec fn view(&self) -> HostView {
        HostView {
            id: self.id,
            name: self.name@,
            hostname: self.hostname@,
            port: self.port,
            username: self.username@,
            auth: self.auth@,
        }
    }
}

impl DeepView for Host {
    type V = HostView;

    open spec fn deep_view(&self) -> HostView {
        self@
    }
}

impl Clone for Host {
    fn clone(&self) -> (copy: Self)
        ensures
            copy@ == self@,
    {
        Host {
            id: self.id,
            name: self.name.clone(),
            hostname: self.hostname.clone(),
            port: self.port,
            username: self.username.clone(),
            auth: self.auth.clone(),
        }
    }
}

/// A named script with what it needs to run.
#[derive(Debug, PartialEq, Eq)]
pub struct Command {
    pub id: u128,
    pub name: String,
    pub description: Option<String>,
    pub script: String,
    pub working_directory: Option<String>,
    pub env_vars: Vec<EnvVar>,
    pub host: Option<String>,
    pub user: Option<String>,
    pub target_hosts: Vec<u128>,
    pub created_at: Timestamp,
    pub background: bool,
    pub source_path: Option<String>,
}

pub struct CommandView {
    pub id: u128,
    pub name: Seq<char>,
    pub description: Option<Seq<char>>,
    pub script: Seq<char>,
    pub working_directory: Option<Seq<char>>,
    pub env_vars: Seq<EnvVarView>,
    pub host: Option<Seq<char>>,
    pub user: Option<Seq<char>>,
    pub target_hosts: Seq<u128>,
    pub created_at: Timestamp,
    pub background: bool,
    pub source_path: Option<Seq<char>>,
}

impl View for Command {
    type V = CommandView;

    open spec fn view(&self) -> CommandView {
        CommandView {
            id: self.id,
            name: self.name@,
            description: self.description.deep_view(),
            script: self.script@,
            working_directory: self.working_directory.deep_view(),
            env_vars: self.env_vars.deep_view(),
            host: self.host.deep_view(),
            user: self.user.deep_view(),
            target_hosts: self.target_hosts@,
            created_at: self.created_at,
            background: self.background,
            source_path: self.source_path.deep_view(),
        }
    }
}

impl DeepView for Command {
    type V = CommandView;

    open spec fn deep_view(&self) -> CommandView {
        self@
    }
}

impl Clone for Command {
    fn clone(&self) -> (copy: Self)
        ensures
            copy@ == self@,
    {
        Command {
            id: self.id,
            name: self.name.clone(),
            description: clone_text(&self.description),
            script: self.script.clone(),
            working_directory: clone_text(&self.working_directory),
            env_vars: clone_env_vars(&self.env_vars),
            host: clone_text(&self.host),
            user: clone_text(&self.user),
            target_hosts: self.target_hosts.clone(),
            created_at: self.created_at,
            background: self.background,
            source_path: clone_text(&self.source_path),
        }
    }
}

/// An ordered chain of commands, with variables that override theirs.
#[derive(Debug, PartialEq, Eq)]
pub struct Workflow {
    pub id: u128,
    pub name: String,
    pub description: Option<String>,
    pub commands: Vec<u128>,
    pub env_vars: Vec<EnvVar>,
    pub created_at: Timestamp,
}

pub struct WorkflowView {
    pub id: u128,
    pub name: Seq<char>,
    pub description: Option<Seq<char>>,
    pub commands: Seq<u128>,
    pub env_vars: Seq<EnvVarView>,
    pub created_at: Timestamp,
}

impl View for Workflow {
    type V = WorkflowView;

    open spec fn view(&self) -> WorkflowView {
        WorkflowView {
            id: self.id,
            name: self.name@,
            description: self.description.deep_view(),
            commands: self.commands@,
            env_vars: self.env_vars.deep_view(),
            created_at: self.created_at,
        }
    }
}

impl DeepView for Workflow {
    type V = WorkflowView;

    open spec fn deep_view(&self) -> WorkflowView {
        self@
    }
}

impl Clone for Workflow {
    fn clone(&self) -> (copy: Self)
        ensures
            copy@ == self@,
    {
        Workflow {
            id: self.id,
            name: self.name.clone(),
            description: clone_text(&self.description),
            commands: self.commands.clone(),
            env_vars: clone_env_vars(&self.env_vars),
            created_at: self.created_at,
        }
    }
}

/// A command as earlier versions of the store wrote it: the environment is
/// a list of name and value pairs, and there is no background flag.
#[derive(Debug, PartialEq, Eq)]
pub struct CommandV0 {
    pub id: u128,
    pub name: String,
    pub description: Option<String>,
    pub script: String,
    pub working_directory: Option<String>,
    pub environment: Vec<(String, String)>,
    pub host: Option<String>,
    pub user: Option<String>,
    pub target_hosts: Vec<u128>,
    pub created_at: Timestamp,
    pub source_path: Option<String>,
}

pub struct CommandV0View {
    pub id: u128,
    pub name: Seq<char>,
    pub description: Option<Seq<char>>,
    pub script: Seq<char>,
    pub working_directory: Option<Seq<char>>,
    pub environment: Seq<(Seq<char>, Seq<char>)>,
    pub host: Option<Seq<char>>,
    pub user: Option<Seq<char>>,
    pub target_hosts: Seq<u128>,
    pub created_at: Timestamp,
    pub source_path: Option<Seq<char>>,
}

impl View for CommandV0 {
    type V = CommandV0View;

    open spec fn view(&self) -> CommandV0View {
        CommandV0View {
            id: self.id,
            name: self.name@,
            description: self.description.deep_view(),
            script: self.script@,
            working_directory: self.working_directory.deep_view(),
            environment: self.environment.deep_view(),
            host: self.host.deep_view(),
            user: self.user.deep_view(),
            target_hosts: self.target_hosts@,
            created_at: self.created_at,
            source_path: self.source_path.deep_view(),
        }
    }
}

impl CommandV0View {
    /// Whether no name is declared twice. The pairs stand for a map from
    /// names to values.
    pub open spec fn names_distinct(self) -> bool {
        forall|i: int, j: int|
            0 <= i < j < self.environment.len() ==> self.environment[i].0
                != self.environment[j].0
    }

    /// The same command in its current form: each pair becomes a variable
    /// that is not asked for, in the order of the pairs, and the command
    /// does not run in the background.
    pub open spec fn upgraded(self) -> CommandView {
        CommandView {
            id: self.id,
            name: self.name,
            description: self.description,
            script: self.script,
            working_directory: self.working_directory,
            env_vars: Seq::new(
                self.environment.len(),
                |i: int|
                    EnvVarView {
                        key: self.environment[i].0,
                        value: self.environment[i].1,
                        ask_user: false,
                    },
            ),
            host: self.host,
            user: self.user,
            target_hosts: self.target_hosts,
            created_at: self.created_at,
            background: false,
            source_path: self.source_path,
        }
    }
}

/// An upgraded command declares no variable twice, where the old one bound
/// no name twice.
pub proof fn lemma_upgrade_keeps_names_distinct(old: CommandV0View)
    requires
        old.names_distinct(),
    ensures
        forall|i: int, j: int|
            0 <= i < j < old.upgraded().env_vars.len() ==> (#[trigger] old.upgraded().env_vars[i]).key
                != (#[trigger] old.upgraded().env_vars[j]).key,
{
}

impl From<CommandV0> for Command {
    fn from(old: CommandV0) -> (command: Command)
        ensures
            command@ == old@.upgraded(),
    {
        let mut env_vars: Vec<EnvVar> = Vec::new();
        let mut i: usize = 0;
        while i < old.environment.len()
            invariant
                i <= old.environment.len(),
                env_vars.len() == i,
                forall|k: int|
                    0 <= k < i ==> #[trigger] env_vars[k]@ == (EnvVarView {
                        key: old.environment[k].0@,
                        value: old.environment[k].1@,
                        ask_user: false,
                    }),
            decreases old.environment.len() - i,
        {
            env_vars.push(
                EnvVar {
                    key: old.environment[i].0.clone(),
                    value: old.environment[i].1.clone(),
                    ask_user: false,
                },
            );
            i += 1;
        }
        let ghost before = old@;
        let command = Command {
            id: old.id,
            name: old.name,
            description: old.description,
            script: old.script,
            working_directory: old.working_directory,
            env_vars,
            host: old.host,
            user: old.user,
            target_hosts: old.target_hosts,
            created_at: old.created_at,
            background: false,
            source_path: old.source_path,
        };
        assert(command@.env_vars =~= before.upgraded().env_vars);
        command
    }
}

impl vstd::std_specs::convert::FromSpecImpl<CommandV0> for Command {
    open spec fn obeys_from_spec() -> bool {
        false
    }

    open spec fn from_spec(old: CommandV0) -> Command {
        arbitrary()
    }
}

/// A workflow as earlier versions of the store wrote it, without variables
/// of its own.
#[derive(Debug, PartialEq, Eq)]
pub struct WorkflowV0 {
    pub id: u128,
    pub name: String,
    pub description: Option<String>,
    pub commands: Vec<u128>,
    pub created_at: Timestamp,
}

pub struct WorkflowV0View {
    pub id: u128,
    pub name: Seq<char>,
    pub description: Option<Seq<char>>,
    pub commands: Seq<u128>,
    pub created_at: Timestamp,
}

impl View for WorkflowV0 {
    type V = WorkflowV0View;

    open spec fn view(&self) -> WorkflowV0View {
        WorkflowV0View {
            id: self.id,
            name: self.name@,
            description: self.description.deep_view(),
            commands: self.commands@,
            created_at: self.created_at,
        }
    }
}

impl WorkflowV0View {
    /// The same workflow in its current form, with no variables.
    pub open spec fn upgraded(self) -> WorkflowView {
        WorkflowView {
            id: self.id,
            name: self.name,
            description: self.description,
            commands: self.commands,
            env_vars: Seq::empty(),
            created_at: self.created_at,
        }
    }
}

impl From<WorkflowV0> for Workflow {
    fn from(old: WorkflowV0) -> (workflow: Workflow)
        ensures
            workflow@ == old@.upgraded(),
    {
        let workflow = Workflow {
            id: old.id,
            name: old.name,
            description: old.description,
            commands: old.commands,
            env_vars: Vec::new(),
            created_at: old.created_at,
        };
        assert(workflow@.env_vars =~= Seq::<EnvVarView>::empty());
        workflow
    }
}

impl vstd::std_specs::convert::FromSpecImpl<WorkflowV0> for Workflow {
    open spec fn obeys_from_spec() -> bool {
        false
    }

    open spec fn from_spec(old: WorkflowV0) -> Workflow {
        arbitrary()
    }
}

/// How a finished run is classified.
#[derive(Debug, Clone, Copy, PartialEq, Eq, Structural)]
pub enum ExecutionStatus {
    Pending,
    Running,
    Completed,
    Failed,
}

/// The status that an exit code stands for: a run has completed exactly when
/// its exit code is known and is zero; every other run has failed.
pub open spec fn status_of(exit_code: Option<i32>) -> ExecutionStatus {
    if exit_code == Some(0i32) {
        ExecutionStatus::Completed
    } else {
        ExecutionStatus::Failed
    }
}

/// One event in the life of a run, as its caller sees it.
#[derive(Debug, PartialEq, Eq)]
pub enum ExecutionUpdate {
    Started(u128),
    Stdout(String),
    Stderr(String),
    Exit(i32),
}

pub enum ExecutionUpdateView {
    Started(u128),
    Stdout(Seq<char>),
    Stderr(Seq<char>),
    Exit(i32),
}

impl View for ExecutionUpdate {
    type V = ExecutionUpdateView;

    open spec fn view(&self) -> ExecutionUpdateView {
        match self {
            ExecutionUpdate::Started(id) => ExecutionUpdateView::Started(*id),
            ExecutionUpdate::Stdout(text) => ExecutionUpdateView::Stdout(text@),
            ExecutionUpdate::Stderr(text) => ExecutionUpdateView::Stderr(text@),
            ExecutionUpdate::Exit(code) => ExecutionUpdateView::Exit(*code),
        }
    }
}

impl DeepView for ExecutionUpdate {
    type V = ExecutionUpdateView;

    open spec fn deep_view(&self) -> ExecutionUpdateView {
        self@
    }
}

impl Clone for ExecutionUpdate {
    fn clone(&self) -> (copy: Self)
        ensures
            copy@ == self@,
    {
        match self {
            ExecutionUpdate::Started(id) => ExecutionUpdate::Started(*id),
            ExecutionUpdate::Stdout(text) => ExecutionUpdate::Stdout(text.clone()),
            ExecutionUpdate::Stderr(text) => ExecutionUpdate::Stderr(text.clone()),
            ExecutionUpdate::Exit(code) => ExecutionUpdate::Exit(*code),
        }
    }
}

/// What is kept of a finished run. The captured output is not part of the
/// record: `log_file` names the blob that holds it. The status is not a
/// field either, so it cannot disagree with the exit code; see
/// [`ExecutionResult::status`].
#[derive(Debug, PartialEq, Eq)]
pub struct ExecutionResult {
    pub id: u128,
    pub command_id: u128,
    pub host_id: u128,
    pub started_at: Timestamp,
    pub finished_at: Option<Timestamp>,
    pub exit_code: Option<i32>,
    pub duration_ms: Option<u64>,
    pub log_file: String,
}

pub struct ExecutionResultView {
    pub id: u128,
    pub command_id: u128,
    pub host_id: u128,
    pub started_at: Timestamp,
    pub finished_at: Option<Timestamp>,
    pub exit_code: Option<i32>,
    pub duration_ms: Option<u64>,
    pub log_file: Seq<char>,
}

impl View for ExecutionResult {
    type V = ExecutionResultView;

    open spec fn view(&self) -> ExecutionResultView {
        ExecutionResultView {
            id: self.id,
            command_id: self.command_id,
            host_id: self.host_id,
            started_at: self.started_at,
            finished_at: self.finished_at,
            exit_code: self.exit_code,
            duration_ms: self.duration_ms,
            log_file: self.log_file@,
        }
    }
}

impl DeepView for ExecutionResult {
    type V = ExecutionResultView;

    open spec fn deep_view(&self) -> ExecutionResultView {
        self@
    }
}

impl Clone for ExecutionResult {
    fn clone(&self) -> (copy: Self)
        ensures
            copy@ == self@,
    {
        ExecutionResult {
            id: self.id,
            command_id: self.command_id,
            host_id: self.host_id,
            started_at: self.started_at,
            finished_at: self.finished_at,
            exit_code: self.exit_code,
            duration_ms: self.duration_ms,
            log_file: self.log_file.clone(),
        }
    }
}

impl ExecutionResult {
    /// The status of the run, derived from its exit code.
    pub fn status(&self) -> (status: ExecutionStatus)
        ensures
            status == status_of(self.exit_code),
    {
        match self.exit_code {
            Some(code) => if code == 0 {
                ExecutionStatus::Completed
            } else {
                ExecutionStatus::Failed
            },
            None => ExecutionStatus::Failed,
        }
    }
}

} // verus!
