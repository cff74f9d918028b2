//! What a caller keeps of the runs it has started: the output gathered so
//! far, the record that goes to the history when a run is over, and the
//! runs of the history in the order of their starts.

use crate::codec::hyphenated;
use crate::codec::id_text;
use crate::models::AuthMethod;
use crate::models::AuthMethodView;
use crate::models::Command;
use crate::models::CommandView;
use crate::models::EnvVarView;
use crate::models::ExecutionResult;
use crate::models::ExecutionResultView;
use crate::models::ExecutionUpdate;
use crate::models::ExecutionUpdateView;
use crate::models::Host;
use crate::models::HostView;
use crate::models::Timestamp;
use crate::models::Workflow;
use crate::models::WorkflowView;
use crate::models::clone_text;
use crate::store::CommandStore;
use vstd::prelude::*;

verus! {

/// The whole milliseconds from `start` to `end`; none where `end` is before
/// `start` or the count does not fit.
pub open spec fn elapsed(start: Timestamp, end: Timestamp) -> Option<u64> {
    let nanos = (end.secs - start.secs) * 1_000_000_000 + (end.nanos - start.nanos);
    if nanos < 0 || nanos / 1_000_000 > u64::MAX {
        None
    } else {
        Some((nanos / 1_000_000) as u64)
    }
}

/// The whole milliseconds from `start` to `end`.
pub fn elapsed_ms(start: Timestamp, end: Timestamp) -> (ms: Option<u64>)
    ensures
        ms == elapsed(start, end),
{
    let secs: i128 = end.secs as i128 - start.secs as i128;
    let nanos: i128 = secs * 1_000_000_000 + (end.nanos as i128 - start.nanos as i128);
    if nanos < 0 {
        None
    } else {
        let ms: i128 = nanos / 1_000_000;
        if ms > u64::MAX as i128 {
            None
        } else {
            Some(ms as u64)
        }
    }
}

/// The name of the blob that holds the output of the run `id`.
pub open spec fn log_name_of(id: u128) -> Seq<char> {
    hyphenated(id) + ".log.gz"@
}

/// Different runs have different blobs.
pub proof fn lemma_log_names_unique(a: u128, b: u128)
    requires
        a != b,
    ensures
        log_name_of(a) != log_name_of(b),
{
    if log_name_of(a) == log_name_of(b) {
        assert(Seq::<char>::empty() + hyphenated(a) == hyphenated(a));
        assert(Seq::<char>::empty() + hyphenated(b) == hyphenated(b));
        crate::codec::lemma_framed_text_determines(Seq::empty(), ".log.gz"@, a, b);
    }
}

/// The name of the blob that holds the output of the run `id`.
pub fn log_name(id: u128) -> (name: String)
    ensures
        name@ == log_name_of(id),
{
    let mut name = id_text(id);
    name.append(".log.gz");
    name
}

/// The host that a command asks for: this machine where it names no host,
/// and else the named host, reached on port 22 through the agent. Where
/// the command names no user, `default_user` is the user.
pub open spec fn host_of(command: CommandView, id: u128, default_user: Seq<char>) -> HostView {
    HostView {
        id,
        name: if command.host is Some {
            "Remote"@
        } else {
            "local"@
        },
        hostname: match command.host {
            Some(name) => name,
            None => "localhost"@,
        },
        port: 22,
        username: match command.user {
            Some(user) => user,
            None => default_user,
        },
        auth: AuthMethodView::Agent,
    }
}

/// The host that `command` asks for, under the identity `id`.
pub fn host_for_command(command: &Command, id: u128, default_user: &str) -> (host: Host)
    ensures
        host@ == host_of(command@, id, default_user@),
{
    let (name, hostname) = match &command.host {
        Some(name) => (String::from_str("Remote"), name.clone()),
        None => (String::from_str("local"), String::from_str("localhost")),
    };
    let username = match &command.user {
        Some(user) => user.clone(),
        None => String::from_str(default_user),
    };
    Host { id, name, hostname, port: 22, username, auth: AuthMethod::Agent }
}

/// A run as its caller follows it.
#[derive(Debug, PartialEq, Eq)]
pub struct ExecutionState {
    pub id: u128,
    pub command_id: u128,
    pub command_name: String,
    pub output_buffer: String,
    pub is_running: bool,
    pub exit_code: Option<i32>,
    pub working_directory: Option<String>,
    pub is_local: bool,
    pub started_at: Timestamp,
    pub output_loaded: bool,
    pub is_from_history: bool,
}

pub struct ExecutionStateView {
    pub id: u128,
    pub command_id: u128,
    pub command_name: Seq<char>,
    pub output_buffer: Seq<char>,
    pub is_running: bool,
    pub exit_code: Option<i32>,
    pub working_directory: Option<Seq<char>>,
    pub is_local: bool,
    pub started_at: Timestamp,
    pub output_loaded: bool,
    pub is_from_history: bool,
}

impl View for ExecutionState {
    type V = ExecutionStateView;

    open spec fn view(&self) -> ExecutionStateView {
        ExecutionStateView {
            id: self.id,
            command_id: self.command_id,
            command_name: self.command_name@,
            output_buffer: self.output_buffer@,
            is_running: self.is_running,
            exit_code: self.exit_code,
            working_directory: self.working_directory.deep_view(),
            is_local: self.is_local,
            started_at: self.started_at,
            output_loaded: self.output_loaded,
            is_from_history: self.is_from_history,
        }
    }
}

impl DeepView for ExecutionState {
    type V = ExecutionStateView;

    open spec fn deep_view(&self) -> ExecutionStateView {
        self@
    }
}

/// What stands in place of the output of a run from the history until its
/// log is read.
pub open spec fn log_placeholder() -> Seq<char> {
    "(Click to load logs)"@
}

impl ExecutionStateView {
    /// A run of `command` that is about to start.
    pub open spec fn started(id: u128, command: CommandView, at: Timestamp) -> ExecutionStateView {
        ExecutionStateView {
            id,
            command_id: command.id,
            command_name: command.name,
            output_buffer: Seq::empty(),
            is_running: true,
            exit_code: None,
            working_directory: command.working_directory,
            is_local: command.host is None,
            started_at: at,
            output_loaded: true,
            is_from_history: false,
        }
    }

    /// A run from the history of the command named `command_name`.
    pub open spec fn recalled(
        item: ExecutionResultView,
        command_name: Seq<char>,
    ) -> ExecutionStateView {
        ExecutionStateView {
            id: item.id,
            command_id: item.command_id,
            command_name,
            output_buffer: log_placeholder(),
            is_running: false,
            exit_code: item.exit_code,
            working_directory: None,
            is_local: false,
            started_at: item.started_at,
            output_loaded: false,
            is_from_history: true,
        }
    }

    /// The run after `update`: output of either stream is appended to what
    /// was gathered, and an exit ends the run with its code.
    pub open spec fn after(self, update: ExecutionUpdateView) -> ExecutionStateView {
        match update {
            ExecutionUpdateView::Started(_) => ExecutionStateView { is_running: true, ..self },
            ExecutionUpdateView::Stdout(text) => ExecutionStateView {
                output_buffer: self.output_buffer + text,
                ..self
            },
            ExecutionUpdateView::Stderr(text) => ExecutionStateView {
                output_buffer: self.output_buffer + text,
                ..self
            },
            ExecutionUpdateView::Exit(code) => ExecutionStateView {
                is_running: false,
                exit_code: Some(code),
                ..self
            },
        }
    }

    /// The record of the run for the history, once it has ended with
    /// `code` at `finished_at`. No host is recorded.
    pub open spec fn record(self, code: i32, finished_at: Timestamp) -> ExecutionResultView {
        ExecutionResultView {
            id: self.id,
            command_id: self.command_id,
            host_id: 0,
            started_at: self.started_at,
            finished_at: Some(finished_at),
            exit_code: Some(code),
            duration_ms: elapsed(self.started_at, finished_at),
            log_file: log_name_of(self.id),
        }
    }
}

impl ExecutionState {
    /// A run of `command` that is about to start.
    pub fn started(id: u128, command: &Command, at: Timestamp) -> (state: Self)
        ensures
            state@ == ExecutionStateView::started(id, command@, at),
    {
        ExecutionState {
            id,
            command_id: command.id,
            command_name: command.name.clone(),
            output_buffer: String::new(),
            is_running: true,
            exit_code: None,
            working_directory: clone_text(&command.working_directory),
            is_local: command.host.is_none(),
            started_at: at,
            output_loaded: true,
            is_from_history: false,
        }
    }

    /// A run from the history.
    pub fn from_history(item: &ExecutionResult, command_name: &str) -> (state: Self)
        ensures
            state@ == ExecutionStateView::recalled(item@, command_name@),
    {
        ExecutionState {
            id: item.id,
            command_id: item.command_id,
            command_name: String::from_str(command_name),
            output_buffer: String::from_str("(Click to load logs)"),
            is_running: false,
            exit_code: item.exit_code,
            working_directory: None,
            is_local: false,
            started_at: item.started_at,
            output_loaded: false,
            is_from_history: true,
        }
    }

    /// Takes in `update`. When the update is the exit of the run, the
    /// record for the history comes back, with `now` as the time at which
    /// the run ended; what was gathered in `output_buffer` is the log to
    /// store with it.
    pub fn apply(&mut self, update: ExecutionUpdate, now: Timestamp) -> (finished: Option<
        ExecutionResult,
    >)
        ensures
            final(self)@ == old(self)@.after(update@),
            match update {
                ExecutionUpdate::Exit(code) => finished.deep_view() == Some(
                    old(self)@.record(code, now),
                ),
                _ => finished is None,
            },
    {
        match update {
            ExecutionUpdate::Started(_) => {
                self.is_running = true;
                None
            },
            ExecutionUpdate::Stdout(text) => {
                self.output_buffer.append(text.as_str());
                None
            },
            ExecutionUpdate::Stderr(text) => {
                self.output_buffer.append(text.as_str());
                None
            },
            ExecutionUpdate::Exit(code) => {
                self.is_running = false;
                self.exit_code = Some(code);
                Some(
                    ExecutionResult {
                        id: self.id,
                        command_id: self.command_id,
                        host_id: 0,
                        started_at: self.started_at,
                        finished_at: Some(now),
                        exit_code: Some(code),
                        duration_ms: elapsed_ms(self.started_at, now),
                        log_file: log_name(self.id),
                    },
                )
            },
        }
    }
}

/// The runs of one command from the history, as a caller follows them.
pub open spec fn recalled_for(
    executions: Seq<ExecutionResultView>,
    command: CommandView,
) -> Seq<ExecutionStateView> {
    let runs = executions.filter(|e: ExecutionResultView| e.command_id == command.id);
    Seq::new(runs.len(), |i: int| ExecutionStateView::recalled(runs[i], command.name))
}

/// The runs of each of `commands` from the history, command by command.
pub open spec fn recalled_all(
    executions: Seq<ExecutionResultView>,
    commands: Seq<CommandView>,
) -> Seq<ExecutionStateView>
    decreases commands.len(),
{
    if commands.len() == 0 {
        Seq::empty()
    } else {
        recalled_all(executions, commands.drop_last()) + recalled_for(executions, commands.last())
    }
}

/// The history of every command of the store, as a caller follows it: the
/// commands in the order of the store, the runs of each in the order of
/// the history. Runs of commands that are gone are left out.
pub fn recall_history(store: &CommandStore) -> (states: Vec<ExecutionState>)
    ensures
        states.deep_view() == recalled_all(store@.executions, store@.commands),
{
    let commands = store.list_commands();
    let ghost all = commands.deep_view();
    let mut states: Vec<ExecutionState> = Vec::new();
    let mut i: usize = 0;
    assert(all.take(0) == Seq::<CommandView>::empty());
    assert(states.deep_view() == Seq::<ExecutionStateView>::empty());
    while i < commands.len()
        invariant
            0 <= i <= commands.len(),
            all == commands.deep_view(),
            all == store@.commands,
            states.deep_view() == recalled_all(store@.executions, all.take(i as int)),
        decreases commands.len() - i,
    {
        assert(all.take(i + 1).drop_last() == all.take(i as int));
        let ghost done = states.deep_view();
        let runs = store.get_execution_history(&commands[i].id);
        let ghost wanted = recalled_for(store@.executions, all[i as int]);
        let mut k: usize = 0;
        while k < runs.len()
            invariant
                0 <= k <= runs.len(),
                0 <= i < commands.len(),
                all == commands.deep_view(),
                runs.deep_view() == store@.history(all[i as int].id),
                wanted == recalled_for(store@.executions, all[i as int]),
                states.deep_view() == done + wanted.take(k as int),
            decreases runs.len() - k,
        {
            let ghost so_far = states.deep_view();
            let state = ExecutionState::from_history(&runs[k], commands[i].name.as_str());
            let ghost pushed = state@;
            states.push(state);
            assert(states.deep_view() == so_far.push(pushed));
            assert(wanted.take(k + 1) == wanted.take(k as int).push(wanted[k as int]));
            k += 1;
        }
        assert(wanted.take(k as int) == wanted);
        i += 1;
    }
    assert(all.take(i as int) == all);
    states
}

/// The name of a command that was just created.
pub open spec fn new_command_name() -> Seq<char> {
    "New Command"@
}

/// The name of a workflow that was just created.
pub open spec fn new_workflow_name() -> Seq<char> {
    "New Workflow"@
}

/// A command that was just created: it has a name to start from, an empty
/// script for this machine, and the user that creates it, if known.
pub fn create_new_command(id: u128, user: Option<String>, created_at: Timestamp) -> (command:
    Command)
    ensures
        command@ == (CommandView {
            id,
            name: new_command_name(),
            description: None,
            script: Seq::empty(),
            working_directory: None,
            env_vars: Seq::empty(),
            host: None,
            user: user.deep_view(),
            target_hosts: Seq::empty(),
            created_at,
            background: false,
            source_path: None,
        }),
{
    let command = Command {
        id,
        name: String::from_str("New Command"),
        description: None,
        script: String::new(),
        working_directory: None,
        env_vars: Vec::new(),
        host: None,
        user,
        target_hosts: Vec::new(),
        created_at,
        background: false,
        source_path: None,
    };
    assert(command@.env_vars =~= Seq::<EnvVarView>::empty());
    command
}

/// A workflow that was just created: it has a name to start from and no
/// steps.
pub fn create_new_workflow(id: u128, created_at: Timestamp) -> (workflow: Workflow)
    ensures
        workflow@ == (WorkflowView {
            id,
            name: new_workflow_name(),
            description: None,
            commands: Seq::empty(),
            env_vars: Seq::empty(),
            created_at,
        }),
{
    let workflow = Workflow {
        id,
        name: String::from_str("New Workflow"),
        description: None,
        commands: Vec::new(),
        env_vars: Vec::new(),
        created_at,
    };
    assert(workflow@.env_vars =~= Seq::<EnvVarView>::empty());
    workflow
}

/// Whether `a` is not after `b`.
pub open spec fn not_after(a: Timestamp, b: Timestamp) -> bool {
    a.secs < b.secs || (a.secs == b.secs && a.nanos <= b.nanos)
}

/// Where a run that started at `at` goes in `s`: behind the last run that
/// did not start after it.
pub open spec fn place_for(s: Seq<ExecutionStateView>, at: Timestamp) -> int
    decreases s.len(),
{
    if s.len() == 0 {
        0
    } else if not_after(s.last().started_at, at) {
        s.len() as int
    } else {
        place_for(s.drop_last(), at)
    }
}

/// `s` in the order of the starts, the earliest first. Runs that started at
/// the same instant keep their order.
pub open spec fn by_start(s: Seq<ExecutionStateView>) -> Seq<ExecutionStateView>
    decreases s.len(),
{
    if s.len() == 0 {
        s
    } else {
        let before = by_start(s.drop_last());
        before.insert(place_for(before, s.last().started_at), s.last())
    }
}

/// Whether the runs of `s` are in the order of their starts.
pub open spec fn in_start_order(s: Seq<ExecutionStateView>) -> bool {
    forall|i: int, j: int|
        0 <= i < j < s.len() ==> not_after((#[trigger] s[i]).started_at, (#[trigger] s[j]).started_at)
}

/// The place for a run is within the sequence; in a sequence in order,
/// every run before it did not start after the run, and every run from it
/// on started after the run.
pub proof fn lemma_place_for(s: Seq<ExecutionStateView>, at: Timestamp)
    ensures
        0 <= place_for(s, at) <= s.len(),
        forall|i: int| place_for(s, at) <= i < s.len() ==> !not_after((#[trigger] s[i]).started_at, at),
        in_start_order(s) ==> forall|i: int|
            0 <= i < place_for(s, at) ==> not_after((#[trigger] s[i]).started_at, at),
    decreases s.len(),
{
    if s.len() > 0 {
        if not_after(s.last().started_at, at) {
            if in_start_order(s) {
                assert forall|i: int| 0 <= i < s.len() implies not_after(
                    (#[trigger] s[i]).started_at,
                    at,
                ) by {
                    if i < s.len() - 1 {
                        assert(not_after(s[i].started_at, s[s.len() - 1].started_at));
                    }
                }
            }
        } else {
            let front = s.drop_last();
            lemma_place_for(front, at);
            assert forall|i: int| place_for(s, at) <= i < s.len() implies !not_after(
                (#[trigger] s[i]).started_at,
                at,
            ) by {
                if i < s.len() - 1 {
                    assert(s[i] == front[i]);
                }
            }
            if in_start_order(s) {
                assert forall|i: int, j: int| 0 <= i < j < front.len() implies not_after(
                    (#[trigger] front[i]).started_at,
                    (#[trigger] front[j]).started_at,
                ) by {
                    assert(front[i] == s[i] && front[j] == s[j]);
                }
                assert forall|i: int| 0 <= i < place_for(s, at) implies not_after(
                    (#[trigger] s[i]).started_at,
                    at,
                ) by {
                    assert(s[i] == front[i]);
                }
            }
        }
    }
}

/// Sorting by start puts the runs in the order of their starts and keeps
/// each run: the result holds the same runs, each as often as before.
pub proof fn lemma_by_start_sorts(s: Seq<ExecutionStateView>)
    ensures
        in_start_order(by_start(s)),
        by_start(s).to_multiset() == s.to_multiset(),
        by_start(s).len() == s.len(),
    decreases s.len(),
{
    broadcast use vstd::seq_lib::group_to_multiset_ensures;

    if s.len() > 0 {
        let front = s.drop_last();
        let x = s.last();
        lemma_by_start_sorts(front);
        let before = by_start(front);
        let p = place_for(before, x.started_at);
        lemma_place_for(before, x.started_at);
        let after = before.insert(p, x);
        assert forall|i: int, j: int| 0 <= i < j < after.len() implies not_after(
            (#[trigger] after[i]).started_at,
            (#[trigger] after[j]).started_at,
        ) by {
            if j < p {
                assert(after[i] == before[i] && after[j] == before[j]);
            } else if j == p {
                assert(after[i] == before[i]);
            } else if i < p {
                assert(after[i] == before[i] && after[j] == before[j - 1]);
            } else if i == p {
                assert(after[j] == before[j - 1]);
            } else {
                assert(after[i] == before[i - 1] && after[j] == before[j - 1]);
            }
        }
        assert(s == front.push(x));
        vstd::seq_lib::to_multiset_insert(before, p, x);
    }
}

/// The runs in the order of their starts, the earliest first; runs that
/// started at the same instant keep their order.
pub fn sort_by_start(states: Vec<ExecutionState>) -> (sorted: Vec<ExecutionState>)
    ensures
        sorted.deep_view() == by_start(states.deep_view()),
{
    let ghost all = states.deep_view();
    let mut rest = states;
    let mut sorted: Vec<ExecutionState> = Vec::new();
    let ghost mut done: int = 0;
    assert(all.take(0) == Seq::<ExecutionStateView>::empty());
    assert(all.skip(0) == all);
    assert(sorted.deep_view() == Seq::<ExecutionStateView>::empty());
    while rest.len() > 0
        invariant
            0 <= done <= all.len(),
            rest.deep_view() == all.skip(done),
            sorted.deep_view() == by_start(all.take(done)),
        decreases rest.len(),
    {
        let ghost before = sorted.deep_view();
        let ghost remaining = rest.deep_view();
        let next = rest.remove(0);
        assert(rest.deep_view() == remaining.skip(1));
        assert(all.skip(done).skip(1) == all.skip(done + 1));
        assert(next@ == all[done]) by {
            assert(remaining[0] == all[done]);
        }
        assert(all.take(done + 1).drop_last() == all.take(done));
        assert(all.take(done + 1).last() == all[done]);
        let mut place: usize = sorted.len();
        assert(before.take(place as int) == before);
        while place > 0 && !starts_not_after(&sorted[place - 1], &next)
            invariant
                0 <= place <= sorted.len(),
                before == sorted.deep_view(),
                place_for(before, next.started_at) == place_for(
                    before.take(place as int),
                    next.started_at,
                ),
            decreases place,
        {
            assert(before.take(place as int).last() == before[place - 1]);
            assert(before.take(place as int).drop_last() == before.take(place - 1));
            place -= 1;
        }
        proof {
            if place > 0 {
                assert(before.take(place as int).last() == before[place - 1]);
            }
            assert(place_for(before, next.started_at) == place);
        }
        let ghost pushed = next@;
        sorted.insert(place, next);
        assert(sorted.deep_view() == before.insert(place as int, pushed));
        proof {
            done = done + 1;
        }
    }
    assert(all.take(done) == all);
    sorted
}

/// Whether the run `a` did not start after the run `b`.
fn starts_not_after(a: &ExecutionState, b: &ExecutionState) -> (r: bool)
    ensures
        r == not_after(a.started_at, b.started_at),
{
    a.started_at.secs < b.started_at.secs || (a.started_at.secs == b.started_at.secs
        && a.started_at.nanos <= b.started_at.nanos)
}

} // verus!
