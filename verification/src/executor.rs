//! The entry point for running a command: where it runs, and what its
//! caller hears of it.
//!
//! A run is reported as a sequence of updates: one `Started`, then output,
//! then one `Exit`, and nothing after it. [`Execution`] turns what the
//! worker of a run goes through into that sequence, whatever the worker
//! goes through and in whatever order it says so.

use crate::environment::EnvMap;
use crate::models::Command;
use crate::models::ExecutionUpdate;
use crate::models::ExecutionUpdateView;
use crate::models::Host;
use crate::models::HostView;
use crate::orchestration::background_started;
use crate::orchestration::background_updates;
use crate::orchestration::map_chunk;
use crate::orchestration::update_of;
use crate::run_environment::BackgroundHandle;
use crate::run_environment::Outcome;
use crate::run_environment::OutputChunk;
use crate::run_environment::OutputChunkView;
use crate::run_environment::RunEnvironmentError;
use crate::run_environment::RunEnvironmentErrorView;
use crate::text::lower;
use crate::text::to_lower;
use vstd::prelude::*;

verus! {

/// Why a run could not even be started.
#[derive(Debug, PartialEq, Eq)]
pub enum ExecuteError {
    SshError(String),
    ConnectionFailed,
}

impl ExecuteError {
    /// The error in words.
    pub fn message(&self) -> (text: String)
        ensures
            text@ == match self {
                ExecuteError::SshError(why) => "SSH error: "@ + why@,
                ExecuteError::ConnectionFailed => "Connection failed"@,
            },
    {
        match self {
            ExecuteError::SshError(why) => {
                let mut text = String::from_str("SSH error: ");
                text.append(why.as_str());
                text
            },
            ExecuteError::ConnectionFailed => String::from_str("Connection failed"),
        }
    }
}

/// Whether `name` is one of the names of this machine: `local`,
/// `localhost` or `127.0.0.1`, in any case of the letters.
pub open spec fn is_loopback_alias(name: Seq<char>) -> bool {
    lower(name) == "local"@ || lower(name) == "localhost"@ || lower(name) == "127.0.0.1"@
}

/// Whether a command for `host` runs on this machine: it does where the
/// name or the host name of the host is a name of this machine, whatever
/// user and credentials the host holds.
pub open spec fn routes_locally(host: HostView) -> bool {
    is_loopback_alias(host.name) || is_loopback_alias(host.hostname)
}

/// Whether `name` is one of the names of this machine.
pub fn is_loopback(name: &str) -> (local: bool)
    ensures
        local == is_loopback_alias(name@),
{
    let folded = to_lower(name);
    folded.as_str().eq("local") || folded.as_str().eq("localhost") || folded.as_str().eq(
        "127.0.0.1",
    )
}

/// Whether a command for `host` runs on this machine.
pub fn is_local_host(host: &Host) -> (local: bool)
    ensures
        local == routes_locally(host@),
{
    is_loopback(host.name.as_str()) || is_loopback(host.hostname.as_str())
}

/// A host whose host name is the loopback address runs locally, whatever
/// its other fields hold.
pub proof fn lemma_loopback_address_is_local(host: HostView)
    requires
        host.hostname == "127.0.0.1"@,
    ensures
        routes_locally(host),
{
    reveal_strlit("127.0.0.1");
    assert(lower(host.hostname) =~= "127.0.0.1"@);
}

/// Where a run takes place.
#[derive(Debug, Clone, Copy, PartialEq, Eq, Structural)]
pub enum EnvironmentKind {
    Local,
    RemoteShell,
}

/// Where a command for `host` runs.
pub open spec fn environment_for(host: HostView) -> EnvironmentKind {
    if routes_locally(host) {
        EnvironmentKind::Local
    } else {
        EnvironmentKind::RemoteShell
    }
}

/// Where a run stands.
#[derive(Debug, Clone, Copy, PartialEq, Eq, Structural)]
pub enum ExecutionPhase {
    /// Nothing was reported yet.
    NotStarted,
    /// The worker has begun; the process does not run yet.
    Started,
    /// The process runs.
    Running,
    /// The run is over with exit code 0.
    Completed,
    /// The run is over with another exit code, or could not be set up.
    Failed,
    /// The run was cancelled. The caller sees what it sees of a failed run
    /// with exit code -1.
    Killed,
}

impl ExecutionPhase {
    /// Whether the run is over.
    pub open spec fn is_terminal(self) -> bool {
        self == ExecutionPhase::Completed || self == ExecutionPhase::Failed || self
            == ExecutionPhase::Killed
    }
}

/// What the worker of a run goes through.
#[derive(Debug, PartialEq, Eq)]
pub enum WorkerEvent {
    /// The worker has begun.
    Begin,
    /// The run could not be set up, or broke while it ran: no connection,
    /// no credentials accepted, the script not staged, the process not
    /// started, the session lost. The text says what happened.
    Broken(String),
    /// The process was started and is waited for.
    Launched,
    /// The process was started and left alone.
    Detached(BackgroundHandle),
    /// The environment or the process said something.
    Output(OutputChunk),
    /// The process has ended with this exit code.
    Exited(i32),
    /// The run was cancelled and the process is gone.
    Cancelled,
}

pub enum WorkerEventView {
    Begin,
    Broken(Seq<char>),
    Launched,
    Detached(Seq<char>),
    Output(OutputChunkView),
    Exited(i32),
    Cancelled,
}

impl View for WorkerEvent {
    type V = WorkerEventView;

    open spec fn view(&self) -> WorkerEventView {
        match self {
            WorkerEvent::Begin => WorkerEventView::Begin,
            WorkerEvent::Broken(why) => WorkerEventView::Broken(why@),
            WorkerEvent::Launched => WorkerEventView::Launched,
            WorkerEvent::Detached(handle) => WorkerEventView::Detached(handle.pid_or_hint@),
            WorkerEvent::Output(chunk) => WorkerEventView::Output(chunk@),
            WorkerEvent::Exited(code) => WorkerEventView::Exited(*code),
            WorkerEvent::Cancelled => WorkerEventView::Cancelled,
        }
    }
}

/// What the end of a look at the process means for the run: nothing while
/// the process goes on, its exit once it has ended, and the cancellation
/// once it was killed.
pub open spec fn event_of(outcome: Outcome) -> Option<WorkerEventView> {
    match outcome {
        Outcome::Continue => None,
        Outcome::Exited(code) => Some(WorkerEventView::Exited(code)),
        Outcome::Killed => Some(WorkerEventView::Cancelled),
    }
}

/// What the end of a look at the process means for the run.
pub fn event_of_outcome(outcome: Outcome) -> (event: Option<WorkerEvent>)
    ensures
        match event {
            Some(e) => event_of(outcome) == Some(e@),
            None => event_of(outcome) is None,
        },
{
    match outcome {
        Outcome::Continue => None,
        Outcome::Exited(code) => Some(WorkerEvent::Exited(code)),
        Outcome::Killed => Some(WorkerEvent::Cancelled),
    }
}

/// An action of a plan, as far as it was carried out: the script staged
/// or not, something said, the command line started or not. A command line
/// that was started comes with whether it was left alone and with what is
/// known of the process.
#[derive(Debug, PartialEq, Eq)]
pub enum Performed {
    Staged(Result<(), RunEnvironmentError>),
    Said(OutputChunk),
    Started(bool, Result<BackgroundHandle, RunEnvironmentError>),
}

pub enum PerformedView {
    Staged(Option<RunEnvironmentErrorView>),
    Said(OutputChunkView),
    Started(bool, Result<Seq<char>, RunEnvironmentErrorView>),
}

impl View for Performed {
    type V = PerformedView;

    open spec fn view(&self) -> PerformedView {
        match self {
            Performed::Staged(Ok(_)) => PerformedView::Staged(None),
            Performed::Staged(Err(e)) => PerformedView::Staged(Some(e@)),
            Performed::Said(chunk) => PerformedView::Said(chunk@),
            Performed::Started(detached, Ok(handle)) => PerformedView::Started(
                *detached,
                Ok(handle.pid_or_hint@),
            ),
            Performed::Started(detached, Err(e)) => PerformedView::Started(*detached, Err(e@)),
        }
    }
}

/// What an action of a plan means for the run, once it was carried out.
/// A staged script means nothing yet; what was said is output; a command
/// line that was started is launched, or detached where it was left
/// alone. An action that failed breaks the run, with the error in words:
/// the caller hears of it as a line on the error stream and exit code -1,
/// and the actions behind it are not taken.
pub open spec fn event_after(performed: PerformedView) -> Option<WorkerEventView> {
    match performed {
        PerformedView::Staged(None) => None,
        PerformedView::Staged(Some(e)) => Some(WorkerEventView::Broken(e.message())),
        PerformedView::Said(chunk) => Some(WorkerEventView::Output(chunk)),
        PerformedView::Started(detached, Ok(hint)) => Some(
            if detached {
                WorkerEventView::Detached(hint)
            } else {
                WorkerEventView::Launched
            },
        ),
        PerformedView::Started(_, Err(e)) => Some(WorkerEventView::Broken(e.message())),
    }
}

/// What an action of a plan means for the run, once it was carried out.
pub fn event_of_action(performed: Performed) -> (event: Option<WorkerEvent>)
    ensures
        match event {
            Some(e) => event_after(performed@) == Some(e@),
            None => event_after(performed@) is None,
        },
{
    match performed {
        Performed::Staged(Ok(_)) => None,
        Performed::Staged(Err(e)) => Some(WorkerEvent::Broken(e.message())),
        Performed::Said(chunk) => Some(WorkerEvent::Output(chunk)),
        Performed::Started(detached, Ok(handle)) => {
            if detached {
                Some(WorkerEvent::Detached(handle))
            } else {
                Some(WorkerEvent::Launched)
            }
        },
        Performed::Started(_, Err(e)) => Some(WorkerEvent::Broken(e.message())),
    }
}

/// A run whose script cannot be staged, or whose command line cannot be
/// started, is over at once: after the start, the caller hears the error
/// and exit code -1, whatever was said before and whatever is reported
/// afterwards.
pub proof fn lemma_failed_action_ends_the_run(
    id: u128,
    before: Seq<WorkerEventView>,
    detached: bool,
    error: RunEnvironmentErrorView,
    after: Seq<WorkerEventView>,
)
    requires
        phase_after(id, before) == ExecutionPhase::Started,
    ensures
        event_after(PerformedView::Staged(Some(error))) == Some(
            WorkerEventView::Broken(error.message()),
        ),
        event_after(PerformedView::Started(detached, Err(error))) == Some(
            WorkerEventView::Broken(error.message()),
        ),
        phase_after(id, before + seq![WorkerEventView::Broken(error.message())] + after)
            == ExecutionPhase::Failed,
        trace_of(id, before + seq![WorkerEventView::Broken(error.message())] + after)
            == trace_of(id, before) + seq![
            ExecutionUpdateView::Stderr(error.message()),
            ExecutionUpdateView::Exit(-1i32),
        ],
{
    lemma_ends_with(id, before, WorkerEventView::Broken(error.message()), after);
}

/// The phase of a run that has ended with `code`.
pub open spec fn phase_of_exit(code: i32) -> ExecutionPhase {
    if code == 0 {
        ExecutionPhase::Completed
    } else {
        ExecutionPhase::Failed
    }
}

/// What one event does to the run `id` in `phase`: the phase afterwards and
/// what the caller is told.
///
/// Before the worker has begun nothing but its beginning counts, and once
/// the run is over nothing counts any more. A failure is told as a line on
/// the error stream and exit code -1; a cancellation as exit code -1.
pub open spec fn step(phase: ExecutionPhase, id: u128, event: WorkerEventView) -> (
    ExecutionPhase,
    Seq<ExecutionUpdateView>,
) {
    match (phase, event) {
        (ExecutionPhase::NotStarted, WorkerEventView::Begin) => (
            ExecutionPhase::Started,
            seq![ExecutionUpdateView::Started(id)],
        ),
        (ExecutionPhase::Started, WorkerEventView::Launched) => (
            ExecutionPhase::Running,
            Seq::empty(),
        ),
        (ExecutionPhase::Started, WorkerEventView::Detached(hint)) => (
            ExecutionPhase::Completed,
            background_updates(hint),
        ),
        (ExecutionPhase::Started, WorkerEventView::Output(chunk)) => (
            ExecutionPhase::Started,
            seq![update_of(chunk)],
        ),
        (ExecutionPhase::Running, WorkerEventView::Output(chunk)) => (
            ExecutionPhase::Running,
            seq![update_of(chunk)],
        ),
        (ExecutionPhase::Started, WorkerEventView::Broken(why)) => (
            ExecutionPhase::Failed,
            seq![ExecutionUpdateView::Stderr(why), ExecutionUpdateView::Exit(-1i32)],
        ),
        (ExecutionPhase::Running, WorkerEventView::Broken(why)) => (
            ExecutionPhase::Failed,
            seq![ExecutionUpdateView::Stderr(why), ExecutionUpdateView::Exit(-1i32)],
        ),
        (ExecutionPhase::Running, WorkerEventView::Exited(code)) => (
            phase_of_exit(code),
            seq![ExecutionUpdateView::Exit(code)],
        ),
        (ExecutionPhase::Started, WorkerEventView::Cancelled) => (
            ExecutionPhase::Killed,
            seq![ExecutionUpdateView::Exit(-1i32)],
        ),
        (ExecutionPhase::Running, WorkerEventView::Cancelled) => (
            ExecutionPhase::Killed,
            seq![ExecutionUpdateView::Exit(-1i32)],
        ),
        _ => (phase, Seq::empty()),
    }
}

/// What a sequence of events does to the run `id` in `phase`: the phase
/// after the last of them and all that the caller is told, in order.
pub open spec fn run_from(phase: ExecutionPhase, id: u128, events: Seq<WorkerEventView>) -> (
    ExecutionPhase,
    Seq<ExecutionUpdateView>,
)
    decreases events.len(),
{
    if events.len() == 0 {
        (phase, Seq::empty())
    } else {
        let before = run_from(phase, id, events.drop_last());
        let last = step(before.0, id, events.last());
        (last.0, before.1 + last.1)
    }
}

/// What a new run `id` tells its caller over `events`.
pub open spec fn trace_of(id: u128, events: Seq<WorkerEventView>) -> Seq<ExecutionUpdateView> {
    run_from(ExecutionPhase::NotStarted, id, events).1
}

/// The phase of a new run `id` after `events`.
pub open spec fn phase_after(id: u128, events: Seq<WorkerEventView>) -> ExecutionPhase {
    run_from(ExecutionPhase::NotStarted, id, events).0
}

/// How many exits a sequence of updates holds.
pub open spec fn exits_in(trace: Seq<ExecutionUpdateView>) -> nat {
    trace.filter(|u: ExecutionUpdateView| u is Exit).len()
}

/// Whether a sequence of updates is in the order that a caller relies on:
/// if there is anything, `Started` with the identity of the run comes
/// first and only first, and an exit, if there is one, comes last.
pub open spec fn well_ordered(id: u128, trace: Seq<ExecutionUpdateView>) -> bool {
    &&& trace.len() > 0 ==> trace[0] == ExecutionUpdateView::Started(id)
    &&& forall|i: int| 0 < i < trace.len() ==> !(#[trigger] trace[i] is Started)
    &&& forall|i: int| 0 <= i < trace.len() - 1 ==> !(#[trigger] trace[i] is Exit)
}

/// Whether what was told so far fits the phase: nothing before the start,
/// no exit while the run goes on, and the exit of the phase at the end of
/// a run that is over.
pub open spec fn fits(phase: ExecutionPhase, id: u128, trace: Seq<ExecutionUpdateView>) -> bool {
    &&& well_ordered(id, trace)
    &&& match phase {
        ExecutionPhase::NotStarted => trace.len() == 0,
        ExecutionPhase::Started | ExecutionPhase::Running => {
            &&& trace.len() > 0
            &&& !(trace.last() is Exit)
        },
        ExecutionPhase::Completed => {
            &&& trace.len() > 0
            &&& trace.last() == ExecutionUpdateView::Exit(0i32)
        },
        ExecutionPhase::Failed => {
            &&& trace.len() > 0
            &&& trace.last() is Exit
            &&& trace.last()->Exit_0 != 0
        },
        ExecutionPhase::Killed => {
            &&& trace.len() > 0
            &&& trace.last() == ExecutionUpdateView::Exit(-1i32)
        },
    }
}

/// One event keeps what was told in order and in step with the phase.
pub proof fn lemma_step_fits(
    phase: ExecutionPhase,
    id: u128,
    trace: Seq<ExecutionUpdateView>,
    event: WorkerEventView,
)
    requires
        fits(phase, id, trace),
    ensures
        fits(step(phase, id, event).0, id, trace + step(phase, id, event).1),
{
    let next = step(phase, id, event);
    let told = trace + next.1;
    if next.1.len() == 0 {
        assert(told == trace);
    } else {
        assert forall|i: int| 0 <= i < trace.len() implies told[i] == trace[i] by {}
        assert forall|i: int| trace.len() <= i < told.len() implies told[i] == next.1[i
            - trace.len()] by {}
        if trace.len() > 0 {
            assert(trace.last() == trace[trace.len() - 1]);
        }
        assert(told.last() == next.1.last());
    }
}

/// Once a run is over, no event changes it or is told.
pub proof fn lemma_terminal_absorbs(phase: ExecutionPhase, id: u128, events: Seq<WorkerEventView>)
    requires
        phase.is_terminal(),
    ensures
        run_from(phase, id, events) == (phase, Seq::<ExecutionUpdateView>::empty()),
    decreases events.len(),
{
    if events.len() > 0 {
        lemma_terminal_absorbs(phase, id, events.drop_last());
    }
}

/// Running over two sequences of events in turn is running over both.
pub proof fn lemma_run_concat(
    phase: ExecutionPhase,
    id: u128,
    first: Seq<WorkerEventView>,
    second: Seq<WorkerEventView>,
)
    ensures
        run_from(phase, id, first + second).0 == run_from(
            run_from(phase, id, first).0,
            id,
            second,
        ).0,
        run_from(phase, id, first + second).1 == run_from(phase, id, first).1 + run_from(
            run_from(phase, id, first).0,
            id,
            second,
        ).1,
    decreases second.len(),
{
    if second.len() == 0 {
        assert(first + second == first);
    } else {
        lemma_run_concat(phase, id, first, second.drop_last());
        assert((first + second).drop_last() == first + second.drop_last());
        assert((first + second).last() == second.last());
    }
}

/// Whatever the worker goes through, what the caller is told is in order:
/// `Started` first and once, an exit last and at most once. And it is in
/// step with the phase: a run that is over has told its exit, a run that
/// goes on has not.
pub proof fn lemma_trace_well_ordered(id: u128, events: Seq<WorkerEventView>)
    ensures
        fits(phase_after(id, events), id, trace_of(id, events)),
        well_ordered(id, trace_of(id, events)),
        exits_in(trace_of(id, events)) <= 1,
        phase_after(id, events).is_terminal() <==> exits_in(trace_of(id, events)) == 1,
    decreases events.len(),
{
    if events.len() > 0 {
        lemma_trace_well_ordered(id, events.drop_last());
        let before = run_from(ExecutionPhase::NotStarted, id, events.drop_last());
        lemma_step_fits(before.0, id, before.1, events.last());
    }
    lemma_exits_of_ordered(id, trace_of(id, events));
}

/// A sequence in order holds one exit where it ends with one, and else
/// none.
pub proof fn lemma_exits_of_ordered(id: u128, trace: Seq<ExecutionUpdateView>)
    requires
        well_ordered(id, trace),
    ensures
        exits_in(trace) == if trace.len() > 0 && trace.last() is Exit {
            1nat
        } else {
            0nat
        },
{
    let is_exit = |u: ExecutionUpdateView| u is Exit;
    reveal(Seq::filter);
    if trace.len() > 0 {
        let front = trace.drop_last();
        assert forall|i: int| 0 <= i < front.len() implies !is_exit(#[trigger] front[i]) by {
            assert(front[i] == trace[i]);
        }
        crate::records::lemma_filter_none(front, is_exit);
    }
}

/// A run whose process ends with exit code 0 tells exactly one exit, it is
/// `Exit(0)`, and it is the last thing told, whatever the worker reports
/// afterwards.
pub proof fn lemma_clean_exit_is_last(
    id: u128,
    before: Seq<WorkerEventView>,
    after: Seq<WorkerEventView>,
)
    requires
        phase_after(id, before) == ExecutionPhase::Running,
    ensures
        phase_after(id, before + seq![WorkerEventView::Exited(0)] + after)
            == ExecutionPhase::Completed,
        trace_of(id, before + seq![WorkerEventView::Exited(0)] + after) == trace_of(id, before)
            + seq![ExecutionUpdateView::Exit(0i32)],
        exits_in(trace_of(id, before + seq![WorkerEventView::Exited(0)] + after)) == 1,
        trace_of(id, before + seq![WorkerEventView::Exited(0)] + after).last()
            == ExecutionUpdateView::Exit(0i32),
{
    lemma_ends_with(id, before, WorkerEventView::Exited(0), after);
}

/// A run that is cancelled before its process has ended tells `Exit(-1)`,
/// and nothing after it, whatever the worker reports afterwards.
pub proof fn lemma_cancel_is_last(
    id: u128,
    before: Seq<WorkerEventView>,
    after: Seq<WorkerEventView>,
)
    requires
        phase_after(id, before) == ExecutionPhase::Started || phase_after(id, before)
            == ExecutionPhase::Running,
    ensures
        phase_after(id, before + seq![WorkerEventView::Cancelled] + after)
            == ExecutionPhase::Killed,
        trace_of(id, before + seq![WorkerEventView::Cancelled] + after) == trace_of(id, before)
            + seq![ExecutionUpdateView::Exit(-1i32)],
        exits_in(trace_of(id, before + seq![WorkerEventView::Cancelled] + after)) == 1,
        trace_of(id, before + seq![WorkerEventView::Cancelled] + after).last()
            == ExecutionUpdateView::Exit(-1i32),
{
    lemma_ends_with(id, before, WorkerEventView::Cancelled, after);
}

/// A failure to set up the run, the connection to a remote host among it,
/// is told in full: after `Started`, one line on the error stream and
/// `Exit(-1)`.
pub proof fn lemma_broken_setup_is_told(id: u128, why: Seq<char>, after: Seq<WorkerEventView>)
    ensures
        trace_of(id, seq![WorkerEventView::Begin, WorkerEventView::Broken(why)] + after) == seq![
            ExecutionUpdateView::Started(id),
            ExecutionUpdateView::Stderr(why),
            ExecutionUpdateView::Exit(-1i32),
        ],
{
    let begin = seq![WorkerEventView::Begin];
    assert(begin.drop_last() == Seq::<WorkerEventView>::empty());
    assert(begin.last() == WorkerEventView::Begin);
    assert(run_from(ExecutionPhase::NotStarted, id, begin.drop_last()) == (
        ExecutionPhase::NotStarted,
        Seq::<ExecutionUpdateView>::empty(),
    ));
    assert(phase_after(id, begin) == ExecutionPhase::Started);
    assert(trace_of(id, begin) == seq![ExecutionUpdateView::Started(id)]);
    lemma_ends_with(id, begin, WorkerEventView::Broken(why), after);
    assert(begin + seq![WorkerEventView::Broken(why)] + after == seq![
        WorkerEventView::Begin,
        WorkerEventView::Broken(why),
    ] + after);
}

/// Where `event` ends a run, the events after it add nothing.
proof fn lemma_ends_with(
    id: u128,
    before: Seq<WorkerEventView>,
    event: WorkerEventView,
    after: Seq<WorkerEventView>,
)
    requires
        !phase_after(id, before).is_terminal(),
        step(phase_after(id, before), id, event).0.is_terminal(),
    ensures
        phase_after(id, before + seq![event] + after) == step(phase_after(id, before), id, event).0,
        trace_of(id, before + seq![event] + after) == trace_of(id, before) + step(
            phase_after(id, before),
            id,
            event,
        ).1,
        exits_in(trace_of(id, before + seq![event] + after)) == 1,
        trace_of(id, before + seq![event] + after).last() == step(
            phase_after(id, before),
            id,
            event,
        ).1.last(),
{
    let start = ExecutionPhase::NotStarted;
    let ended = step(phase_after(id, before), id, event);
    assert((before + seq![event]).drop_last() == before);
    assert((before + seq![event]).last() == event);
    assert(run_from(start, id, before + seq![event]) == (ended.0, trace_of(id, before) + ended.1));
    lemma_run_concat(start, id, before + seq![event], after);
    lemma_terminal_absorbs(ended.0, id, after);
    assert(trace_of(id, before) + ended.1 + Seq::<ExecutionUpdateView>::empty() == trace_of(
        id,
        before,
    ) + ended.1);
    lemma_trace_well_ordered(id, before + seq![event] + after);
    assert(ended.1.len() > 0);
}

/// One run, as its caller hears of it.
#[derive(Debug, PartialEq, Eq)]
pub struct Execution {
    id: u128,
    phase: ExecutionPhase,
}

impl Execution {
    /// The identity of the run.
    pub closed spec fn id_spec(&self) -> u128 {
        self.id
    }

    /// Where the run stands.
    pub closed spec fn phase_spec(&self) -> ExecutionPhase {
        self.phase
    }

    /// A run of which nothing was told yet.
    pub fn new(id: u128) -> (run: Self)
        ensures
            run.id_spec() == id,
            run.phase_spec() == ExecutionPhase::NotStarted,
    {
        Execution { id, phase: ExecutionPhase::NotStarted }
    }

    /// The identity of the run.
    pub fn id(&self) -> (id: u128)
        ensures
            id == self.id_spec(),
    {
        self.id
    }

    /// Where the run stands.
    pub fn phase(&self) -> (phase: ExecutionPhase)
        ensures
            phase == self.phase_spec(),
    {
        self.phase
    }

    /// Whether the run is over.
    pub fn is_finished(&self) -> (over: bool)
        ensures
            over == self.phase_spec().is_terminal(),
    {
        match self.phase {
            ExecutionPhase::Completed | ExecutionPhase::Failed | ExecutionPhase::Killed => true,
            _ => false,
        }
    }

    /// Takes in what the worker went through and says what the caller is
    /// told of it, in order.
    pub fn handle(&mut self, event: WorkerEvent) -> (updates: Vec<ExecutionUpdate>)
        ensures
            final(self).id_spec() == old(self).id_spec(),
            final(self).phase_spec() == step(old(self).phase_spec(), old(self).id_spec(), event@).0,
            updates.deep_view() == step(old(self).phase_spec(), old(self).id_spec(), event@).1,
    {
        let mut updates: Vec<ExecutionUpdate> = Vec::new();
        let ghost expected = step(self.phase, self.id, event@);
        match self.phase {
            ExecutionPhase::NotStarted => {
                match event {
                    WorkerEvent::Begin => {
                        updates.push(ExecutionUpdate::Started(self.id));
                        self.phase = ExecutionPhase::Started;
                    },
                    _ => {},
                }
            },
            ExecutionPhase::Started => {
                match event {
                    WorkerEvent::Launched => {
                        self.phase = ExecutionPhase::Running;
                    },
                    WorkerEvent::Detached(handle) => {
                        updates = background_started(&handle);
                        self.phase = ExecutionPhase::Completed;
                    },
                    WorkerEvent::Output(chunk) => {
                        updates.push(map_chunk(chunk));
                    },
                    WorkerEvent::Broken(why) => {
                        updates.push(ExecutionUpdate::Stderr(why));
                        updates.push(ExecutionUpdate::Exit(-1));
                        self.phase = ExecutionPhase::Failed;
                    },
                    WorkerEvent::Cancelled => {
                        updates.push(ExecutionUpdate::Exit(-1));
                        self.phase = ExecutionPhase::Killed;
                    },
                    _ => {},
                }
            },
            ExecutionPhase::Running => {
                match event {
                    WorkerEvent::Output(chunk) => {
                        updates.push(map_chunk(chunk));
                    },
                    WorkerEvent::Broken(why) => {
                        updates.push(ExecutionUpdate::Stderr(why));
                        updates.push(ExecutionUpdate::Exit(-1));
                        self.phase = ExecutionPhase::Failed;
                    },
                    WorkerEvent::Exited(code) => {
                        updates.push(ExecutionUpdate::Exit(code));
                        self.phase = if code == 0 {
                            ExecutionPhase::Completed
                        } else {
                            ExecutionPhase::Failed
                        };
                    },
                    WorkerEvent::Cancelled => {
                        updates.push(ExecutionUpdate::Exit(-1));
                        self.phase = ExecutionPhase::Killed;
                    },
                    _ => {},
                }
            },
            _ => {},
        }
        assert(updates.deep_view() =~= expected.1);
        updates
    }
}

/// A run that is ready to go: where it takes place, what it runs with, and
/// the run itself, of which nothing was told yet.
#[derive(Debug, PartialEq, Eq)]
pub struct Job {
    pub environment: EnvironmentKind,
    pub command: Command,
    pub host: Host,
    pub env_vars: EnvMap,
    pub execution: Execution,
}

/// Something that starts runs.
pub trait CommandExecutor {
    /// Prepares the run `execution_id` of `command` for `host`, with the
    /// resolved variables `env_vars`. Nothing is run here and nothing is
    /// waited for: the job says where the run takes place and holds what
    /// it takes, and its worker goes from there. Whatever goes wrong from
    /// then on is told through the updates of the run, never returned.
    fn execute(
        &self,
        execution_id: u128,
        command: &Command,
        host: &Host,
        env_vars: EnvMap,
    ) -> (job: Result<Job, ExecuteError>)
        ensures
            job matches Ok(j) && {
                &&& j.environment == environment_for(host@)
                &&& j.command@ == command@
                &&& j.host@ == host@
                &&& j.env_vars@ == env_vars@
                &&& j.execution.id_spec() == execution_id
                &&& j.execution.phase_spec() == ExecutionPhase::NotStarted
            },
    ;
}

/// The executor: commands for this machine run here, all others in a
/// remote shell session.
#[derive(Debug, Clone, Copy, PartialEq, Eq, Structural)]
pub struct SshExecutor;

impl CommandExecutor for SshExecutor {
    fn execute(
        &self,
        execution_id: u128,
        command: &Command,
        host: &Host,
        env_vars: EnvMap,
    ) -> (job: Result<Job, ExecuteError>) {
        let environment = if is_local_host(host) {
            EnvironmentKind::Local
        } else {
            EnvironmentKind::RemoteShell
        };
        Ok(
            Job {
                environment,
                command: command.clone(),
                host: host.clone(),
                env_vars,
                execution: Execution::new(execution_id),
            },
        )
    }
}

} // verus!
