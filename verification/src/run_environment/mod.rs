//! Where a script runs: on this machine or in a remote shell session.
//!
//! An environment does no work of its own here. It says what is to be done:
//! how the script file is staged, how the process is started, what follows
//! from each look at the running process, and what the caller is told
//! before the run. Whoever drives the run carries that out and reports back
//! what it saw.

pub mod local;
pub mod ssh;

pub use local::LocalRunEnvironment;
pub use ssh::SshRunEnvironment;

use vstd::prelude::*;

verus! {

/// A piece of what the process wrote, by stream.
#[derive(Debug, PartialEq, Eq)]
pub enum OutputChunk {
    Stdout(String),
    Stderr(String),
}

pub enum OutputChunkView {
    Stdout(Seq<char>),
    Stderr(Seq<char>),
}

impl View for OutputChunk {
    type V = OutputChunkView;

    open spec fn view(&self) -> OutputChunkView {
        match self {
            OutputChunk::Stdout(text) => OutputChunkView::Stdout(text@),
            OutputChunk::Stderr(text) => OutputChunkView::Stderr(text@),
        }
    }
}

impl DeepView for OutputChunk {
    type V = OutputChunkView;

    open spec fn deep_view(&self) -> OutputChunkView {
        self@
    }
}

impl Clone for OutputChunk {
    fn clone(&self) -> (copy: Self)
        ensures
            copy@ == self@,
    {
        match self {
            OutputChunk::Stdout(text) => OutputChunk::Stdout(text.clone()),
            OutputChunk::Stderr(text) => OutputChunk::Stderr(text.clone()),
        }
    }
}

/// What is known of a process that was started and not waited for.
#[derive(Debug, PartialEq, Eq)]
pub struct BackgroundHandle {
    pub pid_or_hint: String,
}

/// Why an environment could not do what it was asked.
#[derive(Debug, PartialEq, Eq)]
pub enum RunEnvironmentError {
    Io(String),
    Ssh(String),
    ConnectionFailed(String),
    AuthFailed(String),
    UploadFailed(String),
}

pub enum RunEnvironmentErrorView {
    Io(Seq<char>),
    Ssh(Seq<char>),
    ConnectionFailed(Seq<char>),
    AuthFailed(Seq<char>),
    UploadFailed(Seq<char>),
}

impl View for RunEnvironmentError {
    type V = RunEnvironmentErrorView;

    open spec fn view(&self) -> RunEnvironmentErrorView {
        match self {
            RunEnvironmentError::Io(why) => RunEnvironmentErrorView::Io(why@),
            RunEnvironmentError::Ssh(why) => RunEnvironmentErrorView::Ssh(why@),
            RunEnvironmentError::ConnectionFailed(why) => RunEnvironmentErrorView::ConnectionFailed(
                why@,
            ),
            RunEnvironmentError::AuthFailed(why) => RunEnvironmentErrorView::AuthFailed(why@),
            RunEnvironmentError::UploadFailed(why) => RunEnvironmentErrorView::UploadFailed(why@),
        }
    }
}

impl RunEnvironmentErrorView {
    /// The error in words: what failed, then why.
    pub open spec fn message(self) -> Seq<char> {
        match self {
            RunEnvironmentErrorView::Io(why) => "IO error: "@ + why,
            RunEnvironmentErrorView::Ssh(why) => "SSH error: "@ + why,
            RunEnvironmentErrorView::ConnectionFailed(why) => "Connection failed: "@ + why,
            RunEnvironmentErrorView::AuthFailed(why) => "Authentication failed: "@ + why,
            RunEnvironmentErrorView::UploadFailed(why) => "Upload failed: "@ + why,
        }
    }
}

impl RunEnvironmentError {
    /// The error in words.
    pub fn message(&self) -> (text: String)
        ensures
            text@ == self@.message(),
    {
        let (mut text, why) = match self {
            RunEnvironmentError::Io(why) => (String::from_str("IO error: "), why),
            RunEnvironmentError::Ssh(why) => (String::from_str("SSH error: "), why),
            RunEnvironmentError::ConnectionFailed(why) => (
                String::from_str("Connection failed: "),
                why,
            ),
            RunEnvironmentError::AuthFailed(why) => (
                String::from_str("Authentication failed: "),
                why,
            ),
            RunEnvironmentError::UploadFailed(why) => (String::from_str("Upload failed: "), why),
        };
        text.append(why.as_str());
        text
    }
}

/// A file to write before the run. `mode` holds the permission bits to set
/// on it afterwards, where the environment sets any.
#[derive(Debug, PartialEq, Eq)]
pub struct FileWrite {
    pub path: String,
    pub contents: Vec<u8>,
    pub mode: Option<u32>,
}

pub struct FileWriteView {
    pub path: Seq<char>,
    pub contents: Seq<u8>,
    pub mode: Option<u32>,
}

impl View for FileWrite {
    type V = FileWriteView;

    open spec fn view(&self) -> FileWriteView {
        FileWriteView { path: self.path@, contents: self.contents@, mode: self.mode }
    }
}

impl Clone for FileWrite {
    fn clone(&self) -> (copy: Self)
        ensures
            copy@ == self@,
    {
        FileWrite { path: self.path.clone(), contents: self.contents.clone(), mode: self.mode }
    }
}

/// How a command line is started. A detached process gets no streams and is
/// not waited for; a detached session is closed as soon as the command was
/// issued.
#[derive(Debug, PartialEq, Eq)]
pub enum Launch {
    /// A process on this machine: the program and its arguments.
    Process { program: String, args: Vec<String>, detached: bool },
    /// A command issued on a channel of the remote session.
    Session { command: String, detached: bool },
}

pub enum LaunchView {
    Process { program: Seq<char>, args: Seq<Seq<char>>, detached: bool },
    Session { command: Seq<char>, detached: bool },
}

impl View for Launch {
    type V = LaunchView;

    open spec fn view(&self) -> LaunchView {
        match self {
            Launch::Process { program, args, detached } => LaunchView::Process {
                program: program@,
                args: args.deep_view(),
                detached: *detached,
            },
            Launch::Session { command, detached } => LaunchView::Session {
                command: command@,
                detached: *detached,
            },
        }
    }
}

impl LaunchView {
    /// Whether what is started is left alone.
    pub open spec fn is_detached(self) -> bool {
        match self {
            LaunchView::Process { detached, .. } => detached,
            LaunchView::Session { detached, .. } => detached,
        }
    }
}

impl Launch {
    /// Whether what is started is left alone.
    pub fn is_detached(&self) -> (detached: bool)
        ensures
            detached == self@.is_detached(),
    {
        match self {
            Launch::Process { detached, .. } => *detached,
            Launch::Session { detached, .. } => *detached,
        }
    }
}

impl Clone for Launch {
    fn clone(&self) -> (copy: Self)
        ensures
            copy@ == self@,
    {
        match self {
            Launch::Process { program, args, detached } => {
                let copied = args.clone();
                assert(copied.deep_view() =~= args.deep_view());
                Launch::Process { program: program.clone(), args: copied, detached: *detached }
            },
            Launch::Session { command, detached } => Launch::Session {
                command: command.clone(),
                detached: *detached,
            },
        }
    }
}

/// What is known of the process at one look.
#[derive(Debug, Clone, Copy, PartialEq, Eq, Structural)]
pub enum ProcessStatus {
    /// It has not ended.
    Running,
    /// It has ended. The code is missing where none could be read, as after
    /// a signal. Of a remote command this is known once its output is at
    /// its end and the channel was waited for.
    Ended(Option<i32>),
    /// Its state could not be read.
    Lost,
}

/// One look at a running process: whether a cancel request came in, what
/// the process wrote since the last look, and its state.
#[derive(Debug, PartialEq, Eq)]
pub struct Observation {
    pub cancelled: bool,
    pub output: Vec<OutputChunk>,
    pub status: ProcessStatus,
}

pub struct ObservationView {
    pub cancelled: bool,
    pub output: Seq<OutputChunkView>,
    pub status: ProcessStatus,
}

impl View for Observation {
    type V = ObservationView;

    open spec fn view(&self) -> ObservationView {
        ObservationView {
            cancelled: self.cancelled,
            output: self.output.deep_view(),
            status: self.status,
        }
    }
}

/// One thing to do after a look, in the words of whoever drives the run.
#[derive(Debug, PartialEq, Eq)]
pub enum RunStep {
    /// Hand the chunk to the caller.
    Emit(OutputChunk),
    /// Hand every chunk that is still queued to the caller.
    EmitPending,
    /// Terminate the process.
    Kill,
    /// Wait for the terminated process.
    Reap,
    /// Write the interrupt byte, ETX, into the session.
    Interrupt,
    /// Flush the session.
    Flush,
    /// Wait this many milliseconds.
    Pause(u64),
    /// Tell the remote end that no more input comes.
    SendEof,
    /// Close the channel.
    Close,
}

pub enum RunStepView {
    Emit(OutputChunkView),
    EmitPending,
    Kill,
    Reap,
    Interrupt,
    Flush,
    Pause(u64),
    SendEof,
    Close,
}

impl View for RunStep {
    type V = RunStepView;

    open spec fn view(&self) -> RunStepView {
        match self {
            RunStep::Emit(chunk) => RunStepView::Emit(chunk@),
            RunStep::EmitPending => RunStepView::EmitPending,
            RunStep::Kill => RunStepView::Kill,
            RunStep::Reap => RunStepView::Reap,
            RunStep::Interrupt => RunStepView::Interrupt,
            RunStep::Flush => RunStepView::Flush,
            RunStep::Pause(ms) => RunStepView::Pause(*ms),
            RunStep::SendEof => RunStepView::SendEof,
            RunStep::Close => RunStepView::Close,
        }
    }
}

impl DeepView for RunStep {
    type V = RunStepView;

    open spec fn deep_view(&self) -> RunStepView {
        self@
    }
}

/// How a look ends: the run goes on, the process is over with an exit code,
/// or the run was cancelled.
#[derive(Debug, Clone, Copy, PartialEq, Eq, Structural)]
pub enum Outcome {
    Continue,
    Exited(i32),
    Killed,
}

/// The exit code that stands for a cancelled or lost process.
pub const KILLED_EXIT_CODE: i32 = -1;

/// What follows from one look: the steps to take, in order, and how the
/// look ends.
#[derive(Debug, PartialEq, Eq)]
pub struct Decision {
    pub steps: Vec<RunStep>,
    pub outcome: Outcome,
}

pub struct DecisionView {
    pub steps: Seq<RunStepView>,
    pub outcome: Outcome,
}

impl View for Decision {
    type V = DecisionView;

    open spec fn view(&self) -> DecisionView {
        DecisionView { steps: self.steps.deep_view(), outcome: self.outcome }
    }
}

/// The steps that hand each of `chunks` to the caller, in order.
pub open spec fn emits(chunks: Seq<OutputChunkView>) -> Seq<RunStepView> {
    Seq::new(chunks.len(), |i: int| RunStepView::Emit(chunks[i]))
}

/// The exit code that a state of the process stands for: its own where it
/// ended with one, and -1 where it ended without or was lost.
pub open spec fn exit_code_of(status: ProcessStatus) -> i32 {
    match status {
        ProcessStatus::Ended(Some(code)) => code,
        _ => -1i32,
    }
}

/// What the caller is told when a cancel request is taken up.
pub open spec fn kill_notice() -> Seq<char> {
    "\n[Killing execution...]\n"@
}

/// Turns the chunks of a look into steps that emit them.
pub fn emit_all(output: Vec<OutputChunk>) -> (steps: Vec<RunStep>)
    ensures
        steps.deep_view() == emits(output.deep_view()),
{
    let ghost all = output.deep_view();
    let mut output = output;
    let mut steps: Vec<RunStep> = Vec::new();
    while output.len() > 0
        invariant
            steps.deep_view() + emits(output.deep_view()) == emits(all),
        decreases output.len(),
    {
        let ghost before = output.deep_view();
        let ghost done = steps.deep_view();
        let chunk = output.remove(0);
        assert(output.deep_view() == before.skip(1));
        steps.push(RunStep::Emit(chunk));
        assert(steps.deep_view() == done.push(RunStepView::Emit(before[0])));
        assert(steps.deep_view() + emits(output.deep_view()) == done + emits(before));
    }
    assert(emits(output.deep_view()) == Seq::<RunStepView>::empty());
    assert(steps.deep_view() + Seq::<RunStepView>::empty() == steps.deep_view());
    steps
}

/// The capabilities of a place where scripts run.
pub trait RunEnvironment {
    /// How `contents` is staged at `path`.
    spec fn staged(&self, path: Seq<char>, contents: Seq<u8>) -> FileWriteView;

    /// How `command` is started.
    spec fn launched(&self, command: Seq<char>, detached: bool) -> LaunchView;

    /// What follows from a look at the running process.
    spec fn decided(&self, seen: ObservationView) -> DecisionView;

    /// What the caller is told before the run.
    spec fn preamble(&self, log_file: Seq<char>) -> Seq<OutputChunkView>;

    /// The file to write so that `contents` stands at `path`, ready to run.
    fn write_file(&self, path: &str, contents: &[u8]) -> (file: FileWrite)
        ensures
            file@ == self.staged(path@, contents@),
    ;

    /// How to run `command` to its end, with its output read.
    fn run(&self, command: &str) -> (launch: Launch)
        ensures
            launch@ == self.launched(command@, false),
    ;

    /// How to start `command` and leave it alone.
    fn run_background(&self, command: &str) -> (launch: Launch)
        ensures
            launch@ == self.launched(command@, true),
    ;

    /// What to do after a look at the running process. A cancel request
    /// ends the run as killed, whatever else was seen; without one the run
    /// goes on exactly while the process does, and what the process wrote
    /// is handed on first.
    fn poll(&self, seen: Observation) -> (decision: Decision)
        ensures
            decision@ == self.decided(seen@),
            seen.cancelled <==> decision.outcome == Outcome::Killed,
            !seen.cancelled && seen.status == ProcessStatus::Running <==> decision.outcome
                == Outcome::Continue,
            !seen.cancelled && seen.status != ProcessStatus::Running ==> decision.outcome
                == Outcome::Exited(exit_code_of(seen.status)),
            !seen.cancelled ==> emits(seen@.output).is_prefix_of(decision@.steps),
    ;

    /// What the caller is told before the run, given where the log goes.
    fn emit_preamble(&self, log_file: &str) -> (chunks: Vec<OutputChunk>)
        ensures
            chunks.deep_view() == self.preamble(log_file@),
    ;
}

} // verus!
