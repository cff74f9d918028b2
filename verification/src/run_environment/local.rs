//! Running on this machine: the script is a file with the executable bits
//! set, the command line goes to a shell process, and a cancel request
//! kills that process.

use super::emit_all;
use super::emits;
use super::exit_code_of;
use super::kill_notice;
use super::BackgroundHandle;
use super::Decision;
use super::DecisionView;
use super::FileWrite;
use super::FileWriteView;
use super::Launch;
use super::LaunchView;
use super::Observation;
use super::ObservationView;
use super::Outcome;
use super::OutputChunk;
use super::OutputChunkView;
use super::ProcessStatus;
use super::RunEnvironment;
use super::RunEnvironmentError;
use super::RunStep;
use super::RunStepView;
use crate::text::decimal;
use crate::text::decimal_text;
use vstd::prelude::*;
use vstd::slice::slice_to_vec;

verus! {

/// The permission bits of a staged script: read and execute for all, write
/// for the owner.
pub const SCRIPT_MODE: u32 = 0o755;

/// How long to wait between two looks at a running process, in
/// milliseconds.
pub const POLL_INTERVAL_MS: u64 = 10;

#[derive(Debug, Clone, Copy, PartialEq, Eq, Structural)]
pub struct LocalRunEnvironment;

impl LocalRunEnvironment {
    pub fn new() -> (env: Self)
        ensures
            env == LocalRunEnvironment,
    {
        LocalRunEnvironment
    }

    /// What is known of a detached process: its process id, in decimal.
    pub fn background_handle(&self, pid: u32) -> (handle: BackgroundHandle)
        ensures
            handle.pid_or_hint@ == decimal(pid as nat),
    {
        BackgroundHandle { pid_or_hint: decimal_text(pid as u64) }
    }

    /// The error that stands for a failure of the operating system, given
    /// its message.
    pub fn failure(&self, why: String) -> (error: RunEnvironmentError)
        ensures
            error == RunEnvironmentError::Io(why),
    {
        RunEnvironmentError::Io(why)
    }
}

/// The shell command line as a local process: `/bin/bash -c command`, under
/// `nohup` where it is detached.
pub open spec fn local_launch(command: Seq<char>, detached: bool) -> LaunchView {
    if detached {
        LaunchView::Process {
            program: "nohup"@,
            args: seq!["/bin/bash"@, "-c"@, command],
            detached: true,
        }
    } else {
        LaunchView::Process { program: "/bin/bash"@, args: seq!["-c"@, command], detached: false }
    }
}

/// What follows from a look at a local process.
///
/// A cancel request comes first: the caller is told, the process is killed
/// and waited for, and what it wrote is dropped. Otherwise what it wrote is
/// handed on; then, while it runs, the driver waits a moment; once it has
/// ended, what is still queued is handed on too and the run is over.
pub open spec fn local_decision(seen: ObservationView) -> DecisionView {
    if seen.cancelled {
        DecisionView {
            steps: seq![
                RunStepView::Emit(OutputChunkView::Stderr(kill_notice())),
                RunStepView::Kill,
                RunStepView::Reap,
            ],
            outcome: Outcome::Killed,
        }
    } else {
        match seen.status {
            ProcessStatus::Running => DecisionView {
                steps: emits(seen.output).push(RunStepView::Pause(POLL_INTERVAL_MS)),
                outcome: Outcome::Continue,
            },
            ProcessStatus::Ended(_) => DecisionView {
                steps: emits(seen.output).push(RunStepView::EmitPending),
                outcome: Outcome::Exited(exit_code_of(seen.status)),
            },
            ProcessStatus::Lost => DecisionView {
                steps: emits(seen.output),
                outcome: Outcome::Exited(exit_code_of(seen.status)),
            },
        }
    }
}

impl RunEnvironment for LocalRunEnvironment {
    open spec fn staged(&self, path: Seq<char>, contents: Seq<u8>) -> FileWriteView {
        FileWriteView { path, contents, mode: Some(SCRIPT_MODE) }
    }

    open spec fn launched(&self, command: Seq<char>, detached: bool) -> LaunchView {
        local_launch(command, detached)
    }

    open spec fn decided(&self, seen: ObservationView) -> DecisionView {
        local_decision(seen)
    }

    open spec fn preamble(&self, log_file: Seq<char>) -> Seq<OutputChunkView> {
        Seq::empty()
    }

    fn write_file(&self, path: &str, contents: &[u8]) -> (file: FileWrite) {
        FileWrite {
            path: String::from_str(path),
            contents: slice_to_vec(contents),
            mode: Some(SCRIPT_MODE),
        }
    }

    fn run(&self, command: &str) -> (launch: Launch) {
        let mut args: Vec<String> = Vec::new();
        args.push(String::from_str("-c"));
        args.push(String::from_str(command));
        let launch = Launch::Process { program: String::from_str("/bin/bash"), args, detached: false };
        assert(launch@ =~= local_launch(command@, false)) by {
            assert(launch@->Process_args =~= seq!["-c"@, command@]);
        }
        launch
    }

    fn run_background(&self, command: &str) -> (launch: Launch) {
        let mut args: Vec<String> = Vec::new();
        args.push(String::from_str("/bin/bash"));
        args.push(String::from_str("-c"));
        args.push(String::from_str(command));
        let launch = Launch::Process { program: String::from_str("nohup"), args, detached: true };
        assert(launch@ =~= local_launch(command@, true)) by {
            assert(launch@->Process_args =~= seq!["/bin/bash"@, "-c"@, command@]);
        }
        launch
    }

    fn poll(&self, seen: Observation) -> (decision: Decision) {
        if seen.cancelled {
            let mut steps: Vec<RunStep> = Vec::new();
            steps.push(
                RunStep::Emit(OutputChunk::Stderr(String::from_str("\n[Killing execution...]\n"))),
            );
            steps.push(RunStep::Kill);
            steps.push(RunStep::Reap);
            assert(steps.deep_view() =~= local_decision(seen@).steps);
            Decision { steps, outcome: Outcome::Killed }
        } else {
            let ghost handed = emits(seen@.output);
            let status = seen.status;
            let mut steps = emit_all(seen.output);
            match status {
                ProcessStatus::Running => {
                    steps.push(RunStep::Pause(POLL_INTERVAL_MS));
                    assert(steps.deep_view() =~= handed.push(RunStepView::Pause(POLL_INTERVAL_MS)));
                    Decision { steps, outcome: Outcome::Continue }
                },
                ProcessStatus::Ended(code) => {
                    steps.push(RunStep::EmitPending);
                    assert(steps.deep_view() =~= handed.push(RunStepView::EmitPending));
                    let exit: i32 = match code {
                        Some(c) => c,
                        None => -1,
                    };
                    Decision { steps, outcome: Outcome::Exited(exit) }
                },
                ProcessStatus::Lost => Decision { steps, outcome: Outcome::Exited(-1) },
            }
        }
    }

    fn emit_preamble(&self, log_file: &str) -> (chunks: Vec<OutputChunk>) {
        let chunks: Vec<OutputChunk> = Vec::new();
        assert(chunks.deep_view() =~= Seq::<OutputChunkView>::empty());
        chunks
    }
}

} // verus!
