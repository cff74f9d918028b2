//! The store: commands, workflows, hosts and the history of runs, held in
//! memory. Reading and writing files is left to the caller; the store says
//! what the state is after each operation and hands out the blobs to write.

use crate::codec::gunzip_text;
use crate::codec::gzip;
use crate::codec::gzip_compress;
use crate::codec::gzip_decompress;
use crate::codec::hex_encode;
use crate::codec::sha256;
use crate::codec::sha256_digest;
use crate::models::Command;
use crate::models::CommandView;
use crate::models::ExecutionResult;
use crate::models::ExecutionResultView;
use crate::models::Host;
use crate::models::HostView;
use crate::models::Workflow;
use crate::models::WorkflowView;
use crate::records::copy_all;
use crate::records::keys_distinct;
use crate::records::lemma_upserted_distinct;
use crate::records::lemma_without_distinct;
use crate::records::find;
use crate::records::lemma_upserted_elsewhere;
use crate::records::lemma_upserted_once;
use crate::records::lemma_upserted_twice;
use crate::records::lemma_without_absent;
use crate::records::lemma_without_gone;
use crate::records::lookup;
use crate::records::remove_key;
use crate::records::upsert;
use crate::records::upserted;
use crate::records::without;
use crate::text::hex_lower;
use vstd::prelude::*;
use vstd::string::StringSliceAdditionalSpecFns;

verus! {

/// The whole state of a store, as it is written out and read back.
#[derive(Debug, PartialEq, Eq)]
pub struct StoreData {
    pub commands: Vec<Command>,
    pub workflows: Vec<Workflow>,
    pub hosts: Vec<Host>,
    pub executions: Vec<ExecutionResult>,
}

pub struct StoreView {
    pub commands: Seq<CommandView>,
    pub workflows: Seq<WorkflowView>,
    pub hosts: Seq<HostView>,
    pub executions: Seq<ExecutionResultView>,
}

impl View for StoreData {
    type V = StoreView;

    open spec fn view(&self) -> StoreView {
        StoreView {
            commands: self.commands.deep_view(),
            workflows: self.workflows.deep_view(),
            hosts: self.hosts.deep_view(),
            executions: self.executions.deep_view(),
        }
    }
}

impl Clone for StoreData {
    fn clone(&self) -> (copy: Self)
        ensures
            copy@ == self@,
    {
        StoreData {
            commands: copy_all(&self.commands),
            workflows: copy_all(&self.workflows),
            hosts: copy_all(&self.hosts),
            executions: copy_all(&self.executions),
        }
    }
}

impl StoreView {
    /// The state of a store that holds nothing.
    pub open spec fn empty() -> StoreView {
        StoreView {
            commands: Seq::empty(),
            workflows: Seq::empty(),
            hosts: Seq::empty(),
            executions: Seq::empty(),
        }
    }

    /// The state after `command` was written.
    pub open spec fn with_command(self, command: CommandView) -> StoreView {
        StoreView { commands: upserted::<Command>(self.commands, command), ..self }
    }

    /// The state after `host` was written.
    pub open spec fn with_host(self, host: HostView) -> StoreView {
        StoreView { hosts: upserted::<Host>(self.hosts, host), ..self }
    }

    /// The state after `workflow` was written.
    pub open spec fn with_workflow(self, workflow: WorkflowView) -> StoreView {
        StoreView { workflows: upserted::<Workflow>(self.workflows, workflow), ..self }
    }

    /// The state after `result` was written to the history.
    pub open spec fn with_execution(self, result: ExecutionResultView) -> StoreView {
        StoreView { executions: upserted::<ExecutionResult>(self.executions, result), ..self }
    }

    /// The state without the workflow `id`.
    pub open spec fn without_workflow(self, id: u128) -> StoreView {
        StoreView { workflows: without::<Workflow>(self.workflows, id), ..self }
    }

    /// The state without the command `id`.
    pub open spec fn without_command(self, id: u128) -> StoreView {
        StoreView { commands: without::<Command>(self.commands, id), ..self }
    }

    /// Whether some workflow has the command `id` among its steps.
    pub open spec fn is_referenced(self, id: u128) -> bool {
        exists|i: int|
            0 <= i < self.workflows.len() && (#[trigger] self.workflows[i]).commands.contains(id)
    }

    /// The state after an attempt to remove the command `id`: a command that
    /// a workflow refers to stays.
    pub open spec fn after_remove_command(self, id: u128) -> StoreView {
        if self.is_referenced(id) {
            self
        } else {
            self.without_command(id)
        }
    }

    /// The runs of the command `id`, in the order of the history.
    pub open spec fn history(self, id: u128) -> Seq<ExecutionResultView> {
        self.executions.filter(|e: ExecutionResultView| e.command_id == id)
    }

    /// The name of the blob that holds the output of the run `id`.
    pub open spec fn log_name(self, id: u128) -> Option<Seq<char>> {
        match lookup::<ExecutionResult>(self.executions, id) {
            Some(e) => Some(e.log_file),
            None => None,
        }
    }

    /// Whether each list holds each identity at most once.
    pub open spec fn identities_distinct(self) -> bool {
        &&& keys_distinct::<Command>(self.commands)
        &&& keys_distinct::<Workflow>(self.workflows)
        &&& keys_distinct::<Host>(self.hosts)
        &&& keys_distinct::<ExecutionResult>(self.executions)
    }

    /// The state after an import: what was parsed replaces everything; where
    /// nothing could be parsed the state stays.
    pub open spec fn imported(self, parsed: Option<StoreView>) -> StoreView {
        match parsed {
            Some(state) => state,
            None => self,
        }
    }
}

/// Why the store refused an operation.
#[derive(Debug, PartialEq, Eq)]
pub enum StoreError {
    /// The command is a step of some workflow and cannot be removed.
    CommandInUse,
    /// The text to import is not a state of a store; the message says why.
    Serialization(String),
    /// The compressor failed.
    Compression,
}

impl StoreError {
    /// The error in words.
    pub fn message(&self) -> (text: String)
        ensures
            text@ == match self {
                StoreError::CommandInUse => "command is part of a workflow"@,
                StoreError::Serialization(why) => "invalid store data: "@ + why@,
                StoreError::Compression => "compression failed"@,
            },
    {
        match self {
            StoreError::CommandInUse => String::from_str("command is part of a workflow"),
            StoreError::Serialization(why) => {
                let mut text = String::from_str("invalid store data: ");
                text.append(why.as_str());
                text
            },
            StoreError::Compression => String::from_str("compression failed"),
        }
    }
}

/// A compressed log, ready to be written under its name.
#[derive(Debug, PartialEq, Eq)]
pub struct LogBlob {
    pub file_name: String,
    pub bytes: Vec<u8>,
}

/// A compressed copy of a state, named by the digest of its text.
#[derive(Debug, PartialEq, Eq)]
pub struct Snapshot {
    pub hash_hex: String,
    pub file_name: String,
    pub bytes: Vec<u8>,
}

pub struct SnapshotView {
    pub hash_hex: Seq<char>,
    pub file_name: Seq<char>,
    pub bytes: Seq<u8>,
}

impl View for Snapshot {
    type V = SnapshotView;

    open spec fn view(&self) -> SnapshotView {
        SnapshotView { hash_hex: self.hash_hex@, file_name: self.file_name@, bytes: self.bytes@ }
    }
}

/// The name of the file that holds the snapshot with the given digest text.
pub open spec fn snapshot_file_name(hash_hex: Seq<char>) -> Seq<char> {
    hash_hex + ".json.gz"@
}

/// The snapshot of the text with the bytes `text`: named by the SHA-256
/// digest of the bytes in lower-case hexadecimal, held in the file of that
/// name, and holding the gzip stream of the bytes. There is none where the
/// compressor has no stream for the bytes.
pub open spec fn snapshot_of(text: Seq<u8>) -> Option<SnapshotView> {
    match gzip(text) {
        Some(stream) => Some(
            SnapshotView {
                hash_hex: hex_lower(sha256(text)),
                file_name: snapshot_file_name(hex_lower(sha256(text))),
                bytes: stream,
            },
        ),
        None => None,
    }
}

/// Whether `id` is among `ids`.
pub fn contains_id(ids: &Vec<u128>, id: u128) -> (found: bool)
    ensures
        found == ids@.contains(id),
{
    let mut i: usize = 0;
    while i < ids.len()
        invariant
            0 <= i <= ids.len(),
            forall|j: int| 0 <= j < i ==> ids@[j] != id,
        decreases ids.len() - i,
    {
        if ids[i] == id {
            return true;
        }
        i += 1;
    }
    false
}

pub struct CommandStore {
    data: StoreData,
}

impl View for CommandStore {
    type V = StoreView;

    closed spec fn view(&self) -> StoreView {
        self.data@
    }
}

impl CommandStore {
    /// A store that holds nothing.
    pub fn new() -> (store: Self)
        ensures
            store@ == StoreView::empty(),
    {
        let store = CommandStore {
            data: StoreData {
                commands: Vec::new(),
                workflows: Vec::new(),
                hosts: Vec::new(),
                executions: Vec::new(),
            },
        };
        assert(store.data.commands.deep_view() =~= Seq::<CommandView>::empty());
        assert(store.data.workflows.deep_view() =~= Seq::<WorkflowView>::empty());
        assert(store.data.hosts.deep_view() =~= Seq::<HostView>::empty());
        assert(store.data.executions.deep_view() =~= Seq::<ExecutionResultView>::empty());
        store
    }

    /// A store for a test: it holds nothing and shares nothing.
    pub fn new_test() -> (store: Self)
        ensures
            store@ == StoreView::empty(),
    {
        Self::new()
    }

    /// Takes over what was read at start-up. Where nothing could be read
    /// (no file, or an unreadable or damaged one) the store stays as it is.
    pub fn load(&mut self, loaded: Option<StoreData>)
        ensures
            final(self)@ == old(self)@.imported(
                match loaded {
                    Some(data) => Some(data@),
                    None => None,
                },
            ),
    {
        match loaded {
            Some(data) => {
                self.data = data;
            },
            None => {},
        }
    }

    /// Writes `cmd`: a command of the same identity is replaced.
    pub fn add_command(&mut self, cmd: Command) -> (id: u128)
        ensures
            id == cmd.id,
            final(self)@ == old(self)@.with_command(cmd@),
    {
        let id = cmd.id;
        upsert(&mut self.data.commands, cmd);
        id
    }

    /// The command `id`.
    pub fn get_command(&self, id: &u128) -> (found: Option<Command>)
        ensures
            found.deep_view() == lookup::<Command>(self@.commands, *id),
    {
        find(&self.data.commands, *id)
    }

    /// All commands, in the order in which they were last written.
    pub fn list_commands(&self) -> (all: Vec<Command>)
        ensures
            all.deep_view() == self@.commands,
    {
        copy_all(&self.data.commands)
    }

    /// Removes the command `id`, unless a workflow refers to it: then the
    /// store stays as it is and the error says so. Removing a command that
    /// is not there succeeds and changes nothing.
    pub fn remove_command(&mut self, id: &u128) -> (done: Result<(), StoreError>)
        ensures
            final(self)@ == old(self)@.after_remove_command(*id),
            old(self)@.is_referenced(*id) ==> done == Err::<(), StoreError>(
                StoreError::CommandInUse,
            ),
            !old(self)@.is_referenced(*id) ==> done is Ok,
    {
        if self.is_command_in_workflow(id) {
            Err(StoreError::CommandInUse)
        } else {
            remove_key(&mut self.data.commands, *id);
            Ok(())
        }
    }

    /// Writes `host`: a host of the same identity is replaced.
    pub fn add_host(&mut self, host: Host) -> (id: u128)
        ensures
            id == host.id,
            final(self)@ == old(self)@.with_host(host@),
    {
        let id = host.id;
        upsert(&mut self.data.hosts, host);
        id
    }

    /// The host `id`.
    pub fn get_host(&self, id: &u128) -> (found: Option<Host>)
        ensures
            found.deep_view() == lookup::<Host>(self@.hosts, *id),
    {
        find(&self.data.hosts, *id)
    }

    /// All hosts, in the order in which they were last written.
    pub fn list_hosts(&self) -> (all: Vec<Host>)
        ensures
            all.deep_view() == self@.hosts,
    {
        copy_all(&self.data.hosts)
    }

    /// Writes `workflow`: a workflow of the same identity is replaced.
    pub fn add_workflow(&mut self, workflow: Workflow) -> (id: u128)
        ensures
            id == workflow.id,
            final(self)@ == old(self)@.with_workflow(workflow@),
    {
        let id = workflow.id;
        upsert(&mut self.data.workflows, workflow);
        id
    }

    /// The workflow `id`.
    pub fn get_workflow(&self, id: &u128) -> (found: Option<Workflow>)
        ensures
            found.deep_view() == lookup::<Workflow>(self@.workflows, *id),
    {
        find(&self.data.workflows, *id)
    }

    /// All workflows, in the order in which they were last written.
    pub fn list_workflows(&self) -> (all: Vec<Workflow>)
        ensures
            all.deep_view() == self@.workflows,
    {
        copy_all(&self.data.workflows)
    }

    /// Removes the workflow `id`.
    pub fn remove_workflow(&mut self, id: &u128)
        ensures
            final(self)@ == old(self)@.without_workflow(*id),
    {
        remove_key(&mut self.data.workflows, *id);
    }

    /// Whether some workflow has the command `cmd_id` among its steps.
    pub fn is_command_in_workflow(&self, cmd_id: &u128) -> (referenced: bool)
        ensures
            referenced == self@.is_referenced(*cmd_id),
    {
        let mut i: usize = 0;
        while i < self.data.workflows.len()
            invariant
                0 <= i <= self.data.workflows.len(),
                forall|j: int|
                    0 <= j < i ==> !(#[trigger] self@.workflows[j]).commands.contains(*cmd_id),
            decreases self.data.workflows.len() - i,
        {
            if contains_id(&self.data.workflows[i].commands, *cmd_id) {
                assert(self@.workflows[i as int].commands.contains(*cmd_id));
                return true;
            }
            i += 1;
        }
        false
    }

    /// Writes `result` to the history and compresses `output` for the blob
    /// that `result` names. The history is written whether or not the
    /// compressor succeeds. The blob comes back exactly where the
    /// compressor has a stream for the bytes of `output`: it holds that
    /// stream, under the name that `result` gives. Without a blob there is
    /// nothing to write to disk.
    pub fn add_execution(&mut self, result: &ExecutionResult, output: &str) -> (blob: Option<
        LogBlob,
    >)
        ensures
            final(self)@ == old(self)@.with_execution(result@),
            match gzip(output.spec_bytes()) {
                Some(stream) => blob matches Some(log) && log.file_name@ == result.log_file@
                    && log.bytes@ == stream,
                None => blob is None,
            },
    {
        let stream = match gzip_compress(output.as_bytes()) {
            Ok(bytes) => Some(bytes),
            Err(_) => None,
        };
        self.record_execution(result, stream)
    }

    /// Writes `result` to the history and, where `stream` holds the
    /// compressed output, names the blob that it goes to.
    pub fn record_execution(&mut self, result: &ExecutionResult, stream: Option<Vec<u8>>) -> (blob:
        Option<LogBlob>)
        ensures
            final(self)@ == old(self)@.with_execution(result@),
            stream is None ==> blob is None,
            stream matches Some(bytes) ==> (blob matches Some(log) && log.file_name@
                == result.log_file@ && log.bytes@ == bytes@),
    {
        upsert(&mut self.data.executions, result.clone());
        match stream {
            Some(bytes) => Some(LogBlob { file_name: result.log_file.clone(), bytes }),
            None => None,
        }
    }

    /// The runs of the command `cmd_id`, in the order of the history.
    pub fn get_execution_history(&self, cmd_id: &u128) -> (runs: Vec<ExecutionResult>)
        ensures
            runs.deep_view() == self@.history(*cmd_id),
    {
        let ghost of_command = |e: ExecutionResultView| e.command_id == *cmd_id;
        let ghost all = self.data.executions.deep_view();
        let mut runs: Vec<ExecutionResult> = Vec::new();
        let mut i: usize = 0;
        proof {
            reveal(Seq::filter);
            assert(all.take(0) == Seq::<ExecutionResultView>::empty());
        }
        while i < self.data.executions.len()
            invariant
                0 <= i <= self.data.executions.len(),
                all == self.data.executions.deep_view(),
                of_command == |e: ExecutionResultView| e.command_id == *cmd_id,
                runs.deep_view() == all.take(i as int).filter(of_command),
            decreases self.data.executions.len() - i,
        {
            let ghost so_far = runs.deep_view();
            proof {
                assert(all.take(i + 1) == all.take(i as int).push(all[i as int]));
                all.take(i as int).lemma_filter_push(all[i as int], of_command);
            }
            if self.data.executions[i].command_id == *cmd_id {
                runs.push(self.data.executions[i].clone());
                assert(runs.deep_view() == so_far.push(all[i as int]));
            }
            i += 1;
        }
        assert(all.take(i as int) == all);
        runs
    }

    /// The name of the blob that holds the output of the run `exec_id`;
    /// `None` where the history has no such run.
    pub fn execution_log_name(&self, exec_id: &u128) -> (name: Option<String>)
        ensures
            name.deep_view() == self@.log_name(*exec_id),
    {
        match find(&self.data.executions, *exec_id) {
            Some(result) => Some(result.log_file),
            None => None,
        }
    }

    /// The output of the run `exec_id`, given the bytes of its blob: `None`
    /// where the history has no such run or the blob cannot be unpacked.
    pub fn get_execution_log(&self, exec_id: &u128, blob: &[u8]) -> (log: Option<String>)
        ensures
            log.deep_view() == if self@.log_name(*exec_id) is Some {
                gunzip_text(blob@)
            } else {
                None
            },
    {
        match self.execution_log_name(exec_id) {
            Some(_) => read_log(blob),
            None => None,
        }
    }

    /// The whole state, for writing out.
    pub fn export_json(&self) -> (data: StoreData)
        ensures
            data@ == self@,
    {
        self.data.clone()
    }

    /// Replaces the whole state by what was parsed from the text to import.
    /// Where the text could not be parsed, `parsed` holds the parser's
    /// message: the state stays and the error carries the message.
    pub fn import_json(&mut self, parsed: Result<StoreData, String>) -> (done: Result<
        (),
        StoreError,
    >)
        ensures
            final(self)@ == old(self)@.imported(
                match parsed {
                    Ok(data) => Some(data@),
                    Err(_) => None,
                },
            ),
            parsed is Ok ==> done is Ok,
            parsed matches Err(why) ==> (done matches Err(StoreError::Serialization(text))
                && text@ == why@),
    {
        match parsed {
            Ok(data) => {
                self.data = data;
                Ok(())
            },
            Err(why) => Err(StoreError::Serialization(why)),
        }
    }

    /// The snapshot of a state, given its text: the digest of the text in
    /// hexadecimal, 64 digits long, the file named by it, and the
    /// compressed text. It succeeds exactly where the compressor has a
    /// stream for the text, and equal texts give equal snapshots.
    pub fn snapshot_state(json: &str) -> (snapshot: Result<Snapshot, StoreError>)
        ensures
            match snapshot {
                Ok(s) => snapshot_of(json.spec_bytes()) == Some(s@) && s.hash_hex@.len() == 64,
                Err(e) => snapshot_of(json.spec_bytes()) is None && e == StoreError::Compression,
            },
    {
        let digest = sha256_digest(json.as_bytes());
        let stream = match gzip_compress(json.as_bytes()) {
            Ok(bytes) => Some(bytes),
            Err(_) => None,
        };
        seal_snapshot(digest.as_slice(), stream)
    }
}

/// The text that a blob unpacks to.
pub fn read_log(blob: &[u8]) -> (log: Option<String>)
    ensures
        log.deep_view() == gunzip_text(blob@),
{
    match gzip_decompress(blob) {
        Ok(text) => Some(text),
        Err(_) => None,
    }
}

/// Names a snapshot by its digest: the name is the digest in lower-case
/// hexadecimal, the file that name with `.json.gz` behind it. Without a
/// compressed stream there is no snapshot.
pub fn seal_snapshot(digest: &[u8], stream: Option<Vec<u8>>) -> (snapshot: Result<
    Snapshot,
    StoreError,
>)
    ensures
        stream is None ==> snapshot == Err::<Snapshot, StoreError>(StoreError::Compression),
        stream matches Some(bytes) ==> (snapshot matches Ok(s) && s.hash_hex@ == hex_lower(digest@)
            && s.file_name@ == snapshot_file_name(s.hash_hex@) && s.bytes@ == bytes@),
{
    match stream {
        Some(bytes) => {
            let hash_hex = hex_encode(digest);
            let mut file_name = hash_hex.clone();
            file_name.append(".json.gz");
            Ok(Snapshot { hash_hex, file_name, bytes })
        },
        None => Err(StoreError::Compression),
    }
}

/// Import restores what export handed out: whatever a store held before, it
/// holds the commands, workflows, hosts and history of the exporting store
/// afterwards, each list in the same order.
pub proof fn lemma_import_restores_export(source: StoreView, target: StoreView)
    ensures
        target.imported(Some(source)) == source,
        target.imported(Some(source)).commands == source.commands,
        target.imported(Some(source)).workflows == source.workflows,
        target.imported(Some(source)).hosts == source.hosts,
        target.imported(Some(source)).executions == source.executions,
{
}

/// Writing a command twice under one identity leaves exactly one record of
/// that identity, the second one; the store is as if only the second had
/// been written.
pub proof fn lemma_add_command_twice(store: StoreView, first: CommandView, second: CommandView)
    requires
        first.id == second.id,
    ensures
        store.with_command(first).with_command(second) == store.with_command(second),
        store.with_command(first).with_command(second).commands.filter(
            |c: CommandView| c.id == second.id,
        ) == seq![second],
        lookup::<Command>(store.with_command(first).with_command(second).commands, second.id)
            == Some(second),
{
    lemma_upserted_twice::<Command>(store.commands, first, second);
    lemma_upserted_once::<Command>(store.commands, second);
    assert(crate::records::has_key::<Command>(second.id) == (|c: CommandView|
        c.id == second.id));
}

/// A store that holds each identity once still does after any write or
/// removal: no operation makes a duplicate.
pub proof fn lemma_identities_stay_distinct(
    store: StoreView,
    command: CommandView,
    host: HostView,
    workflow: WorkflowView,
    result: ExecutionResultView,
    id: u128,
)
    requires
        store.identities_distinct(),
    ensures
        StoreView::empty().identities_distinct(),
        store.with_command(command).identities_distinct(),
        store.with_host(host).identities_distinct(),
        store.with_workflow(workflow).identities_distinct(),
        store.with_execution(result).identities_distinct(),
        store.without_workflow(id).identities_distinct(),
        store.after_remove_command(id).identities_distinct(),
{
    lemma_upserted_distinct::<Command>(store.commands, command);
    lemma_upserted_distinct::<Host>(store.hosts, host);
    lemma_upserted_distinct::<Workflow>(store.workflows, workflow);
    lemma_upserted_distinct::<ExecutionResult>(store.executions, result);
    lemma_without_distinct::<Workflow>(store.workflows, id);
    lemma_without_distinct::<Command>(store.commands, id);
}

/// Writing a command leaves every other command as it was.
pub proof fn lemma_add_command_keeps_others(store: StoreView, command: CommandView, other: u128)
    requires
        other != command.id,
    ensures
        lookup::<Command>(store.with_command(command).commands, other) == lookup::<Command>(
            store.commands,
            other,
        ),
{
    lemma_upserted_elsewhere::<Command>(store.commands, command, other);
}

/// A command that a workflow refers to cannot be removed: the attempt
/// leaves the store as it was.
pub proof fn lemma_referenced_command_stays(store: StoreView, id: u128)
    requires
        store.is_referenced(id),
    ensures
        store.after_remove_command(id) == store,
{
}

/// Removing a command that is not in the store changes nothing.
pub proof fn lemma_remove_absent_command(store: StoreView, id: u128)
    requires
        lookup::<Command>(store.commands, id) is None,
    ensures
        store.after_remove_command(id) == store,
{
    lemma_without_absent::<Command>(store.commands, id);
}

/// Once the workflows that refer to a command are removed, the command can
/// be removed: if every workflow that has the command among its steps has
/// the identity `workflow`, then without that workflow nothing refers to the
/// command, and removing the command takes it out of the store.
pub proof fn lemma_removal_after_workflow(store: StoreView, workflow: u128, id: u128)
    requires
        forall|i: int|
            0 <= i < store.workflows.len() && (#[trigger] store.workflows[i]).commands.contains(
                id,
            ) ==> store.workflows[i].id == workflow,
    ensures
        !store.without_workflow(workflow).is_referenced(id),
        store.without_workflow(workflow).after_remove_command(id) == store.without_workflow(
            workflow,
        ).without_command(id),
        lookup::<Command>(store.without_workflow(workflow).after_remove_command(id).commands, id)
            is None,
{
    let rest = store.without_workflow(workflow);
    assert forall|i: int| 0 <= i < rest.workflows.len() implies !(
    #[trigger] rest.workflows[i]).commands.contains(id) by {
        crate::records::lemma_kept_from::<Workflow>(store.workflows, workflow, i);
        crate::records::lemma_without_lacks::<Workflow>(store.workflows, workflow);
    }
    lemma_without_gone::<Command>(rest.commands, id);
}

} // verus!
