//! Writing the store to disk so that the file is never seen half written.
//!
//! The new text goes to a sibling file first, is forced to stable storage
//! there, and takes the place of the live file in one atomic rename. So a
//! reader, or the next start after a crash, finds the old text or the new
//! one, never a mixture. What is done here is the order of the steps and
//! what follows from the failure of each; the steps themselves belong to
//! whoever holds the file system.

use crate::models::Command;
use crate::store::CommandStore;
use vstd::prelude::*;

verus! {

/// Writes `command` to `store`, replacing a command of the same identity.
pub fn save_command(store: &mut CommandStore, command: &Command)
    ensures
        final(store)@ == old(store)@.with_command(command@),
{
    store.add_command(command.clone());
}

/// The name of the file that holds the state, within the data directory.
pub open spec fn store_file_name() -> Seq<char> {
    "store.json"@
}

/// The name of the directory that holds one compressed log for each run,
/// beside the state file.
pub open spec fn executions_dir_name() -> Seq<char> {
    "executions"@
}

/// The name of the directory that holds the snapshots, beside the state
/// file.
pub open spec fn snapshots_dir_name() -> Seq<char> {
    "snapshots"@
}

/// The sibling file that new text is written to before it replaces the
/// file at `path`.
pub open spec fn temp_path_of(path: Seq<char>) -> Seq<char> {
    path + ".tmp"@
}

/// The name of the state file.
pub fn store_file() -> (name: String)
    ensures
        name@ == store_file_name(),
{
    String::from_str("store.json")
}

/// The name of the directory of the logs.
pub fn executions_dir() -> (name: String)
    ensures
        name@ == executions_dir_name(),
{
    String::from_str("executions")
}

/// The name of the directory of the snapshots.
pub fn snapshots_dir() -> (name: String)
    ensures
        name@ == snapshots_dir_name(),
{
    String::from_str("snapshots")
}

/// The sibling file to write before the file at `path` is replaced.
pub fn temp_path(path: &str) -> (temp: String)
    ensures
        temp@ == temp_path_of(path@),
{
    let mut temp = String::from_str(path);
    temp.append(".tmp");
    temp
}

/// Where a save stands: the step to take next, or how the save ended.
#[derive(Debug, Clone, Copy, PartialEq, Eq, Structural)]
pub enum SavePhase {
    /// Write the new text to the sibling file.
    WriteTemp,
    /// Open the sibling file and force it to stable storage.
    SyncTemp,
    /// Rename the sibling file over the live file.
    Rename,
    /// Force the entry of the directory to stable storage. A failure here
    /// does not undo the save.
    SyncDirectory,
    /// A step has failed: remove the sibling file, if it is there.
    CleanUp,
    /// The new text is in place.
    Saved,
    /// The save has failed; the live file is as it was.
    Failed,
}

impl SavePhase {
    /// Whether the save is over.
    pub open spec fn is_over(self) -> bool {
        self == SavePhase::Saved || self == SavePhase::Failed
    }

    /// The phase after the step of this phase was taken, with or without
    /// success.
    pub open spec fn after(self, succeeded: bool) -> SavePhase {
        match self {
            SavePhase::WriteTemp => if succeeded {
                SavePhase::SyncTemp
            } else {
                SavePhase::CleanUp
            },
            SavePhase::SyncTemp => if succeeded {
                SavePhase::Rename
            } else {
                SavePhase::CleanUp
            },
            SavePhase::Rename => if succeeded {
                SavePhase::SyncDirectory
            } else {
                SavePhase::CleanUp
            },
            SavePhase::SyncDirectory => SavePhase::Saved,
            SavePhase::CleanUp => SavePhase::Failed,
            SavePhase::Saved => SavePhase::Saved,
            SavePhase::Failed => SavePhase::Failed,
        }
    }

    /// The first step of a save.
    pub fn start() -> (phase: SavePhase)
        ensures
            phase == SavePhase::WriteTemp,
    {
        SavePhase::WriteTemp
    }

    /// Whether the save is over.
    pub fn finished(&self) -> (over: bool)
        ensures
            over == self.is_over(),
    {
        match self {
            SavePhase::Saved | SavePhase::Failed => true,
            _ => false,
        }
    }

    /// The phase after the step of this phase was taken.
    pub fn advance(&self, succeeded: bool) -> (next: SavePhase)
        ensures
            next == self.after(succeeded),
    {
        match self {
            SavePhase::WriteTemp => if succeeded {
                SavePhase::SyncTemp
            } else {
                SavePhase::CleanUp
            },
            SavePhase::SyncTemp => if succeeded {
                SavePhase::Rename
            } else {
                SavePhase::CleanUp
            },
            SavePhase::Rename => if succeeded {
                SavePhase::SyncDirectory
            } else {
                SavePhase::CleanUp
            },
            SavePhase::SyncDirectory => SavePhase::Saved,
            SavePhase::CleanUp => SavePhase::Failed,
            SavePhase::Saved => SavePhase::Saved,
            SavePhase::Failed => SavePhase::Failed,
        }
    }
}

/// The two files of a save, as far as their content matters: what the live
/// file holds and what the sibling file holds, each absent or a text.
pub struct Disk {
    pub live: Option<Seq<u8>>,
    pub temp: Option<Seq<u8>>,
}

/// What the step of `phase` can leave of `before`, when it writes `text`.
///
/// A write touches the sibling file only, and leaves `text` there if it
/// succeeds; if it fails the sibling file may hold anything. A sync changes
/// no content. A rename is atomic: it puts the sibling file in the place of
/// the live file or does nothing. The clean-up touches the sibling file
/// only.
pub open spec fn may_follow(
    before: Disk,
    phase: SavePhase,
    text: Seq<u8>,
    succeeded: bool,
    after: Disk,
) -> bool {
    match phase {
        SavePhase::WriteTemp => after.live == before.live && (succeeded ==> after.temp == Some(
            text,
        )),
        SavePhase::Rename => if succeeded {
            after.live == before.temp && after.temp is None
        } else {
            after == before
        },
        SavePhase::CleanUp => after.live == before.live && (succeeded ==> after.temp is None),
        _ => after == before,
    }
}

/// What holds of the disk in each phase of a save of `text` over a live
/// file that held `old`: until the rename the live file is untouched, from
/// the rename on it holds the new text, and after a failure it is as it
/// was.
pub open spec fn save_invariant(old: Option<Seq<u8>>, text: Seq<u8>, phase: SavePhase, disk: Disk) -> bool {
    match phase {
        SavePhase::WriteTemp => disk.live == old,
        SavePhase::SyncTemp | SavePhase::Rename => disk.live == old && disk.temp == Some(text),
        SavePhase::SyncDirectory | SavePhase::Saved => disk.live == Some(text),
        SavePhase::CleanUp | SavePhase::Failed => disk.live == old,
    }
}

/// At the start of a save the live file holds the old text.
pub proof fn lemma_save_starts_whole(old: Option<Seq<u8>>, text: Seq<u8>, disk: Disk)
    requires
        disk.live == old,
    ensures
        save_invariant(old, text, SavePhase::WriteTemp, disk),
{
}

/// Each step of a save leaves the live file whole: it holds the old text
/// or the new one, whether the step succeeds or fails, and the invariant
/// of the next phase holds.
pub proof fn lemma_save_step_keeps_whole(
    old: Option<Seq<u8>>,
    text: Seq<u8>,
    phase: SavePhase,
    disk: Disk,
    succeeded: bool,
    after: Disk,
)
    requires
        save_invariant(old, text, phase, disk),
        may_follow(disk, phase, text, succeeded, after),
    ensures
        save_invariant(old, text, phase.after(succeeded), after),
        after.live == old || after.live == Some(text),
{
}

/// A save that ends as saved has put the new text in place, and one that
/// ends as failed has left the old.
pub proof fn lemma_save_ends_whole(
    old: Option<Seq<u8>>,
    text: Seq<u8>,
    phase: SavePhase,
    disk: Disk,
)
    requires
        save_invariant(old, text, phase, disk),
        phase.is_over(),
    ensures
        phase == SavePhase::Saved ==> disk.live == Some(text),
        phase == SavePhase::Failed ==> disk.live == old,
{
}

/// A save is over after at most five steps, whatever fails.
pub proof fn lemma_save_terminates(a: bool, b: bool, c: bool, d: bool, e: bool)
    ensures
        SavePhase::WriteTemp.after(a).after(b).after(c).after(d).after(e).is_over(),
{
}

} // verus!
