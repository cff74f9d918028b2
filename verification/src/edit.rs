//! The fields of a command or a workflow while they are being edited: every
//! text is present, an absent one as the empty text.

use crate::models::clone_env_vars;
use crate::models::Command;
use crate::models::CommandView;
use crate::models::EnvVar;
use crate::models::EnvVarView;
use crate::models::Workflow;
use crate::models::WorkflowView;
use vstd::prelude::*;

verus! {

/// The text of an optional text: the empty text where there is none.
pub open spec fn text_or_empty(text: Option<Seq<char>>) -> Seq<char> {
    match text {
        Some(t) => t,
        None => Seq::empty(),
    }
}

/// The optional text of a text: none where it is empty.
pub open spec fn none_if_empty(text: Seq<char>) -> Option<Seq<char>> {
    if text.len() == 0 {
        None
    } else {
        Some(text)
    }
}

/// A copy of the text of an optional text.
pub fn unwrap_or_empty(text: &Option<String>) -> (copy: String)
    ensures
        copy@ == text_or_empty(text.deep_view()),
{
    match text {
        Some(t) => t.clone(),
        None => String::new(),
    }
}

/// A copy of a text as an optional text.
pub fn some_unless_empty(text: &String) -> (copy: Option<String>)
    ensures
        copy.deep_view() == none_if_empty(text@),
{
    if text.as_str().is_empty() {
        None
    } else {
        Some(text.clone())
    }
}

/// A command under edit.
#[derive(Debug, PartialEq, Eq)]
pub struct CommandEditState {
    pub name: String,
    pub description: String,
    pub host: String,
    pub user: String,
    pub working_directory: String,
    pub script: String,
    pub is_local: bool,
    pub background: bool,
    pub env_vars: Vec<EnvVar>,
}

pub struct CommandEditStateView {
    pub name: Seq<char>,
    pub description: Seq<char>,
    pub host: Seq<char>,
    pub user: Seq<char>,
    pub working_directory: Seq<char>,
    pub script: Seq<char>,
    pub is_local: bool,
    pub background: bool,
    pub env_vars: Seq<EnvVarView>,
}

impl View for CommandEditState {
    type V = CommandEditStateView;

    open spec fn view(&self) -> CommandEditStateView {
        CommandEditStateView {
            name: self.name@,
            description: self.description@,
            host: self.host@,
            user: self.user@,
            working_directory: self.working_directory@,
            script: self.script@,
            is_local: self.is_local,
            background: self.background,
            env_vars: self.env_vars.deep_view(),
        }
    }
}

impl CommandEditStateView {
    /// The fields of `command` as they are put up for editing. A command
    /// without a host is one for this machine.
    pub open spec fn of(command: CommandView) -> CommandEditStateView {
        CommandEditStateView {
            name: command.name,
            description: text_or_empty(command.description),
            host: text_or_empty(command.host),
            user: text_or_empty(command.user),
            working_directory: text_or_empty(command.working_directory),
            script: command.script,
            is_local: command.host is None,
            background: command.background,
            env_vars: command.env_vars,
        }
    }

    /// `command` with the edited fields written to it. An empty description
    /// or working directory is none. A command for this machine has no host
    /// and no user; any other keeps both, empty or not, so that clearing
    /// the host does not make it a command for this machine.
    pub open spec fn applied(self, command: CommandView) -> CommandView {
        CommandView {
            name: self.name,
            description: none_if_empty(self.description),
            host: if self.is_local {
                None
            } else {
                Some(self.host)
            },
            user: if self.is_local {
                None
            } else {
                Some(self.user)
            },
            working_directory: none_if_empty(self.working_directory),
            script: self.script,
            background: self.background,
            env_vars: self.env_vars,
            ..command
        }
    }
}

impl CommandEditState {
    /// The fields of `cmd`, put up for editing.
    pub fn from_command(cmd: &Command) -> (state: Self)
        ensures
            state@ == CommandEditStateView::of(cmd@),
    {
        CommandEditState {
            name: cmd.name.clone(),
            description: unwrap_or_empty(&cmd.description),
            host: unwrap_or_empty(&cmd.host),
            user: unwrap_or_empty(&cmd.user),
            working_directory: unwrap_or_empty(&cmd.working_directory),
            script: cmd.script.clone(),
            is_local: cmd.host.is_none(),
            background: cmd.background,
            env_vars: clone_env_vars(&cmd.env_vars),
        }
    }

    /// Writes the edited fields to `cmd`. Its identity, its target hosts,
    /// its time of creation and its source path stay.
    pub fn apply_to_command(&self, cmd: &mut Command)
        ensures
            final(cmd)@ == self@.applied(old(cmd)@),
    {
        cmd.name = self.name.clone();
        cmd.description = some_unless_empty(&self.description);
        if self.is_local {
            cmd.host = None;
            cmd.user = None;
        } else {
            cmd.host = Some(self.host.clone());
            cmd.user = Some(self.user.clone());
        }
        cmd.working_directory = some_unless_empty(&self.working_directory);
        cmd.script = self.script.clone();
        cmd.background = self.background;
        cmd.env_vars = clone_env_vars(&self.env_vars);
    }
}

/// Putting a command up for editing and writing the fields back unchanged
/// gives the command again, provided that none of its optional texts is
/// present and empty and that it has a user only with a host.
pub proof fn lemma_edit_round_trip(command: CommandView)
    requires
        command.description != Some(Seq::<char>::empty()),
        command.working_directory != Some(Seq::<char>::empty()),
        command.host is None ==> command.user is None,
        command.host is Some ==> command.user is Some,
    ensures
        CommandEditStateView::of(command).applied(command) == command,
{
    let edited = CommandEditStateView::of(command).applied(command);
    assert(edited.description == command.description) by {
        if command.description is Some {
            assert(command.description->0.len() != 0) by {
                if command.description->0.len() == 0 {
                    assert(command.description->0 =~= Seq::<char>::empty());
                }
            }
        }
    }
    assert(edited.working_directory == command.working_directory) by {
        if command.working_directory is Some {
            assert(command.working_directory->0.len() != 0) by {
                if command.working_directory->0.len() == 0 {
                    assert(command.working_directory->0 =~= Seq::<char>::empty());
                }
            }
        }
    }
}

/// A workflow under edit.
#[derive(Debug, PartialEq, Eq)]
pub struct WorkflowEditState {
    pub name: String,
    pub description: String,
    pub commands: Vec<u128>,
    pub env_vars: Vec<EnvVar>,
}

pub struct WorkflowEditStateView {
    pub name: Seq<char>,
    pub description: Seq<char>,
    pub commands: Seq<u128>,
    pub env_vars: Seq<EnvVarView>,
}

impl View for WorkflowEditState {
    type V = WorkflowEditStateView;

    open spec fn view(&self) -> WorkflowEditStateView {
        WorkflowEditStateView {
            name: self.name@,
            description: self.description@,
            commands: self.commands@,
            env_vars: self.env_vars.deep_view(),
        }
    }
}

impl WorkflowEditStateView {
    /// The fields of `workflow` as they are put up for editing.
    pub open spec fn of(workflow: WorkflowView) -> WorkflowEditStateView {
        WorkflowEditStateView {
            name: workflow.name,
            description: text_or_empty(workflow.description),
            commands: workflow.commands,
            env_vars: workflow.env_vars,
        }
    }

    /// `workflow` with the edited fields written to it.
    pub open spec fn applied(self, workflow: WorkflowView) -> WorkflowView {
        WorkflowView {
            name: self.name,
            description: none_if_empty(self.description),
            commands: self.commands,
            env_vars: self.env_vars,
            ..workflow
        }
    }
}

impl WorkflowEditState {
    /// The fields of `wf`, put up for editing.
    pub fn from_workflow(wf: &Workflow) -> (state: Self)
        ensures
            state@ == WorkflowEditStateView::of(wf@),
    {
        WorkflowEditState {
            name: wf.name.clone(),
            description: unwrap_or_empty(&wf.description),
            commands: wf.commands.clone(),
            env_vars: clone_env_vars(&wf.env_vars),
        }
    }

    /// Writes the edited fields to `wf`. Its identity and its time of
    /// creation stay.
    pub fn apply_to_workflow(&self, wf: &mut Workflow)
        ensures
            final(wf)@ == self@.applied(old(wf)@),
    {
        wf.name = self.name.clone();
        wf.description = some_unless_empty(&self.description);
        wf.commands = self.commands.clone();
        wf.env_vars = clone_env_vars(&self.env_vars);
    }
}

} // verus!
