//! What is shown to the user and what was shown before, and the saving of
//! edits when the user moves on.

use crate::edit::CommandEditState;
use crate::edit::CommandEditStateView;
use crate::edit::WorkflowEditState;
use crate::edit::WorkflowEditStateView;
use crate::models::Command;
use crate::models::Workflow;
use crate::records::lookup;
use crate::store::CommandStore;
use crate::store::StoreView;
use vstd::prelude::*;

verus! {

/// What is shown: a command, a run, or a workflow.
#[derive(Debug, Clone, Copy, PartialEq, Eq, Structural)]
pub enum Selection {
    Command(u128),
    Execution(u128),
    Workflow(u128),
}

/// What is shown now and what was shown before, the latest last.
#[derive(Debug, PartialEq, Eq)]
pub struct Navigation {
    pub active: Option<Selection>,
    pub history: Vec<Selection>,
}

pub struct NavigationView {
    pub active: Option<Selection>,
    pub history: Seq<Selection>,
}

impl View for Navigation {
    type V = NavigationView;

    open spec fn view(&self) -> NavigationView {
        NavigationView { active: self.active, history: self.history@ }
    }
}

impl NavigationView {
    /// After going to `selection`: what was shown goes to the history,
    /// unless it is what is asked for.
    pub open spec fn to(self, selection: Selection) -> NavigationView {
        match self.active {
            Some(current) => if current != selection {
                NavigationView { active: Some(selection), history: self.history.push(current) }
            } else {
                self
            },
            None => NavigationView { active: Some(selection), history: self.history },
        }
    }

    /// After going back: the latest of the history is shown again; with an
    /// empty history nothing is shown.
    pub open spec fn back(self) -> NavigationView {
        if self.history.len() > 0 {
            NavigationView {
                active: Some(self.history.last()),
                history: self.history.drop_last(),
            }
        } else {
            NavigationView { active: None, history: self.history }
        }
    }
}

impl Navigation {
    /// Nothing shown, nothing shown before.
    pub fn new() -> (nav: Self)
        ensures
            nav@ == (NavigationView { active: None, history: Seq::empty() }),
    {
        Navigation { active: None, history: Vec::new() }
    }

    /// Goes to `selection`. Says whether something else was shown before,
    /// so that its edits can be saved.
    pub fn navigate_to(&mut self, selection: Selection) -> (left: bool)
        ensures
            final(self)@ == old(self)@.to(selection),
            left == (old(self).active is Some && old(self).active != Some(selection)),
    {
        match self.active {
            Some(current) => {
                if current != selection {
                    self.history.push(current);
                    self.active = Some(selection);
                    true
                } else {
                    false
                }
            },
            None => {
                self.active = Some(selection);
                false
            },
        }
    }

    /// Goes back. Says whether something was shown before, so that its
    /// edits can be saved.
    pub fn navigate_back(&mut self) -> (left: bool)
        ensures
            final(self)@ == old(self)@.back(),
            left == (old(self).history@.len() > 0 || old(self).active is Some),
    {
        match self.history.pop() {
            Some(previous) => {
                self.active = Some(previous);
                true
            },
            None => {
                let shown = self.active.is_some();
                self.active = None;
                shown
            },
        }
    }
}

/// Going back after going to another selection shows what was shown, with
/// the history as it was.
pub proof fn lemma_back_undoes_to(nav: NavigationView, selection: Selection)
    requires
        nav.active is Some,
        nav.active != Some(selection),
    ensures
        nav.to(selection).back() == nav,
{
    assert(nav.history.push(nav.active->0).drop_last() == nav.history);
}

/// The store after the edits of the command that is shown were saved:
/// where a command is shown, is in the store and is under edit, it is
/// written back with the edited fields; else the store stays.
pub open spec fn with_command_edits(
    store: StoreView,
    active: Option<Selection>,
    edited: Option<CommandEditStateView>,
) -> StoreView {
    match (active, edited) {
        (Some(Selection::Command(id)), Some(edits)) => match lookup::<Command>(
            store.commands,
            id,
        ) {
            Some(command) => store.with_command(edits.applied(command)),
            None => store,
        },
        _ => store,
    }
}

/// The store after the edits of the workflow that is shown were saved.
pub open spec fn with_workflow_edits(
    store: StoreView,
    active: Option<Selection>,
    edited: Option<WorkflowEditStateView>,
) -> StoreView {
    match (active, edited) {
        (Some(Selection::Workflow(id)), Some(edits)) => match lookup::<Workflow>(
            store.workflows,
            id,
        ) {
            Some(workflow) => store.with_workflow(edits.applied(workflow)),
            None => store,
        },
        _ => store,
    }
}

/// Saves the edits of the command that is shown. Says whether the store
/// was written.
pub fn save_current_command(
    store: &mut CommandStore,
    active: Option<Selection>,
    edited: Option<&CommandEditState>,
) -> (written: bool)
    ensures
        final(store)@ == with_command_edits(
            old(store)@,
            active,
            match edited {
                Some(e) => Some(e@),
                None => None,
            },
        ),
        written == (active matches Some(Selection::Command(id)) && edited is Some && lookup::<
            Command,
        >(old(store)@.commands, id) is Some),
{
    match (active, edited) {
        (Some(Selection::Command(id)), Some(edits)) => {
            match store.get_command(&id) {
                Some(command) => {
                    let mut command = command;
                    edits.apply_to_command(&mut command);
                    store.add_command(command);
                    true
                },
                None => false,
            }
        },
        _ => false,
    }
}

/// Saves the edits of the workflow that is shown. Says whether the store
/// was written.
pub fn save_current_workflow(
    store: &mut CommandStore,
    active: Option<Selection>,
    edited: Option<&WorkflowEditState>,
) -> (written: bool)
    ensures
        final(store)@ == with_workflow_edits(
            old(store)@,
            active,
            match edited {
                Some(e) => Some(e@),
                None => None,
            },
        ),
        written == (active matches Some(Selection::Workflow(id)) && edited is Some && lookup::<
            Workflow,
        >(old(store)@.workflows, id) is Some),
{
    match (active, edited) {
        (Some(Selection::Workflow(id)), Some(edits)) => {
            match store.get_workflow(&id) {
                Some(workflow) => {
                    let mut workflow = workflow;
                    edits.apply_to_workflow(&mut workflow);
                    store.add_workflow(workflow);
                    true
                },
                None => false,
            }
        },
        _ => false,
    }
}

} // verus!
