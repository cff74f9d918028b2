//! What happens when a run is asked for: whether the user is asked for
//! values first, with what environment a command or a workflow runs, and
//! how a workflow moves from step to step.

use crate::edit::text_or_empty;
use crate::edit::unwrap_or_empty;
use crate::environment::Binding;
use crate::environment::EnvMap;
use crate::environment::bound;
use crate::environment::lemma_bound;
use crate::environment::names_distinct;
use crate::environment::overridden;
use crate::environment::value_of;
use crate::environment::with_vars;
use crate::models::Command;
use crate::models::CommandView;
use crate::models::EnvVar;
use crate::models::EnvVarView;
use crate::models::Workflow;
use crate::models::WorkflowView;
use crate::records::lookup;
use crate::store::CommandStore;
use crate::store::StoreView;
use vstd::prelude::*;

verus! {

/// A workflow that is being run: which step runs, as which run, and with
/// what environment.
#[derive(Debug, PartialEq, Eq)]
pub struct ActiveWorkflow {
    pub workflow_id: u128,
    pub current_step_index: usize,
    pub current_execution_id: Option<u128>,
    pub resolved_env: EnvMap,
}

pub struct ActiveWorkflowView {
    pub workflow_id: u128,
    pub current_step_index: usize,
    pub current_execution_id: Option<u128>,
    pub resolved_env: Seq<Binding>,
}

impl View for ActiveWorkflow {
    type V = ActiveWorkflowView;

    open spec fn view(&self) -> ActiveWorkflowView {
        ActiveWorkflowView {
            workflow_id: self.workflow_id,
            current_step_index: self.current_step_index,
            current_execution_id: self.current_execution_id,
            resolved_env: self.resolved_env@,
        }
    }
}

impl ActiveWorkflowView {
    /// A workflow at its first step, of which no run has started.
    pub open spec fn at_start(workflow_id: u128, resolved_env: Seq<Binding>) -> ActiveWorkflowView {
        ActiveWorkflowView {
            workflow_id,
            current_step_index: 0,
            current_execution_id: None,
            resolved_env,
        }
    }
}

/// What the end of a run means for the workflow that is being run.
#[derive(Debug, Clone, Copy, PartialEq, Eq, Structural)]
pub enum WorkflowProgress {
    /// The run was not the current step, or the workflow is gone from the
    /// store: nothing changes.
    Unchanged,
    /// The step succeeded and this command is the next to run.
    Next(u128),
    /// The last step succeeded: the workflow is done.
    Done,
    /// The step failed: the workflow stops.
    Stopped,
}

/// What the end of the run `finished` with `exit_code` means for a workflow
/// at step `index`, whose current run is `current` and whose steps are
/// `steps` (none where the workflow is gone from the store).
pub open spec fn progress_of(
    index: usize,
    current: Option<u128>,
    finished: u128,
    exit_code: i32,
    steps: Option<Seq<u128>>,
) -> WorkflowProgress {
    if current != Some(finished) {
        WorkflowProgress::Unchanged
    } else if exit_code != 0 {
        WorkflowProgress::Stopped
    } else {
        match steps {
            None => WorkflowProgress::Unchanged,
            Some(ids) => if index + 1 < ids.len() {
                WorkflowProgress::Next(ids[index + 1])
            } else {
                WorkflowProgress::Done
            },
        }
    }
}

impl ActiveWorkflow {
    /// A workflow at its first step, of which no run has started.
    pub fn start(workflow_id: u128, resolved_env: EnvMap) -> (active: Self)
        ensures
            active@ == ActiveWorkflowView::at_start(workflow_id, resolved_env@),
    {
        ActiveWorkflow {
            workflow_id,
            current_step_index: 0,
            current_execution_id: None,
            resolved_env,
        }
    }

    /// Takes in the end of the run `finished`. Where the step succeeded
    /// and another follows, the workflow moves on to it; the caller starts
    /// the command that comes back. On `Done` and `Stopped` the workflow is
    /// over and is to be dropped.
    pub fn check_workflow_progress(
        &mut self,
        finished: u128,
        exit_code: i32,
        workflow: Option<&Workflow>,
    ) -> (progress: WorkflowProgress)
        ensures
            progress == progress_of(
                old(self).current_step_index,
                old(self).current_execution_id,
                finished,
                exit_code,
                match workflow {
                    Some(w) => Some(w.commands@),
                    None => None,
                },
            ),
            final(self).workflow_id == old(self).workflow_id,
            final(self).current_execution_id == old(self).current_execution_id,
            final(self).resolved_env@ == old(self).resolved_env@,
            final(self).current_step_index == if progress is Next {
                old(self).current_step_index + 1
            } else {
                old(self).current_step_index as int
            },
    {
        if self.current_execution_id != Some(finished) {
            return WorkflowProgress::Unchanged;
        }
        if exit_code != 0 {
            return WorkflowProgress::Stopped;
        }
        match workflow {
            None => WorkflowProgress::Unchanged,
            Some(w) => {
                if self.current_step_index < w.commands.len() && self.current_step_index + 1
                    < w.commands.len() {
                    self.current_step_index = self.current_step_index + 1;
                    WorkflowProgress::Next(w.commands[self.current_step_index])
                } else {
                    WorkflowProgress::Done
                }
            },
        }
    }
}

/// The environment of one run: the defaults of its command, overridden by
/// the environment of the workflow that is being run or, without one, by
/// the answers given for this run.
pub open spec fn run_environment_of(
    command: CommandView,
    workflow_env: Option<Seq<Binding>>,
    answers: Option<Seq<Binding>>,
) -> Seq<Binding> {
    let defaults = with_vars(Seq::empty(), command.env_vars);
    match workflow_env {
        Some(env) => overridden(defaults, env),
        None => match answers {
            Some(env) => overridden(defaults, env),
            None => defaults,
        },
    }
}

/// The environment of one run of `command`.
pub fn run_environment(
    command: &Command,
    active: Option<&ActiveWorkflow>,
    answers: Option<&EnvMap>,
) -> (env: EnvMap)
    ensures
        env@ == run_environment_of(
            command@,
            match active {
                Some(a) => Some(a.resolved_env@),
                None => None,
            },
            match answers {
                Some(a) => Some(a@),
                None => None,
            },
        ),
{
    let mut env = EnvMap::new();
    env.extend_with_vars(&command.env_vars);
    match active {
        Some(workflow) => {
            env.extend_with(&workflow.resolved_env);
        },
        None => {
            match answers {
                Some(given) => {
                    env.extend_with(given);
                },
                None => {},
            }
        },
    }
    env
}

/// A run that waits for the answers of the user: the command or the
/// workflow to run, the environment resolved so far, and the variables to
/// ask for, each with the value to offer.
#[derive(Debug, PartialEq, Eq)]
pub struct PendingExecution {
    pub cmd_id: Option<u128>,
    pub workflow_id: Option<u128>,
    pub initial_vars: EnvMap,
    pub vars_to_ask: Vec<EnvVar>,
}

pub struct PendingExecutionView {
    pub cmd_id: Option<u128>,
    pub workflow_id: Option<u128>,
    pub initial_vars: Seq<Binding>,
    pub vars_to_ask: Seq<EnvVarView>,
}

impl View for PendingExecution {
    type V = PendingExecutionView;

    open spec fn view(&self) -> PendingExecutionView {
        PendingExecutionView {
            cmd_id: self.cmd_id,
            workflow_id: self.workflow_id,
            initial_vars: self.initial_vars@,
            vars_to_ask: self.vars_to_ask.deep_view(),
        }
    }
}

/// What is to happen when a run is asked for.
#[derive(Debug, PartialEq, Eq)]
pub enum Trigger {
    /// Nothing: what was asked for is not in the store, or has no steps.
    Nothing,
    /// Ask the user first.
    Prompt(PendingExecution),
    /// Run the workflow from its first step, which is this command.
    StartWorkflow(ActiveWorkflow, u128),
    /// Run this command, with these answers if there are any.
    RunCommand(u128, Option<EnvMap>),
}

pub enum TriggerView {
    Nothing,
    Prompt(PendingExecutionView),
    StartWorkflow(ActiveWorkflowView, u128),
    RunCommand(u128, Option<Seq<Binding>>),
}

impl View for Trigger {
    type V = TriggerView;

    open spec fn view(&self) -> TriggerView {
        match self {
            Trigger::Nothing => TriggerView::Nothing,
            Trigger::Prompt(pending) => TriggerView::Prompt(pending@),
            Trigger::StartWorkflow(active, first) => TriggerView::StartWorkflow(active@, *first),
            Trigger::RunCommand(id, answers) => TriggerView::RunCommand(
                *id,
                match answers {
                    Some(env) => Some(env@),
                    None => None,
                },
            ),
        }
    }
}

/// The variables of `vars` that are asked for, in order.
pub open spec fn asked_of(vars: Seq<EnvVarView>) -> Seq<EnvVarView> {
    vars.filter(|v: EnvVarView| v.ask_user)
}

/// Whether `key` is among the variables to ask for.
pub open spec fn is_asked(asks: Seq<EnvVarView>, key: Seq<char>) -> bool {
    exists|i: int| 0 <= i < asks.len() && (#[trigger] asks[i]).key == key
}

/// The first variable of `vars` with the name `key`.
pub open spec fn declared(vars: Seq<EnvVarView>, key: Seq<char>) -> Option<EnvVarView>
    decreases vars.len(),
{
    if vars.len() == 0 {
        None
    } else if vars[0].key == key {
        Some(vars[0])
    } else {
        declared(vars.drop_first(), key)
    }
}

/// The environment of a workflow as far as it is resolved, and the
/// variables to ask for.
pub struct Resolution {
    pub env: Seq<Binding>,
    pub asks: Seq<EnvVarView>,
}

/// The resolution after a variable of the workflow itself: it is bound,
/// over whatever was bound to its name, and asked for if it says so and
/// its name is not asked for yet.
pub open spec fn after_workflow_var(r: Resolution, v: EnvVarView) -> Resolution {
    Resolution {
        env: bound(r.env, v.key, v.value),
        asks: if v.ask_user && !is_asked(r.asks, v.key) {
            r.asks.push(v)
        } else {
            r.asks
        },
    }
}

/// The resolution after the variables of the workflow, in order.
pub open spec fn after_workflow_vars(r: Resolution, vars: Seq<EnvVarView>) -> Resolution
    decreases vars.len(),
{
    if vars.len() == 0 {
        r
    } else {
        after_workflow_var(after_workflow_vars(r, vars.drop_last()), vars.last())
    }
}

/// Whether a variable of a command is asked for in a workflow: where the
/// workflow declares the name, its declaration decides; else the command's
/// does.
pub open spec fn asks_in_workflow(workflow_vars: Seq<EnvVarView>, v: EnvVarView) -> bool {
    v.ask_user && match declared(workflow_vars, v.key) {
        Some(over) => over.ask_user,
        None => true,
    }
}

/// The resolution after a variable of a step: it is bound only if its name
/// is not bound yet, so the workflow and earlier steps come first; and it
/// is asked for, with the bound value as the value to offer, if it is
/// asked for in the workflow and its name is not asked for yet.
pub open spec fn after_command_var(
    r: Resolution,
    workflow_vars: Seq<EnvVarView>,
    v: EnvVarView,
) -> Resolution {
    let env = if value_of(r.env, v.key) is None {
        bound(r.env, v.key, v.value)
    } else {
        r.env
    };
    Resolution {
        env,
        asks: if asks_in_workflow(workflow_vars, v) && !is_asked(r.asks, v.key) {
            r.asks.push(
                EnvVarView {
                    key: v.key,
                    value: text_or_empty(value_of(env, v.key)),
                    ask_user: true,
                },
            )
        } else {
            r.asks
        },
    }
}

/// The resolution after the variables of one step, in order.
pub open spec fn after_command_vars(
    r: Resolution,
    workflow_vars: Seq<EnvVarView>,
    vars: Seq<EnvVarView>,
) -> Resolution
    decreases vars.len(),
{
    if vars.len() == 0 {
        r
    } else {
        after_command_var(
            after_command_vars(r, workflow_vars, vars.drop_last()),
            workflow_vars,
            vars.last(),
        )
    }
}

/// The resolution after the steps, in order. A step whose command is not
/// in the store adds nothing.
pub open spec fn after_steps(
    r: Resolution,
    workflow_vars: Seq<EnvVarView>,
    commands: Seq<CommandView>,
    steps: Seq<u128>,
) -> Resolution
    decreases steps.len(),
{
    if steps.len() == 0 {
        r
    } else {
        let before = after_steps(r, workflow_vars, commands, steps.drop_last());
        match lookup::<Command>(commands, steps.last()) {
            Some(command) => after_command_vars(before, workflow_vars, command.env_vars),
            None => before,
        }
    }
}

/// The environment of a workflow and the variables to ask for before it
/// runs: the variables of the workflow first, then those of each step.
pub open spec fn resolved(commands: Seq<CommandView>, workflow: WorkflowView) -> Resolution {
    after_steps(
        after_workflow_vars(
            Resolution { env: Seq::empty(), asks: Seq::empty() },
            workflow.env_vars,
        ),
        workflow.env_vars,
        commands,
        workflow.commands,
    )
}

/// A variable of a step leaves a name that is bound as it is.
proof fn lemma_command_var_keeps(
    r: Resolution,
    workflow_vars: Seq<EnvVarView>,
    v: EnvVarView,
    key: Seq<char>,
)
    requires
        names_distinct(r.env),
        value_of(r.env, key) is Some,
    ensures
        names_distinct(after_command_var(r, workflow_vars, v).env),
        value_of(after_command_var(r, workflow_vars, v).env, key) == value_of(r.env, key),
{
    lemma_bound(r.env, v.key, v.value, key);
}

/// The variables of a step leave a name that is bound as it is.
proof fn lemma_command_vars_keep(
    r: Resolution,
    workflow_vars: Seq<EnvVarView>,
    vars: Seq<EnvVarView>,
    key: Seq<char>,
)
    requires
        names_distinct(r.env),
        value_of(r.env, key) is Some,
    ensures
        names_distinct(after_command_vars(r, workflow_vars, vars).env),
        value_of(after_command_vars(r, workflow_vars, vars).env, key) == value_of(r.env, key),
    decreases vars.len(),
{
    if vars.len() > 0 {
        lemma_command_vars_keep(r, workflow_vars, vars.drop_last(), key);
        lemma_command_var_keeps(
            after_command_vars(r, workflow_vars, vars.drop_last()),
            workflow_vars,
            vars.last(),
            key,
        );
    }
}

/// The steps leave a name that is bound as it is.
proof fn lemma_steps_keep(
    r: Resolution,
    workflow_vars: Seq<EnvVarView>,
    commands: Seq<CommandView>,
    steps: Seq<u128>,
    key: Seq<char>,
)
    requires
        names_distinct(r.env),
        value_of(r.env, key) is Some,
    ensures
        names_distinct(after_steps(r, workflow_vars, commands, steps).env),
        value_of(after_steps(r, workflow_vars, commands, steps).env, key) == value_of(r.env, key),
    decreases steps.len(),
{
    if steps.len() > 0 {
        lemma_steps_keep(r, workflow_vars, commands, steps.drop_last(), key);
        let before = after_steps(r, workflow_vars, commands, steps.drop_last());
        match lookup::<Command>(commands, steps.last()) {
            Some(command) => {
                lemma_command_vars_keep(before, workflow_vars, command.env_vars, key);
            },
            None => {},
        }
    }
}

/// The variables of the workflow bind each name once.
proof fn lemma_workflow_vars_distinct(r: Resolution, vars: Seq<EnvVarView>)
    requires
        names_distinct(r.env),
    ensures
        names_distinct(after_workflow_vars(r, vars).env),
    decreases vars.len(),
{
    if vars.len() > 0 {
        lemma_workflow_vars_distinct(r, vars.drop_last());
        lemma_bound(
            after_workflow_vars(r, vars.drop_last()).env,
            vars.last().key,
            vars.last().value,
            vars.last().key,
        );
    }
}

/// The workflow wins over its steps: a name that the workflow binds has
/// the value of the workflow in the resolved environment, whatever the
/// steps declare.
pub proof fn lemma_workflow_values_win(
    commands: Seq<CommandView>,
    workflow: WorkflowView,
    key: Seq<char>,
)
    requires
        value_of(
            after_workflow_vars(
                Resolution { env: Seq::empty(), asks: Seq::empty() },
                workflow.env_vars,
            ).env,
            key,
        ) is Some,
    ensures
        value_of(resolved(commands, workflow).env, key) == value_of(
            after_workflow_vars(
                Resolution { env: Seq::empty(), asks: Seq::empty() },
                workflow.env_vars,
            ).env,
            key,
        ),
        names_distinct(resolved(commands, workflow).env),
{
    let start = Resolution { env: Seq::empty(), asks: Seq::empty() };
    lemma_workflow_vars_distinct(start, workflow.env_vars);
    lemma_steps_keep(
        after_workflow_vars(start, workflow.env_vars),
        workflow.env_vars,
        commands,
        workflow.commands,
        key,
    );
}

/// What is to happen when the command `id` is asked to run: nothing where
/// it is not in the store; a prompt where it has variables to ask for; and
/// else its run.
pub open spec fn command_trigger(store: StoreView, id: u128) -> TriggerView {
    match lookup::<Command>(store.commands, id) {
        None => TriggerView::Nothing,
        Some(command) => if asked_of(command.env_vars).len() > 0 {
            TriggerView::Prompt(
                PendingExecutionView {
                    cmd_id: Some(id),
                    workflow_id: None,
                    initial_vars: with_vars(Seq::empty(), command.env_vars),
                    vars_to_ask: asked_of(command.env_vars),
                },
            )
        } else {
            TriggerView::RunCommand(id, None)
        },
    }
}

/// What is to happen when the workflow `id` is asked to run: nothing where
/// it is not in the store or has no steps; a prompt where there are
/// variables to ask for; and else its run from the first step.
pub open spec fn workflow_trigger(store: StoreView, id: u128) -> TriggerView {
    match lookup::<Workflow>(store.workflows, id) {
        None => TriggerView::Nothing,
        Some(workflow) => if workflow.commands.len() == 0 {
            TriggerView::Nothing
        } else {
            let r = resolved(store.commands, workflow);
            if r.asks.len() > 0 {
                TriggerView::Prompt(
                    PendingExecutionView {
                        cmd_id: None,
                        workflow_id: Some(id),
                        initial_vars: r.env,
                        vars_to_ask: r.asks,
                    },
                )
            } else {
                TriggerView::StartWorkflow(
                    ActiveWorkflowView::at_start(id, r.env),
                    workflow.commands[0],
                )
            }
        },
    }
}

/// What is to happen when the user has answered: the answers are written
/// over the environment resolved before, and the workflow or the command
/// runs with the result. A workflow that is gone from the store or has no
/// steps does not run.
pub open spec fn confirmed(store: StoreView, pending: PendingExecutionView) -> TriggerView {
    let answered = with_vars(pending.initial_vars, pending.vars_to_ask);
    match pending.workflow_id {
        Some(id) => match lookup::<Workflow>(store.workflows, id) {
            Some(workflow) => if workflow.commands.len() > 0 {
                TriggerView::StartWorkflow(
                    ActiveWorkflowView::at_start(id, answered),
                    workflow.commands[0],
                )
            } else {
                TriggerView::Nothing
            },
            None => TriggerView::Nothing,
        },
        None => match pending.cmd_id {
            Some(id) => TriggerView::RunCommand(id, Some(answered)),
            None => TriggerView::Nothing,
        },
    }
}

/// Whether `key` is among the variables to ask for.
pub fn asked(asks: &Vec<EnvVar>, key: &str) -> (found: bool)
    ensures
        found == is_asked(asks.deep_view(), key@),
{
    let mut i: usize = 0;
    while i < asks.len()
        invariant
            0 <= i <= asks.len(),
            forall|j: int| 0 <= j < i ==> (#[trigger] asks.deep_view()[j]).key != key@,
        decreases asks.len() - i,
    {
        if asks[i].key.as_str().eq(key) {
            assert(asks.deep_view()[i as int].key == key@);
            return true;
        }
        i += 1;
    }
    false
}

/// Whether the first variable of `vars` with the name `key` is asked for;
/// none where there is no such variable.
pub fn declared_ask(vars: &Vec<EnvVar>, key: &str) -> (ask: Option<bool>)
    ensures
        ask == match declared(vars.deep_view(), key@) {
            Some(v) => Some(v.ask_user),
            None => None,
        },
{
    let ghost all = vars.deep_view();
    let mut i: usize = 0;
    assert(all.skip(0) == all);
    while i < vars.len()
        invariant
            0 <= i <= vars.len(),
            all == vars.deep_view(),
            declared(all, key@) == declared(all.skip(i as int), key@),
        decreases vars.len() - i,
    {
        assert(all.skip(i as int)[0] == all[i as int]);
        assert(all.skip(i as int).drop_first() == all.skip(i + 1));
        if vars[i].key.as_str().eq(key) {
            return Some(vars[i].ask_user);
        }
        i += 1;
    }
    None
}

/// The variables of `vars` that are asked for, in order.
pub fn vars_to_ask(vars: &Vec<EnvVar>) -> (asks: Vec<EnvVar>)
    ensures
        asks.deep_view() == asked_of(vars.deep_view()),
{
    let ghost all = vars.deep_view();
    let ghost wanted = |v: EnvVarView| v.ask_user;
    let mut asks: Vec<EnvVar> = Vec::new();
    let mut i: usize = 0;
    proof {
        reveal(Seq::filter);
        assert(all.take(0) == Seq::<EnvVarView>::empty());
    }
    while i < vars.len()
        invariant
            0 <= i <= vars.len(),
            all == vars.deep_view(),
            wanted == (|v: EnvVarView| v.ask_user),
            asks.deep_view() == all.take(i as int).filter(wanted),
        decreases vars.len() - i,
    {
        let ghost so_far = asks.deep_view();
        proof {
            assert(all.take(i + 1) == all.take(i as int).push(all[i as int]));
            all.take(i as int).lemma_filter_push(all[i as int], wanted);
        }
        if vars[i].ask_user {
            asks.push(vars[i].clone());
            assert(asks.deep_view() == so_far.push(all[i as int]));
        }
        i += 1;
    }
    assert(all.take(i as int) == all);
    asks
}

/// Takes the variables of the workflow itself into the resolution.
fn resolve_workflow_vars(env: &mut EnvMap, asks: &mut Vec<EnvVar>, vars: &Vec<EnvVar>)
    ensures
        (Resolution { env: final(env)@, asks: final(asks).deep_view() }) == after_workflow_vars(
            Resolution { env: old(env)@, asks: old(asks).deep_view() },
            vars.deep_view(),
        ),
{
    let ghost start = Resolution { env: env@, asks: asks.deep_view() };
    let ghost all = vars.deep_view();
    let mut i: usize = 0;
    assert(all.take(0) == Seq::<EnvVarView>::empty());
    while i < vars.len()
        invariant
            0 <= i <= vars.len(),
            all == vars.deep_view(),
            (Resolution { env: env@, asks: asks.deep_view() }) == after_workflow_vars(
                start,
                all.take(i as int),
            ),
        decreases vars.len() - i,
    {
        assert(all.take(i + 1).drop_last() == all.take(i as int));
        let ghost before = asks.deep_view();
        let v = &vars[i];
        env.insert(v.key.clone(), v.value.clone());
        if v.ask_user && !asked(asks, v.key.as_str()) {
            asks.push(v.clone());
            assert(asks.deep_view() == before.push(all[i as int]));
        }
        i += 1;
    }
    assert(all.take(i as int) == all);
}

/// Takes the variables of one step into the resolution.
fn resolve_command_vars(
    env: &mut EnvMap,
    asks: &mut Vec<EnvVar>,
    workflow_vars: &Vec<EnvVar>,
    vars: &Vec<EnvVar>,
)
    ensures
        (Resolution { env: final(env)@, asks: final(asks).deep_view() }) == after_command_vars(
            Resolution { env: old(env)@, asks: old(asks).deep_view() },
            workflow_vars.deep_view(),
            vars.deep_view(),
        ),
{
    let ghost start = Resolution { env: env@, asks: asks.deep_view() };
    let ghost all = vars.deep_view();
    let mut i: usize = 0;
    assert(all.take(0) == Seq::<EnvVarView>::empty());
    while i < vars.len()
        invariant
            0 <= i <= vars.len(),
            all == vars.deep_view(),
            (Resolution { env: env@, asks: asks.deep_view() }) == after_command_vars(
                start,
                workflow_vars.deep_view(),
                all.take(i as int),
            ),
        decreases vars.len() - i,
    {
        assert(all.take(i + 1).drop_last() == all.take(i as int));
        let ghost before = asks.deep_view();
        let v = &vars[i];
        if !env.contains_key(v.key.as_str()) {
            env.insert(v.key.clone(), v.value.clone());
        }
        if v.ask_user {
            let effective = match declared_ask(workflow_vars, v.key.as_str()) {
                Some(ask) => ask,
                None => true,
            };
            if effective && !asked(asks, v.key.as_str()) {
                let offered = unwrap_or_empty(&env.get(v.key.as_str()));
                let ask = EnvVar { key: v.key.clone(), value: offered, ask_user: true };
                let ghost pushed = ask@;
                asks.push(ask);
                assert(asks.deep_view() == before.push(pushed));
            }
        }
        i += 1;
    }
    assert(all.take(i as int) == all);
}

/// The environment of `workflow` and the variables to ask for before it
/// runs, with the commands of its steps taken from `store`.
pub fn resolve_workflow(store: &CommandStore, workflow: &Workflow) -> (resolution: (
    EnvMap,
    Vec<EnvVar>,
))
    ensures
        (Resolution { env: resolution.0@, asks: resolution.1.deep_view() }) == resolved(
            store@.commands,
            workflow@,
        ),
{
    let mut env = EnvMap::new();
    let mut asks: Vec<EnvVar> = Vec::new();
    assert(asks.deep_view() == Seq::<EnvVarView>::empty());
    resolve_workflow_vars(&mut env, &mut asks, &workflow.env_vars);
    let ghost start = Resolution { env: env@, asks: asks.deep_view() };
    let ghost steps = workflow.commands@;
    let mut i: usize = 0;
    assert(steps.take(0) == Seq::<u128>::empty());
    while i < workflow.commands.len()
        invariant
            0 <= i <= workflow.commands.len(),
            steps == workflow.commands@,
            (Resolution { env: env@, asks: asks.deep_view() }) == after_steps(
                start,
                workflow.env_vars.deep_view(),
                store@.commands,
                steps.take(i as int),
            ),
        decreases workflow.commands.len() - i,
    {
        assert(steps.take(i + 1).drop_last() == steps.take(i as int));
        match store.get_command(&workflow.commands[i]) {
            Some(command) => {
                resolve_command_vars(&mut env, &mut asks, &workflow.env_vars, &command.env_vars);
            },
            None => {},
        }
        i += 1;
    }
    assert(steps.take(i as int) == steps);
    (env, asks)
}

/// What is to happen when the command `cmd_id` is asked to run.
pub fn trigger_command_execution(store: &CommandStore, cmd_id: u128) -> (trigger: Trigger)
    ensures
        trigger@ == command_trigger(store@, cmd_id),
{
    match store.get_command(&cmd_id) {
        None => Trigger::Nothing,
        Some(command) => {
            let asks = vars_to_ask(&command.env_vars);
            if asks.len() > 0 {
                let mut initial_vars = EnvMap::new();
                initial_vars.extend_with_vars(&command.env_vars);
                Trigger::Prompt(
                    PendingExecution {
                        cmd_id: Some(cmd_id),
                        workflow_id: None,
                        initial_vars,
                        vars_to_ask: asks,
                    },
                )
            } else {
                Trigger::RunCommand(cmd_id, None)
            }
        },
    }
}

/// What is to happen when the workflow `workflow_id` is asked to run.
pub fn trigger_workflow_execution(store: &CommandStore, workflow_id: u128) -> (trigger: Trigger)
    ensures
        trigger@ == workflow_trigger(store@, workflow_id),
{
    match store.get_workflow(&workflow_id) {
        None => Trigger::Nothing,
        Some(workflow) => {
            if workflow.commands.len() == 0 {
                Trigger::Nothing
            } else {
                let (env, asks) = resolve_workflow(store, &workflow);
                if asks.len() > 0 {
                    Trigger::Prompt(
                        PendingExecution {
                            cmd_id: None,
                            workflow_id: Some(workflow_id),
                            initial_vars: env,
                            vars_to_ask: asks,
                        },
                    )
                } else {
                    Trigger::StartWorkflow(
                        ActiveWorkflow::start(workflow_id, env),
                        workflow.commands[0],
                    )
                }
            }
        },
    }
}

/// What is to happen when the user has answered the prompt `pending`. The
/// values of `vars_to_ask` are the answers.
pub fn confirm_pending(store: &CommandStore, pending: PendingExecution) -> (trigger: Trigger)
    ensures
        trigger@ == confirmed(store@, pending@),
{
    let mut answered = pending.initial_vars;
    answered.extend_with_vars(&pending.vars_to_ask);
    match pending.workflow_id {
        Some(id) => match store.get_workflow(&id) {
            Some(workflow) => {
                if workflow.commands.len() > 0 {
                    Trigger::StartWorkflow(ActiveWorkflow::start(id, answered), workflow.commands[0])
                } else {
                    Trigger::Nothing
                }
            },
            None => Trigger::Nothing,
        },
        None => match pending.cmd_id {
            Some(id) => Trigger::RunCommand(id, Some(answered)),
            None => Trigger::Nothing,
        },
    }
}

} // verus!
