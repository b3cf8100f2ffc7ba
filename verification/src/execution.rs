//! The course of one lifecycle command, as a state machine.
//!
//! A command alternates between decisions and work on the outside: looking
//! up the stack, writing the execution record, fetching credentials, calling
//! the remote agent. The decisions are here. [`Execution::step`] takes the
//! answer to the work that was asked for last and says what is to be done
//! next; whoever drives the machine does the work and comes back with the
//! answer. The claim on the stack is made and given back inside the
//! machine, so that no path through a command leaves the stack marked busy.

use vstd::prelude::*;
use crate::action_state::{
    spec_release, spec_update, ActionGuard, ActionGuardView, ActionStates, RegistryView,
};
use crate::command::{
    Command, CommandError, CommandErrorView, CommandView, Folding, PermissionLevel,
};
use crate::compose::{fold_deploy, spec_fold_deploy};
use crate::entities::{Repo, RepoView, Server, ServerView, Stack, StackView};
use crate::pipeline::{
    begin_logs, pipeline_admissible, spec_pipeline_begin, spec_pipeline_step, Advance,
    AdvanceView, Open, Pipeline, PipelineView,
};
use crate::protocol::{
    failure_message, failure_text, outcome_view, Action, ActionView, Reply, ReplyView,
};
use crate::text::appended;
use crate::update::{LogView, Update, UpdateView};

verus! {

/// Where a command stands while it holds the claim on its stack.
enum At {
    Announce { stack: Stack, server: Server, repo: Option<Repo> },
    Running(Pipeline),
    StoreInfo { server: Server },
    Refresh,
    Seal { failure: Option<CommandError> },
}

/// Where a command stands while it holds the claim on its stack.
pub enum Stage {
    /// The pending execution record is being written.
    Announce { stack: StackView, server: ServerView, repo: Option<RepoView> },
    /// The command is on its way to the answer of the remote agent.
    Running(PipelineView),
    /// What is known of the stack is being written.
    StoreInfo { server: ServerView },
    /// The server's cached view is being refreshed.
    Refresh,
    /// The sealed execution record is being written. Where the remote agent
    /// failed, its failure is kept until then.
    Seal { failure: Option<CommandErrorView> },
}

impl View for At {
    type V = Stage;

    closed spec fn view(&self) -> Stage {
        match self {
            At::Announce { stack, server, repo } => Stage::Announce {
                stack: stack@,
                server: server@,
                repo: repo.deep_view(),
            },
            At::Running(pipeline) => Stage::Running(pipeline@),
            At::StoreInfo { server } => Stage::StoreInfo { server: server@ },
            At::Refresh => Stage::Refresh,
            At::Seal { failure } => Stage::Seal { failure: failure.deep_view() },
        }
    }
}

enum Phase {
    Lookup,
    LookupRepo { stack: Stack, server: Server },
    Claimed { guard: ActionGuard, at: At },
    Finished,
}

/// How far a command has come.
pub enum PhaseView {
    /// The stack is being resolved.
    Lookup,
    /// The linked repo is being resolved.
    LookupRepo { stack: StackView, server: ServerView },
    /// The command holds the claim on its stack.
    Claimed { guard: ActionGuardView, stage: Stage },
    /// The command has ended.
    Finished,
}

impl View for Phase {
    type V = PhaseView;

    closed spec fn view(&self) -> PhaseView {
        match self {
            Phase::Lookup => PhaseView::Lookup,
            Phase::LookupRepo { stack, server } => PhaseView::LookupRepo {
                stack: stack@,
                server: server@,
            },
            Phase::Claimed { guard, at } => PhaseView::Claimed { guard: guard@, stage: at@ },
            Phase::Finished => PhaseView::Finished,
        }
    }
}

/// One lifecycle command under way.
pub struct Execution {
    command: Command,
    user: String,
    update: Update,
    phase: Phase,
}

/// Mathematical view of [`Execution`].
pub struct ExecutionView {
    pub command: CommandView,
    /// The principal that asked for the command.
    pub user: Seq<char>,
    /// The execution record as it stands.
    pub update: UpdateView,
    pub phase: PhaseView,
}

impl View for Execution {
    type V = ExecutionView;

    closed spec fn view(&self) -> ExecutionView {
        ExecutionView {
            command: self.command@,
            user: self.user@,
            update: self.update@,
            phase: self.phase@,
        }
    }
}

/// A step of a command: the command and the flags of every resource after
/// it, and the work that is to be done next.
pub struct Stepped {
    pub execution: ExecutionView,
    pub states: RegistryView,
    pub action: ActionView,
}

/// `open` is something that the rendering engine may have come up with in
/// this step.
pub open spec fn admissible(e: ExecutionView, reply: ReplyView, open: Open) -> bool {
    match e.phase {
        PhaseView::Claimed { guard, stage } => match stage {
            Stage::Running(pipeline) => pipeline_admissible(pipeline, reply, open),
            _ => true,
        },
        _ => true,
    }
}

/// A command at its start, and the first piece of work.
pub open spec fn spec_begin(command: CommandView, user: Seq<char>, update: UpdateView) -> (
    ExecutionView,
    ActionView,
) {
    (
        ExecutionView { command, user, update, phase: PhaseView::Lookup },
        ActionView::ResolveStack { stack: command.stack, user, level: PermissionLevel::Execute },
    )
}

/// The command ends with `outcome`.
pub open spec fn finished(
    e: ExecutionView,
    states: RegistryView,
    outcome: Result<UpdateView, CommandErrorView>,
) -> Stepped {
    Stepped {
        execution: ExecutionView { phase: PhaseView::Finished, ..e },
        states,
        action: ActionView::Finish(outcome),
    }
}

/// The command claims its flag on the stack: it goes on to write the
/// pending record, or ends at once where the stack is busy.
pub open spec fn claim_stack(
    e: ExecutionView,
    states: RegistryView,
    stack: StackView,
    server: ServerView,
    repo: Option<RepoView>,
) -> Stepped {
    let claimed = spec_update(states, stack.id, e.command.kind.spec_flag());
    match claimed.1 {
        Ok(guard) => Stepped {
            execution: ExecutionView {
                phase: PhaseView::Claimed { guard, stage: Stage::Announce { stack, server, repo } },
                ..e
            },
            states: claimed.0,
            action: ActionView::RecordUpdate(e.update),
        },
        Err(busy) => finished(e, states, Err(CommandErrorView::Busy(busy))),
    }
}

/// The command gives its claim back and ends with `outcome`.
pub open spec fn released(
    e: ExecutionView,
    states: RegistryView,
    guard: ActionGuardView,
    outcome: Result<UpdateView, CommandErrorView>,
) -> Stepped {
    finished(e, spec_release(states, guard.id), outcome)
}

/// The command keeps its claim and goes on at `stage`, asking for `action`.
pub open spec fn proceed(
    e: ExecutionView,
    states: RegistryView,
    guard: ActionGuardView,
    stage: Stage,
    action: ActionView,
) -> Stepped {
    Stepped {
        execution: ExecutionView { phase: PhaseView::Claimed { guard, stage }, ..e },
        states,
        action,
    }
}

/// The command seals its record at `now` and goes on to write it.
pub open spec fn seal(
    e: ExecutionView,
    states: RegistryView,
    guard: ActionGuardView,
    failure: Option<CommandErrorView>,
    now: i64,
) -> Stepped {
    let update = e.update.finalize(now);
    proceed(
        ExecutionView { update, ..e },
        states,
        guard,
        Stage::Seal { failure },
        ActionView::RecordUpdate(update),
    )
}

/// The step of a command that is on its way to the answer of the remote
/// agent.
///
/// What the pipeline puts on record goes into the execution record. A
/// refusal before the call ends the command at once. A call that is not
/// answered is put on record as a failure, and the record is sealed and
/// written before the command ends with that failure. An answer adds its
/// entries to the record; a deploy then writes what is known of the stack,
/// any other command goes on to refresh the server's cached view.
pub open spec fn step_running(
    e: ExecutionView,
    states: RegistryView,
    guard: ActionGuardView,
    pipeline: PipelineView,
    reply: ReplyView,
    now: i64,
    open: Open,
) -> Stepped {
    let stepped = spec_pipeline_step(pipeline, reply, now, open);
    let e = ExecutionView { update: e.update.extend_logs(stepped.logs), ..e };
    match stepped.next {
        AdvanceView::Ask(next, action) => proceed(e, states, guard, Stage::Running(next), action),
        AdvanceView::Answered { stack, server, response } => {
            let e = ExecutionView { update: e.update.extend_logs(response.logs), ..e };
            match e.command.kind.spec_folding() {
                Folding::DeploySnapshot => proceed(
                    e,
                    states,
                    guard,
                    Stage::StoreInfo { server },
                    ActionView::StoreInfo {
                        stack: stack.name,
                        info: spec_fold_deploy(stack, response),
                    },
                ),
                Folding::Nothing => proceed(
                    e,
                    states,
                    guard,
                    Stage::Refresh,
                    ActionView::RefreshCache { server },
                ),
            }
        },
        AdvanceView::Refused(error) => released(e, states, guard, Err(error)),
        AdvanceView::Unanswered(message) => seal(
            ExecutionView {
                update: e.update.push_log(LogView::error("remote agent"@, message, now)),
                ..e
            },
            states,
            guard,
            Some(CommandErrorView::RemoteAgentError { message }),
            now,
        ),
    }
}

/// The step of a command that holds the claim on its stack.
pub open spec fn step_claimed(
    e: ExecutionView,
    states: RegistryView,
    guard: ActionGuardView,
    stage: Stage,
    reply: ReplyView,
    now: i64,
    open: Open,
) -> Stepped {
    match stage {
        Stage::Announce { stack, server, repo } => match reply {
            ReplyView::Done => {
                let started = spec_pipeline_begin(
                    e.command.kind.spec_remote_operation(),
                    stack,
                    server,
                    repo,
                    e.command.services,
                    e.command.stop_time,
                    e.command.remove_orphans,
                );
                proceed(
                    ExecutionView {
                        update: e.update.extend_logs(begin_logs(e.command.services, now)),
                        ..e
                    },
                    states,
                    guard,
                    Stage::Running(started.0),
                    started.1,
                )
            },
            _ => released(
                e,
                states,
                guard,
                Err(CommandErrorView::UpdateStoreFailed { message: failure_text(reply) }),
            ),
        },
        Stage::Running(pipeline) => step_running(e, states, guard, pipeline, reply, now, open),
        Stage::StoreInfo { server } => {
            let update = match reply {
                ReplyView::Done => e.update,
                _ => e.update.push_log(
                    LogView::error(
                        "refresh stack info"@,
                        "failed to refresh stack info on db: "@ + failure_text(reply),
                        now,
                    ),
                ),
            };
            proceed(
                ExecutionView { update, ..e },
                states,
                guard,
                Stage::Refresh,
                ActionView::RefreshCache { server },
            )
        },
        Stage::Refresh => {
            let update = match reply {
                ReplyView::Done => e.update,
                _ => e.update.push_log(
                    LogView::error("refresh server cache"@, failure_text(reply), now),
                ),
            };
            seal(ExecutionView { update, ..e }, states, guard, None, now)
        },
        Stage::Seal { failure } => match failure {
            Some(failure) => released(e, states, guard, Err(failure)),
            None => match reply {
                ReplyView::Done => released(e, states, guard, Ok(e.update)),
                _ => released(
                    e,
                    states,
                    guard,
                    Err(CommandErrorView::UpdateStoreFailed { message: failure_text(reply) }),
                ),
            },
        },
    }
}

/// One step of a command: what becomes of it and of the flags of every
/// resource on the answer `reply`, received at `now`, and what is to be done
/// next.
pub open spec fn spec_step(
    e: ExecutionView,
    states: RegistryView,
    reply: ReplyView,
    now: i64,
    open: Open,
) -> Stepped {
    match e.phase {
        PhaseView::Lookup => match reply {
            ReplyView::Stack(stack, server) => {
                if !stack.config.files_on_host && stack.config.linked_repo.len() > 0 {
                    Stepped {
                        execution: ExecutionView {
                            phase: PhaseView::LookupRepo { stack, server },
                            ..e
                        },
                        states,
                        action: ActionView::ResolveRepo { repo: stack.config.linked_repo },
                    }
                } else {
                    claim_stack(e, states, stack, server, None)
                }
            },
            _ => finished(
                e,
                states,
                Err(CommandErrorView::PermissionDenied { message: failure_text(reply) }),
            ),
        },
        PhaseView::LookupRepo { stack, server } => match reply {
            ReplyView::Repo(repo) => claim_stack(e, states, stack, server, Some(repo)),
            _ => finished(
                e,
                states,
                Err(CommandErrorView::ResourceUnavailable { message: failure_text(reply) }),
            ),
        },
        PhaseView::Claimed { guard, stage } => step_claimed(
            e,
            states,
            guard,
            stage,
            reply,
            now,
            open,
        ),
        PhaseView::Finished => Stepped { execution: e, states, action: ActionView::Idle },
    }
}

/// The claim that a command holds.
pub open spec fn held(e: ExecutionView) -> Option<ActionGuardView> {
    match e.phase {
        PhaseView::Claimed { guard, stage } => Some(guard),
        _ => None,
    }
}

/// The flags of every resource once the command was given up: the flags of
/// its stack are reset where it held the claim.
pub open spec fn spec_abandon(e: ExecutionView, states: RegistryView) -> RegistryView {
    match held(e) {
        Some(guard) => spec_release(states, guard.id),
        None => states,
    }
}

/// The command ends with `outcome`.
fn finish(command: Command, user: String, update: Update, outcome: Result<Update, CommandError>) -> (next:
    (Execution, Action))
    ensures
        next.0@ == (ExecutionView {
            command: command@,
            user: user@,
            update: update@,
            phase: PhaseView::Finished,
        }),
        next.1@ == ActionView::Finish(outcome_view(outcome)),
{
    (Execution { command, user, update, phase: Phase::Finished }, Action::Finish(outcome))
}

/// The command gives its claim back and ends with `outcome`.
fn release(
    command: Command,
    user: String,
    update: Update,
    states: &mut ActionStates,
    guard: ActionGuard,
    outcome: Result<Update, CommandError>,
) -> (next: (Execution, Action))
    ensures
        next.0@ == (ExecutionView {
            command: command@,
            user: user@,
            update: update@,
            phase: PhaseView::Finished,
        }),
        final(states)@ == spec_release(old(states)@, guard@.id),
        next.1@ == ActionView::Finish(outcome_view(outcome)),
{
    states.release(guard);
    finish(command, user, update, outcome)
}

/// The command keeps its claim and goes on, asking for `action`.
fn proceed_with(
    command: Command,
    user: String,
    update: Update,
    guard: ActionGuard,
    at: At,
    action: Action,
) -> (next: (Execution, Action))
    ensures
        next.0@ == (ExecutionView {
            command: command@,
            user: user@,
            update: update@,
            phase: PhaseView::Claimed { guard: guard@, stage: at@ },
        }),
        next.1@ == action@,
{
    (Execution { command, user, update, phase: Phase::Claimed { guard, at } }, action)
}

/// The command claims its flag on the stack.
fn claim(
    command: Command,
    user: String,
    update: Update,
    states: &mut ActionStates,
    stack: Stack,
    server: Server,
    repo: Option<Repo>,
) -> (next: (Execution, Action))
    ensures
        (Stepped { execution: next.0@, states: final(states)@, action: next.1@ }) == claim_stack(
            ExecutionView {
                command: command@,
                user: user@,
                update: update@,
                phase: PhaseView::Lookup,
            },
            old(states)@,
            stack@,
            server@,
            repo.deep_view(),
        ),
{
    match states.update(&stack.id, command.kind.flag()) {
        Ok(guard) => {
            let action = Action::RecordUpdate(update.clone());
            proceed_with(command, user, update, guard, At::Announce { stack, server, repo }, action)
        },
        Err(busy) => finish(command, user, update, Err(CommandError::Busy(busy))),
    }
}

/// The command seals its record and goes on to write it.
fn seal_record(
    command: Command,
    user: String,
    update: Update,
    guard: ActionGuard,
    failure: Option<CommandError>,
    now: i64,
) -> (next: (Execution, Action))
    ensures
        next.0@ == (ExecutionView {
            command: command@,
            user: user@,
            update: update@.finalize(now),
            phase: PhaseView::Claimed {
                guard: guard@,
                stage: Stage::Seal { failure: failure.deep_view() },
            },
        }),
        next.1@ == ActionView::RecordUpdate(update@.finalize(now)),
{
    let mut update = update;
    update.finalize(now);
    let action = Action::RecordUpdate(update.clone());
    proceed_with(command, user, update, guard, At::Seal { failure }, action)
}

/// The pending record was written, or could not be.
fn after_announce(
    command: Command,
    user: String,
    update: Update,
    states: &mut ActionStates,
    guard: ActionGuard,
    stack: Stack,
    server: Server,
    repo: Option<Repo>,
    reply: Reply,
    now: i64,
) -> (next: (Execution, Action))
    ensures
        forall|open: Open|
            #[trigger] step_claimed(
                ExecutionView {
                    command: command@,
                    user: user@,
                    update: update@,
                    phase: PhaseView::Claimed {
                        guard: guard@,
                        stage: Stage::Announce {
                            stack: stack@,
                            server: server@,
                            repo: repo.deep_view(),
                        },
                    },
                },
                old(states)@,
                guard@,
                Stage::Announce { stack: stack@, server: server@, repo: repo.deep_view() },
                reply@,
                now,
                open,
            ) == (Stepped { execution: next.0@, states: final(states)@, action: next.1@ }),
{
    match reply {
        Reply::Done => {
            let mut update = update;
            let (pipeline, action) = Pipeline::begin(
                command.kind.remote_operation(),
                stack,
                server,
                repo,
                command.services.clone(),
                command.stop_time,
                command.remove_orphans,
                &mut update.logs,
                now,
            );
            proceed_with(command, user, update, guard, At::Running(pipeline), action)
        },
        other => {
            let message = failure_message(other);
            release(
                command,
                user,
                update,
                states,
                guard,
                Err(CommandError::UpdateStoreFailed { message }),
            )
        },
    }
}

/// A step on the way to the answer of the remote agent.
fn after_pipeline(
    command: Command,
    user: String,
    update: Update,
    states: &mut ActionStates,
    guard: ActionGuard,
    pipeline: Pipeline,
    reply: Reply,
    now: i64,
) -> (next: ((Execution, Action), Ghost<Open>))
    ensures
        pipeline_admissible(pipeline@, reply@, next.1@),
        step_running(
            ExecutionView {
                command: command@,
                user: user@,
                update: update@,
                phase: PhaseView::Claimed { guard: guard@, stage: Stage::Running(pipeline@) },
            },
            old(states)@,
            guard@,
            pipeline@,
            reply@,
            now,
            next.1@,
        ) == (Stepped { execution: next.0.0@, states: final(states)@, action: next.0.1@ }),
{
    let mut update = update;
    let (advance, open) = pipeline.step_with(&mut update.logs, reply, now);
    let next = match advance {
        Advance::Ask(pipeline, action) => proceed_with(
            command,
            user,
            update,
            guard,
            At::Running(pipeline),
            action,
        ),
        Advance::Answered { stack, server, response } => {
            match command.kind.folding() {
                Folding::DeploySnapshot => {
                    let action = Action::StoreInfo {
                        stack: stack.name.clone(),
                        info: fold_deploy(&stack, &response),
                    };
                    update.extend_logs(response.logs);
                    proceed_with(command, user, update, guard, At::StoreInfo { server }, action)
                },
                Folding::Nothing => {
                    update.extend_logs(response.logs);
                    let action = Action::RefreshCache { server };
                    proceed_with(command, user, update, guard, At::Refresh, action)
                },
            }
        },
        Advance::Refused(error) => release(command, user, update, states, guard, Err(error)),
        Advance::Unanswered(message) => {
            update.push_error_log("remote agent", message.clone(), now);
            seal_record(
                command,
                user,
                update,
                guard,
                Some(CommandError::RemoteAgentError { message }),
                now,
            )
        },
    };
    (next, open)
}

/// What is known of the stack was written, or could not be: either way the
/// command goes on.
fn after_store_info(
    command: Command,
    user: String,
    update: Update,
    guard: ActionGuard,
    server: Server,
    reply: Reply,
    now: i64,
) -> (next: (Execution, Action))
    ensures
        forall|open: Open, states: RegistryView|
            #[trigger] step_claimed(
                ExecutionView {
                    command: command@,
                    user: user@,
                    update: update@,
                    phase: PhaseView::Claimed {
                        guard: guard@,
                        stage: Stage::StoreInfo { server: server@ },
                    },
                },
                states,
                guard@,
                Stage::StoreInfo { server: server@ },
                reply@,
                now,
                open,
            ) == (Stepped { execution: next.0@, states, action: next.1@ }),
{
    let mut update = update;
    match reply {
        Reply::Done => {},
        other => {
            let cause = failure_message(other);
            let message = appended("failed to refresh stack info on db: ", cause.as_str());
            update.push_error_log("refresh stack info", message, now);
        },
    }
    let action = Action::RefreshCache { server };
    proceed_with(command, user, update, guard, At::Refresh, action)
}

/// The cache was refreshed, or could not be: either way the record is
/// sealed.
fn after_refresh(
    command: Command,
    user: String,
    update: Update,
    guard: ActionGuard,
    reply: Reply,
    now: i64,
) -> (next: (Execution, Action))
    ensures
        forall|open: Open, states: RegistryView|
            #[trigger] step_claimed(
                ExecutionView {
                    command: command@,
                    user: user@,
                    update: update@,
                    phase: PhaseView::Claimed { guard: guard@, stage: Stage::Refresh },
                },
                states,
                guard@,
                Stage::Refresh,
                reply@,
                now,
                open,
            ) == (Stepped { execution: next.0@, states, action: next.1@ }),
{
    let mut update = update;
    match reply {
        Reply::Done => {},
        other => {
            let message = failure_message(other);
            update.push_error_log("refresh server cache", message, now);
        },
    }
    seal_record(command, user, update, guard, None, now)
}

/// The sealed record was written, or could not be: the claim is given back
/// and the command ends.
fn after_seal(
    command: Command,
    user: String,
    update: Update,
    states: &mut ActionStates,
    guard: ActionGuard,
    failure: Option<CommandError>,
    reply: Reply,
    now: i64,
) -> (next: (Execution, Action))
    ensures
        forall|open: Open|
            #[trigger] step_claimed(
                ExecutionView {
                    command: command@,
                    user: user@,
                    update: update@,
                    phase: PhaseView::Claimed {
                        guard: guard@,
                        stage: Stage::Seal { failure: failure.deep_view() },
                    },
                },
                old(states)@,
                guard@,
                Stage::Seal { failure: failure.deep_view() },
                reply@,
                now,
                open,
            ) == (Stepped { execution: next.0@, states: final(states)@, action: next.1@ }),
{
    let outcome = match failure {
        Some(failure) => Err(failure),
        None => match reply {
            Reply::Done => Ok(update.clone()),
            other => {
                let message = failure_message(other);
                Err(CommandError::UpdateStoreFailed { message })
            },
        },
    };
    release(command, user, update, states, guard, outcome)
}

impl Execution {
    /// Starts a command: the stack is to be resolved first.
    pub fn begin(command: Command, user: String, update: Update) -> (started: (Execution, Action))
        ensures
            (started.0@, started.1@) == spec_begin(command@, user@, update@),
    {
        let action = Action::ResolveStack {
            stack: command.stack.clone(),
            user: user.clone(),
            level: PermissionLevel::Execute,
        };
        (Execution { command, user, update, phase: Phase::Lookup }, action)
    }

    /// Tells whether the command has ended.
    pub fn is_finished(&self) -> (res: bool)
        ensures
            res == (self@.phase is Finished),
    {
        match self.phase {
            Phase::Finished => true,
            _ => false,
        }
    }

    /// Tells whether the command holds the claim on its stack.
    pub fn holds_claim(&self) -> (res: bool)
        ensures
            res == (held(self@) is Some),
    {
        match self.phase {
            Phase::Claimed { .. } => true,
            _ => false,
        }
    }

    /// The execution record as it stands.
    pub fn update(&self) -> (update: &Update)
        ensures
            update@ == self@.update,
    {
        &self.update
    }

    /// Gives the command up where it stands: a claim that it holds is given
    /// back, and nothing else is done. This is for a driver that cannot go
    /// on, so that the stack is not left marked busy.
    pub fn abandon(self, states: &mut ActionStates)
        ensures
            final(states)@ == spec_abandon(self@, old(states)@),
    {
        match self.phase {
            Phase::Claimed { guard, at } => states.release(guard),
            _ => {},
        }
    }

    /// Takes the answer to the work that was asked for last and says what
    /// is to be done next.
    ///
    /// The step is the one that [`spec_step`] describes, for something that
    /// the rendering engine may have come up with.
    pub fn step(self, states: &mut ActionStates, reply: Reply, now: i64) -> (next: (
        Execution,
        Action,
    ))
        ensures
            exists|open: Open|
                admissible(self@, reply@, open) && #[trigger] spec_step(
                    self@,
                    old(states)@,
                    reply@,
                    now,
                    open,
                ) == (Stepped { execution: next.0@, states: final(states)@, action: next.1@ }),
    {
        let ghost before = self@;
        let ghost asked = reply@;
        let ghost open = Open {
            variables: Seq::empty(),
            secrets: Seq::empty(),
            refusal: Seq::empty(),
        };
        let Execution { command, user, update, phase } = self;
        let next = match phase {
            Phase::Lookup => match reply {
                Reply::Stack(stack, server) => {
                    if !stack.config.files_on_host && !stack.config.linked_repo.as_str().is_empty() {
                        let action = Action::ResolveRepo { repo: stack.config.linked_repo.clone() };
                        (
                            Execution {
                                command,
                                user,
                                update,
                                phase: Phase::LookupRepo { stack, server },
                            },
                            action,
                        )
                    } else {
                        claim(command, user, update, states, stack, server, None)
                    }
                },
                other => {
                    let message = failure_message(other);
                    finish(command, user, update, Err(CommandError::PermissionDenied { message }))
                },
            },
            Phase::LookupRepo { stack, server } => match reply {
                Reply::Repo(repo) => claim(command, user, update, states, stack, server, Some(repo)),
                other => {
                    let message = failure_message(other);
                    finish(
                        command,
                        user,
                        update,
                        Err(CommandError::ResourceUnavailable { message }),
                    )
                },
            },
            Phase::Claimed { guard, at } => match at {
                At::Announce { stack, server, repo } => after_announce(
                    command,
                    user,
                    update,
                    states,
                    guard,
                    stack,
                    server,
                    repo,
                    reply,
                    now,
                ),
                At::Running(pipeline) => {
                    let (next, Ghost(found)) = after_pipeline(
                        command,
                        user,
                        update,
                        states,
                        guard,
                        pipeline,
                        reply,
                        now,
                    );
                    proof {
                        open = found;
                    }
                    next
                },
                At::StoreInfo { server } => after_store_info(
                    command,
                    user,
                    update,
                    guard,
                    server,
                    reply,
                    now,
                ),
                At::Refresh => after_refresh(command, user, update, guard, reply, now),
                At::Seal { failure } => after_seal(
                    command,
                    user,
                    update,
                    states,
                    guard,
                    failure,
                    reply,
                    now,
                ),
            },
            Phase::Finished => (
                Execution { command, user, update, phase: Phase::Finished },
                Action::Idle,
            ),
        };
        assert(admissible(before, asked, open));
        assert(spec_step(before, old(states)@, asked, now, open) == (Stepped {
            execution: next.0@,
            states: states@,
            action: next.1@,
        }));
        next
    }
}

/// The record of a command that is writing its sealed record is sealed.
pub open spec fn sealed_in_time(e: ExecutionView) -> bool {
    e.phase matches PhaseView::Claimed { stage: Stage::Seal { .. }, .. } ==> e.update.is_finalized()
}

/// Work on the stack is asked for only by a command that holds the claim on
/// it, and keeps it: credentials, rendering, the call of the remote agent
/// and what follows it all come after the claim and before its release.
pub proof fn lemma_work_needs_the_claim(
    e: ExecutionView,
    states: RegistryView,
    reply: ReplyView,
    now: i64,
    open: Open,
)
    ensures
        ({
            let stepped = spec_step(e, states, reply, now, open);
            (stepped.action is RecordUpdate || stepped.action is GitToken
                || stepped.action is RegistryToken || stepped.action is VariablesAndSecrets
                || stepped.action is Remote || stepped.action is StoreInfo
                || stepped.action is RefreshCache) ==> held(stepped.execution) is Some
        }),
        spec_step(e, states, reply, now, open).action is Finish ==> held(
            spec_step(e, states, reply, now, open).execution,
        ) is None,
{
}

/// A command that ends well hands out its record sealed, and the record is
/// the one that was written last. The record is sealed once: by the step
/// that goes on to write it.
pub proof fn lemma_success_is_sealed(
    e: ExecutionView,
    states: RegistryView,
    reply: ReplyView,
    now: i64,
    open: Open,
)
    requires
        sealed_in_time(e),
    ensures
        sealed_in_time(spec_step(e, states, reply, now, open).execution),
        spec_step(e, states, reply, now, open).action matches ActionView::Finish(Ok(update))
            ==> update.is_finalized() && update == e.update && e.phase is Claimed,
{
}

/// A call of the remote agent that is not answered is put on record: the
/// record gets an entry that tells of the failure, is sealed as failed and
/// is written, and only then does the command end, with that failure.
pub proof fn lemma_remote_failure_is_on_record(
    e: ExecutionView,
    states: RegistryView,
    reply: ReplyView,
    now: i64,
    open: Open,
    later: ReplyView,
    then: i64,
)
    requires
        e.phase matches PhaseView::Claimed { stage: Stage::Running(pipeline), .. }
            && pipeline.stage == crate::pipeline::PipelineStage::Remote,
        !(reply is Remote),
    ensures
        ({
            let first = spec_step(e, states, reply, now, open);
            let second = spec_step(first.execution, first.states, later, then, open);
            let failure = LogView::error("remote agent"@, failure_text(reply), now);
            &&& first.action matches ActionView::RecordUpdate(update)
            &&& update.is_finalized()
            &&& !update.success
            &&& update.logs == e.update.logs.push(failure)
            &&& second.action == ActionView::Finish(
                Err(CommandErrorView::RemoteAgentError { message: failure_text(reply) }),
            )
            &&& second.states == spec_release(states, held(e)->0.id)
        }),
{
    let first = spec_step(e, states, reply, now, open);
    let failure = LogView::error("remote agent"@, failure_text(reply), now);
    let logs = e.update.logs.push(failure);
    assert(e.update.logs + Seq::<LogView>::empty() =~= e.update.logs);
    assert(!logs[logs.len() - 1].success);
}

/// What follows the answer of the remote agent cannot fail the command:
/// whether or not what is known of the stack could be written and the
/// server's cached view refreshed, the record is sealed and written, and
/// with the record written the command ends well.
pub proof fn lemma_bookkeeping_does_not_fail_the_command(
    e: ExecutionView,
    states: RegistryView,
    stored: ReplyView,
    refreshed: ReplyView,
    now: i64,
    open: Open,
)
    requires
        e.phase matches PhaseView::Claimed { stage: Stage::StoreInfo { .. }, .. },
    ensures
        ({
            let first = spec_step(e, states, stored, now, open);
            let second = spec_step(first.execution, first.states, refreshed, now, open);
            let third = spec_step(second.execution, second.states, ReplyView::Done, now, open);
            &&& first.action is RefreshCache
            &&& second.action matches ActionView::RecordUpdate(update)
            &&& update.is_finalized()
            &&& third.action == ActionView::Finish(Ok(update))
            &&& third.states == spec_release(states, held(e)->0.id)
        }),
{
}

} // verus!
