//! The course of a conditional deploy: deploy only where the latest files
//! differ from what was deployed.
//!
//! The latest state of the stack is fetched first, so that the comparison
//! is made against the current source. Where nothing has changed the
//! command ends there, with a sealed record that says so; it claims nothing
//! and calls no remote agent. Where something has changed, the record is
//! registered and the plain deploy takes over, with the same record, for
//! all services and with the same stop time.

use vstd::prelude::*;
use vstd::string::StringExecFns;
use crate::change::{changed, spec_changed};
use crate::command::{
    CommandError, CommandErrorView, DeployStack, DeployStackIfChanged, DeployStackIfChangedView,
    DeployStackView, PermissionLevel,
};
use crate::entities::{Stack, StackView};
use crate::protocol::outcome_view;
use crate::update::{LogView, Update, UpdateView};

verus! {

/// The answer to the work that was asked for last.
#[derive(Debug)]
pub enum ConditionalReply {
    /// The stack.
    Stack(Stack),
    /// The work is done and has nothing to tell.
    Done,
    /// The id under which the execution record was registered.
    Id(String),
    /// The work failed.
    Failed(String),
}

/// Mathematical view of [`ConditionalReply`].
pub enum ConditionalReplyView {
    Stack(StackView),
    Done,
    Id(Seq<char>),
    Failed(Seq<char>),
}

impl DeepView for ConditionalReply {
    type V = ConditionalReplyView;

    open spec fn deep_view(&self) -> ConditionalReplyView {
        match self {
            ConditionalReply::Stack(stack) => ConditionalReplyView::Stack(stack@),
            ConditionalReply::Done => ConditionalReplyView::Done,
            ConditionalReply::Id(id) => ConditionalReplyView::Id(id@),
            ConditionalReply::Failed(message) => ConditionalReplyView::Failed(message@),
        }
    }
}

impl View for ConditionalReply {
    type V = ConditionalReplyView;

    open spec fn view(&self) -> ConditionalReplyView {
        self.deep_view()
    }
}

/// The work that is to be done next.
#[derive(Debug, PartialEq, Eq)]
pub enum ConditionalAction {
    /// Resolve the stack for the principal, who needs at least `level` on
    /// it. Answered by [`ConditionalReply::Stack`].
    CheckPermission { stack: String, user: String, level: PermissionLevel },
    /// Fetch the latest state of the stack into what is known of it.
    /// Answered by [`ConditionalReply::Done`].
    RefreshStackCache { stack: String, user: String },
    /// Read the stack again. Answered by [`ConditionalReply::Stack`].
    GetStack { stack: String },
    /// Register the execution record without announcing it. Answered by
    /// [`ConditionalReply::Id`].
    RegisterUpdate(Update),
    /// Run the plain deploy with this record; its outcome is the outcome of
    /// the conditional deploy.
    Deploy { request: DeployStack, user: String, update: Update },
    /// The command has ended with this outcome.
    Finish(Result<Update, CommandError>),
    /// The command ended before; there is nothing to do.
    Idle,
}

/// Mathematical view of [`ConditionalAction`].
pub enum ConditionalActionView {
    CheckPermission { stack: Seq<char>, user: Seq<char>, level: PermissionLevel },
    RefreshStackCache { stack: Seq<char>, user: Seq<char> },
    GetStack { stack: Seq<char> },
    RegisterUpdate(UpdateView),
    Deploy { request: DeployStackView, user: Seq<char>, update: UpdateView },
    Finish(Result<UpdateView, CommandErrorView>),
    Idle,
}

impl DeepView for ConditionalAction {
    type V = ConditionalActionView;

    open spec fn deep_view(&self) -> ConditionalActionView {
        match self {
            ConditionalAction::CheckPermission {
                stack,
                user,
                level,
            } => ConditionalActionView::CheckPermission {
                stack: stack@,
                user: user@,
                level: *level,
            },
            ConditionalAction::RefreshStackCache {
                stack,
                user,
            } => ConditionalActionView::RefreshStackCache { stack: stack@, user: user@ },
            ConditionalAction::GetStack { stack } => ConditionalActionView::GetStack {
                stack: stack@,
            },
            ConditionalAction::RegisterUpdate(update) => ConditionalActionView::RegisterUpdate(
                update@,
            ),
            ConditionalAction::Deploy { request, user, update } => ConditionalActionView::Deploy {
                request: request@,
                user: user@,
                update: update@,
            },
            ConditionalAction::Finish(outcome) => ConditionalActionView::Finish(
                outcome_view(*outcome),
            ),
            ConditionalAction::Idle => ConditionalActionView::Idle,
        }
    }
}

impl View for ConditionalAction {
    type V = ConditionalActionView;

    open spec fn view(&self) -> ConditionalActionView {
        self.deep_view()
    }
}

enum Phase {
    Permission,
    Refresh { stack: String },
    Reload,
    Register { stack: String },
    Finished,
}

/// How far a conditional deploy has come.
pub enum ConditionalPhase {
    /// The stack is being resolved for the principal.
    Permission,
    /// The latest state of the stack with this id is being fetched.
    Refresh { stack: Seq<char> },
    /// The stack is being read again.
    Reload,
    /// A change was found; the record is being registered for the deploy of
    /// the stack with this name.
    Register { stack: Seq<char> },
    /// The command has ended or was handed over.
    Finished,
}

impl View for Phase {
    type V = ConditionalPhase;

    closed spec fn view(&self) -> ConditionalPhase {
        match self {
            Phase::Permission => ConditionalPhase::Permission,
            Phase::Refresh { stack } => ConditionalPhase::Refresh { stack: stack@ },
            Phase::Reload => ConditionalPhase::Reload,
            Phase::Register { stack } => ConditionalPhase::Register { stack: stack@ },
            Phase::Finished => ConditionalPhase::Finished,
        }
    }
}

/// One conditional deploy under way.
pub struct ConditionalDeploy {
    request: DeployStackIfChanged,
    user: String,
    update: Update,
    phase: Phase,
}

/// Mathematical view of [`ConditionalDeploy`].
pub struct ConditionalDeployView {
    pub request: DeployStackIfChangedView,
    pub user: Seq<char>,
    pub update: UpdateView,
    pub phase: ConditionalPhase,
}

impl View for ConditionalDeploy {
    type V = ConditionalDeployView;

    closed spec fn view(&self) -> ConditionalDeployView {
        ConditionalDeployView {
            request: self.request@,
            user: self.user@,
            update: self.update@,
            phase: self.phase@,
        }
    }
}

/// What a failed piece of work had to say. An answer that the step did not
/// ask for counts as a failure.
pub open spec fn conditional_failure_text(reply: ConditionalReplyView) -> Seq<char> {
    match reply {
        ConditionalReplyView::Failed(message) => message,
        _ => "unexpected reply"@,
    }
}

/// The entry that tells that nothing has changed.
pub open spec fn unchanged_log(now: i64) -> LogView {
    LogView::simple("Diff compose files"@, "Deploy cancelled after no changes detected."@, now)
}

/// A conditional deploy at its start, and the first piece of work.
pub open spec fn spec_conditional_begin(
    request: DeployStackIfChangedView,
    user: Seq<char>,
    update: UpdateView,
) -> (ConditionalDeployView, ConditionalActionView) {
    (
        ConditionalDeployView { request, user, update, phase: ConditionalPhase::Permission },
        ConditionalActionView::CheckPermission {
            stack: request.stack,
            user,
            level: PermissionLevel::Execute,
        },
    )
}

/// The command ends with `outcome`; its record stands as `update`.
pub open spec fn conditional_finished(
    c: ConditionalDeployView,
    update: UpdateView,
    outcome: Result<UpdateView, CommandErrorView>,
) -> (ConditionalDeployView, ConditionalActionView) {
    (
        ConditionalDeployView { update, phase: ConditionalPhase::Finished, ..c },
        ConditionalActionView::Finish(outcome),
    )
}

/// One step of a conditional deploy: what becomes of it on the answer
/// `reply`, received at `now`, and what is to be done next.
pub open spec fn spec_conditional_step(
    c: ConditionalDeployView,
    reply: ConditionalReplyView,
    now: i64,
) -> (ConditionalDeployView, ConditionalActionView) {
    match c.phase {
        ConditionalPhase::Permission => match reply {
            ConditionalReplyView::Stack(stack) => (
                ConditionalDeployView { phase: ConditionalPhase::Refresh { stack: stack.id }, ..c },
                ConditionalActionView::RefreshStackCache { stack: stack.id, user: c.user },
            ),
            _ => conditional_finished(
                c,
                c.update,
                Err(
                    CommandErrorView::PermissionDenied {
                        message: conditional_failure_text(reply),
                    },
                ),
            ),
        },
        ConditionalPhase::Refresh { stack } => match reply {
            ConditionalReplyView::Done => (
                ConditionalDeployView { phase: ConditionalPhase::Reload, ..c },
                ConditionalActionView::GetStack { stack },
            ),
            _ => conditional_finished(
                c,
                c.update,
                Err(
                    CommandErrorView::CacheRefreshFailed {
                        message: conditional_failure_text(reply),
                    },
                ),
            ),
        },
        ConditionalPhase::Reload => match reply {
            ConditionalReplyView::Stack(stack) => {
                if spec_changed(stack.info.deployed_contents, stack.info.remote_contents) {
                    (
                        ConditionalDeployView {
                            phase: ConditionalPhase::Register { stack: stack.name },
                            ..c
                        },
                        ConditionalActionView::RegisterUpdate(c.update),
                    )
                } else {
                    let update = c.update.push_log(unchanged_log(now)).finalize(now);
                    conditional_finished(c, update, Ok(update))
                }
            },
            _ => conditional_finished(
                c,
                c.update,
                Err(
                    CommandErrorView::ResourceUnavailable {
                        message: conditional_failure_text(reply),
                    },
                ),
            ),
        },
        ConditionalPhase::Register { stack } => match reply {
            ConditionalReplyView::Id(id) => {
                let update = UpdateView { id, ..c.update };
                (
                    ConditionalDeployView { update, phase: ConditionalPhase::Finished, ..c },
                    ConditionalActionView::Deploy {
                        request: DeployStackView {
                            stack,
                            services: Seq::empty(),
                            stop_time: c.request.stop_time,
                        },
                        user: c.user,
                        update,
                    },
                )
            },
            _ => conditional_finished(
                c,
                c.update,
                Err(
                    CommandErrorView::UpdateStoreFailed {
                        message: conditional_failure_text(reply),
                    },
                ),
            ),
        },
        ConditionalPhase::Finished => (c, ConditionalActionView::Idle),
    }
}

/// What a failed piece of work had to say.
fn failure_message(reply: ConditionalReply) -> (message: String)
    ensures
        message@ == conditional_failure_text(reply@),
{
    match reply {
        ConditionalReply::Failed(message) => message,
        _ => String::from_str("unexpected reply"),
    }
}

impl ConditionalDeploy {
    /// Starts a conditional deploy: the stack is to be resolved first.
    pub fn begin(request: DeployStackIfChanged, user: String, update: Update) -> (started: (
        ConditionalDeploy,
        ConditionalAction,
    ))
        ensures
            (started.0@, started.1@) == spec_conditional_begin(request@, user@, update@),
    {
        let action = ConditionalAction::CheckPermission {
            stack: request.stack.clone(),
            user: user.clone(),
            level: PermissionLevel::Execute,
        };
        (ConditionalDeploy { request, user, update, phase: Phase::Permission }, action)
    }

    /// Tells whether the command has ended or was handed over.
    pub fn is_finished(&self) -> (res: bool)
        ensures
            res == (self@.phase is Finished),
    {
        match self.phase {
            Phase::Finished => true,
            _ => false,
        }
    }

    /// Takes the answer to the work that was asked for last and says what
    /// is to be done next.
    pub fn step(self, reply: ConditionalReply, now: i64) -> (next: (
        ConditionalDeploy,
        ConditionalAction,
    ))
        ensures
            (next.0@, next.1@) == spec_conditional_step(self@, reply@, now),
    {
        let ConditionalDeploy { request, user, update, phase } = self;
        match phase {
            Phase::Permission => match reply {
                ConditionalReply::Stack(stack) => {
                    let action = ConditionalAction::RefreshStackCache {
                        stack: stack.id.clone(),
                        user: user.clone(),
                    };
                    (
                        ConditionalDeploy {
                            request,
                            user,
                            update,
                            phase: Phase::Refresh { stack: stack.id },
                        },
                        action,
                    )
                },
                other => {
                    let message = failure_message(other);
                    (
                        ConditionalDeploy { request, user, update, phase: Phase::Finished },
                        ConditionalAction::Finish(
                            Err(CommandError::PermissionDenied { message }),
                        ),
                    )
                },
            },
            Phase::Refresh { stack } => match reply {
                ConditionalReply::Done => (
                    ConditionalDeploy { request, user, update, phase: Phase::Reload },
                    ConditionalAction::GetStack { stack },
                ),
                other => {
                    let message = failure_message(other);
                    (
                        ConditionalDeploy { request, user, update, phase: Phase::Finished },
                        ConditionalAction::Finish(
                            Err(CommandError::CacheRefreshFailed { message }),
                        ),
                    )
                },
            },
            Phase::Reload => match reply {
                ConditionalReply::Stack(stack) => {
                    if changed(&stack.info.deployed_contents, &stack.info.remote_contents) {
                        let action = ConditionalAction::RegisterUpdate(update.clone());
                        (
                            ConditionalDeploy {
                                request,
                                user,
                                update,
                                phase: Phase::Register { stack: stack.name },
                            },
                            action,
                        )
                    } else {
                        let mut update = update;
                        update.push_simple_log(
                            "Diff compose files",
                            String::from_str("Deploy cancelled after no changes detected."),
                            now,
                        );
                        update.finalize(now);
                        let action = ConditionalAction::Finish(Ok(update.clone()));
                        (
                            ConditionalDeploy { request, user, update, phase: Phase::Finished },
                            action,
                        )
                    }
                },
                other => {
                    let message = failure_message(other);
                    (
                        ConditionalDeploy { request, user, update, phase: Phase::Finished },
                        ConditionalAction::Finish(
                            Err(CommandError::ResourceUnavailable { message }),
                        ),
                    )
                },
            },
            Phase::Register { stack } => match reply {
                ConditionalReply::Id(id) => {
                    let mut update = update;
                    update.id = id;
                    let services: Vec<String> = Vec::new();
                    assert(services.deep_view() =~= Seq::empty());
                    let action = ConditionalAction::Deploy {
                        request: DeployStack { stack, services, stop_time: request.stop_time },
                        user: user.clone(),
                        update: update.clone(),
                    };
                    (ConditionalDeploy { request, user, update, phase: Phase::Finished }, action)
                },
                other => {
                    let message = failure_message(other);
                    (
                        ConditionalDeploy { request, user, update, phase: Phase::Finished },
                        ConditionalAction::Finish(
                            Err(CommandError::UpdateStoreFailed { message }),
                        ),
                    )
                },
            },
            Phase::Finished => (
                ConditionalDeploy { request, user, update, phase: Phase::Finished },
                ConditionalAction::Idle,
            ),
        }
    }
}

/// Where the latest files are those that were deployed, the command ends
/// with a sealed record whose last entry says that nothing has changed.
pub proof fn lemma_unchanged_ends_sealed(c: ConditionalDeployView, stack: StackView, now: i64)
    requires
        c.phase is Reload,
        !spec_changed(stack.info.deployed_contents, stack.info.remote_contents),
    ensures
        ({
            let next = spec_conditional_step(c, ConditionalReplyView::Stack(stack), now);
            &&& next.0.phase is Finished
            &&& next.1 matches ConditionalActionView::Finish(Ok(update))
            &&& update.is_finalized()
            &&& update.logs == c.update.logs.push(unchanged_log(now))
            &&& update.logs.last() == unchanged_log(now)
        }),
{
}

/// The plain deploy is asked for only once a change was found: by a command
/// that was registering its record, which only a found change leads to.
pub proof fn lemma_deploy_needs_a_change(
    c: ConditionalDeployView,
    reply: ConditionalReplyView,
    now: i64,
)
    ensures
        spec_conditional_step(c, reply, now).1 is Deploy ==> c.phase is Register,
        spec_conditional_step(c, reply, now).0.phase is Register ==> c.phase is Reload && (
        reply matches ConditionalReplyView::Stack(stack) && spec_changed(
            stack.info.deployed_contents,
            stack.info.remote_contents,
        )),
{
}

/// The plain deploy that takes over is for the stack by its name, for all
/// services, with the stop time and the record of the conditional deploy,
/// under the id that the record was registered with.
pub proof fn lemma_deploy_carries_the_record(
    c: ConditionalDeployView,
    id: Seq<char>,
    now: i64,
)
    requires
        c.phase is Register,
    ensures
        spec_conditional_step(c, ConditionalReplyView::Id(id), now).1
            == (ConditionalActionView::Deploy {
            request: DeployStackView {
                stack: c.phase->Register_stack,
                services: Seq::empty(),
                stop_time: c.request.stop_time,
            },
            user: c.user,
            update: UpdateView { id, ..c.update },
        }),
{
}

} // verus!
