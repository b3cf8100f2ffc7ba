//! The pull of a stack's images, for a caller that has resolved the stack
//! and may act on it: credentials, rendering, the call of the remote agent,
//! and the refresh of the server's cached view.

use vstd::prelude::*;
use crate::command::{CommandError, CommandErrorView};
use crate::compose::{RemoteOperation, RemoteResponse, RemoteResponseView};
use crate::entities::{Repo, RepoView, Server, ServerView, Stack, StackView};
use crate::pipeline::{
    begin_logs, pipeline_admissible, spec_pipeline_begin, spec_pipeline_step, Advance,
    AdvanceView, Open, Pipeline, PipelineView,
};
use crate::protocol::{Action, ActionView, Reply, ReplyView};
use crate::update::{Log, LogView, Update, UpdateView};

verus! {

/// The work that is to be done next.
#[derive(Debug, PartialEq, Eq)]
pub enum PullAction {
    /// A piece of work for the outside.
    Work(Action),
    /// The pull has ended with this outcome; the execution record, where
    /// there is one, is handed back with what the pull added to it.
    Finish { outcome: Result<RemoteResponse, CommandError>, update: Option<Update> },
    /// The pull ended before; there is nothing to do.
    Idle,
}

/// Mathematical view of [`PullAction`].
pub enum PullActionView {
    Work(ActionView),
    Finish { outcome: Result<RemoteResponseView, CommandErrorView>, update: Option<UpdateView> },
    Idle,
}

/// The outcome of a pull as its mathematical view.
pub open spec fn pull_outcome_view(outcome: Result<RemoteResponse, CommandError>) -> Result<
    RemoteResponseView,
    CommandErrorView,
> {
    match outcome {
        Ok(response) => Ok(response@),
        Err(error) => Err(error@),
    }
}

impl DeepView for PullAction {
    type V = PullActionView;

    open spec fn deep_view(&self) -> PullActionView {
        match self {
            PullAction::Work(action) => PullActionView::Work(action@),
            PullAction::Finish { outcome, update } => PullActionView::Finish {
                outcome: pull_outcome_view(*outcome),
                update: update.deep_view(),
            },
            PullAction::Idle => PullActionView::Idle,
        }
    }
}

impl View for PullAction {
    type V = PullActionView;

    open spec fn view(&self) -> PullActionView {
        self.deep_view()
    }
}

enum Phase {
    Running(Pipeline),
    Refreshing(RemoteResponse),
    Finished,
}

/// How far a pull has come.
pub enum PullPhase {
    /// On the way to the answer of the remote agent.
    Running(PipelineView),
    /// The agent has answered; the server's cached view is being refreshed.
    Refreshing(RemoteResponseView),
    /// The pull has ended.
    Finished,
}

impl View for Phase {
    type V = PullPhase;

    closed spec fn view(&self) -> PullPhase {
        match self {
            Phase::Running(pipeline) => PullPhase::Running(pipeline@),
            Phase::Refreshing(response) => PullPhase::Refreshing(response@),
            Phase::Finished => PullPhase::Finished,
        }
    }
}

/// One pull under way.
pub struct PullRun {
    update: Option<Update>,
    phase: Phase,
}

/// Mathematical view of [`PullRun`].
pub struct PullRunView {
    /// The execution record as it stands, where the pull writes one.
    pub update: Option<UpdateView>,
    pub phase: PullPhase,
}

impl View for PullRun {
    type V = PullRunView;

    closed spec fn view(&self) -> PullRunView {
        PullRunView { update: self.update.deep_view(), phase: self.phase@ }
    }
}

/// The execution record, where there is one, with `logs` at its end.
pub open spec fn extended(update: Option<UpdateView>, logs: Seq<LogView>) -> Option<UpdateView> {
    match update {
        Some(u) => Some(u.extend_logs(logs)),
        None => None,
    }
}

/// A pull at its start, and the first piece of work.
pub open spec fn spec_pull_begin(
    stack: StackView,
    services: Seq<Seq<char>>,
    server: ServerView,
    repo: Option<RepoView>,
    update: Option<UpdateView>,
    now: i64,
) -> (PullRunView, PullActionView) {
    let started = spec_pipeline_begin(
        RemoteOperation::Pull,
        stack,
        server,
        repo,
        services,
        None,
        false,
    );
    (
        PullRunView {
            update: extended(update, begin_logs(services, now)),
            phase: PullPhase::Running(started.0),
        },
        PullActionView::Work(started.1),
    )
}

/// The pull ends with `outcome` and hands its record back.
pub open spec fn pull_finished(
    update: Option<UpdateView>,
    outcome: Result<RemoteResponseView, CommandErrorView>,
) -> (PullRunView, PullActionView) {
    (
        PullRunView { update: None, phase: PullPhase::Finished },
        PullActionView::Finish { outcome, update },
    )
}

/// One step of a pull on the answer `reply`, received at `now`.
///
/// A failure before the call of the remote agent, or of the call, ends the
/// pull with that failure. Once the agent has answered, the server's cached
/// view is refreshed, and the pull ends with the answer however the refresh
/// goes.
pub open spec fn spec_pull_step(run: PullRunView, reply: ReplyView, now: i64, open: Open) -> (
    PullRunView,
    PullActionView,
) {
    match run.phase {
        PullPhase::Running(pipeline) => {
            let stepped = spec_pipeline_step(pipeline, reply, now, open);
            let update = extended(run.update, stepped.logs);
            match stepped.next {
                AdvanceView::Ask(next, action) => (
                    PullRunView { update, phase: PullPhase::Running(next) },
                    PullActionView::Work(action),
                ),
                AdvanceView::Answered { stack, server, response } => (
                    PullRunView { update, phase: PullPhase::Refreshing(response) },
                    PullActionView::Work(ActionView::RefreshCache { server }),
                ),
                AdvanceView::Refused(error) => pull_finished(update, Err(error)),
                AdvanceView::Unanswered(message) => pull_finished(
                    update,
                    Err(CommandErrorView::RemoteAgentError { message }),
                ),
            }
        },
        PullPhase::Refreshing(response) => pull_finished(run.update, Ok(response)),
        PullPhase::Finished => (run, PullActionView::Idle),
    }
}

/// `open` is something that the rendering engine may have come up with in
/// this step.
pub open spec fn pull_admissible(run: PullRunView, reply: ReplyView, open: Open) -> bool {
    match run.phase {
        PullPhase::Running(pipeline) => pipeline_admissible(pipeline, reply, open),
        _ => true,
    }
}

/// Starts the pull of the images of `stack`, limited to `services` where
/// there are any, on `server`. Where an execution record is given, the pull
/// adds its entries to it and hands it back at its end.
pub fn pull_stack_inner(
    stack: Stack,
    services: Vec<String>,
    server: &Server,
    repo: Option<Repo>,
    update: Option<Update>,
    now: i64,
) -> (started: (PullRun, PullAction))
    ensures
        (started.0@, started.1@) == spec_pull_begin(
            stack@,
            services.deep_view(),
            server@,
            repo.deep_view(),
            update.deep_view(),
            now,
        ),
{
    let server = server.clone();
    match update {
        Some(record) => {
            let mut record = record;
            let (pipeline, action) = Pipeline::begin(
                RemoteOperation::Pull,
                stack,
                server,
                repo,
                services,
                None,
                false,
                &mut record.logs,
                now,
            );
            (
                PullRun { update: Some(record), phase: Phase::Running(pipeline) },
                PullAction::Work(action),
            )
        },
        None => {
            let mut unrecorded: Vec<Log> = Vec::new();
            let (pipeline, action) = Pipeline::begin(
                RemoteOperation::Pull,
                stack,
                server,
                repo,
                services,
                None,
                false,
                &mut unrecorded,
                now,
            );
            (PullRun { update: None, phase: Phase::Running(pipeline) }, PullAction::Work(action))
        },
    }
}

/// A step of the pipeline that writes into the record, where there is one.
fn step_recorded(pipeline: Pipeline, update: Option<Update>, reply: Reply, now: i64) -> (next: (
    Advance,
    Option<Update>,
    Ghost<Open>,
))
    ensures
        pipeline_admissible(pipeline@, reply@, next.2@),
        spec_pipeline_step(pipeline@, reply@, now, next.2@).next == next.0@,
        next.1.deep_view() == extended(
            update.deep_view(),
            spec_pipeline_step(pipeline@, reply@, now, next.2@).logs,
        ),
{
    match update {
        Some(record) => {
            let mut record = record;
            let (next, open) = pipeline.step_with(&mut record.logs, reply, now);
            (next, Some(record), open)
        },
        None => {
            let mut unrecorded: Vec<Log> = Vec::new();
            let (next, open) = pipeline.step_with(&mut unrecorded, reply, now);
            (next, None, open)
        },
    }
}

impl PullRun {
    /// Tells whether the pull has ended.
    pub fn is_finished(&self) -> (res: bool)
        ensures
            res == (self@.phase is Finished),
    {
        match self.phase {
            Phase::Finished => true,
            _ => false,
        }
    }

    /// Takes the answer to the work that was asked for last and says what
    /// is to be done next.
    ///
    /// The step is the one that [`spec_pull_step`] describes, for something
    /// that the rendering engine may have come up with.
    pub fn step(self, reply: Reply, now: i64) -> (next: (PullRun, PullAction))
        ensures
            exists|open: Open|
                pull_admissible(self@, reply@, open) && #[trigger] spec_pull_step(
                    self@,
                    reply@,
                    now,
                    open,
                ) == (next.0@, next.1@),
    {
        let ghost nothing = Open {
            variables: Seq::empty(),
            secrets: Seq::empty(),
            refusal: Seq::empty(),
        };
        let ghost before = self@;
        let ghost asked = reply@;
        let PullRun { update, phase } = self;
        match phase {
            Phase::Running(pipeline) => {
                let (advance, update, Ghost(open)) = step_recorded(pipeline, update, reply, now);
                let next = match advance {
                    Advance::Ask(pipeline, action) => (
                        PullRun { update, phase: Phase::Running(pipeline) },
                        PullAction::Work(action),
                    ),
                    Advance::Answered { stack, server, response } => (
                        PullRun { update, phase: Phase::Refreshing(response) },
                        PullAction::Work(Action::RefreshCache { server }),
                    ),
                    Advance::Refused(error) => (
                        PullRun { update: None, phase: Phase::Finished },
                        PullAction::Finish { outcome: Err(error), update },
                    ),
                    Advance::Unanswered(message) => (
                        PullRun { update: None, phase: Phase::Finished },
                        PullAction::Finish {
                            outcome: Err(CommandError::RemoteAgentError { message }),
                            update,
                        },
                    ),
                };
                assert(pull_admissible(before, asked, open));
                assert(spec_pull_step(before, asked, now, open) == (next.0@, next.1@));
                next
            },
            Phase::Refreshing(response) => {
                let next = (
                    PullRun { update: None, phase: Phase::Finished },
                    PullAction::Finish { outcome: Ok(response), update },
                );
                assert(pull_admissible(before, asked, nothing));
                assert(spec_pull_step(before, asked, now, nothing) == (next.0@, next.1@));
                next
            },
            Phase::Finished => {
                let next = (PullRun { update, phase: Phase::Finished }, PullAction::Idle);
                assert(pull_admissible(before, asked, nothing));
                assert(spec_pull_step(before, asked, now, nothing) == (next.0@, next.1@));
                next
            },
        }
    }
}

} // verus!
