//! Where each request starts: the machine that runs it and the first piece
//! of work.

use vstd::prelude::*;
use crate::batch::BatchKind;
use crate::command::{
    BatchDeployStack, BatchDeployStackIfChanged, BatchDestroyStack, BatchPullStack, CommandKind,
    CommandView, DeployStack, DeployStackIfChanged, DestroyStack, PauseStack, PermissionLevel,
    PullStack, RestartStack, StartStack, StopStack, UnpauseStack,
};
use crate::conditional::{spec_conditional_begin, ConditionalAction, ConditionalDeploy};
use crate::execution::{spec_begin, Execution};
use crate::protocol::Action;
use crate::update::Update;

verus! {

impl DeployStack {
    /// Deploys the stack for the principal `user`, recording into `update`.
    pub fn resolve(self, user: String, update: Update) -> (started: (Execution, Action))
        ensures
            (started.0@, started.1@) == spec_begin(
                CommandView {
                    kind: CommandKind::Deploy,
                    stack: self@.stack,
                    services: self@.services,
                    stop_time: self@.stop_time,
                    remove_orphans: false,
                },
                user@,
                update@,
            ),
    {
        Execution::begin(self.command(), user, update)
    }
}

impl PullStack {
    /// Pulls the images of the stack for the principal `user`, recording into `update`.
    pub fn resolve(self, user: String, update: Update) -> (started: (Execution, Action))
        ensures
            (started.0@, started.1@) == spec_begin(
                CommandView {
                    kind: CommandKind::Pull,
                    stack: self@.stack,
                    services: self@.services,
                    stop_time: None,
                    remove_orphans: false,
                },
                user@,
                update@,
            ),
    {
        Execution::begin(self.command(), user, update)
    }
}

impl StartStack {
    /// Starts the stack for the principal `user`, recording into `update`.
    pub fn resolve(self, user: String, update: Update) -> (started: (Execution, Action))
        ensures
            (started.0@, started.1@) == spec_begin(
                CommandView {
                    kind: CommandKind::Start,
                    stack: self@.stack,
                    services: self@.services,
                    stop_time: None,
                    remove_orphans: false,
                },
                user@,
                update@,
            ),
    {
        Execution::begin(self.command(), user, update)
    }
}

impl RestartStack {
    /// Restarts the stack for the principal `user`, recording into `update`.
    pub fn resolve(self, user: String, update: Update) -> (started: (Execution, Action))
        ensures
            (started.0@, started.1@) == spec_begin(
                CommandView {
                    kind: CommandKind::Restart,
                    stack: self@.stack,
                    services: self@.services,
                    stop_time: None,
                    remove_orphans: false,
                },
                user@,
                update@,
            ),
    {
        Execution::begin(self.command(), user, update)
    }
}

impl PauseStack {
    /// Pauses the stack for the principal `user`, recording into `update`.
    pub fn resolve(self, user: String, update: Update) -> (started: (Execution, Action))
        ensures
            (started.0@, started.1@) == spec_begin(
                CommandView {
                    kind: CommandKind::Pause,
                    stack: self@.stack,
                    services: self@.services,
                    stop_time: None,
                    remove_orphans: false,
                },
                user@,
                update@,
            ),
    {
        Execution::begin(self.command(), user, update)
    }
}

impl UnpauseStack {
    /// Resumes the stack for the principal `user`, recording into `update`.
    pub fn resolve(self, user: String, update: Update) -> (started: (Execution, Action))
        ensures
            (started.0@, started.1@) == spec_begin(
                CommandView {
                    kind: CommandKind::Unpause,
                    stack: self@.stack,
                    services: self@.services,
                    stop_time: None,
                    remove_orphans: false,
                },
                user@,
                update@,
            ),
    {
        Execution::begin(self.command(), user, update)
    }
}

impl StopStack {
    /// Stops the stack for the principal `user`, recording into `update`.
    pub fn resolve(self, user: String, update: Update) -> (started: (Execution, Action))
        ensures
            (started.0@, started.1@) == spec_begin(
                CommandView {
                    kind: CommandKind::Stop,
                    stack: self@.stack,
                    services: self@.services,
                    stop_time: self@.stop_time,
                    remove_orphans: false,
                },
                user@,
                update@,
            ),
    {
        Execution::begin(self.command(), user, update)
    }
}

impl DestroyStack {
    /// Takes the stack down for the principal `user`, recording into `update`.
    pub fn resolve(self, user: String, update: Update) -> (started: (Execution, Action))
        ensures
            (started.0@, started.1@) == spec_begin(
                CommandView {
                    kind: CommandKind::Destroy,
                    stack: self@.stack,
                    services: self@.services,
                    stop_time: self@.stop_time,
                    remove_orphans: self@.remove_orphans,
                },
                user@,
                update@,
            ),
    {
        Execution::begin(self.command(), user, update)
    }
}

impl DeployStackIfChanged {
    /// Deploys the stack for the principal `user` where its files have
    /// changed, recording into `update`.
    pub fn resolve(self, user: String, update: Update) -> (started: (
        ConditionalDeploy,
        ConditionalAction,
    ))
        ensures
            (started.0@, started.1@) == spec_conditional_begin(self@, user@, update@),
    {
        ConditionalDeploy::begin(self, user, update)
    }
}

/// The stacks that a batch is to be applied to: those that the pattern
/// matches and on which the principal has at least `level`.
#[derive(Debug, PartialEq, Eq)]
pub struct BatchLookup {
    pub kind: BatchKind,
    pub pattern: String,
    pub user: String,
    pub level: PermissionLevel,
}

/// Mathematical view of [`BatchLookup`].
pub struct BatchLookupView {
    pub kind: BatchKind,
    pub pattern: Seq<char>,
    pub user: Seq<char>,
    pub level: PermissionLevel,
}

impl DeepView for BatchLookup {
    type V = BatchLookupView;

    open spec fn deep_view(&self) -> BatchLookupView {
        BatchLookupView {
            kind: self.kind,
            pattern: self.pattern@,
            user: self.user@,
            level: self.level,
        }
    }
}

impl View for BatchLookup {
    type V = BatchLookupView;

    open spec fn view(&self) -> BatchLookupView {
        self.deep_view()
    }
}

impl BatchDeployStack {
    /// Deploys every stack that the pattern matches and that the principal
    /// `user` may execute on.
    pub fn resolve(self, user: String) -> (lookup: BatchLookup)
        ensures
            lookup@ == (BatchLookupView {
                kind: BatchKind::Deploy,
                pattern: self@.pattern,
                user: user@,
                level: PermissionLevel::Execute,
            }),
    {
        BatchLookup {
            kind: BatchKind::Deploy,
            pattern: self.pattern,
            user,
            level: PermissionLevel::Execute,
        }
    }
}

impl BatchDeployStackIfChanged {
    /// Deploys, where its files have changed, every stack that the pattern matches and that the principal
    /// `user` may execute on.
    pub fn resolve(self, user: String) -> (lookup: BatchLookup)
        ensures
            lookup@ == (BatchLookupView {
                kind: BatchKind::DeployIfChanged,
                pattern: self@.pattern,
                user: user@,
                level: PermissionLevel::Execute,
            }),
    {
        BatchLookup {
            kind: BatchKind::DeployIfChanged,
            pattern: self.pattern,
            user,
            level: PermissionLevel::Execute,
        }
    }
}

impl BatchPullStack {
    /// Pulls the images of every stack that the pattern matches and that the principal
    /// `user` may execute on.
    pub fn resolve(self, user: String) -> (lookup: BatchLookup)
        ensures
            lookup@ == (BatchLookupView {
                kind: BatchKind::Pull,
                pattern: self@.pattern,
                user: user@,
                level: PermissionLevel::Execute,
            }),
    {
        BatchLookup {
            kind: BatchKind::Pull,
            pattern: self.pattern,
            user,
            level: PermissionLevel::Execute,
        }
    }
}

impl BatchDestroyStack {
    /// Takes down every stack that the pattern matches and that the principal
    /// `user` may execute on.
    pub fn resolve(self, user: String) -> (lookup: BatchLookup)
        ensures
            lookup@ == (BatchLookupView {
                kind: BatchKind::Destroy,
                pattern: self@.pattern,
                user: user@,
                level: PermissionLevel::Execute,
            }),
    {
        BatchLookup {
            kind: BatchKind::Destroy,
            pattern: self.pattern,
            user,
            level: PermissionLevel::Execute,
        }
    }
}

} // verus!
