//! The command surface: one request per lifecycle command, the table that
//! tells the commands apart, and the ways in which a command can fail.

use vstd::prelude::*;
use crate::action_state::{ActionFlag, Busy, BusyView};
use crate::compose::RemoteOperation;

verus! {

/// What a principal may do with a resource.
#[derive(Clone, Copy, Debug, PartialEq, Eq, Structural)]
pub enum PermissionLevel {
    NoAccess,
    Read,
    Execute,
    Write,
}

/// The lifecycle commands.
#[derive(Clone, Copy, Debug, PartialEq, Eq, Structural)]
pub enum CommandKind {
    Deploy,
    Pull,
    Start,
    Restart,
    Pause,
    Unpause,
    Stop,
    Destroy,
}

/// How the answer of the remote agent is folded into what is known of the
/// stack.
#[derive(Clone, Copy, Debug, PartialEq, Eq, Structural)]
pub enum Folding {
    /// The answer only adds to the execution record.
    Nothing,
    /// The answer is adopted as the stack's deployed and latest state.
    DeploySnapshot,
}

impl CommandKind {
    /// The flag that the command claims on its stack.
    pub open spec fn spec_flag(self) -> ActionFlag {
        match self {
            CommandKind::Deploy => ActionFlag::Deploying,
            CommandKind::Pull => ActionFlag::Pulling,
            CommandKind::Start => ActionFlag::Starting,
            CommandKind::Restart => ActionFlag::Restarting,
            CommandKind::Pause => ActionFlag::Pausing,
            CommandKind::Unpause => ActionFlag::Unpausing,
            CommandKind::Stop => ActionFlag::Stopping,
            CommandKind::Destroy => ActionFlag::Destroying,
        }
    }

    /// The operation that the command asks of the remote agent.
    pub open spec fn spec_remote_operation(self) -> RemoteOperation {
        match self {
            CommandKind::Deploy => RemoteOperation::Up,
            CommandKind::Pull => RemoteOperation::Pull,
            CommandKind::Start => RemoteOperation::Start,
            CommandKind::Restart => RemoteOperation::Restart,
            CommandKind::Pause => RemoteOperation::Pause,
            CommandKind::Unpause => RemoteOperation::Unpause,
            CommandKind::Stop => RemoteOperation::Stop,
            CommandKind::Destroy => RemoteOperation::Destroy,
        }
    }

    /// How the command folds the agent's answer.
    pub open spec fn spec_folding(self) -> Folding {
        match self {
            CommandKind::Deploy => Folding::DeploySnapshot,
            _ => Folding::Nothing,
        }
    }

    /// The flag that the command claims on its stack.
    pub fn flag(self) -> (flag: ActionFlag)
        ensures
            flag == self.spec_flag(),
    {
        match self {
            CommandKind::Deploy => ActionFlag::Deploying,
            CommandKind::Pull => ActionFlag::Pulling,
            CommandKind::Start => ActionFlag::Starting,
            CommandKind::Restart => ActionFlag::Restarting,
            CommandKind::Pause => ActionFlag::Pausing,
            CommandKind::Unpause => ActionFlag::Unpausing,
            CommandKind::Stop => ActionFlag::Stopping,
            CommandKind::Destroy => ActionFlag::Destroying,
        }
    }

    /// The operation that the command asks of the remote agent.
    pub fn remote_operation(self) -> (operation: RemoteOperation)
        ensures
            operation == self.spec_remote_operation(),
    {
        match self {
            CommandKind::Deploy => RemoteOperation::Up,
            CommandKind::Pull => RemoteOperation::Pull,
            CommandKind::Start => RemoteOperation::Start,
            CommandKind::Restart => RemoteOperation::Restart,
            CommandKind::Pause => RemoteOperation::Pause,
            CommandKind::Unpause => RemoteOperation::Unpause,
            CommandKind::Stop => RemoteOperation::Stop,
            CommandKind::Destroy => RemoteOperation::Destroy,
        }
    }

    /// How the command folds the agent's answer.
    pub fn folding(self) -> (folding: Folding)
        ensures
            folding == self.spec_folding(),
    {
        match self {
            CommandKind::Deploy => Folding::DeploySnapshot,
            _ => Folding::Nothing,
        }
    }
}

/// No two commands claim the same flag.
pub proof fn lemma_flags_tell_commands_apart(a: CommandKind, b: CommandKind)
    ensures
        a.spec_flag() == b.spec_flag() <==> a == b,
{
}

/// A lifecycle command in the one shape that all of them share.
#[derive(Debug, PartialEq, Eq)]
pub struct Command {
    pub kind: CommandKind,
    /// Name or id of the stack.
    pub stack: String,
    /// The services to act on; empty for all of them.
    pub services: Vec<String>,
    /// Seconds to wait for a service to stop.
    pub stop_time: Option<i32>,
    pub remove_orphans: bool,
}

/// Mathematical view of [`Command`].
pub struct CommandView {
    pub kind: CommandKind,
    pub stack: Seq<char>,
    pub services: Seq<Seq<char>>,
    pub stop_time: Option<i32>,
    pub remove_orphans: bool,
}

impl DeepView for Command {
    type V = CommandView;

    open spec fn deep_view(&self) -> CommandView {
        CommandView {
            kind: self.kind,
            stack: self.stack@,
            services: self.services.deep_view(),
            stop_time: self.stop_time.deep_view(),
            remove_orphans: self.remove_orphans,
        }
    }
}

impl View for Command {
    type V = CommandView;

    open spec fn view(&self) -> CommandView {
        self.deep_view()
    }
}

impl Clone for Command {
    fn clone(&self) -> (res: Self)
        ensures
            res@ == self@,
    {
        let services = self.services.clone();
        assert(services.deep_view() =~= self.services.deep_view());
        Command {
            kind: self.kind,
            stack: self.stack.clone(),
            services,
            stop_time: self.stop_time.clone(),
            remove_orphans: self.remove_orphans,
        }
    }
}

/// Deploys a stack.
#[derive(Debug, PartialEq, Eq)]
pub struct DeployStack {
    /// Name or id of the stack.
    pub stack: String,
    /// The services to act on; empty for all of them.
    pub services: Vec<String>,
    /// Seconds to wait for a service to stop.
    pub stop_time: Option<i32>,
}

/// Mathematical view of [`DeployStack`].
pub struct DeployStackView {
    pub stack: Seq<char>,
    pub services: Seq<Seq<char>>,
    pub stop_time: Option<i32>,
}

impl DeepView for DeployStack {
    type V = DeployStackView;

    open spec fn deep_view(&self) -> DeployStackView {
        DeployStackView {
            stack: self.stack@,
            services: self.services.deep_view(),
            stop_time: self.stop_time.deep_view(),
        }
    }
}

impl View for DeployStack {
    type V = DeployStackView;

    open spec fn view(&self) -> DeployStackView {
        self.deep_view()
    }
}

impl Clone for DeployStack {
    fn clone(&self) -> (res: Self)
        ensures
            res@ == self@,
    {
        let services = self.services.clone();
        assert(services.deep_view() =~= self.services.deep_view());
        DeployStack {
            stack: self.stack.clone(),
            services,
            stop_time: self.stop_time.clone(),
        }
    }
}

/// Deploys a stack where its files differ from what was deployed.
#[derive(Debug, PartialEq, Eq)]
pub struct DeployStackIfChanged {
    /// Name or id of the stack.
    pub stack: String,
    /// Seconds to wait for a service to stop.
    pub stop_time: Option<i32>,
}

/// Mathematical view of [`DeployStackIfChanged`].
pub struct DeployStackIfChangedView {
    pub stack: Seq<char>,
    pub stop_time: Option<i32>,
}

impl DeepView for DeployStackIfChanged {
    type V = DeployStackIfChangedView;

    open spec fn deep_view(&self) -> DeployStackIfChangedView {
        DeployStackIfChangedView {
            stack: self.stack@,
            stop_time: self.stop_time.deep_view(),
        }
    }
}

impl View for DeployStackIfChanged {
    type V = DeployStackIfChangedView;

    open spec fn view(&self) -> DeployStackIfChangedView {
        self.deep_view()
    }
}

impl Clone for DeployStackIfChanged {
    fn clone(&self) -> (res: Self)
        ensures
            res@ == self@,
    {
        DeployStackIfChanged {
            stack: self.stack.clone(),
            stop_time: self.stop_time.clone(),
        }
    }
}

/// Pulls the images of a stack.
#[derive(Debug, PartialEq, Eq)]
pub struct PullStack {
    /// Name or id of the stack.
    pub stack: String,
    /// The services to act on; empty for all of them.
    pub services: Vec<String>,
}

/// Mathematical view of [`PullStack`].
pub struct PullStackView {
    pub stack: Seq<char>,
    pub services: Seq<Seq<char>>,
}

impl DeepView for PullStack {
    type V = PullStackView;

    open spec fn deep_view(&self) -> PullStackView {
        PullStackView {
            stack: self.stack@,
            services: self.services.deep_view(),
        }
    }
}

impl View for PullStack {
    type V = PullStackView;

    open spec fn view(&self) -> PullStackView {
        self.deep_view()
    }
}

impl Clone for PullStack {
    fn clone(&self) -> (res: Self)
        ensures
            res@ == self@,
    {
        let services = self.services.clone();
        assert(services.deep_view() =~= self.services.deep_view());
        PullStack {
            stack: self.stack.clone(),
            services,
        }
    }
}

/// Starts a stopped stack.
#[derive(Debug, PartialEq, Eq)]
pub struct StartStack {
    /// Name or id of the stack.
    pub stack: String,
    /// The services to act on; empty for all of them.
    pub services: Vec<String>,
}

/// Mathematical view of [`StartStack`].
pub struct StartStackView {
    pub stack: Seq<char>,
    pub services: Seq<Seq<char>>,
}

impl DeepView for StartStack {
    type V = StartStackView;

    open spec fn deep_view(&self) -> StartStackView {
        StartStackView {
            stack: self.stack@,
            services: self.services.deep_view(),
        }
    }
}

impl View for StartStack {
    type V = StartStackView;

    open spec fn view(&self) -> StartStackView {
        self.deep_view()
    }
}

impl Clone for StartStack {
    fn clone(&self) -> (res: Self)
        ensures
            res@ == self@,
    {
        let services = self.services.clone();
        assert(services.deep_view() =~= self.services.deep_view());
        StartStack {
            stack: self.stack.clone(),
            services,
        }
    }
}

/// Restarts a stack.
#[derive(Debug, PartialEq, Eq)]
pub struct RestartStack {
    /// Name or id of the stack.
    pub stack: String,
    /// The services to act on; empty for all of them.
    pub services: Vec<String>,
}

/// Mathematical view of [`RestartStack`].
pub struct RestartStackView {
    pub stack: Seq<char>,
    pub services: Seq<Seq<char>>,
}

impl DeepView for RestartStack {
    type V = RestartStackView;

    open spec fn deep_view(&self) -> RestartStackView {
        RestartStackView {
            stack: self.stack@,
            services: self.services.deep_view(),
        }
    }
}

impl View for RestartStack {
    type V = RestartStackView;

    open spec fn view(&self) -> RestartStackView {
        self.deep_view()
    }
}

impl Clone for RestartStack {
    fn clone(&self) -> (res: Self)
        ensures
            res@ == self@,
    {
        let services = self.services.clone();
        assert(services.deep_view() =~= self.services.deep_view());
        RestartStack {
            stack: self.stack.clone(),
            services,
        }
    }
}

/// Pauses a running stack.
#[derive(Debug, PartialEq, Eq)]
pub struct PauseStack {
    /// Name or id of the stack.
    pub stack: String,
    /// The services to act on; empty for all of them.
    pub services: Vec<String>,
}

/// Mathematical view of [`PauseStack`].
pub struct PauseStackView {
    pub stack: Seq<char>,
    pub services: Seq<Seq<char>>,
}

impl DeepView for PauseStack {
    type V = PauseStackView;

    open spec fn deep_view(&self) -> PauseStackView {
        PauseStackView {
            stack: self.stack@,
            services: self.services.deep_view(),
        }
    }
}

impl View for PauseStack {
    type V = PauseStackView;

    open spec fn view(&self) -> PauseStackView {
        self.deep_view()
    }
}

impl Clone for PauseStack {
    fn clone(&self) -> (res: Self)
        ensures
            res@ == self@,
    {
        let services = self.services.clone();
        assert(services.deep_view() =~= self.services.deep_view());
        PauseStack {
            stack: self.stack.clone(),
            services,
        }
    }
}

/// Resumes a paused stack.
#[derive(Debug, PartialEq, Eq)]
pub struct UnpauseStack {
    /// Name or id of the stack.
    pub stack: String,
    /// The services to act on; empty for all of them.
    pub services: Vec<String>,
}

/// Mathematical view of [`UnpauseStack`].
pub struct UnpauseStackView {
    pub stack: Seq<char>,
    pub services: Seq<Seq<char>>,
}

impl DeepView for UnpauseStack {
    type V = UnpauseStackView;

    open spec fn deep_view(&self) -> UnpauseStackView {
        UnpauseStackView {
            stack: self.stack@,
            services: self.services.deep_view(),
        }
    }
}

impl View for UnpauseStack {
    type V = UnpauseStackView;

    open spec fn view(&self) -> UnpauseStackView {
        self.deep_view()
    }
}

impl Clone for UnpauseStack {
    fn clone(&self) -> (res: Self)
        ensures
            res@ == self@,
    {
        let services = self.services.clone();
        assert(services.deep_view() =~= self.services.deep_view());
        UnpauseStack {
            stack: self.stack.clone(),
            services,
        }
    }
}

/// Stops a running stack.
#[derive(Debug, PartialEq, Eq)]
pub struct StopStack {
    /// Name or id of the stack.
    pub stack: String,
    /// The services to act on; empty for all of them.
    pub services: Vec<String>,
    /// Seconds to wait for a service to stop.
    pub stop_time: Option<i32>,
}

/// Mathematical view of [`StopStack`].
pub struct StopStackView {
    pub stack: Seq<char>,
    pub services: Seq<Seq<char>>,
    pub stop_time: Option<i32>,
}

impl DeepView for StopStack {
    type V = StopStackView;

    open spec fn deep_view(&self) -> StopStackView {
        StopStackView {
            stack: self.stack@,
            services: self.services.deep_view(),
            stop_time: self.stop_time.deep_view(),
        }
    }
}

impl View for StopStack {
    type V = StopStackView;

    open spec fn view(&self) -> StopStackView {
        self.deep_view()
    }
}

impl Clone for StopStack {
    fn clone(&self) -> (res: Self)
        ensures
            res@ == self@,
    {
        let services = self.services.clone();
        assert(services.deep_view() =~= self.services.deep_view());
        StopStack {
            stack: self.stack.clone(),
            services,
            stop_time: self.stop_time.clone(),
        }
    }
}

/// Takes a stack down.
#[derive(Debug, PartialEq, Eq)]
pub struct DestroyStack {
    /// Name or id of the stack.
    pub stack: String,
    /// The services to act on; empty for all of them.
    pub services: Vec<String>,
    pub remove_orphans: bool,
    /// Seconds to wait for a service to stop.
    pub stop_time: Option<i32>,
}

/// Mathematical view of [`DestroyStack`].
pub struct DestroyStackView {
    pub stack: Seq<char>,
    pub services: Seq<Seq<char>>,
    pub remove_orphans: bool,
    pub stop_time: Option<i32>,
}

impl DeepView for DestroyStack {
    type V = DestroyStackView;

    open spec fn deep_view(&self) -> DestroyStackView {
        DestroyStackView {
            stack: self.stack@,
            services: self.services.deep_view(),
            remove_orphans: self.remove_orphans,
            stop_time: self.stop_time.deep_view(),
        }
    }
}

impl View for DestroyStack {
    type V = DestroyStackView;

    open spec fn view(&self) -> DestroyStackView {
        self.deep_view()
    }
}

impl Clone for DestroyStack {
    fn clone(&self) -> (res: Self)
        ensures
            res@ == self@,
    {
        let services = self.services.clone();
        assert(services.deep_view() =~= self.services.deep_view());
        DestroyStack {
            stack: self.stack.clone(),
            services,
            remove_orphans: self.remove_orphans,
            stop_time: self.stop_time.clone(),
        }
    }
}

/// Deploys every stack that the pattern matches.
#[derive(Debug, PartialEq, Eq)]
pub struct BatchDeployStack {
    /// The pattern that names the stacks.
    pub pattern: String,
}

/// Mathematical view of [`BatchDeployStack`].
pub struct BatchDeployStackView {
    pub pattern: Seq<char>,
}

impl DeepView for BatchDeployStack {
    type V = BatchDeployStackView;

    open spec fn deep_view(&self) -> BatchDeployStackView {
        BatchDeployStackView {
            pattern: self.pattern@,
        }
    }
}

impl View for BatchDeployStack {
    type V = BatchDeployStackView;

    open spec fn view(&self) -> BatchDeployStackView {
        self.deep_view()
    }
}

impl Clone for BatchDeployStack {
    fn clone(&self) -> (res: Self)
        ensures
            res@ == self@,
    {
        BatchDeployStack {
            pattern: self.pattern.clone(),
        }
    }
}

/// Deploys every stack that the pattern matches and whose files changed.
#[derive(Debug, PartialEq, Eq)]
pub struct BatchDeployStackIfChanged {
    /// The pattern that names the stacks.
    pub pattern: String,
}

/// Mathematical view of [`BatchDeployStackIfChanged`].
pub struct BatchDeployStackIfChangedView {
    pub pattern: Seq<char>,
}

impl DeepView for BatchDeployStackIfChanged {
    type V = BatchDeployStackIfChangedView;

    open spec fn deep_view(&self) -> BatchDeployStackIfChangedView {
        BatchDeployStackIfChangedView {
            pattern: self.pattern@,
        }
    }
}

impl View for BatchDeployStackIfChanged {
    type V = BatchDeployStackIfChangedView;

    open spec fn view(&self) -> BatchDeployStackIfChangedView {
        self.deep_view()
    }
}

impl Clone for BatchDeployStackIfChanged {
    fn clone(&self) -> (res: Self)
        ensures
            res@ == self@,
    {
        BatchDeployStackIfChanged {
            pattern: self.pattern.clone(),
        }
    }
}

/// Pulls the images of every stack that the pattern matches.
#[derive(Debug, PartialEq, Eq)]
pub struct BatchPullStack {
    /// The pattern that names the stacks.
    pub pattern: String,
}

/// Mathematical view of [`BatchPullStack`].
pub struct BatchPullStackView {
    pub pattern: Seq<char>,
}

impl DeepView for BatchPullStack {
    type V = BatchPullStackView;

    open spec fn deep_view(&self) -> BatchPullStackView {
        BatchPullStackView {
            pattern: self.pattern@,
        }
    }
}

impl View for BatchPullStack {
    type V = BatchPullStackView;

    open spec fn view(&self) -> BatchPullStackView {
        self.deep_view()
    }
}

impl Clone for BatchPullStack {
    fn clone(&self) -> (res: Self)
        ensures
            res@ == self@,
    {
        BatchPullStack {
            pattern: self.pattern.clone(),
        }
    }
}

/// Takes down every stack that the pattern matches.
#[derive(Debug, PartialEq, Eq)]
pub struct BatchDestroyStack {
    /// The pattern that names the stacks.
    pub pattern: String,
}

/// Mathematical view of [`BatchDestroyStack`].
pub struct BatchDestroyStackView {
    pub pattern: Seq<char>,
}

impl DeepView for BatchDestroyStack {
    type V = BatchDestroyStackView;

    open spec fn deep_view(&self) -> BatchDestroyStackView {
        BatchDestroyStackView {
            pattern: self.pattern@,
        }
    }
}

impl View for BatchDestroyStack {
    type V = BatchDestroyStackView;

    open spec fn view(&self) -> BatchDestroyStackView {
        self.deep_view()
    }
}

impl Clone for BatchDestroyStack {
    fn clone(&self) -> (res: Self)
        ensures
            res@ == self@,
    {
        BatchDestroyStack {
            pattern: self.pattern.clone(),
        }
    }
}

/// Any single-stack command.
#[derive(Debug, PartialEq, Eq)]
pub enum ExecuteRequest {
    DeployStack(DeployStack),
    DeployStackIfChanged(DeployStackIfChanged),
    PullStack(PullStack),
    StartStack(StartStack),
    RestartStack(RestartStack),
    PauseStack(PauseStack),
    UnpauseStack(UnpauseStack),
    StopStack(StopStack),
    DestroyStack(DestroyStack),
}

/// Mathematical view of [`ExecuteRequest`].
pub enum ExecuteRequestView {
    DeployStack(DeployStackView),
    DeployStackIfChanged(DeployStackIfChangedView),
    PullStack(PullStackView),
    StartStack(StartStackView),
    RestartStack(RestartStackView),
    PauseStack(PauseStackView),
    UnpauseStack(UnpauseStackView),
    StopStack(StopStackView),
    DestroyStack(DestroyStackView),
}

impl DeepView for ExecuteRequest {
    type V = ExecuteRequestView;

    open spec fn deep_view(&self) -> ExecuteRequestView {
        match self {
            ExecuteRequest::DeployStack(request) => ExecuteRequestView::DeployStack(request@),
            ExecuteRequest::DeployStackIfChanged(request) => ExecuteRequestView::DeployStackIfChanged(request@),
            ExecuteRequest::PullStack(request) => ExecuteRequestView::PullStack(request@),
            ExecuteRequest::StartStack(request) => ExecuteRequestView::StartStack(request@),
            ExecuteRequest::RestartStack(request) => ExecuteRequestView::RestartStack(request@),
            ExecuteRequest::PauseStack(request) => ExecuteRequestView::PauseStack(request@),
            ExecuteRequest::UnpauseStack(request) => ExecuteRequestView::UnpauseStack(request@),
            ExecuteRequest::StopStack(request) => ExecuteRequestView::StopStack(request@),
            ExecuteRequest::DestroyStack(request) => ExecuteRequestView::DestroyStack(request@),
        }
    }
}

impl View for ExecuteRequest {
    type V = ExecuteRequestView;

    open spec fn view(&self) -> ExecuteRequestView {
        self.deep_view()
    }
}

/// Why a command failed.
#[derive(Debug, PartialEq, Eq)]
pub enum CommandError {
    /// The stack could not be resolved for the principal.
    PermissionDenied { message: String },
    /// A resource that the command needs could not be read.
    ResourceUnavailable { message: String },
    /// Another operation is in flight on the stack.
    Busy(Busy),
    /// The latest state of the stack could not be fetched.
    CacheRefreshFailed { message: String },
    /// The execution record could not be written.
    UpdateStoreFailed { message: String },
    /// A git or registry token could not be had.
    CredentialRetrievalFailed { message: String },
    /// The configuration could not be rendered.
    InterpolationFailed { message: String },
    /// The remote agent failed or could not be reached.
    RemoteAgentError { message: String },
}

/// Mathematical view of [`CommandError`].
pub enum CommandErrorView {
    PermissionDenied { message: Seq<char> },
    ResourceUnavailable { message: Seq<char> },
    Busy(BusyView),
    CacheRefreshFailed { message: Seq<char> },
    UpdateStoreFailed { message: Seq<char> },
    CredentialRetrievalFailed { message: Seq<char> },
    InterpolationFailed { message: Seq<char> },
    RemoteAgentError { message: Seq<char> },
}

impl DeepView for CommandError {
    type V = CommandErrorView;

    open spec fn deep_view(&self) -> CommandErrorView {
        match self {
            CommandError::PermissionDenied { message } => CommandErrorView::PermissionDenied { message: message@ },
            CommandError::ResourceUnavailable { message } => CommandErrorView::ResourceUnavailable { message: message@ },
            CommandError::CacheRefreshFailed { message } => CommandErrorView::CacheRefreshFailed { message: message@ },
            CommandError::UpdateStoreFailed { message } => CommandErrorView::UpdateStoreFailed { message: message@ },
            CommandError::CredentialRetrievalFailed { message } => CommandErrorView::CredentialRetrievalFailed { message: message@ },
            CommandError::InterpolationFailed { message } => CommandErrorView::InterpolationFailed { message: message@ },
            CommandError::RemoteAgentError { message } => CommandErrorView::RemoteAgentError { message: message@ },
            CommandError::Busy(busy) => CommandErrorView::Busy(busy@),
        }
    }
}

impl View for CommandError {
    type V = CommandErrorView;

    open spec fn view(&self) -> CommandErrorView {
        self.deep_view()
    }
}

impl Clone for CommandError {
    fn clone(&self) -> (res: Self)
        ensures
            res@ == self@,
    {
        match self {
            CommandError::PermissionDenied { message } => CommandError::PermissionDenied {
                message: message.clone(),
            },
            CommandError::ResourceUnavailable { message } => CommandError::ResourceUnavailable {
                message: message.clone(),
            },
            CommandError::CacheRefreshFailed { message } => CommandError::CacheRefreshFailed {
                message: message.clone(),
            },
            CommandError::UpdateStoreFailed { message } => CommandError::UpdateStoreFailed {
                message: message.clone(),
            },
            CommandError::CredentialRetrievalFailed { message } => CommandError::CredentialRetrievalFailed {
                message: message.clone(),
            },
            CommandError::InterpolationFailed { message } => CommandError::InterpolationFailed {
                message: message.clone(),
            },
            CommandError::RemoteAgentError { message } => CommandError::RemoteAgentError {
                message: message.clone(),
            },
            CommandError::Busy(busy) => CommandError::Busy(
                Busy { resource: busy.resource.clone(), operation: busy.operation },
            ),
        }
    }
}

impl DeployStack {
    /// The command in the shape that all commands share.
    pub fn command(self) -> (command: Command)
        ensures
            command@ == (CommandView {
                kind: CommandKind::Deploy,
                stack: self@.stack,
                services: self@.services,
                stop_time: self@.stop_time,
                remove_orphans: false,
            }),
    {
        Command {
            kind: CommandKind::Deploy,
            stack: self.stack,
            services: self.services,
            stop_time: self.stop_time,
            remove_orphans: false,
        }
    }
}

impl PullStack {
    /// The command in the shape that all commands share.
    pub fn command(self) -> (command: Command)
        ensures
            command@ == (CommandView {
                kind: CommandKind::Pull,
                stack: self@.stack,
                services: self@.services,
                stop_time: None,
                remove_orphans: false,
            }),
    {
        Command {
            kind: CommandKind::Pull,
            stack: self.stack,
            services: self.services,
            stop_time: None,
            remove_orphans: false,
        }
    }
}

impl StartStack {
    /// The command in the shape that all commands share.
    pub fn command(self) -> (command: Command)
        ensures
            command@ == (CommandView {
                kind: CommandKind::Start,
                stack: self@.stack,
                services: self@.services,
                stop_time: None,
                remove_orphans: false,
            }),
    {
        Command {
            kind: CommandKind::Start,
            stack: self.stack,
            services: self.services,
            stop_time: None,
            remove_orphans: false,
        }
    }
}

impl RestartStack {
    /// The command in the shape that all commands share.
    pub fn command(self) -> (command: Command)
        ensures
            command@ == (CommandView {
                kind: CommandKind::Restart,
                stack: self@.stack,
                services: self@.services,
                stop_time: None,
                remove_orphans: false,
            }),
    {
        Command {
            kind: CommandKind::Restart,
            stack: self.stack,
            services: self.services,
            stop_time: None,
            remove_orphans: false,
        }
    }
}

impl PauseStack {
    /// The command in the shape that all commands share.
    pub fn command(self) -> (command: Command)
        ensures
            command@ == (CommandView {
                kind: CommandKind::Pause,
                stack: self@.stack,
                services: self@.services,
                stop_time: None,
                remove_orphans: false,
            }),
    {
        Command {
            kind: CommandKind::Pause,
            stack: self.stack,
            services: self.services,
            stop_time: None,
            remove_orphans: false,
        }
    }
}

impl UnpauseStack {
    /// The command in the shape that all commands share.
    pub fn command(self) -> (command: Command)
        ensures
            command@ == (CommandView {
                kind: CommandKind::Unpause,
                stack: self@.stack,
                services: self@.services,
                stop_time: None,
                remove_orphans: false,
            }),
    {
        Command {
            kind: CommandKind::Unpause,
            stack: self.stack,
            services: self.services,
            stop_time: None,
            remove_orphans: false,
        }
    }
}

impl StopStack {
    /// The command in the shape that all commands share.
    pub fn command(self) -> (command: Command)
        ensures
            command@ == (CommandView {
                kind: CommandKind::Stop,
                stack: self@.stack,
                services: self@.services,
                stop_time: self@.stop_time,
                remove_orphans: false,
            }),
    {
        Command {
            kind: CommandKind::Stop,
            stack: self.stack,
            services: self.services,
            stop_time: self.stop_time,
            remove_orphans: false,
        }
    }
}

impl DestroyStack {
    /// The command in the shape that all commands share.
    pub fn command(self) -> (command: Command)
        ensures
            command@ == (CommandView {
                kind: CommandKind::Destroy,
                stack: self@.stack,
                services: self@.services,
                stop_time: self@.stop_time,
                remove_orphans: self@.remove_orphans,
            }),
    {
        Command {
            kind: CommandKind::Destroy,
            stack: self.stack,
            services: self.services,
            stop_time: self.stop_time,
            remove_orphans: self.remove_orphans,
        }
    }
}

} // verus!
