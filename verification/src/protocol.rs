//! What passes between a command and whoever drives it: the work that the
//! command asks for, and the answers that come back.

use std::collections::HashMap;
use vstd::prelude::*;
use vstd::string::StringExecFns;
use crate::command::{CommandError, CommandErrorView, PermissionLevel};
use crate::compose::{RemoteRequest, RemoteRequestView, RemoteResponse, RemoteResponseView};
use crate::entities::{
    Repo, RepoView, Server, ServerView, Stack, StackInfo, StackInfoView, StackView,
};
use crate::update::{Update, UpdateView};

verus! {

/// The answer to the work that was asked for last.
#[derive(Debug)]
pub enum Reply {
    /// The stack and the server it is bound to.
    Stack(Stack, Server),
    /// The linked repo.
    Repo(Repo),
    /// The work is done and has nothing to tell.
    Done,
    /// A credential, where one is configured.
    Token(Option<String>),
    /// The variables, then the secrets, each by name.
    Secrets(HashMap<String, String>, HashMap<String, String>),
    /// The answer of the remote agent.
    Remote(RemoteResponse),
    /// The work failed.
    Failed(String),
}

/// Mathematical view of [`Reply`].
pub enum ReplyView {
    Stack(StackView, ServerView),
    Repo(RepoView),
    Done,
    Token(Option<Seq<char>>),
    Secrets(Map<Seq<char>, Seq<char>>, Map<Seq<char>, Seq<char>>),
    Remote(RemoteResponseView),
    Failed(Seq<char>),
}

impl DeepView for Reply {
    type V = ReplyView;

    open spec fn deep_view(&self) -> ReplyView {
        match self {
            Reply::Stack(stack, server) => ReplyView::Stack(stack@, server@),
            Reply::Repo(repo) => ReplyView::Repo(repo@),
            Reply::Done => ReplyView::Done,
            Reply::Token(token) => ReplyView::Token(token.deep_view()),
            Reply::Secrets(variables, secrets) => ReplyView::Secrets(
                variables.deep_view(),
                secrets.deep_view(),
            ),
            Reply::Remote(response) => ReplyView::Remote(response@),
            Reply::Failed(message) => ReplyView::Failed(message@),
        }
    }
}

impl View for Reply {
    type V = ReplyView;

    open spec fn view(&self) -> ReplyView {
        self.deep_view()
    }
}

/// The work that is to be done next.
#[derive(Debug, PartialEq, Eq)]
pub enum Action {
    /// Resolve the stack and its server for the principal, who needs at
    /// least `level` on the stack. Answered by [`Reply::Stack`].
    ResolveStack { stack: String, user: String, level: PermissionLevel },
    /// Resolve the linked repo. Answered by [`Reply::Repo`].
    ResolveRepo { repo: String },
    /// Write the execution record. Answered by [`Reply::Done`].
    RecordUpdate(Update),
    /// Fetch the git token for the stack, or for its linked repo.
    /// Answered by [`Reply::Token`].
    GitToken { stack: String, linked_repo: Option<String> },
    /// Fetch the registry token. Answered by [`Reply::Token`].
    RegistryToken { provider: String, account: String },
    /// Fetch the variables and secrets. Answered by [`Reply::Secrets`].
    VariablesAndSecrets,
    /// Call the remote agent on `server`. Answered by [`Reply::Remote`].
    Remote { server: Server, request: RemoteRequest },
    /// Write what is known of the stack. Answered by [`Reply::Done`].
    StoreInfo { stack: String, info: StackInfo },
    /// Refresh the server's cached view. Answered by [`Reply::Done`].
    RefreshCache { server: Server },
    /// The command has ended with this outcome.
    Finish(Result<Update, CommandError>),
    /// The command ended before; there is nothing to do.
    Idle,
}

/// Mathematical view of [`Action`].
pub enum ActionView {
    ResolveStack { stack: Seq<char>, user: Seq<char>, level: PermissionLevel },
    ResolveRepo { repo: Seq<char> },
    RecordUpdate(UpdateView),
    GitToken { stack: Seq<char>, linked_repo: Option<Seq<char>> },
    RegistryToken { provider: Seq<char>, account: Seq<char> },
    VariablesAndSecrets,
    Remote { server: ServerView, request: RemoteRequestView },
    StoreInfo { stack: Seq<char>, info: StackInfoView },
    RefreshCache { server: ServerView },
    Finish(Result<UpdateView, CommandErrorView>),
    Idle,
}

/// The outcome of a command as its mathematical view.
pub open spec fn outcome_view(outcome: Result<Update, CommandError>) -> Result<
    UpdateView,
    CommandErrorView,
> {
    match outcome {
        Ok(update) => Ok(update@),
        Err(error) => Err(error@),
    }
}

impl DeepView for Action {
    type V = ActionView;

    open spec fn deep_view(&self) -> ActionView {
        match self {
            Action::ResolveStack { stack, user, level } => ActionView::ResolveStack {
                stack: stack@,
                user: user@,
                level: *level,
            },
            Action::ResolveRepo { repo } => ActionView::ResolveRepo { repo: repo@ },
            Action::RecordUpdate(update) => ActionView::RecordUpdate(update@),
            Action::GitToken { stack, linked_repo } => ActionView::GitToken {
                stack: stack@,
                linked_repo: linked_repo.deep_view(),
            },
            Action::RegistryToken { provider, account } => ActionView::RegistryToken {
                provider: provider@,
                account: account@,
            },
            Action::VariablesAndSecrets => ActionView::VariablesAndSecrets,
            Action::Remote { server, request } => ActionView::Remote {
                server: server@,
                request: request@,
            },
            Action::StoreInfo { stack, info } => ActionView::StoreInfo {
                stack: stack@,
                info: info@,
            },
            Action::RefreshCache { server } => ActionView::RefreshCache { server: server@ },
            Action::Finish(outcome) => ActionView::Finish(outcome_view(*outcome)),
            Action::Idle => ActionView::Idle,
        }
    }
}

impl View for Action {
    type V = ActionView;

    open spec fn view(&self) -> ActionView {
        self.deep_view()
    }
}

/// What a failed piece of work had to say. An answer that was not asked for
/// counts as a failure.
pub open spec fn failure_text(reply: ReplyView) -> Seq<char> {
    match reply {
        ReplyView::Failed(message) => message,
        _ => "unexpected reply"@,
    }
}

/// What a failed piece of work had to say.
pub fn failure_message(reply: Reply) -> (message: String)
    ensures
        message@ == failure_text(reply@),
{
    match reply {
        Reply::Failed(message) => message,
        _ => String::from_str("unexpected reply"),
    }
}

} // verus!
