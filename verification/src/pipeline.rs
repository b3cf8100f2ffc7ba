//! From the credentials to the answer of the remote agent: the part that
//! every command runs through once it may act on its stack.
//!
//! The git token is fetched, then the registry token; the configuration of
//! the stack and of its linked repo is rendered, unless the stack opts out;
//! then the remote agent is called with the rendered configuration, the
//! tokens and the secret replacements. A failure before the call refuses
//! the command; after that the agent either answers or does not.

use vstd::prelude::*;
use vstd::string::StringExecFns;
use crate::command::{CommandError, CommandErrorView};
use crate::compose::{
    RemoteOperation, RemoteRequest, RemoteRequestView, RemoteResponse, RemoteResponseView,
};
use crate::entities::{Repo, RepoView, Server, ServerView, Stack, StackView};
use crate::interpolate::{
    all_render, from_mapping, interpolation_logs, lemma_merged_twice, merged, rendered_texts,
    repo_texts, secrets_used, stack_texts, variables_used, with_repo_texts, with_stack_texts,
    InterpolationError, Interpolator, Replacer, ReplacerView,
};
use crate::protocol::{failure_message, failure_text, Action, ActionView, Reply, ReplyView};
use crate::text::{appended, join, spec_join};
use crate::update::{Log, LogView};

verus! {

/// Where the pipeline stands.
#[derive(Clone, Copy, Debug, PartialEq, Eq, Structural)]
pub enum PipelineStage {
    /// The git token is being fetched.
    GitToken,
    /// The registry token is being fetched.
    RegistryToken,
    /// The variables and secrets are being fetched.
    Secrets,
    /// The remote agent is at work.
    Remote,
}

/// One run from the credentials to the answer of the remote agent.
#[derive(Debug)]
pub struct Pipeline {
    stage: PipelineStage,
    operation: RemoteOperation,
    stack: Stack,
    server: Server,
    repo: Option<Repo>,
    services: Vec<String>,
    stop_time: Option<i32>,
    remove_orphans: bool,
    git_token: Option<String>,
    registry_token: Option<String>,
}

/// Mathematical view of [`Pipeline`].
pub struct PipelineView {
    pub stage: PipelineStage,
    pub operation: RemoteOperation,
    pub stack: StackView,
    pub server: ServerView,
    pub repo: Option<RepoView>,
    pub services: Seq<Seq<char>>,
    pub stop_time: Option<i32>,
    pub remove_orphans: bool,
    pub git_token: Option<Seq<char>>,
    pub registry_token: Option<Seq<char>>,
}

impl DeepView for Pipeline {
    type V = PipelineView;

    closed spec fn deep_view(&self) -> PipelineView {
        PipelineView {
            stage: self.stage,
            operation: self.operation,
            stack: self.stack.deep_view(),
            server: self.server.deep_view(),
            repo: self.repo.deep_view(),
            services: self.services.deep_view(),
            stop_time: self.stop_time.deep_view(),
            remove_orphans: self.remove_orphans,
            git_token: self.git_token.deep_view(),
            registry_token: self.registry_token.deep_view(),
        }
    }
}

impl View for Pipeline {
    type V = PipelineView;

    closed spec fn view(&self) -> PipelineView {
        self.deep_view()
    }
}


/// What a step of the pipeline comes to.
#[derive(Debug)]
pub enum Advance {
    /// The pipeline goes on and asks for this work.
    Ask(Pipeline, Action),
    /// The remote agent has answered. The stack is the one that was sent,
    /// as it stands after rendering.
    Answered { stack: Stack, server: Server, response: RemoteResponse },
    /// The command is refused before the remote agent was called.
    Refused(CommandError),
    /// The remote agent was called and did not answer; this is why.
    Unanswered(String),
}

/// Mathematical view of [`Advance`].
pub enum AdvanceView {
    Ask(PipelineView, ActionView),
    Answered { stack: StackView, server: ServerView, response: RemoteResponseView },
    Refused(CommandErrorView),
    Unanswered(Seq<char>),
}

impl DeepView for Advance {
    type V = AdvanceView;

    open spec fn deep_view(&self) -> AdvanceView {
        match self {
            Advance::Ask(pipeline, action) => AdvanceView::Ask(pipeline@, action@),
            Advance::Answered { stack, server, response } => AdvanceView::Answered {
                stack: stack@,
                server: server@,
                response: response@,
            },
            Advance::Refused(error) => AdvanceView::Refused(error@),
            Advance::Unanswered(message) => AdvanceView::Unanswered(message@),
        }
    }
}

impl View for Advance {
    type V = AdvanceView;

    open spec fn view(&self) -> AdvanceView {
        self.deep_view()
    }
}

/// What the rendering engine leaves open: the order in which the
/// replacements of a run are listed, and the wording of a refusal.
pub struct Open {
    pub variables: Seq<ReplacerView>,
    pub secrets: Seq<ReplacerView>,
    pub refusal: Seq<char>,
}

/// A step of the pipeline: what it comes to, and the entries that it adds
/// to the execution record.
pub struct PipelineStepped {
    pub next: AdvanceView,
    pub logs: Seq<LogView>,
}

/// The entry that names the services a command is limited to.
pub open spec fn services_log(services: Seq<Seq<char>>, now: i64) -> LogView {
    LogView::simple(
        "Service/s"@,
        "Execution requested for Stack service/s "@ + spec_join(services, ", "@),
        now,
    )
}

/// The entries that the start of the pipeline adds to the execution record:
/// the services, where the command is limited to some.
pub open spec fn begin_logs(services: Seq<Seq<char>>, now: i64) -> Seq<LogView> {
    if services.len() > 0 {
        seq![services_log(services, now)]
    } else {
        Seq::empty()
    }
}

/// Why the registry token could not be had.
pub open spec fn registry_failure(provider: Seq<char>, account: Seq<char>, cause: Seq<char>) -> Seq<
    char,
> {
    "Failed to get registry token in call to db. Stopping run. | "@ + provider + " | "@ + account
        + ": "@ + cause
}

/// The texts of the stack that are rendered: none where the stack opts out.
pub open spec fn stack_part(stack: StackView) -> Seq<Seq<char>> {
    if stack.config.skip_secret_interp {
        Seq::empty()
    } else {
        stack_texts(stack.config)
    }
}

/// The texts of the linked repo that are rendered: none where there is no
/// repo or the repo opts out.
pub open spec fn repo_part(repo: Option<RepoView>) -> Seq<Seq<char>> {
    match repo {
        Some(r) => if r.config.skip_secret_interp {
            Seq::empty()
        } else {
            repo_texts(r.config)
        },
        None => Seq::empty(),
    }
}

/// The stack with its texts rendered, unless it opts out.
pub open spec fn render_stack(
    stack: StackView,
    variables: Map<Seq<char>, Seq<char>>,
    secrets: Map<Seq<char>, Seq<char>>,
) -> StackView {
    if stack.config.skip_secret_interp {
        stack
    } else {
        StackView {
            config: with_stack_texts(
                stack.config,
                rendered_texts(stack_texts(stack.config), Some(variables), secrets),
            ),
            ..stack
        }
    }
}

/// The linked repo with its texts rendered, unless it opts out.
pub open spec fn render_repo(
    repo: Option<RepoView>,
    variables: Map<Seq<char>, Seq<char>>,
    secrets: Map<Seq<char>, Seq<char>>,
) -> Option<RepoView> {
    match repo {
        Some(r) => if r.config.skip_secret_interp {
            Some(r)
        } else {
            Some(
                RepoView {
                    config: with_repo_texts(
                        r.config,
                        rendered_texts(repo_texts(r.config), Some(variables), secrets),
                    ),
                    ..r
                },
            )
        },
        None => None,
    }
}

/// Every text of the stack and of its linked repo can be rendered.
pub open spec fn renders(
    stack: StackView,
    repo: Option<RepoView>,
    variables: Map<Seq<char>, Seq<char>>,
    secrets: Map<Seq<char>, Seq<char>>,
) -> bool {
    &&& all_render(stack_part(stack), Some(variables), secrets)
    &&& all_render(repo_part(repo), Some(variables), secrets)
}

/// The variable replacements that rendering the stack and its linked repo
/// makes.
pub open spec fn variables_rendered(
    stack: StackView,
    repo: Option<RepoView>,
    variables: Map<Seq<char>, Seq<char>>,
    secrets: Map<Seq<char>, Seq<char>>,
) -> Set<ReplacerView> {
    variables_used(
        stack_part(stack),
        Some(variables),
        secrets,
        stack_part(stack).len() as int,
    ).union(
        variables_used(repo_part(repo), Some(variables), secrets, repo_part(repo).len() as int),
    )
}

/// The secret replacements that rendering the stack and its linked repo
/// makes.
pub open spec fn secrets_rendered(
    stack: StackView,
    repo: Option<RepoView>,
    variables: Map<Seq<char>, Seq<char>>,
    secrets: Map<Seq<char>, Seq<char>>,
) -> Set<ReplacerView> {
    secrets_used(stack_part(stack), Some(variables), secrets, stack_part(stack).len() as int).union(
        secrets_used(repo_part(repo), Some(variables), secrets, repo_part(repo).len() as int),
    )
}

/// The listings in `open` are listings of the replacements that rendering
/// the stack and its linked repo makes: each replacement once, and each
/// made from the mapping that it is listed for.
pub open spec fn lists_replacements(
    stack: StackView,
    repo: Option<RepoView>,
    variables: Map<Seq<char>, Seq<char>>,
    secrets: Map<Seq<char>, Seq<char>>,
    open: Open,
) -> bool {
    &&& merged(Seq::empty(), variables_rendered(stack, repo, variables, secrets), open.variables)
    &&& merged(Seq::empty(), secrets_rendered(stack, repo, variables, secrets), open.secrets)
    &&& from_mapping(open.variables, variables)
    &&& from_mapping(open.secrets, secrets)
}

/// `open` is something that the rendering engine may have come up with in
/// this step. Only the step that renders, and only where it succeeds, is
/// bound by it.
pub open spec fn pipeline_admissible(p: PipelineView, reply: ReplyView, open: Open) -> bool {
    match reply {
        ReplyView::Secrets(variables, secrets) => p.stage == PipelineStage::Secrets && renders(
            p.stack,
            p.repo,
            variables,
            secrets,
        ) ==> lists_replacements(p.stack, p.repo, variables, secrets, open),
        _ => true,
    }
}

/// The request that the pipeline sends to the remote agent.
pub open spec fn remote_request(p: PipelineView, replacers: Seq<ReplacerView>) -> RemoteRequestView {
    RemoteRequestView {
        operation: p.operation,
        stack: p.stack,
        services: p.services,
        repo: p.repo,
        git_token: p.git_token,
        registry_token: p.registry_token,
        replacers,
        stop_time: p.stop_time,
        remove_orphans: p.remove_orphans,
    }
}

/// The pipeline calls the remote agent.
pub open spec fn ask_remote(p: PipelineView, replacers: Seq<ReplacerView>) -> AdvanceView {
    let p = PipelineView { stage: PipelineStage::Remote, ..p };
    AdvanceView::Ask(p, ActionView::Remote { server: p.server, request: remote_request(p, replacers) })
}

/// The pipeline at its start, and the first piece of work: the git token.
pub open spec fn spec_pipeline_begin(
    operation: RemoteOperation,
    stack: StackView,
    server: ServerView,
    repo: Option<RepoView>,
    services: Seq<Seq<char>>,
    stop_time: Option<i32>,
    remove_orphans: bool,
) -> (PipelineView, ActionView) {
    (
        PipelineView {
            stage: PipelineStage::GitToken,
            operation,
            stack,
            server,
            repo,
            services,
            stop_time,
            remove_orphans,
            git_token: None,
            registry_token: None,
        },
        ActionView::GitToken {
            stack: stack.id,
            linked_repo: match repo {
                Some(r) => Some(r.id),
                None => None,
            },
        },
    )
}

/// One step of the pipeline on the answer `reply`, received at `now`.
pub open spec fn spec_pipeline_step(p: PipelineView, reply: ReplyView, now: i64, open: Open) -> PipelineStepped {
    match p.stage {
        PipelineStage::GitToken => PipelineStepped {
            next: match reply {
                ReplyView::Token(token) => AdvanceView::Ask(
                    PipelineView { stage: PipelineStage::RegistryToken, git_token: token, ..p },
                    ActionView::RegistryToken {
                        provider: p.stack.config.registry_provider,
                        account: p.stack.config.registry_account,
                    },
                ),
                _ => AdvanceView::Refused(
                    CommandErrorView::CredentialRetrievalFailed { message: failure_text(reply) },
                ),
            },
            logs: Seq::empty(),
        },
        PipelineStage::RegistryToken => PipelineStepped {
            next: match reply {
                ReplyView::Token(token) => {
                    let p = PipelineView { registry_token: token, ..p };
                    if p.stack.config.skip_secret_interp {
                        ask_remote(p, Seq::empty())
                    } else {
                        AdvanceView::Ask(
                            PipelineView { stage: PipelineStage::Secrets, ..p },
                            ActionView::VariablesAndSecrets,
                        )
                    }
                },
                _ => AdvanceView::Refused(
                    CommandErrorView::CredentialRetrievalFailed {
                        message: registry_failure(
                            p.stack.config.registry_provider,
                            p.stack.config.registry_account,
                            failure_text(reply),
                        ),
                    },
                ),
            },
            logs: Seq::empty(),
        },
        PipelineStage::Secrets => match reply {
            ReplyView::Secrets(variables, secrets) => {
                if renders(p.stack, p.repo, variables, secrets) {
                    PipelineStepped {
                        next: ask_remote(
                            PipelineView {
                                stack: render_stack(p.stack, variables, secrets),
                                repo: render_repo(p.repo, variables, secrets),
                                ..p
                            },
                            open.secrets,
                        ),
                        logs: interpolation_logs(open.variables, open.secrets, now),
                    }
                } else {
                    PipelineStepped {
                        next: AdvanceView::Refused(
                            CommandErrorView::InterpolationFailed { message: open.refusal },
                        ),
                        logs: Seq::empty(),
                    }
                }
            },
            _ => PipelineStepped {
                next: AdvanceView::Refused(
                    CommandErrorView::InterpolationFailed { message: failure_text(reply) },
                ),
                logs: Seq::empty(),
            },
        },
        PipelineStage::Remote => PipelineStepped {
            next: match reply {
                ReplyView::Remote(response) => AdvanceView::Answered {
                    stack: p.stack,
                    server: p.server,
                    response,
                },
                _ => AdvanceView::Unanswered(failure_text(reply)),
            },
            logs: Seq::empty(),
        },
    }
}

/// No text, no replacement.
proof fn lemma_nothing_used(
    variables: Option<Map<Seq<char>, Seq<char>>>,
    secrets: Map<Seq<char>, Seq<char>>,
)
    ensures
        variables_used(Seq::empty(), variables, secrets, 0) == Set::<ReplacerView>::empty(),
        secrets_used(Seq::empty(), variables, secrets, 0) == Set::<ReplacerView>::empty(),
{
    assert(variables_used(Seq::empty(), variables, secrets, 0) =~= Set::<ReplacerView>::empty());
    assert(secrets_used(Seq::empty(), variables, secrets, 0) =~= Set::<ReplacerView>::empty());
}

/// Merging nothing changes nothing.
proof fn lemma_merged_nothing(list: Seq<ReplacerView>)
    ensures
        merged(list, Set::empty(), list),
{
}

/// Renders the stack and its linked repo.
fn render_both(interpolator: &mut Interpolator, stack: Stack, repo: Option<Repo>) -> (res: Result<
    (Stack, Option<Repo>),
    InterpolationError,
>)
    requires
        old(interpolator)@.variables is Some,
        old(interpolator)@.variable_replacers.len() == 0,
        old(interpolator)@.secret_replacers.len() == 0,
    ensures
        final(interpolator)@.variables == old(interpolator)@.variables,
        final(interpolator)@.secrets == old(interpolator)@.secrets,
        ({
            let variables = old(interpolator)@.variables->0;
            let secrets = old(interpolator)@.secrets;
            match res {
                Ok(rendered) => {
                    &&& renders(stack@, repo.deep_view(), variables, secrets)
                    &&& rendered.0@ == render_stack(stack@, variables, secrets)
                    &&& rendered.1.deep_view() == render_repo(repo.deep_view(), variables, secrets)
                    &&& merged(
                        Seq::empty(),
                        variables_rendered(stack@, repo.deep_view(), variables, secrets),
                        final(interpolator)@.variable_replacers,
                    )
                    &&& merged(
                        Seq::empty(),
                        secrets_rendered(stack@, repo.deep_view(), variables, secrets),
                        final(interpolator)@.secret_replacers,
                    )
                    &&& final(interpolator)@.sound()
                },
                Err(_) => !renders(stack@, repo.deep_view(), variables, secrets),
            }
        }),
{
    let ghost start = interpolator@;
    let ghost variables = start.variables;
    let ghost secrets = start.secrets;
    let mut stack = stack;
    let ghost stack_before = stack@;
    match interpolator.interpolate_stack(&mut stack) {
        Ok(()) => {},
        Err(failure) => {
            return Err(failure);
        },
    }
    let ghost middle = interpolator@;
    proof {
        lemma_nothing_used(variables, secrets);
        if stack_before.config.skip_secret_interp {
            lemma_merged_nothing(start.variable_replacers);
            lemma_merged_nothing(start.secret_replacers);
        }
    }
    let ghost repo_before = repo.deep_view();
    let repo = match repo {
        Some(linked) => {
            let mut linked = linked;
            match interpolator.interpolate_repo(&mut linked) {
                Ok(()) => {},
                Err(failure) => {
                    return Err(failure);
                },
            }
            Some(linked)
        },
        None => None,
    };
    proof {
        let used_v = variables_used(
            repo_part(repo_before),
            variables,
            secrets,
            repo_part(repo_before).len() as int,
        );
        let used_s = secrets_used(
            repo_part(repo_before),
            variables,
            secrets,
            repo_part(repo_before).len() as int,
        );
        if repo_part(repo_before).len() == 0 {
            lemma_merged_nothing(middle.variable_replacers);
            lemma_merged_nothing(middle.secret_replacers);
        }
        assert(merged(middle.variable_replacers, used_v, interpolator@.variable_replacers));
        assert(merged(middle.secret_replacers, used_s, interpolator@.secret_replacers));
        lemma_merged_twice(
            start.variable_replacers,
            variables_used(
                stack_part(stack_before),
                variables,
                secrets,
                stack_part(stack_before).len() as int,
            ),
            middle.variable_replacers,
            used_v,
            interpolator@.variable_replacers,
        );
        lemma_merged_twice(
            start.secret_replacers,
            secrets_used(
                stack_part(stack_before),
                variables,
                secrets,
                stack_part(stack_before).len() as int,
            ),
            middle.secret_replacers,
            used_s,
            interpolator@.secret_replacers,
        );
        assert(start.variable_replacers =~= Seq::empty());
        assert(start.secret_replacers =~= Seq::empty());
    }
    Ok((stack, repo))
}

impl Pipeline {
    /// Starts the pipeline: the services that the command is limited to are
    /// put on record, and the git token is to be fetched first.
    pub fn begin(
        operation: RemoteOperation,
        stack: Stack,
        server: Server,
        repo: Option<Repo>,
        services: Vec<String>,
        stop_time: Option<i32>,
        remove_orphans: bool,
        logs: &mut Vec<Log>,
        now: i64,
    ) -> (started: (Pipeline, Action))
        ensures
            (started.0@, started.1@) == spec_pipeline_begin(
                operation,
                stack@,
                server@,
                repo.deep_view(),
                services.deep_view(),
                stop_time,
                remove_orphans,
            ),
            final(logs).deep_view() == old(logs).deep_view() + begin_logs(services.deep_view(), now),
    {
        if services.len() > 0 {
            let message = appended(
                "Execution requested for Stack service/s ",
                join(&services, ", ").as_str(),
            );
            logs.push(Log::simple("Service/s", message, now));
        }
        assert(logs.deep_view() =~= old(logs).deep_view() + begin_logs(services.deep_view(), now));
        let action = Action::GitToken {
            stack: stack.id.clone(),
            linked_repo: match &repo {
                Some(r) => Some(r.id.clone()),
                None => None,
            },
        };
        (
            Pipeline {
                stage: PipelineStage::GitToken,
                operation,
                stack,
                server,
                repo,
                services,
                stop_time,
                remove_orphans,
                git_token: None,
                registry_token: None,
            },
            action,
        )
    }

    /// The pipeline calls the remote agent.
    fn call_remote(self, replacers: Vec<Replacer>) -> (next: Advance)
        ensures
            next@ == ask_remote(self@, replacers.deep_view()),
    {
        let request = RemoteRequest {
            operation: self.operation,
            stack: self.stack.clone(),
            services: self.services.clone(),
            repo: self.repo.clone(),
            git_token: self.git_token.clone(),
            registry_token: self.registry_token.clone(),
            replacers,
            stop_time: self.stop_time,
            remove_orphans: self.remove_orphans,
        };
        assert(request.services.deep_view() =~= self.services.deep_view());
        let action = Action::Remote { server: self.server.clone(), request };
        Advance::Ask(Pipeline { stage: PipelineStage::Remote, ..self }, action)
    }

    /// The variables and secrets are here: the configuration is rendered
    /// and the remote agent is called.
    fn render_and_call(self, logs: &mut Vec<Log>, reply: Reply, now: i64) -> (next: (
        Advance,
        Ghost<Open>,
    ))
        requires
            self@.stage == PipelineStage::Secrets,
        ensures
            pipeline_admissible(self@, reply@, next.1@),
            spec_pipeline_step(self@, reply@, now, next.1@).next == next.0@,
            final(logs).deep_view() == old(logs).deep_view() + spec_pipeline_step(
                self@,
                reply@,
                now,
                next.1@,
            ).logs,
    {
        match reply {
            Reply::Secrets(variables, secrets) => {
                let mut interpolator = Interpolator::new(Some(&variables), &secrets);
                let Pipeline {
                    stage,
                    operation,
                    stack,
                    server,
                    repo,
                    services,
                    stop_time,
                    remove_orphans,
                    git_token,
                    registry_token,
                } = self;
                match render_both(&mut interpolator, stack, repo) {
                    Ok(rendered) => {
                        interpolator.push_logs(logs, now);
                        let ghost open = Open {
                            variables: interpolator@.variable_replacers,
                            secrets: interpolator@.secret_replacers,
                            refusal: Seq::empty(),
                        };
                        let replacers = interpolator.into_secret_replacers();
                        let pipeline = Pipeline {
                            stage,
                            operation,
                            stack: rendered.0,
                            server,
                            repo: rendered.1,
                            services,
                            stop_time,
                            remove_orphans,
                            git_token,
                            registry_token,
                        };
                        (pipeline.call_remote(replacers), Ghost(open))
                    },
                    Err(refusal) => {
                        let ghost open = Open {
                            variables: Seq::empty(),
                            secrets: Seq::empty(),
                            refusal: refusal.message@,
                        };
                        assert(logs.deep_view() =~= old(logs).deep_view() + Seq::<LogView>::empty());
                        (
                            Advance::Refused(
                                CommandError::InterpolationFailed { message: refusal.message },
                            ),
                            Ghost(open),
                        )
                    },
                }
            },
            other => {
                let message = failure_message(other);
                let ghost open = Open {
                    variables: Seq::empty(),
                    secrets: Seq::empty(),
                    refusal: Seq::empty(),
                };
                assert(logs.deep_view() =~= old(logs).deep_view() + Seq::<LogView>::empty());
                (Advance::Refused(CommandError::InterpolationFailed { message }), Ghost(open))
            },
        }
    }

    /// The git token is here: the registry token is fetched next.
    fn take_git_token(self, reply: Reply) -> (next: Advance)
        requires
            self@.stage == PipelineStage::GitToken,
        ensures
            forall|now: i64, open: Open|
                (#[trigger] spec_pipeline_step(self@, reply@, now, open)) == (PipelineStepped {
                    next: next@,
                    logs: Seq::empty(),
                }),
    {
        match reply {
            Reply::Token(token) => {
                let action = Action::RegistryToken {
                    provider: self.stack.config.registry_provider.clone(),
                    account: self.stack.config.registry_account.clone(),
                };
                Advance::Ask(
                    Pipeline { stage: PipelineStage::RegistryToken, git_token: token, ..self },
                    action,
                )
            },
            other => {
                let message = failure_message(other);
                Advance::Refused(CommandError::CredentialRetrievalFailed { message })
            },
        }
    }

    /// The registry token is here: the configuration is rendered next,
    /// unless the stack opts out.
    fn take_registry_token(self, reply: Reply) -> (next: Advance)
        requires
            self@.stage == PipelineStage::RegistryToken,
        ensures
            forall|now: i64, open: Open|
                (#[trigger] spec_pipeline_step(self@, reply@, now, open)) == (PipelineStepped {
                    next: next@,
                    logs: Seq::empty(),
                }),
    {
        match reply {
            Reply::Token(token) => {
                let pipeline = Pipeline { registry_token: token, ..self };
                if pipeline.stack.config.skip_secret_interp {
                    let replacers: Vec<Replacer> = Vec::new();
                    assert(replacers.deep_view() =~= Seq::empty());
                    pipeline.call_remote(replacers)
                } else {
                    Advance::Ask(
                        Pipeline { stage: PipelineStage::Secrets, ..pipeline },
                        Action::VariablesAndSecrets,
                    )
                }
            },
            other => {
                let cause = failure_message(other);
                let mut message = String::from_str(
                    "Failed to get registry token in call to db. Stopping run. | ",
                );
                message.append(self.stack.config.registry_provider.as_str());
                message.append(" | ");
                message.append(self.stack.config.registry_account.as_str());
                message.append(": ");
                message.append(cause.as_str());
                Advance::Refused(CommandError::CredentialRetrievalFailed { message })
            },
        }
    }

    /// The remote agent has answered, or has not.
    fn take_answer(self, reply: Reply) -> (next: Advance)
        requires
            self@.stage == PipelineStage::Remote,
        ensures
            forall|now: i64, open: Open|
                (#[trigger] spec_pipeline_step(self@, reply@, now, open)) == (PipelineStepped {
                    next: next@,
                    logs: Seq::empty(),
                }),
    {
        match reply {
            Reply::Remote(response) => Advance::Answered {
                stack: self.stack,
                server: self.server,
                response,
            },
            other => Advance::Unanswered(failure_message(other)),
        }
    }

    /// Takes the answer to the work that was asked for last and says what
    /// the pipeline comes to; the entries that the step puts on record are
    /// appended to `logs`.
    ///
    /// The step is the one that [`spec_pipeline_step`] describes, for
    /// something that the rendering engine may have come up with.
    pub fn step(self, logs: &mut Vec<Log>, reply: Reply, now: i64) -> (next: Advance)
        ensures
            exists|open: Open|
                {
                    &&& pipeline_admissible(self@, reply@, open)
                    &&& (#[trigger] spec_pipeline_step(self@, reply@, now, open)).next == next@
                    &&& final(logs).deep_view() == old(logs).deep_view() + spec_pipeline_step(
                        self@,
                        reply@,
                        now,
                        open,
                    ).logs
                },
    {
        let (next, Ghost(open)) = self.step_with(logs, reply, now);
        next
    }

    /// The step, together with what the rendering engine came up with.
    pub(crate) fn step_with(self, logs: &mut Vec<Log>, reply: Reply, now: i64) -> (next: (
        Advance,
        Ghost<Open>,
    ))
        ensures
            pipeline_admissible(self@, reply@, next.1@),
            spec_pipeline_step(self@, reply@, now, next.1@).next == next.0@,
            final(logs).deep_view() == old(logs).deep_view() + spec_pipeline_step(
                self@,
                reply@,
                now,
                next.1@,
            ).logs,
    {
        let ghost open = Open {
            variables: Seq::empty(),
            secrets: Seq::empty(),
            refusal: Seq::empty(),
        };
        let ghost before = self@;
        let ghost asked = reply@;
        let next = match self.stage {
            PipelineStage::GitToken => self.take_git_token(reply),
            PipelineStage::RegistryToken => self.take_registry_token(reply),
            PipelineStage::Secrets => {
                return self.render_and_call(logs, reply, now);
            },
            PipelineStage::Remote => self.take_answer(reply),
        };
        assert(spec_pipeline_step(before, asked, now, open) == (PipelineStepped {
            next: next@,
            logs: Seq::empty(),
        }));
        assert(logs.deep_view() =~= old(logs).deep_view() + Seq::<LogView>::empty());
        (next, Ghost(open))
    }
}

/// The remote agent is called only with both tokens fetched and, unless the
/// stack opts out, with the configuration rendered: the call is asked for
/// by the step that takes the registry token of a stack that opts out, or
/// by the step that renders.
pub proof fn lemma_call_follows_credentials(p: PipelineView, reply: ReplyView, now: i64, open: Open)
    ensures
        ({
            let next = spec_pipeline_step(p, reply, now, open).next;
            next matches AdvanceView::Ask(after, ActionView::Remote { server, request }) ==> {
                &&& after.stage == PipelineStage::Remote
                &&& server == p.server
                &&& request.git_token == after.git_token
                &&& request.registry_token == after.registry_token
                &&& request.operation == p.operation
                &&& request.services == p.services
                &&& request.stop_time == p.stop_time
                &&& request.remove_orphans == p.remove_orphans
                &&& (p.stage == PipelineStage::RegistryToken && p.stack.config.skip_secret_interp
                    && request.stack == p.stack && request.repo == p.repo
                    && request.replacers.len() == 0) || (p.stage == PipelineStage::Secrets && (
                reply matches ReplyView::Secrets(variables, secrets) && request.stack
                    == render_stack(p.stack, variables, secrets) && request.repo == render_repo(
                    p.repo,
                    variables,
                    secrets,
                ) && request.replacers == open.secrets))
            }
        }),
{
}

/// The secret replacements that are sent to the remote agent are exactly
/// those that rendering made with the secrets, each once; and each of them
/// pairs the value of a secret with the name of that secret.
pub proof fn lemma_replacers_are_the_secrets(
    p: PipelineView,
    variables: Map<Seq<char>, Seq<char>>,
    secrets: Map<Seq<char>, Seq<char>>,
    now: i64,
    open: Open,
)
    requires
        p.stage == PipelineStage::Secrets,
        renders(p.stack, p.repo, variables, secrets),
        pipeline_admissible(p, ReplyView::Secrets(variables, secrets), open),
    ensures
        ({
            let next = spec_pipeline_step(p, ReplyView::Secrets(variables, secrets), now, open).next;
            &&& next matches AdvanceView::Ask(_, ActionView::Remote { request, .. })
            &&& request.replacers.no_duplicates()
            &&& forall|r: ReplacerView|
                request.replacers.contains(r) <==> secrets_rendered(
                    p.stack,
                    p.repo,
                    variables,
                    secrets,
                ).contains(r)
            &&& forall|r: ReplacerView|
                request.replacers.contains(r) ==> secrets.contains_pair(r.1, r.0)
        }),
{
    let listed = open.secrets;
    let used = secrets_rendered(p.stack, p.repo, variables, secrets);
    assert forall|r: ReplacerView| listed.contains(r) implies used.contains(r) by {
        let k = choose|k: int| 0 <= k < listed.len() && listed[k] == r;
        assert(used.contains(listed[k]));
    }
}

} // verus!
