use stack_exec::action_state::{ActionFlag, ActionStates, Busy};
use stack_exec::batch::{
    batch_requests, batch_response, single_request, BatchExecutionResponseItem,
    BatchExecutionResponseItemErr, BatchKind,
};
use stack_exec::command::{
    BatchDeployStack, BatchDeployStackIfChanged, BatchDestroyStack, BatchPullStack, CommandError,
    DeployStack, DeployStackIfChanged, DestroyStack, ExecuteRequest, PermissionLevel, PullStack,
};
use stack_exec::compose::RemoteResponse;
use stack_exec::entities::{
    FileContents, Server, Stack, StackConfig, StackInfo, StackServiceNames, SystemCommand,
};
use stack_exec::execution::Execution;
use stack_exec::protocol::{Action, Reply};
use stack_exec::resolve::BatchLookup;
use stack_exec::update::{Log, Operation, Update, UpdateStatus};

fn text(s: &str) -> String {
    s.to_string()
}

fn file(path: &str, contents: &str) -> FileContents {
    FileContents { path: text(path), contents: text(contents) }
}

fn service(name: &str) -> StackServiceNames {
    StackServiceNames {
        service_name: text(name),
        container_name: format!("web-{name}-1"),
        image: format!("registry/{name}:1"),
    }
}

fn shell(command: &str) -> SystemCommand {
    SystemCommand { path: String::new(), command: text(command) }
}

fn info() -> StackInfo {
    StackInfo {
        missing_files: vec![],
        deployed_project_name: Some(text("old-web")),
        deployed_services: Some(vec![service("old")]),
        deployed_contents: Some(vec![file("compose.yaml", "v1")]),
        deployed_config: Some(text("old config")),
        deployed_hash: Some(text("aaa111")),
        deployed_message: Some(text("first")),
        latest_services: vec![service("old")],
        remote_contents: Some(vec![file("compose.yaml", "v1")]),
        remote_errors: None,
        latest_hash: Some(text("aaa111")),
        latest_message: Some(text("first")),
    }
}

fn stack(id: &str) -> Stack {
    Stack {
        id: text(id),
        name: format!("{id}-name"),
        project_name: text("web"),
        config: StackConfig {
            server_id: text("server-1"),
            files_on_host: false,
            linked_repo: String::new(),
            skip_secret_interp: false,
            registry_provider: text("ghcr.io"),
            registry_account: text("ops"),
            file_contents: String::new(),
            environment: text("DB_PASSWORD=[[DB_PASSWORD]]\nMODE=[[MODE]]"),
            pre_deploy: shell(""),
            post_deploy: shell(""),
            extra_args: vec![],
            build_extra_args: vec![],
        },
        info: info(),
    }
}

fn server() -> Server {
    Server { id: text("server-1"), name: text("edge") }
}



fn response(deployed: bool) -> RemoteResponse {
    RemoteResponse {
        logs: vec![Log::simple("Compose Up", text("done"), 50)],
        deployed,
        services: vec![service("web"), service("db")],
        file_contents: vec![file("compose.yaml", "v2")],
        missing_files: vec![text("override.yaml")],
        remote_errors: vec![file("broken.yaml", "cannot read")],
        compose_config: Some(text("new config")),
        commit_hash: Some(text("bbb222")),
        commit_message: Some(text("second")),
    }
}

fn record(operation: Operation) -> Update {
    let mut update = Update::new(operation, text("stack-1"), text("alice"), 1);
    update.id = text("update-1");
    update.status = UpdateStatus::InProgress;
    update
}

/// Runs one deploy to its end, with every piece of outside work going well.
fn run_deploy(request: DeployStack, states: &mut ActionStates, resolved: Stack) -> Result<Update, CommandError> {
    let mut plain = resolved;
    plain.config.skip_secret_interp = true;
    let (mut execution, _): (Execution, Action) = request.resolve(text("alice"), record(Operation::DeployStack));
    let replies = vec![
        Reply::Stack(plain, server()),
        Reply::Done,
        Reply::Token(None),
        Reply::Token(None),
        Reply::Remote(response(true)),
        Reply::Done,
        Reply::Done,
        Reply::Done,
    ];
    for (at, reply) in replies.into_iter().enumerate() {
        let (next, action) = execution.step(states, reply, at as i64);
        execution = next;
        if let Action::Finish(outcome) = action {
            return outcome;
        }
    }
    panic!("the deploy did not end");
}

#[test]
fn single_requests_are_for_all_services_with_defaults() {
    assert_eq!(
        BatchDeployStack::single_request(text("web")),
        ExecuteRequest::DeployStack(DeployStack { stack: text("web"), services: vec![], stop_time: None })
    );
    assert_eq!(
        BatchDeployStackIfChanged::single_request(text("web")),
        ExecuteRequest::DeployStackIfChanged(DeployStackIfChanged { stack: text("web"), stop_time: None })
    );
    assert_eq!(
        BatchPullStack::single_request(text("web")),
        ExecuteRequest::PullStack(PullStack { stack: text("web"), services: vec![] })
    );
    assert_eq!(
        BatchDestroyStack::single_request(text("web")),
        ExecuteRequest::DestroyStack(DestroyStack {
            stack: text("web"),
            services: vec![],
            remove_orphans: false,
            stop_time: None,
        })
    );
    assert_eq!(single_request(BatchKind::Pull, text("db")), BatchPullStack::single_request(text("db")));
    assert_eq!(single_request(BatchKind::Deploy, text("db")), BatchDeployStack::single_request(text("db")));
    assert_eq!(
        single_request(BatchKind::DeployIfChanged, text("db")),
        BatchDeployStackIfChanged::single_request(text("db"))
    );
    assert_eq!(single_request(BatchKind::Destroy, text("db")), BatchDestroyStack::single_request(text("db")));
}

#[test]
fn batch_resolve_asks_for_the_matching_stacks() {
    assert_eq!(
        BatchDeployStack { pattern: text("web-*") }.resolve(text("alice")),
        BatchLookup {
            kind: BatchKind::Deploy,
            pattern: text("web-*"),
            user: text("alice"),
            level: PermissionLevel::Execute,
        }
    );
    assert_eq!(
        BatchDeployStackIfChanged { pattern: text("*") }.resolve(text("bob")).kind,
        BatchKind::DeployIfChanged
    );
    assert_eq!(BatchPullStack { pattern: text("*") }.resolve(text("bob")).kind, BatchKind::Pull);
    assert_eq!(BatchDestroyStack { pattern: text("*") }.resolve(text("bob")).kind, BatchKind::Destroy);
}

#[test]
fn batch_requests_follow_the_names() {
    let names = vec![text("c"), text("a"), text("b")];
    let requests = batch_requests(BatchKind::Pull, &names);
    assert_eq!(
        requests,
        vec![
            ExecuteRequest::PullStack(PullStack { stack: text("c"), services: vec![] }),
            ExecuteRequest::PullStack(PullStack { stack: text("a"), services: vec![] }),
            ExecuteRequest::PullStack(PullStack { stack: text("b"), services: vec![] }),
        ]
    );
    assert!(batch_requests(BatchKind::Deploy, &vec![]).is_empty());
}

#[test]
fn one_busy_stack_fails_alone() {
    let mut states = ActionStates::new();
    // Another operation is in flight on the second stack.
    let _held = states.update(&text("stack-2"), ActionFlag::Pulling).unwrap();

    let names = vec![text("stack-1"), text("stack-2"), text("stack-3")];
    let requests = batch_requests(BatchKind::Deploy, &names);
    let mut outcomes = vec![];
    for (request, name) in requests.into_iter().zip(names.iter()) {
        let request = match request {
            ExecuteRequest::DeployStack(request) => request,
            other => panic!("expected a deploy, got {other:?}"),
        };
        outcomes.push(run_deploy(request, &mut states, stack(name)));
    }
    let response = batch_response(names, outcomes);
    assert_eq!(response.len(), 3);
    assert!(matches!(response[0], BatchExecutionResponseItem::Done(_)));
    assert_eq!(
        response[1],
        BatchExecutionResponseItem::Failed(BatchExecutionResponseItemErr {
            name: text("stack-2"),
            error: CommandError::Busy(Busy { resource: text("stack-2"), operation: ActionFlag::Pulling }),
        })
    );
    assert!(matches!(response[2], BatchExecutionResponseItem::Done(_)));
    let failures = response
        .iter()
        .filter(|item| matches!(item, BatchExecutionResponseItem::Failed(_)))
        .count();
    assert_eq!(failures, 1);
    assert!(!states.get(&text("stack-1")).busy());
    assert!(states.get(&text("stack-2")).pulling);
    assert!(!states.get(&text("stack-3")).busy());
}

#[test]
fn batch_response_pairs_names_with_outcomes() {
    let done = record(Operation::PullStack);
    let response = batch_response(
        vec![text("a"), text("b")],
        vec![
            Err(CommandError::RemoteAgentError { message: text("offline") }),
            Ok(done.clone()),
        ],
    );
    assert_eq!(
        response,
        vec![
            BatchExecutionResponseItem::Failed(BatchExecutionResponseItemErr {
                name: text("a"),
                error: CommandError::RemoteAgentError { message: text("offline") },
            }),
            BatchExecutionResponseItem::Done(done),
        ]
    );
}

#[test]
fn batch_response_of_nothing_is_empty() {
    assert!(batch_response(vec![], vec![]).is_empty());
}

#[test]
fn name_without_outcome_gives_no_entry() {
    let done = record(Operation::PullStack);
    let response = batch_response(vec![text("a"), text("b"), text("c")], vec![Ok(done.clone())]);
    assert_eq!(response, vec![BatchExecutionResponseItem::Done(done.clone())]);
    let response = batch_response(
        vec![text("a")],
        vec![Err(CommandError::PermissionDenied { message: text("no") }), Ok(done)],
    );
    assert_eq!(
        response,
        vec![BatchExecutionResponseItem::Failed(BatchExecutionResponseItemErr {
            name: text("a"),
            error: CommandError::PermissionDenied { message: text("no") },
        })]
    );
}
