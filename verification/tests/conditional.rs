use stack_exec::action_state::ActionStates;
use stack_exec::command::{CommandError, DeployStack, DeployStackIfChanged, PermissionLevel};
use stack_exec::conditional::{ConditionalAction, ConditionalDeploy, ConditionalReply};
use stack_exec::entities::{
    FileContents, Server, Stack, StackConfig, StackInfo, StackServiceNames, SystemCommand,
};
use stack_exec::protocol::{Action, Reply};
use stack_exec::update::{Log, Operation, Update, UpdateStatus};

fn text(s: &str) -> String {
    s.to_string()
}

fn file(path: &str, contents: &str) -> FileContents {
    FileContents { path: text(path), contents: text(contents) }
}

fn service(name: &str) -> StackServiceNames {
    StackServiceNames {
        service_name: text(name),
        container_name: format!("web-{name}-1"),
        image: format!("registry/{name}:1"),
    }
}

fn shell(command: &str) -> SystemCommand {
    SystemCommand { path: String::new(), command: text(command) }
}

fn info() -> StackInfo {
    StackInfo {
        missing_files: vec![],
        deployed_project_name: Some(text("old-web")),
        deployed_services: Some(vec![service("old")]),
        deployed_contents: Some(vec![file("compose.yaml", "v1")]),
        deployed_config: Some(text("old config")),
        deployed_hash: Some(text("aaa111")),
        deployed_message: Some(text("first")),
        latest_services: vec![service("old")],
        remote_contents: Some(vec![file("compose.yaml", "v1")]),
        remote_errors: None,
        latest_hash: Some(text("aaa111")),
        latest_message: Some(text("first")),
    }
}

fn stack(id: &str) -> Stack {
    Stack {
        id: text(id),
        name: format!("{id}-name"),
        project_name: text("web"),
        config: StackConfig {
            server_id: text("server-1"),
            files_on_host: false,
            linked_repo: String::new(),
            skip_secret_interp: false,
            registry_provider: text("ghcr.io"),
            registry_account: text("ops"),
            file_contents: String::new(),
            environment: text("DB_PASSWORD=[[DB_PASSWORD]]\nMODE=[[MODE]]"),
            pre_deploy: shell(""),
            post_deploy: shell(""),
            extra_args: vec![],
            build_extra_args: vec![],
        },
        info: info(),
    }
}

fn server() -> Server {
    Server { id: text("server-1"), name: text("edge") }
}




fn record(operation: Operation) -> Update {
    let mut update = Update::new(operation, text("stack-1"), text("alice"), 1);
    update.id = text("update-1");
    update.status = UpdateStatus::InProgress;
    update
}

fn request() -> DeployStackIfChanged {
    DeployStackIfChanged { stack: text("web"), stop_time: Some(15) }
}

fn with_contents(deployed: Option<Vec<FileContents>>, remote: Option<Vec<FileContents>>) -> Stack {
    let mut stack = stack("stack-1");
    stack.info.deployed_contents = deployed;
    stack.info.remote_contents = remote;
    stack
}

/// Drives a conditional deploy up to the comparison.
fn until_reload(update: Update) -> ConditionalDeploy {
    let (run, action) = request().resolve(text("alice"), update);
    assert_eq!(
        action,
        ConditionalAction::CheckPermission {
            stack: text("web"),
            user: text("alice"),
            level: PermissionLevel::Execute,
        }
    );
    let (run, action) = run.step(ConditionalReply::Stack(stack("stack-1")), 10);
    assert_eq!(
        action,
        ConditionalAction::RefreshStackCache { stack: text("stack-1"), user: text("alice") }
    );
    let (run, action) = run.step(ConditionalReply::Done, 11);
    assert_eq!(action, ConditionalAction::GetStack { stack: text("stack-1") });
    assert!(!run.is_finished());
    run
}

#[test]
fn unchanged_files_cancel_the_deploy() {
    let run = until_reload(record(Operation::DeployStack));
    let unchanged = with_contents(
        Some(vec![file("compose.yaml", "v1")]),
        Some(vec![file("compose.yaml", "v1")]),
    );
    let (run, action) = run.step(ConditionalReply::Stack(unchanged), 12);
    let update = match action {
        ConditionalAction::Finish(Ok(update)) => update,
        other => panic!("expected the command to end well, got {other:?}"),
    };
    assert!(run.is_finished());
    assert_eq!(update.status, UpdateStatus::Complete);
    assert_eq!(update.end_ts, Some(12));
    assert!(update.success);
    assert_eq!(update.id, "update-1");
    assert_eq!(
        update.logs,
        vec![Log::simple(
            "Diff compose files",
            text("Deploy cancelled after no changes detected."),
            12
        )]
    );
    assert!(update.logs[0].stdout.contains("no changes detected"));
    let (run, action) = run.step(ConditionalReply::Done, 13);
    assert_eq!(action, ConditionalAction::Idle);
    assert!(run.is_finished());
}

#[test]
fn changed_files_hand_over_to_the_deploy() {
    let run = until_reload(record(Operation::DeployStack));
    let changed = with_contents(
        Some(vec![file("compose.yaml", "v1")]),
        Some(vec![file("compose.yaml", "v2")]),
    );
    let (run, action) = run.step(ConditionalReply::Stack(changed), 12);
    assert_eq!(action, ConditionalAction::RegisterUpdate(record(Operation::DeployStack)));
    assert!(!run.is_finished());
    let (run, action) = run.step(ConditionalReply::Id(text("update-77")), 13);
    let mut registered = record(Operation::DeployStack);
    registered.id = text("update-77");
    assert_eq!(
        action,
        ConditionalAction::Deploy {
            request: DeployStack { stack: text("stack-1-name"), services: vec![], stop_time: Some(15) },
            user: text("alice"),
            update: registered.clone(),
        }
    );
    assert!(run.is_finished());

    // The plain deploy takes over: it claims the stack and calls the agent.
    let (request, user, update) = match action {
        ConditionalAction::Deploy { request, user, update } => (request, user, update),
        _ => unreachable!(),
    };
    let mut states = ActionStates::new();
    let (execution, action) = request.resolve(user, update);
    assert_eq!(
        action,
        Action::ResolveStack {
            stack: text("stack-1-name"),
            user: text("alice"),
            level: PermissionLevel::Execute,
        }
    );
    let (execution, action) = execution.step(&mut states, Reply::Stack(stack("stack-1"), server()), 14);
    assert_eq!(action, Action::RecordUpdate(registered));
    assert!(execution.holds_claim());
    assert!(states.get(&text("stack-1")).deploying);
}

#[test]
fn never_deployed_stack_is_deployed() {
    let run = until_reload(record(Operation::DeployStack));
    let fresh = with_contents(None, Some(vec![file("compose.yaml", "v1")]));
    let (_, action) = run.step(ConditionalReply::Stack(fresh), 12);
    assert!(matches!(action, ConditionalAction::RegisterUpdate(_)));
}

#[test]
fn unknown_latest_contents_cancel_the_deploy() {
    let run = until_reload(record(Operation::DeployStack));
    let unknown = with_contents(Some(vec![file("compose.yaml", "v1")]), None);
    let (_, action) = run.step(ConditionalReply::Stack(unknown), 12);
    assert!(matches!(action, ConditionalAction::Finish(Ok(_))));
}

#[test]
fn conditional_permission_failure_ends_the_command() {
    let (run, _) = request().resolve(text("mallory"), record(Operation::DeployStack));
    let (run, action) = run.step(ConditionalReply::Failed(text("denied")), 10);
    assert_eq!(
        action,
        ConditionalAction::Finish(Err(CommandError::PermissionDenied { message: text("denied") }))
    );
    assert!(run.is_finished());
}

#[test]
fn failed_refresh_ends_the_command() {
    let (run, _) = request().resolve(text("alice"), record(Operation::DeployStack));
    let (run, _) = run.step(ConditionalReply::Stack(stack("stack-1")), 10);
    let (run, action) = run.step(ConditionalReply::Failed(text("agent offline")), 11);
    assert_eq!(
        action,
        ConditionalAction::Finish(Err(CommandError::CacheRefreshFailed {
            message: text("agent offline"),
        }))
    );
    assert!(run.is_finished());
}

#[test]
fn failed_reload_ends_the_command() {
    let run = until_reload(record(Operation::DeployStack));
    let (run, action) = run.step(ConditionalReply::Failed(text("gone")), 12);
    assert_eq!(
        action,
        ConditionalAction::Finish(Err(CommandError::ResourceUnavailable { message: text("gone") }))
    );
    assert!(run.is_finished());
}

#[test]
fn failed_registration_ends_the_command() {
    let run = until_reload(record(Operation::DeployStack));
    let changed = with_contents(None, None);
    let (run, _) = run.step(ConditionalReply::Stack(changed), 12);
    let (run, action) = run.step(ConditionalReply::Done, 13);
    assert_eq!(
        action,
        ConditionalAction::Finish(Err(CommandError::UpdateStoreFailed {
            message: text("unexpected reply"),
        }))
    );
    assert!(run.is_finished());
}
