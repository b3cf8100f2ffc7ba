use std::collections::HashMap;

use stack_exec::command::CommandError;
use stack_exec::compose::{fold_deploy, RemoteOperation, RemoteRequest, RemoteResponse};
use stack_exec::entities::{
    FileContents, Repo, RepoConfig, Server, Stack, StackConfig, StackInfo, StackServiceNames,
    SystemCommand,
};
use stack_exec::interpolate::Replacer;
use stack_exec::pipeline::{Advance, Pipeline};
use stack_exec::protocol::{Action, Reply};
use stack_exec::pull::{pull_stack_inner, PullAction, PullRun};
use stack_exec::update::{Log, Operation, Update, UpdateStatus};

fn text(s: &str) -> String {
    s.to_string()
}

fn file(path: &str, contents: &str) -> FileContents {
    FileContents { path: text(path), contents: text(contents) }
}

fn service(name: &str) -> StackServiceNames {
    StackServiceNames {
        service_name: text(name),
        container_name: format!("web-{name}-1"),
        image: format!("registry/{name}:1"),
    }
}

fn shell(command: &str) -> SystemCommand {
    SystemCommand { path: String::new(), command: text(command) }
}

fn info() -> StackInfo {
    StackInfo {
        missing_files: vec![],
        deployed_project_name: Some(text("old-web")),
        deployed_services: Some(vec![service("old")]),
        deployed_contents: Some(vec![file("compose.yaml", "v1")]),
        deployed_config: Some(text("old config")),
        deployed_hash: Some(text("aaa111")),
        deployed_message: Some(text("first")),
        latest_services: vec![service("old")],
        remote_contents: Some(vec![file("compose.yaml", "v1")]),
        remote_errors: None,
        latest_hash: Some(text("aaa111")),
        latest_message: Some(text("first")),
    }
}

fn stack(id: &str) -> Stack {
    Stack {
        id: text(id),
        name: format!("{id}-name"),
        project_name: text("web"),
        config: StackConfig {
            server_id: text("server-1"),
            files_on_host: false,
            linked_repo: String::new(),
            skip_secret_interp: false,
            registry_provider: text("ghcr.io"),
            registry_account: text("ops"),
            file_contents: String::new(),
            environment: text("DB_PASSWORD=[[DB_PASSWORD]]\nMODE=[[MODE]]"),
            pre_deploy: shell(""),
            post_deploy: shell(""),
            extra_args: vec![],
            build_extra_args: vec![],
        },
        info: info(),
    }
}

fn server() -> Server {
    Server { id: text("server-1"), name: text("edge") }
}

fn repo() -> Repo {
    Repo {
        id: text("repo-1"),
        name: text("source"),
        config: RepoConfig {
            skip_secret_interp: false,
            environment: text("TOKEN=[[REPO_TOKEN]]"),
            on_clone: shell(""),
            on_pull: shell(""),
        },
    }
}

fn map(pairs: &[(&str, &str)]) -> HashMap<String, String> {
    pairs.iter().map(|(k, v)| (k.to_string(), v.to_string())).collect()
}

fn response(deployed: bool) -> RemoteResponse {
    RemoteResponse {
        logs: vec![Log::simple("Compose Up", text("done"), 50)],
        deployed,
        services: vec![service("web"), service("db")],
        file_contents: vec![file("compose.yaml", "v2")],
        missing_files: vec![text("override.yaml")],
        remote_errors: vec![file("broken.yaml", "cannot read")],
        compose_config: Some(text("new config")),
        commit_hash: Some(text("bbb222")),
        commit_message: Some(text("second")),
    }
}

fn record(operation: Operation) -> Update {
    let mut update = Update::new(operation, text("stack-1"), text("alice"), 1);
    update.id = text("update-1");
    update.status = UpdateStatus::InProgress;
    update
}

fn secrets_reply() -> Reply {
    Reply::Secrets(map(&[("MODE", "production")]), map(&[("DB_PASSWORD", "hunter2")]))
}

fn work(action: PullAction) -> Action {
    match action {
        PullAction::Work(action) => action,
        other => panic!("expected work, got {other:?}"),
    }
}

fn until_remote(run: PullRun) -> (PullRun, RemoteRequest) {
    let (run, action) = run.step(Reply::Token(Some(text("git-token"))), 2);
    assert_eq!(work(action), Action::RegistryToken { provider: text("ghcr.io"), account: text("ops") });
    let (run, action) = run.step(Reply::Token(Some(text("registry-token"))), 3);
    assert_eq!(work(action), Action::VariablesAndSecrets);
    let (run, action) = run.step(secrets_reply(), 4);
    match work(action) {
        Action::Remote { server: target, request } => {
            assert_eq!(target, server());
            (run, request)
        },
        other => panic!("expected the remote call, got {other:?}"),
    }
}

#[test]
fn pull_runs_from_credentials_to_refresh() {
    let (run, action) = pull_stack_inner(
        stack("stack-1"),
        vec![text("web")],
        &server(),
        Some(repo()),
        Some(record(Operation::PullStack)),
        1,
    );
    assert_eq!(work(action), Action::GitToken { stack: text("stack-1"), linked_repo: Some(text("repo-1")) });
    let (run, request) = until_remote(run);
    let mut rendered = stack("stack-1");
    rendered.config.environment = text("DB_PASSWORD=hunter2\nMODE=production");
    assert_eq!(request.operation, RemoteOperation::Pull);
    assert_eq!(request.stack, rendered);
    assert_eq!(request.services, vec![text("web")]);
    assert_eq!(request.git_token, Some(text("git-token")));
    assert_eq!(request.registry_token, Some(text("registry-token")));
    assert_eq!(request.replacers, vec![Replacer { value: text("hunter2"), name: text("DB_PASSWORD") }]);
    assert_eq!(request.stop_time, None);
    assert!(!request.remove_orphans);
    assert_eq!(request.repo.unwrap().config.environment, "TOKEN=[[REPO_TOKEN]]");

    let (run, action) = run.step(Reply::Remote(response(false)), 5);
    assert_eq!(work(action), Action::RefreshCache { server: server() });
    assert!(!run.is_finished());
    let (run, action) = run.step(Reply::Done, 6);
    match action {
        PullAction::Finish { outcome, update } => {
            assert_eq!(outcome, Ok(response(false)));
            let update = update.unwrap();
            assert_eq!(update.status, UpdateStatus::InProgress);
            assert_eq!(
                update.logs,
                vec![
                    Log::simple("Service/s", text("Execution requested for Stack service/s web"), 1),
                    Log::simple("Interpolate Variables", text("MODE => production"), 4),
                    Log::simple("Interpolate Secrets", text("replaced: DB_PASSWORD"), 4),
                ]
            );
        },
        other => panic!("expected the end, got {other:?}"),
    }
    assert!(run.is_finished());
    let (run, action) = run.step(Reply::Done, 7);
    assert!(matches!(action, PullAction::Idle));
    assert!(run.is_finished());
}

#[test]
fn pull_without_a_record_writes_none() {
    let (run, _) = pull_stack_inner(stack("stack-1"), vec![text("web")], &server(), None, None, 1);
    let (run, _) = until_remote(run);
    let (run, _) = run.step(Reply::Remote(response(false)), 5);
    let (_, action) = run.step(Reply::Failed(text("cache offline")), 6);
    match action {
        PullAction::Finish { outcome, update } => {
            assert_eq!(outcome, Ok(response(false)));
            assert_eq!(update, None);
        },
        other => panic!("expected the end, got {other:?}"),
    }
}

#[test]
fn pull_fails_without_credentials() {
    let (run, _) =
        pull_stack_inner(stack("stack-1"), vec![], &server(), None, Some(record(Operation::PullStack)), 1);
    let (run, action) = run.step(Reply::Failed(text("no git account")), 2);
    match action {
        PullAction::Finish { outcome, update } => {
            assert_eq!(
                outcome,
                Err(CommandError::CredentialRetrievalFailed { message: text("no git account") })
            );
            assert_eq!(update, Some(record(Operation::PullStack)));
        },
        other => panic!("expected the end, got {other:?}"),
    }
    assert!(run.is_finished());
}

#[test]
fn pull_fails_when_the_agent_does_not_answer() {
    let (run, _) = pull_stack_inner(stack("stack-1"), vec![], &server(), None, None, 1);
    let (run, _) = until_remote(run);
    let (run, action) = run.step(Reply::Failed(text("timeout")), 5);
    match action {
        PullAction::Finish { outcome, update } => {
            assert_eq!(outcome, Err(CommandError::RemoteAgentError { message: text("timeout") }));
            assert_eq!(update, None);
        },
        other => panic!("expected the end, got {other:?}"),
    }
    assert!(run.is_finished());
}

#[test]
fn pipeline_steps_can_be_driven_directly() {
    let mut logs: Vec<Log> = vec![];
    let mut plain = stack("stack-1");
    plain.config.skip_secret_interp = true;
    let (pipeline, action) = Pipeline::begin(
        RemoteOperation::Stop,
        plain.clone(),
        server(),
        None,
        vec![],
        Some(9),
        false,
        &mut logs,
        1,
    );
    assert_eq!(action, Action::GitToken { stack: text("stack-1"), linked_repo: None });
    assert!(logs.is_empty());
    let pipeline = match pipeline.step(&mut logs, Reply::Token(None), 2) {
        Advance::Ask(pipeline, Action::RegistryToken { .. }) => pipeline,
        other => panic!("expected the registry token to be asked for, got {other:?}"),
    };
    let pipeline = match pipeline.step(&mut logs, Reply::Token(None), 3) {
        Advance::Ask(pipeline, Action::Remote { request, .. }) => {
            assert_eq!(request.operation, RemoteOperation::Stop);
            assert_eq!(request.stack, plain);
            assert_eq!(request.stop_time, Some(9));
            assert!(request.replacers.is_empty());
            pipeline
        },
        other => panic!("expected the remote call, got {other:?}"),
    };
    match pipeline.step(&mut logs, Reply::Remote(response(false)), 4) {
        Advance::Answered { stack, server: target, response: answer } => {
            assert_eq!(stack, plain);
            assert_eq!(target, server());
            assert_eq!(answer, response(false));
        },
        other => panic!("expected the answer, got {other:?}"),
    }
    assert!(logs.is_empty());
}

#[test]
fn undeployed_answer_keeps_the_deployed_snapshot() {
    let before = stack("stack-1");
    let info = fold_deploy(&before, &response(false));
    assert_eq!(info.deployed_services, before.info.deployed_services);
    assert_eq!(info.deployed_contents, before.info.deployed_contents);
    assert_eq!(info.deployed_config, before.info.deployed_config);
    assert_eq!(info.deployed_hash, before.info.deployed_hash);
    assert_eq!(info.deployed_message, before.info.deployed_message);
    // What tells of the latest state is refreshed all the same.
    assert_eq!(info.deployed_project_name, Some(text("web")));
    assert_eq!(info.missing_files, vec![text("override.yaml")]);
    assert_eq!(info.latest_services, vec![service("web"), service("db")]);
    assert_eq!(info.remote_contents, Some(vec![file("compose.yaml", "v2")]));
    assert_eq!(info.remote_errors, Some(vec![file("broken.yaml", "cannot read")]));
    assert_eq!(info.latest_hash, Some(text("bbb222")));
    assert_eq!(info.latest_message, Some(text("second")));
}

#[test]
fn deployed_answer_is_adopted_as_the_snapshot() {
    let before = stack("stack-1");
    let info = fold_deploy(&before, &response(true));
    assert_eq!(
        info,
        StackInfo {
            missing_files: vec![text("override.yaml")],
            deployed_project_name: Some(text("web")),
            deployed_services: Some(vec![service("web"), service("db")]),
            deployed_contents: Some(vec![file("compose.yaml", "v2")]),
            deployed_config: Some(text("new config")),
            deployed_hash: Some(text("bbb222")),
            deployed_message: Some(text("second")),
            latest_services: vec![service("web"), service("db")],
            remote_contents: Some(vec![file("compose.yaml", "v2")]),
            remote_errors: Some(vec![file("broken.yaml", "cannot read")]),
            latest_hash: Some(text("bbb222")),
            latest_message: Some(text("second")),
        }
    );
}

#[test]
fn answer_without_services_keeps_the_latest_services() {
    let before = stack("stack-1");
    let mut answer = response(true);
    answer.services = vec![];
    let info = fold_deploy(&before, &answer);
    assert_eq!(info.latest_services, vec![service("old")]);
    assert_eq!(info.deployed_services, Some(vec![service("old")]));
}

#[test]
fn inline_compose_file_records_no_remote_contents() {
    let mut before = stack("stack-1");
    before.config.file_contents = text("services: {}");
    let info = fold_deploy(&before, &response(true));
    assert_eq!(info.remote_contents, None);
    assert_eq!(info.remote_errors, None);
    assert_eq!(info.deployed_contents, Some(vec![file("compose.yaml", "v2")]));
}
