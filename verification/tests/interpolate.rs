use std::collections::HashMap;

use stack_exec::entities::{
    Repo, RepoConfig, Stack, StackConfig, StackInfo, SystemCommand,
};
use stack_exec::interpolate::{Interpolator, Replacer};
use stack_exec::update::Log;

fn map(pairs: &[(&str, &str)]) -> HashMap<String, String> {
    pairs.iter().map(|(k, v)| (k.to_string(), v.to_string())).collect()
}

fn replacer(value: &str, name: &str) -> Replacer {
    Replacer { value: value.to_string(), name: name.to_string() }
}

fn sorted(mut replacers: Vec<Replacer>) -> Vec<(String, String)> {
    let mut pairs: Vec<(String, String)> =
        replacers.drain(..).map(|r| (r.value, r.name)).collect();
    pairs.sort();
    pairs
}

fn command(text: &str) -> SystemCommand {
    SystemCommand { path: String::new(), command: text.to_string() }
}

fn info() -> StackInfo {
    StackInfo {
        missing_files: vec![],
        deployed_project_name: None,
        deployed_services: None,
        deployed_contents: None,
        deployed_config: None,
        deployed_hash: None,
        deployed_message: None,
        latest_services: vec![],
        remote_contents: None,
        remote_errors: None,
        latest_hash: None,
        latest_message: None,
    }
}

fn stack() -> Stack {
    Stack {
        id: "stack-1".to_string(),
        name: "web".to_string(),
        project_name: "web".to_string(),
        config: StackConfig {
            server_id: "server-1".to_string(),
            files_on_host: false,
            linked_repo: String::new(),
            skip_secret_interp: false,
            registry_provider: "ghcr.io".to_string(),
            registry_account: "ops".to_string(),
            file_contents: "image: app:[[TAG]]".to_string(),
            environment: "DB_PASSWORD=[[DB_PASSWORD]]\nMODE=[[MODE]]".to_string(),
            pre_deploy: command("echo [[MODE]]"),
            post_deploy: command(""),
            extra_args: vec!["--token=[[API_TOKEN]]".to_string(), "--quiet".to_string()],
            build_extra_args: vec!["--build-arg=KEY=[[API_TOKEN]]".to_string()],
        },
        info: info(),
    }
}

fn repo() -> Repo {
    Repo {
        id: "repo-1".to_string(),
        name: "source".to_string(),
        config: RepoConfig {
            skip_secret_interp: false,
            environment: "TOKEN=[[REPO_TOKEN]]".to_string(),
            on_clone: command("make [[MODE]]"),
            on_pull: command("true"),
        },
    }
}

#[test]
fn secret_is_rendered_and_listed() {
    let secrets = map(&[("DB_PASSWORD", "hunter2")]);
    let mut interpolator = Interpolator::new(None, &secrets);
    let mut target = "postgres://app:[[DB_PASSWORD]]@db".to_string();
    interpolator.interpolate_string(&mut target).unwrap();
    assert_eq!(target, "postgres://app:hunter2@db");
    assert!(!target.contains("[[DB_PASSWORD]]"));
    assert_eq!(interpolator.secret_replacers, vec![replacer("hunter2", "DB_PASSWORD")]);
}

#[test]
fn variables_are_rendered_before_secrets_and_not_listed_as_secrets() {
    let variables = map(&[("HOST", "db.internal"), ("WRAPPED", "[[DB_PASSWORD]]")]);
    let secrets = map(&[("DB_PASSWORD", "hunter2")]);
    let mut interpolator = Interpolator::new(Some(&variables), &secrets);
    let mut target = "[[HOST]] [[WRAPPED]]".to_string();
    interpolator.interpolate_string(&mut target).unwrap();
    assert_eq!(target, "db.internal hunter2");
    assert_eq!(interpolator.secret_replacers, vec![replacer("hunter2", "DB_PASSWORD")]);
    let mut logs: Vec<Log> = vec![];
    interpolator.push_logs(&mut logs, 7);
    assert_eq!(logs.len(), 2);
    assert_eq!(logs[0].stage, "Interpolate Variables");
    let mut lines: Vec<&str> = logs[0].stdout.split('\n').collect();
    lines.sort();
    assert_eq!(lines, vec!["HOST => db.internal", "WRAPPED => [[DB_PASSWORD]]"]);
    assert_eq!(logs[1].stage, "Interpolate Secrets");
    assert_eq!(logs[1].stdout, "replaced: DB_PASSWORD");
    assert!(!logs[1].stdout.contains("hunter2"));
    assert!(logs[0].success && logs[1].success);
    assert_eq!((logs[0].start_ts, logs[0].end_ts), (7, 7));
}

#[test]
fn unknown_reference_is_left_in_place() {
    let secrets = map(&[("KNOWN", "v")]);
    let mut interpolator = Interpolator::new(None, &secrets);
    let mut target = "[[KNOWN]] and [[UNKNOWN]]".to_string();
    interpolator.interpolate_string(&mut target).unwrap();
    assert_eq!(target, "v and [[UNKNOWN]]");
    assert_eq!(interpolator.secret_replacers, vec![replacer("v", "KNOWN")]);
}

#[test]
fn escaped_reference_is_not_rendered() {
    let secrets = map(&[("KEY", "v")]);
    let mut interpolator = Interpolator::new(None, &secrets);
    let mut target = "[[[KEY]]]".to_string();
    interpolator.interpolate_string(&mut target).unwrap();
    assert_eq!(target, "[[KEY]]");
    assert!(interpolator.secret_replacers.is_empty());
}

#[test]
fn text_without_references_is_unchanged() {
    let variables = map(&[("A", "1")]);
    let secrets = map(&[("B", "2")]);
    let mut interpolator = Interpolator::new(Some(&variables), &secrets);
    let mut target = "plain text".to_string();
    interpolator.interpolate_string(&mut target).unwrap();
    assert_eq!(target, "plain text");
    assert!(interpolator.secret_replacers.is_empty());
    let mut logs: Vec<Log> = vec![];
    interpolator.push_logs(&mut logs, 0);
    assert!(logs.is_empty());
}

#[test]
fn empty_text_stays_empty() {
    let secrets = map(&[("B", "2")]);
    let mut interpolator = Interpolator::new(None, &secrets);
    let mut target = String::new();
    assert!(interpolator.interpolate_string(&mut target).is_ok());
    assert_eq!(target, "");
    assert!(interpolator.secret_replacers.is_empty());
}

#[test]
fn unclosed_reference_is_refused_and_nothing_changes() {
    let secrets = map(&[("KEY", "v")]);
    let mut interpolator = Interpolator::new(None, &secrets);
    let mut first = "[[KEY]]".to_string();
    interpolator.interpolate_string(&mut first).unwrap();
    let mut target = "broken [[KEY".to_string();
    let refused = interpolator.interpolate_string(&mut target).unwrap_err();
    assert_eq!(refused.message, "no closing tags for variable at index 0");
    assert_eq!(target, "broken [[KEY");
    assert_eq!(interpolator.secret_replacers, vec![replacer("v", "KEY")]);
}

#[test]
fn same_secret_is_listed_once() {
    let secrets = map(&[("KEY", "v")]);
    let mut interpolator = Interpolator::new(None, &secrets);
    let mut first = "[[KEY]] [[KEY]]".to_string();
    let mut second = "again [[KEY]]".to_string();
    interpolator.interpolate_string(&mut first).unwrap();
    interpolator.interpolate_string(&mut second).unwrap();
    assert_eq!(first, "v v");
    assert_eq!(second, "again v");
    assert_eq!(interpolator.secret_replacers, vec![replacer("v", "KEY")]);
}

#[test]
fn earlier_replacers_stay_first() {
    let secrets = map(&[("A", "1"), ("B", "2"), ("C", "3")]);
    let mut interpolator = Interpolator::new(None, &secrets);
    let mut first = "[[B]]".to_string();
    let mut second = "[[A]] [[B]] [[C]]".to_string();
    interpolator.interpolate_string(&mut first).unwrap();
    interpolator.interpolate_string(&mut second).unwrap();
    assert_eq!(second, "1 2 3");
    assert_eq!(interpolator.secret_replacers[0], replacer("2", "B"));
    assert_eq!(
        sorted(interpolator.into_secret_replacers()),
        vec![
            ("1".to_string(), "A".to_string()),
            ("2".to_string(), "B".to_string()),
            ("3".to_string(), "C".to_string()),
        ]
    );
}

#[test]
fn interpolate_all_renders_each_text() {
    let secrets = map(&[("A", "1"), ("B", "2")]);
    let mut interpolator = Interpolator::new(None, &secrets);
    let mut texts = vec!["[[A]]".to_string(), String::new(), "x[[B]]y".to_string()];
    interpolator.interpolate_all(&mut texts).unwrap();
    assert_eq!(texts, vec!["1".to_string(), String::new(), "x2y".to_string()]);
    assert_eq!(
        sorted(interpolator.into_secret_replacers()),
        vec![("1".to_string(), "A".to_string()), ("2".to_string(), "B".to_string())]
    );
}

#[test]
fn interpolate_all_is_all_or_nothing() {
    let secrets = map(&[("A", "1"), ("B", "2")]);
    let mut interpolator = Interpolator::new(None, &secrets);
    let mut texts = vec!["[[A]]".to_string(), "[[B".to_string(), "[[B]]".to_string()];
    assert!(interpolator.interpolate_all(&mut texts).is_err());
    assert_eq!(texts, vec!["[[A]]".to_string(), "[[B".to_string(), "[[B]]".to_string()]);
    assert!(interpolator.secret_replacers.is_empty());
}

#[test]
fn stack_texts_are_rendered_in_place() {
    let variables = map(&[("MODE", "production"), ("TAG", "1.2.3")]);
    let secrets = map(&[("DB_PASSWORD", "hunter2"), ("API_TOKEN", "t0k3n")]);
    let mut interpolator = Interpolator::new(Some(&variables), &secrets);
    let mut stack = stack();
    interpolator.interpolate_stack(&mut stack).unwrap();
    assert_eq!(stack.config.file_contents, "image: app:1.2.3");
    assert_eq!(stack.config.environment, "DB_PASSWORD=hunter2\nMODE=production");
    assert_eq!(stack.config.pre_deploy.command, "echo production");
    assert_eq!(stack.config.post_deploy.command, "");
    assert_eq!(stack.config.extra_args, vec!["--token=t0k3n".to_string(), "--quiet".to_string()]);
    assert_eq!(stack.config.build_extra_args, vec!["--build-arg=KEY=t0k3n".to_string()]);
    assert_eq!(stack.config.registry_provider, "ghcr.io");
    assert_eq!(stack.id, "stack-1");
    assert_eq!(
        sorted(interpolator.into_secret_replacers()),
        vec![
            ("hunter2".to_string(), "DB_PASSWORD".to_string()),
            ("t0k3n".to_string(), "API_TOKEN".to_string()),
        ]
    );
}

#[test]
fn stack_that_opts_out_is_left_alone() {
    let secrets = map(&[("DB_PASSWORD", "hunter2"), ("API_TOKEN", "t0k3n")]);
    let mut interpolator = Interpolator::new(None, &secrets);
    let mut stack = stack();
    stack.config.skip_secret_interp = true;
    let before = stack.clone();
    interpolator.interpolate_stack(&mut stack).unwrap();
    assert_eq!(stack, before);
    assert!(interpolator.secret_replacers.is_empty());
}

#[test]
fn refused_stack_is_left_alone() {
    let secrets = map(&[("DB_PASSWORD", "hunter2"), ("API_TOKEN", "t0k3n")]);
    let mut interpolator = Interpolator::new(None, &secrets);
    let mut stack = stack();
    stack.config.build_extra_args = vec!["[[UNCLOSED".to_string()];
    let before = stack.clone();
    assert!(interpolator.interpolate_stack(&mut stack).is_err());
    assert_eq!(stack, before);
    assert!(interpolator.secret_replacers.is_empty());
}

#[test]
fn repo_texts_are_rendered_in_place() {
    let variables = map(&[("MODE", "release")]);
    let secrets = map(&[("REPO_TOKEN", "s3cr3t")]);
    let mut interpolator = Interpolator::new(Some(&variables), &secrets);
    let mut repo = repo();
    interpolator.interpolate_repo(&mut repo).unwrap();
    assert_eq!(repo.config.environment, "TOKEN=s3cr3t");
    assert_eq!(repo.config.on_clone.command, "make release");
    assert_eq!(repo.config.on_pull.command, "true");
    assert_eq!(interpolator.secret_replacers, vec![replacer("s3cr3t", "REPO_TOKEN")]);
}

#[test]
fn repo_that_opts_out_is_left_alone() {
    let secrets = map(&[("REPO_TOKEN", "s3cr3t")]);
    let mut interpolator = Interpolator::new(None, &secrets);
    let mut repo = repo();
    repo.config.skip_secret_interp = true;
    let before = repo.clone();
    interpolator.interpolate_repo(&mut repo).unwrap();
    assert_eq!(repo, before);
    assert!(interpolator.secret_replacers.is_empty());
}
