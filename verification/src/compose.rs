//! What is asked of the remote agent and what it answers, and how the
//! answer to a deploy is folded into what is known of the stack.

use vstd::prelude::*;
use crate::entities::{
    FileContents, FileContentsView, Repo, RepoView, Stack, StackInfo, StackInfoView,
    StackServiceNames, StackServiceNamesView, StackView,
};
use crate::interpolate::{Replacer, ReplacerView};
use crate::update::{Log, LogView};

verus! {

/// The compose operation that the remote agent is asked to run.
#[derive(Clone, Copy, Debug, PartialEq, Eq, Structural)]
pub enum RemoteOperation {
    Up,
    Pull,
    Start,
    Restart,
    Pause,
    Unpause,
    Stop,
    Destroy,
}

/// One request to the remote agent.
#[derive(Debug, PartialEq, Eq)]
pub struct RemoteRequest {
    pub operation: RemoteOperation,
    /// The stack as it stands after rendering.
    pub stack: Stack,
    /// The services to act on; empty for all of them.
    pub services: Vec<String>,
    pub repo: Option<Repo>,
    pub git_token: Option<String>,
    pub registry_token: Option<String>,
    /// The secret replacements, for the agent to scrub what it reports.
    pub replacers: Vec<Replacer>,
    pub stop_time: Option<i32>,
    pub remove_orphans: bool,
}

/// Mathematical view of [`RemoteRequest`].
pub struct RemoteRequestView {
    pub operation: RemoteOperation,
    pub stack: StackView,
    pub services: Seq<Seq<char>>,
    pub repo: Option<RepoView>,
    pub git_token: Option<Seq<char>>,
    pub registry_token: Option<Seq<char>>,
    pub replacers: Seq<ReplacerView>,
    pub stop_time: Option<i32>,
    pub remove_orphans: bool,
}

impl DeepView for RemoteRequest {
    type V = RemoteRequestView;

    open spec fn deep_view(&self) -> RemoteRequestView {
        RemoteRequestView {
            operation: self.operation,
            stack: self.stack.deep_view(),
            services: self.services.deep_view(),
            repo: self.repo.deep_view(),
            git_token: self.git_token.deep_view(),
            registry_token: self.registry_token.deep_view(),
            replacers: self.replacers.deep_view(),
            stop_time: self.stop_time.deep_view(),
            remove_orphans: self.remove_orphans,
        }
    }
}

impl View for RemoteRequest {
    type V = RemoteRequestView;

    open spec fn view(&self) -> RemoteRequestView {
        self.deep_view()
    }
}

impl Clone for RemoteRequest {
    fn clone(&self) -> (res: Self)
        ensures
            res@ == self@,
    {
        let services = self.services.clone();
        assert(services.deep_view() =~= self.services.deep_view());
        let replacers = self.replacers.clone();
        assert(replacers.deep_view() =~= self.replacers.deep_view());
        RemoteRequest {
            operation: self.operation,
            stack: self.stack.clone(),
            services,
            repo: self.repo.clone(),
            git_token: self.git_token.clone(),
            registry_token: self.registry_token.clone(),
            replacers,
            stop_time: self.stop_time.clone(),
            remove_orphans: self.remove_orphans,
        }
    }
}

/// The answer of the remote agent.
#[derive(Debug, PartialEq, Eq)]
pub struct RemoteResponse {
    pub logs: Vec<Log>,
    /// Whether the stack was in fact deployed.
    pub deployed: bool,
    pub services: Vec<StackServiceNames>,
    pub file_contents: Vec<FileContents>,
    pub missing_files: Vec<String>,
    pub remote_errors: Vec<FileContents>,
    pub compose_config: Option<String>,
    pub commit_hash: Option<String>,
    pub commit_message: Option<String>,
}

/// Mathematical view of [`RemoteResponse`].
pub struct RemoteResponseView {
    pub logs: Seq<LogView>,
    pub deployed: bool,
    pub services: Seq<StackServiceNamesView>,
    pub file_contents: Seq<FileContentsView>,
    pub missing_files: Seq<Seq<char>>,
    pub remote_errors: Seq<FileContentsView>,
    pub compose_config: Option<Seq<char>>,
    pub commit_hash: Option<Seq<char>>,
    pub commit_message: Option<Seq<char>>,
}

impl DeepView for RemoteResponse {
    type V = RemoteResponseView;

    open spec fn deep_view(&self) -> RemoteResponseView {
        RemoteResponseView {
            logs: self.logs.deep_view(),
            deployed: self.deployed,
            services: self.services.deep_view(),
            file_contents: self.file_contents.deep_view(),
            missing_files: self.missing_files.deep_view(),
            remote_errors: self.remote_errors.deep_view(),
            compose_config: self.compose_config.deep_view(),
            commit_hash: self.commit_hash.deep_view(),
            commit_message: self.commit_message.deep_view(),
        }
    }
}

impl View for RemoteResponse {
    type V = RemoteResponseView;

    open spec fn view(&self) -> RemoteResponseView {
        self.deep_view()
    }
}

impl Clone for RemoteResponse {
    fn clone(&self) -> (res: Self)
        ensures
            res@ == self@,
    {
        let logs = self.logs.clone();
        assert(logs.deep_view() =~= self.logs.deep_view());
        let services = self.services.clone();
        assert(services.deep_view() =~= self.services.deep_view());
        let file_contents = self.file_contents.clone();
        assert(file_contents.deep_view() =~= self.file_contents.deep_view());
        let missing_files = self.missing_files.clone();
        assert(missing_files.deep_view() =~= self.missing_files.deep_view());
        let remote_errors = self.remote_errors.clone();
        assert(remote_errors.deep_view() =~= self.remote_errors.deep_view());
        RemoteResponse {
            logs,
            deployed: self.deployed,
            services,
            file_contents,
            missing_files,
            remote_errors,
            compose_config: self.compose_config.clone(),
            commit_hash: self.commit_hash.clone(),
            commit_message: self.commit_message.clone(),
        }
    }
}

/// What is known of the stack after a deploy was answered with `response`.
///
/// The deployed snapshot (services, contents, configuration, commit) is
/// taken from the answer only where the stack was in fact deployed, and is
/// kept as it was otherwise. The project name and everything that tells of
/// the latest state are taken from the answer either way. The remote
/// contents and errors are recorded only where the stack has no inline
/// compose file.
pub open spec fn spec_fold_deploy(stack: StackView, response: RemoteResponseView) -> StackInfoView {
    let latest_services = if response.services.len() == 0 {
        stack.info.latest_services
    } else {
        response.services
    };
    let remote = stack.config.file_contents.len() == 0;
    StackInfoView {
        missing_files: response.missing_files,
        deployed_project_name: Some(stack.project_name),
        deployed_services: if response.deployed {
            Some(latest_services)
        } else {
            stack.info.deployed_services
        },
        deployed_contents: if response.deployed {
            Some(response.file_contents)
        } else {
            stack.info.deployed_contents
        },
        deployed_config: if response.deployed {
            response.compose_config
        } else {
            stack.info.deployed_config
        },
        deployed_hash: if response.deployed {
            response.commit_hash
        } else {
            stack.info.deployed_hash
        },
        deployed_message: if response.deployed {
            response.commit_message
        } else {
            stack.info.deployed_message
        },
        latest_services,
        remote_contents: if remote {
            Some(response.file_contents)
        } else {
            None
        },
        remote_errors: if remote {
            Some(response.remote_errors)
        } else {
            None
        },
        latest_hash: response.commit_hash,
        latest_message: response.commit_message,
    }
}

/// Folds the answer to a deploy into what is known of the stack.
pub fn fold_deploy(stack: &Stack, response: &RemoteResponse) -> (info: StackInfo)
    ensures
        info@ == spec_fold_deploy(stack@, response@),
{
    let latest_services = if response.services.is_empty() {
        stack.info.latest_services.clone()
    } else {
        response.services.clone()
    };
    let remote = stack.config.file_contents.as_str().is_empty();
    let deployed_services = if response.deployed {
        Some(latest_services.clone())
    } else {
        stack.info.deployed_services.clone()
    };
    let deployed_contents = if response.deployed {
        Some(response.file_contents.clone())
    } else {
        stack.info.deployed_contents.clone()
    };
    let deployed_config = if response.deployed {
        response.compose_config.clone()
    } else {
        stack.info.deployed_config.clone()
    };
    let deployed_hash = if response.deployed {
        response.commit_hash.clone()
    } else {
        stack.info.deployed_hash.clone()
    };
    let deployed_message = if response.deployed {
        response.commit_message.clone()
    } else {
        stack.info.deployed_message.clone()
    };
    let remote_contents = if remote {
        Some(response.file_contents.clone())
    } else {
        None
    };
    let remote_errors = if remote {
        Some(response.remote_errors.clone())
    } else {
        None
    };
    let missing_files = response.missing_files.clone();
    proof {
        let want = spec_fold_deploy(stack@, response@);
        assert(latest_services.deep_view() =~= want.latest_services);
        assert(missing_files.deep_view() =~= want.missing_files);
        assert(deployed_services.deep_view() =~= want.deployed_services) by {
            if response.deployed {
                assert(deployed_services->0.deep_view() =~= latest_services.deep_view());
            } else if stack.info.deployed_services is Some {
                assert(deployed_services->0.deep_view()
                    =~= stack.info.deployed_services->0.deep_view());
            }
        }
        assert(deployed_contents.deep_view() =~= want.deployed_contents) by {
            if response.deployed {
                assert(deployed_contents->0.deep_view() =~= response.file_contents.deep_view());
            } else if stack.info.deployed_contents is Some {
                assert(deployed_contents->0.deep_view()
                    =~= stack.info.deployed_contents->0.deep_view());
            }
        }
        assert(remote_contents.deep_view() =~= want.remote_contents) by {
            if remote {
                assert(remote_contents->0.deep_view() =~= response.file_contents.deep_view());
            }
        }
        assert(remote_errors.deep_view() =~= want.remote_errors) by {
            if remote {
                assert(remote_errors->0.deep_view() =~= response.remote_errors.deep_view());
            }
        }
    }
    StackInfo {
        missing_files,
        deployed_project_name: Some(stack.project_name.clone()),
        deployed_services,
        deployed_contents,
        deployed_config,
        deployed_hash,
        deployed_message,
        latest_services,
        remote_contents,
        remote_errors,
        latest_hash: response.commit_hash.clone(),
        latest_message: response.commit_message.clone(),
    }
}

/// Where the agent reports that nothing was deployed, the deployed snapshot
/// stays as it was before the command.
pub proof fn lemma_snapshot_kept_unless_deployed(stack: StackView, response: RemoteResponseView)
    requires
        !response.deployed,
    ensures
        spec_fold_deploy(stack, response).deployed_services == stack.info.deployed_services,
        spec_fold_deploy(stack, response).deployed_contents == stack.info.deployed_contents,
        spec_fold_deploy(stack, response).deployed_config == stack.info.deployed_config,
        spec_fold_deploy(stack, response).deployed_hash == stack.info.deployed_hash,
        spec_fold_deploy(stack, response).deployed_message == stack.info.deployed_message,
{
}

/// What tells of the latest state is taken from the agent's answer whether
/// or not anything was deployed.
pub proof fn lemma_latest_always_refreshed(stack: StackView, response: RemoteResponseView)
    ensures
        spec_fold_deploy(stack, response).deployed_project_name == Some(stack.project_name),
        spec_fold_deploy(stack, response).missing_files == response.missing_files,
        spec_fold_deploy(stack, response).latest_hash == response.commit_hash,
        spec_fold_deploy(stack, response).latest_message == response.commit_message,
        response.services.len() > 0 ==> spec_fold_deploy(stack, response).latest_services
            == response.services,
        stack.config.file_contents.len() == 0 ==> spec_fold_deploy(stack, response).remote_contents
            == Some(response.file_contents) && spec_fold_deploy(stack, response).remote_errors
            == Some(response.remote_errors),
{
}

} // verus!
