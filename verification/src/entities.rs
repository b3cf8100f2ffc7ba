//! Plain data carried through the execution core, each with its
//! mathematical view.
//!
//! Every record here is a snapshot: handlers read it, change their own copy
//! and hand the result on. The views replace strings by sequences of
//! characters and vectors by sequences, so that contracts can speak of
//! contents rather than of allocations.

use vstd::prelude::*;

verus! {

/// The contents of one file, keyed by its path.
#[derive(Debug, PartialEq, Eq)]
pub struct FileContents {
    pub path: String,
    pub contents: String,
}

/// Mathematical view of [`FileContents`].
pub struct FileContentsView {
    pub path: Seq<char>,
    pub contents: Seq<char>,
}

impl DeepView for FileContents {
    type V = FileContentsView;

    open spec fn deep_view(&self) -> FileContentsView {
        FileContentsView {
            path: self.path@,
            contents: self.contents@,
        }
    }
}

impl View for FileContents {
    type V = FileContentsView;

    open spec fn view(&self) -> FileContentsView {
        self.deep_view()
    }
}

impl Clone for FileContents {
    fn clone(&self) -> (res: Self)
        ensures
            res@ == self@,
    {
        FileContents {
            path: self.path.clone(),
            contents: self.contents.clone(),
        }
    }
}

/// The names under which one service of a stack runs.
#[derive(Debug, PartialEq, Eq)]
pub struct StackServiceNames {
    pub service_name: String,
    pub container_name: String,
    pub image: String,
}

/// Mathematical view of [`StackServiceNames`].
pub struct StackServiceNamesView {
    pub service_name: Seq<char>,
    pub container_name: Seq<char>,
    pub image: Seq<char>,
}

impl DeepView for StackServiceNames {
    type V = StackServiceNamesView;

    open spec fn deep_view(&self) -> StackServiceNamesView {
        StackServiceNamesView {
            service_name: self.service_name@,
            container_name: self.container_name@,
            image: self.image@,
        }
    }
}

impl View for StackServiceNames {
    type V = StackServiceNamesView;

    open spec fn view(&self) -> StackServiceNamesView {
        self.deep_view()
    }
}

impl Clone for StackServiceNames {
    fn clone(&self) -> (res: Self)
        ensures
            res@ == self@,
    {
        StackServiceNames {
            service_name: self.service_name.clone(),
            container_name: self.container_name.clone(),
            image: self.image.clone(),
        }
    }
}

/// A shell command and the directory it runs in.
#[derive(Debug, PartialEq, Eq)]
pub struct SystemCommand {
    pub path: String,
    pub command: String,
}

/// Mathematical view of [`SystemCommand`].
pub struct SystemCommandView {
    pub path: Seq<char>,
    pub command: Seq<char>,
}

impl DeepView for SystemCommand {
    type V = SystemCommandView;

    open spec fn deep_view(&self) -> SystemCommandView {
        SystemCommandView {
            path: self.path@,
            command: self.command@,
        }
    }
}

impl View for SystemCommand {
    type V = SystemCommandView;

    open spec fn view(&self) -> SystemCommandView {
        self.deep_view()
    }
}

impl Clone for SystemCommand {
    fn clone(&self) -> (res: Self)
        ensures
            res@ == self@,
    {
        SystemCommand {
            path: self.path.clone(),
            command: self.command.clone(),
        }
    }
}

/// The part of a stack's configuration that the execution core reads or renders.
#[derive(Debug, PartialEq, Eq)]
pub struct StackConfig {
    /// The host the stack is bound to.
    pub server_id: String,
    /// The files already live on the host and are not fetched through a repo.
    pub files_on_host: bool,
    /// Name or id of the linked repo; empty when there is none.
    pub linked_repo: String,
    /// Leave variable and secret references as they are.
    pub skip_secret_interp: bool,
    pub registry_provider: String,
    pub registry_account: String,
    /// Inline compose file; empty when the files come from elsewhere.
    pub file_contents: String,
    pub environment: String,
    pub pre_deploy: SystemCommand,
    pub post_deploy: SystemCommand,
    pub extra_args: Vec<String>,
    pub build_extra_args: Vec<String>,
}

/// Mathematical view of [`StackConfig`].
pub struct StackConfigView {
    pub server_id: Seq<char>,
    pub files_on_host: bool,
    pub linked_repo: Seq<char>,
    pub skip_secret_interp: bool,
    pub registry_provider: Seq<char>,
    pub registry_account: Seq<char>,
    pub file_contents: Seq<char>,
    pub environment: Seq<char>,
    pub pre_deploy: SystemCommandView,
    pub post_deploy: SystemCommandView,
    pub extra_args: Seq<Seq<char>>,
    pub build_extra_args: Seq<Seq<char>>,
}

impl DeepView for StackConfig {
    type V = StackConfigView;

    open spec fn deep_view(&self) -> StackConfigView {
        StackConfigView {
            server_id: self.server_id@,
            files_on_host: self.files_on_host,
            linked_repo: self.linked_repo@,
            skip_secret_interp: self.skip_secret_interp,
            registry_provider: self.registry_provider@,
            registry_account: self.registry_account@,
            file_contents: self.file_contents@,
            environment: self.environment@,
            pre_deploy: self.pre_deploy.deep_view(),
            post_deploy: self.post_deploy.deep_view(),
            extra_args: self.extra_args.deep_view(),
            build_extra_args: self.build_extra_args.deep_view(),
        }
    }
}

impl View for StackConfig {
    type V = StackConfigView;

    open spec fn view(&self) -> StackConfigView {
        self.deep_view()
    }
}

impl Clone for StackConfig {
    fn clone(&self) -> (res: Self)
        ensures
            res@ == self@,
    {
        let extra_args = self.extra_args.clone();
        assert(extra_args.deep_view() =~= self.extra_args.deep_view());
        let build_extra_args = self.build_extra_args.clone();
        assert(build_extra_args.deep_view() =~= self.build_extra_args.deep_view());
        StackConfig {
            server_id: self.server_id.clone(),
            files_on_host: self.files_on_host,
            linked_repo: self.linked_repo.clone(),
            skip_secret_interp: self.skip_secret_interp,
            registry_provider: self.registry_provider.clone(),
            registry_account: self.registry_account.clone(),
            file_contents: self.file_contents.clone(),
            environment: self.environment.clone(),
            pre_deploy: self.pre_deploy.clone(),
            post_deploy: self.post_deploy.clone(),
            extra_args,
            build_extra_args,
        }
    }
}

/// What is known of a stack's deployed and latest state.
#[derive(Debug, PartialEq, Eq)]
pub struct StackInfo {
    pub missing_files: Vec<String>,
    pub deployed_project_name: Option<String>,
    pub deployed_services: Option<Vec<StackServiceNames>>,
    pub deployed_contents: Option<Vec<FileContents>>,
    pub deployed_config: Option<String>,
    pub deployed_hash: Option<String>,
    pub deployed_message: Option<String>,
    pub latest_services: Vec<StackServiceNames>,
    pub remote_contents: Option<Vec<FileContents>>,
    pub remote_errors: Option<Vec<FileContents>>,
    pub latest_hash: Option<String>,
    pub latest_message: Option<String>,
}

/// Mathematical view of [`StackInfo`].
pub struct StackInfoView {
    pub missing_files: Seq<Seq<char>>,
    pub deployed_project_name: Option<Seq<char>>,
    pub deployed_services: Option<Seq<StackServiceNamesView>>,
    pub deployed_contents: Option<Seq<FileContentsView>>,
    pub deployed_config: Option<Seq<char>>,
    pub deployed_hash: Option<Seq<char>>,
    pub deployed_message: Option<Seq<char>>,
    pub latest_services: Seq<StackServiceNamesView>,
    pub remote_contents: Option<Seq<FileContentsView>>,
    pub remote_errors: Option<Seq<FileContentsView>>,
    pub latest_hash: Option<Seq<char>>,
    pub latest_message: Option<Seq<char>>,
}

impl DeepView for StackInfo {
    type V = StackInfoView;

    open spec fn deep_view(&self) -> StackInfoView {
        StackInfoView {
            missing_files: self.missing_files.deep_view(),
            deployed_project_name: self.deployed_project_name.deep_view(),
            deployed_services: self.deployed_services.deep_view(),
            deployed_contents: self.deployed_contents.deep_view(),
            deployed_config: self.deployed_config.deep_view(),
            deployed_hash: self.deployed_hash.deep_view(),
            deployed_message: self.deployed_message.deep_view(),
            latest_services: self.latest_services.deep_view(),
            remote_contents: self.remote_contents.deep_view(),
            remote_errors: self.remote_errors.deep_view(),
            latest_hash: self.latest_hash.deep_view(),
            latest_message: self.latest_message.deep_view(),
        }
    }
}

impl View for StackInfo {
    type V = StackInfoView;

    open spec fn view(&self) -> StackInfoView {
        self.deep_view()
    }
}

impl Clone for StackInfo {
    fn clone(&self) -> (res: Self)
        ensures
            res@ == self@,
    {
        let missing_files = self.missing_files.clone();
        assert(missing_files.deep_view() =~= self.missing_files.deep_view());
        let deployed_services = self.deployed_services.clone();
        assert(deployed_services.deep_view() =~= self.deployed_services.deep_view()) by {
            if self.deployed_services is Some {
                assert(deployed_services->0.deep_view() =~= self.deployed_services->0.deep_view());
            }
        }
        let deployed_contents = self.deployed_contents.clone();
        assert(deployed_contents.deep_view() =~= self.deployed_contents.deep_view()) by {
            if self.deployed_contents is Some {
                assert(deployed_contents->0.deep_view() =~= self.deployed_contents->0.deep_view());
            }
        }
        let latest_services = self.latest_services.clone();
        assert(latest_services.deep_view() =~= self.latest_services.deep_view());
        let remote_contents = self.remote_contents.clone();
        assert(remote_contents.deep_view() =~= self.remote_contents.deep_view()) by {
            if self.remote_contents is Some {
                assert(remote_contents->0.deep_view() =~= self.remote_contents->0.deep_view());
            }
        }
        let remote_errors = self.remote_errors.clone();
        assert(remote_errors.deep_view() =~= self.remote_errors.deep_view()) by {
            if self.remote_errors is Some {
                assert(remote_errors->0.deep_view() =~= self.remote_errors->0.deep_view());
            }
        }
        StackInfo {
            missing_files,
            deployed_project_name: self.deployed_project_name.clone(),
            deployed_services,
            deployed_contents,
            deployed_config: self.deployed_config.clone(),
            deployed_hash: self.deployed_hash.clone(),
            deployed_message: self.deployed_message.clone(),
            latest_services,
            remote_contents,
            remote_errors,
            latest_hash: self.latest_hash.clone(),
            latest_message: self.latest_message.clone(),
        }
    }
}

/// A snapshot of a stack.
#[derive(Debug, PartialEq, Eq)]
pub struct Stack {
    pub id: String,
    pub name: String,
    /// The compose project name that the current configuration gives.
    pub project_name: String,
    pub config: StackConfig,
    pub info: StackInfo,
}

/// Mathematical view of [`Stack`].
pub struct StackView {
    pub id: Seq<char>,
    pub name: Seq<char>,
    pub project_name: Seq<char>,
    pub config: StackConfigView,
    pub info: StackInfoView,
}

impl DeepView for Stack {
    type V = StackView;

    open spec fn deep_view(&self) -> StackView {
        StackView {
            id: self.id@,
            name: self.name@,
            project_name: self.project_name@,
            config: self.config.deep_view(),
            info: self.info.deep_view(),
        }
    }
}

impl View for Stack {
    type V = StackView;

    open spec fn view(&self) -> StackView {
        self.deep_view()
    }
}

impl Clone for Stack {
    fn clone(&self) -> (res: Self)
        ensures
            res@ == self@,
    {
        Stack {
            id: self.id.clone(),
            name: self.name.clone(),
            project_name: self.project_name.clone(),
            config: self.config.clone(),
            info: self.info.clone(),
        }
    }
}

/// The part of a linked repo's configuration that is rendered.
#[derive(Debug, PartialEq, Eq)]
pub struct RepoConfig {
    /// Leave variable and secret references as they are.
    pub skip_secret_interp: bool,
    pub environment: String,
    pub on_clone: SystemCommand,
    pub on_pull: SystemCommand,
}

/// Mathematical view of [`RepoConfig`].
pub struct RepoConfigView {
    pub skip_secret_interp: bool,
    pub environment: Seq<char>,
    pub on_clone: SystemCommandView,
    pub on_pull: SystemCommandView,
}

impl DeepView for RepoConfig {
    type V = RepoConfigView;

    open spec fn deep_view(&self) -> RepoConfigView {
        RepoConfigView {
            skip_secret_interp: self.skip_secret_interp,
            environment: self.environment@,
            on_clone: self.on_clone.deep_view(),
            on_pull: self.on_pull.deep_view(),
        }
    }
}

impl View for RepoConfig {
    type V = RepoConfigView;

    open spec fn view(&self) -> RepoConfigView {
        self.deep_view()
    }
}

impl Clone for RepoConfig {
    fn clone(&self) -> (res: Self)
        ensures
            res@ == self@,
    {
        RepoConfig {
            skip_secret_interp: self.skip_secret_interp,
            environment: self.environment.clone(),
            on_clone: self.on_clone.clone(),
            on_pull: self.on_pull.clone(),
        }
    }
}

/// A snapshot of a linked source repository.
#[derive(Debug, PartialEq, Eq)]
pub struct Repo {
    pub id: String,
    pub name: String,
    pub config: RepoConfig,
}

/// Mathematical view of [`Repo`].
pub struct RepoView {
    pub id: Seq<char>,
    pub name: Seq<char>,
    pub config: RepoConfigView,
}

impl DeepView for Repo {
    type V = RepoView;

    open spec fn deep_view(&self) -> RepoView {
        RepoView {
            id: self.id@,
            name: self.name@,
            config: self.config.deep_view(),
        }
    }
}

impl View for Repo {
    type V = RepoView;

    open spec fn view(&self) -> RepoView {
        self.deep_view()
    }
}

impl Clone for Repo {
    fn clone(&self) -> (res: Self)
        ensures
            res@ == self@,
    {
        Repo {
            id: self.id.clone(),
            name: self.name.clone(),
            config: self.config.clone(),
        }
    }
}

/// The host that a stack is bound to.
#[derive(Debug, PartialEq, Eq)]
pub struct Server {
    pub id: String,
    pub name: String,
}

/// Mathematical view of [`Server`].
pub struct ServerView {
    pub id: Seq<char>,
    pub name: Seq<char>,
}

impl DeepView for Server {
    type V = ServerView;

    open spec fn deep_view(&self) -> ServerView {
        ServerView {
            id: self.id@,
            name: self.name@,
        }
    }
}

impl View for Server {
    type V = ServerView;

    open spec fn view(&self) -> ServerView {
        self.deep_view()
    }
}

impl Clone for Server {
    fn clone(&self) -> (res: Self)
        ensures
            res@ == self@,
    {
        Server {
            id: self.id.clone(),
            name: self.name.clone(),
        }
    }
}

} // verus!
