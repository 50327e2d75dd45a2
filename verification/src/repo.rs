//! Repositories cloned onto servers: their configuration, with its
//! builder and its partial form, and their action flags.

use vstd::prelude::*;
use vstd::string::StringExecFns;

verus! {

/// A shell command with the directory it runs in.
#[derive(Clone, Debug, PartialEq, Eq)]
pub struct SystemCommand {
    pub path: String,
    pub command: String,
}

/// A command as a mathematical value.
pub struct SystemCommandView {
    pub path: Seq<char>,
    pub command: Seq<char>,
}

impl View for SystemCommand {
    type V = SystemCommandView;

    open spec fn view(&self) -> SystemCommandView {
        SystemCommandView { path: self.path@, command: self.command@ }
    }
}

/// The command that runs nothing.
pub open spec fn no_command() -> SystemCommandView {
    SystemCommandView { path: Seq::empty(), command: Seq::empty() }
}

impl SystemCommand {
    /// The command that runs nothing.
    pub fn new() -> (command: SystemCommand)
        ensures
            command@ == no_command(),
    {
        SystemCommand { path: String::new(), command: String::new() }
    }

    /// A copy of the command.
    pub fn duplicate(&self) -> (copy: SystemCommand)
        ensures
            copy@ == self@,
    {
        SystemCommand { path: self.path.clone(), command: self.command.clone() }
    }
}

impl Default for SystemCommand {
    fn default() -> (command: SystemCommand)
        ensures
            command@ == no_command(),
    {
        SystemCommand::new()
    }
}

/// What is known of a repository beside its configuration.
#[derive(Clone, Copy, Debug, PartialEq, Eq, Structural)]
pub struct RepoInfo {
    /// When the repository was last pulled, in milliseconds since the
    /// epoch; zero if never.
    pub last_pulled_at: i64,
}

impl Default for RepoInfo {
    fn default() -> (info: RepoInfo)
        ensures
            info.last_pulled_at == 0,
    {
        RepoInfo { last_pulled_at: 0 }
    }
}

/// The action flags of a repository.
#[derive(Clone, Copy, Debug, PartialEq, Eq, Structural)]
pub struct RepoActionState {
    pub cloning: bool,
    pub pulling: bool,
    pub updating: bool,
    pub deleting: bool,
}

impl RepoActionState {
    /// Whether any flag is set.
    pub open spec fn is_busy(self) -> bool {
        self.cloning || self.pulling || self.updating || self.deleting
    }

    /// Whether an operation is in flight on the repository.
    pub fn busy(&self) -> (busy: bool)
        ensures
            busy == self.is_busy(),
    {
        self.cloning || self.pulling || self.updating || self.deleting
    }
}

impl Default for RepoActionState {
    fn default() -> (state: RepoActionState)
        ensures
            !state.is_busy(),
    {
        RepoActionState { cloning: false, pulling: false, updating: false, deleting: false }
    }
}

/// The branch a repository is on unless another is configured.
pub fn default_branch() -> (branch: String)
    ensures
        branch@ == "main"@,
{
    String::from_str("main")
}

/// The configuration of a repository.
#[derive(Clone, Debug, PartialEq, Eq)]
pub struct RepoConfig {
    /// The server the repository is cloned onto.
    pub server_id: String,
    /// The repository as `owner/name`.
    pub repo: String,
    /// The branch to clone.
    pub branch: String,
    /// The account used to reach a private repository; empty for none.
    pub github_account: String,
    /// Run after the repository is cloned.
    pub on_clone: SystemCommand,
    /// Run after the repository is pulled.
    pub on_pull: SystemCommand,
}

/// A configuration as a mathematical value.
pub struct RepoConfigView {
    pub server_id: Seq<char>,
    pub repo: Seq<char>,
    pub branch: Seq<char>,
    pub github_account: Seq<char>,
    pub on_clone: SystemCommandView,
    pub on_pull: SystemCommandView,
}

impl View for RepoConfig {
    type V = RepoConfigView;

    open spec fn view(&self) -> RepoConfigView {
        RepoConfigView {
            server_id: self.server_id@,
            repo: self.repo@,
            branch: self.branch@,
            github_account: self.github_account@,
            on_clone: self.on_clone@,
            on_pull: self.on_pull@,
        }
    }
}

/// A configuration of which any part may be left open.
#[derive(Clone, Debug, PartialEq, Eq)]
pub struct PartialRepoConfig {
    pub server_id: Option<String>,
    pub repo: Option<String>,
    pub branch: Option<String>,
    pub github_account: Option<String>,
    pub on_clone: Option<SystemCommand>,
    pub on_pull: Option<SystemCommand>,
}

/// A partial configuration as a mathematical value.
pub struct PartialRepoConfigView {
    pub server_id: Option<Seq<char>>,
    pub repo: Option<Seq<char>>,
    pub branch: Option<Seq<char>>,
    pub github_account: Option<Seq<char>>,
    pub on_clone: Option<SystemCommandView>,
    pub on_pull: Option<SystemCommandView>,
}

/// The view of an optional string.
pub open spec fn text_or_none(text: Option<String>) -> Option<Seq<char>> {
    match text {
        Some(text) => Some(text@),
        None => None,
    }
}

/// The view of an optional command.
pub open spec fn command_or_none(command: Option<SystemCommand>) -> Option<SystemCommandView> {
    match command {
        Some(command) => Some(command@),
        None => None,
    }
}

impl View for PartialRepoConfig {
    type V = PartialRepoConfigView;

    open spec fn view(&self) -> PartialRepoConfigView {
        PartialRepoConfigView {
            server_id: text_or_none(self.server_id),
            repo: text_or_none(self.repo),
            branch: text_or_none(self.branch),
            github_account: text_or_none(self.github_account),
            on_clone: command_or_none(self.on_clone),
            on_pull: command_or_none(self.on_pull),
        }
    }
}

/// `chosen` where it is given, else `fallback`.
pub open spec fn or_else<T>(chosen: Option<T>, fallback: T) -> T {
    match chosen {
        Some(value) => value,
        None => fallback,
    }
}

impl PartialRepoConfigView {
    /// Whether every part is left open.
    pub open spec fn all_open(self) -> bool {
        &&& self.server_id is None
        &&& self.repo is None
        &&& self.branch is None
        &&& self.github_account is None
        &&& self.on_clone is None
        &&& self.on_pull is None
    }

    /// The configuration that takes each given part and the default for
    /// each part left open: `main` for the branch, empty for the rest.
    pub open spec fn completed(self) -> RepoConfigView {
        RepoConfigView {
            server_id: or_else(self.server_id, Seq::empty()),
            repo: or_else(self.repo, Seq::empty()),
            branch: or_else(self.branch, "main"@),
            github_account: or_else(self.github_account, Seq::empty()),
            on_clone: or_else(self.on_clone, no_command()),
            on_pull: or_else(self.on_pull, no_command()),
        }
    }
}

impl RepoConfigView {
    /// This configuration with each given part of `partial` in place of
    /// its own.
    pub open spec fn merged(self, partial: PartialRepoConfigView) -> RepoConfigView {
        RepoConfigView {
            server_id: or_else(partial.server_id, self.server_id),
            repo: or_else(partial.repo, self.repo),
            branch: or_else(partial.branch, self.branch),
            github_account: or_else(partial.github_account, self.github_account),
            on_clone: or_else(partial.on_clone, self.on_clone),
            on_pull: or_else(partial.on_pull, self.on_pull),
        }
    }

    /// The partial configuration that gives every part of this one.
    pub open spec fn as_partial(self) -> PartialRepoConfigView {
        PartialRepoConfigView {
            server_id: Some(self.server_id),
            repo: Some(self.repo),
            branch: Some(self.branch),
            github_account: Some(self.github_account),
            on_clone: Some(self.on_clone),
            on_pull: Some(self.on_pull),
        }
    }
}

/// Merging the partial form of a configuration into any configuration
/// gives that configuration, completing it gives it back, and merging a
/// partial configuration with every part open changes nothing.
pub proof fn lemma_partial_round_trip(
    config: RepoConfigView,
    other: RepoConfigView,
    open: PartialRepoConfigView,
)
    requires
        open.all_open(),
    ensures
        other.merged(config.as_partial()) == config,
        config.as_partial().completed() == config,
        config.merged(open) == config,
{
}

fn text_or(chosen: Option<String>, fallback: String) -> (text: String)
    ensures
        text@ == or_else(text_or_none(chosen), fallback@),
{
    match chosen {
        Some(text) => text,
        None => fallback,
    }
}

fn command_or(chosen: Option<SystemCommand>, fallback: SystemCommand) -> (command: SystemCommand)
    ensures
        command@ == or_else(command_or_none(chosen), fallback@),
{
    match chosen {
        Some(command) => command,
        None => fallback,
    }
}

impl PartialRepoConfig {
    /// The partial configuration with every part open.
    pub fn new() -> (partial: PartialRepoConfig)
        ensures
            partial@.all_open(),
    {
        PartialRepoConfig {
            server_id: None,
            repo: None,
            branch: None,
            github_account: None,
            on_clone: None,
            on_pull: None,
        }
    }

    /// Whether every part is left open.
    pub fn is_none(&self) -> (open: bool)
        ensures
            open == self@.all_open(),
    {
        self.server_id.is_none() && self.repo.is_none() && self.branch.is_none()
            && self.github_account.is_none() && self.on_clone.is_none() && self.on_pull.is_none()
    }
}

impl Default for PartialRepoConfig {
    fn default() -> (partial: PartialRepoConfig)
        ensures
            partial@.all_open(),
    {
        PartialRepoConfig::new()
    }
}

impl RepoConfig {
    /// Takes each given part of `partial` in place of this
    /// configuration's own.
    pub fn merge_partial(self, partial: PartialRepoConfig) -> (config: RepoConfig)
        ensures
            config@ == self@.merged(partial@),
    {
        RepoConfig {
            server_id: text_or(partial.server_id, self.server_id),
            repo: text_or(partial.repo, self.repo),
            branch: text_or(partial.branch, self.branch),
            github_account: text_or(partial.github_account, self.github_account),
            on_clone: command_or(partial.on_clone, self.on_clone),
            on_pull: command_or(partial.on_pull, self.on_pull),
        }
    }

    /// Completes a partial configuration with the defaults.
    pub fn from_partial(partial: PartialRepoConfig) -> (config: RepoConfig)
        ensures
            config@ == partial@.completed(),
    {
        RepoConfig {
            server_id: text_or(partial.server_id, String::new()),
            repo: text_or(partial.repo, String::new()),
            branch: text_or(partial.branch, default_branch()),
            github_account: text_or(partial.github_account, String::new()),
            on_clone: command_or(partial.on_clone, SystemCommand::new()),
            on_pull: command_or(partial.on_pull, SystemCommand::new()),
        }
    }

    /// The partial configuration that gives every part of this one.
    pub fn into_partial(self) -> (partial: PartialRepoConfig)
        ensures
            partial@ == self@.as_partial(),
    {
        PartialRepoConfig {
            server_id: Some(self.server_id),
            repo: Some(self.repo),
            branch: Some(self.branch),
            github_account: Some(self.github_account),
            on_clone: Some(self.on_clone),
            on_pull: Some(self.on_pull),
        }
    }
}

/// Why a builder could not build.
#[derive(Clone, Copy, Debug, PartialEq, Eq)]
pub enum RepoConfigBuilderError {
    /// A part without a default was not set; the name says which.
    UninitializedField(&'static str),
}

/// Collects the parts of a repository's configuration. The server and the
/// repository have to be set; the branch defaults to `main` and the rest
/// to empty.
#[derive(Clone, Debug)]
pub struct RepoConfigBuilder {
    server_id: Option<String>,
    repo: Option<String>,
    branch: Option<String>,
    github_account: Option<String>,
    on_clone: Option<SystemCommand>,
    on_pull: Option<SystemCommand>,
}

impl View for RepoConfigBuilder {
    type V = PartialRepoConfigView;

    closed spec fn view(&self) -> PartialRepoConfigView {
        PartialRepoConfigView {
            server_id: text_or_none(self.server_id),
            repo: text_or_none(self.repo),
            branch: text_or_none(self.branch),
            github_account: text_or_none(self.github_account),
            on_clone: command_or_none(self.on_clone),
            on_pull: command_or_none(self.on_pull),
        }
    }
}

/// What building from the parts collected so far gives: the name of the
/// first required part that is missing, or the completed configuration.
pub open spec fn built(parts: PartialRepoConfigView) -> Result<RepoConfigView, Seq<char>> {
    if parts.server_id is None {
        Err("server_id"@)
    } else if parts.repo is None {
        Err("repo"@)
    } else {
        Ok(parts.completed())
    }
}

fn copy_text(text: &Option<String>) -> (copy: Option<String>)
    ensures
        text_or_none(copy) == text_or_none(*text),
{
    match text {
        Some(text) => Some(text.clone()),
        None => None,
    }
}

fn copy_command(command: &Option<SystemCommand>) -> (copy: Option<SystemCommand>)
    ensures
        command_or_none(copy) == command_or_none(*command),
{
    match command {
        Some(command) => Some(command.duplicate()),
        None => None,
    }
}

impl RepoConfigBuilder {
    /// A builder with nothing set.
    pub fn new() -> (builder: RepoConfigBuilder)
        ensures
            builder@.all_open(),
    {
        RepoConfigBuilder {
            server_id: None,
            repo: None,
            branch: None,
            github_account: None,
            on_clone: None,
            on_pull: None,
        }
    }

    /// Sets the server.
    pub fn server_id(&mut self, value: String)
        ensures
            final(self)@ == (PartialRepoConfigView { server_id: Some(value@), ..old(self)@ }),
    {
        self.server_id = Some(value);
    }

    /// Sets the repository.
    pub fn repo(&mut self, value: String)
        ensures
            final(self)@ == (PartialRepoConfigView { repo: Some(value@), ..old(self)@ }),
    {
        self.repo = Some(value);
    }

    /// Sets the branch.
    pub fn branch(&mut self, value: String)
        ensures
            final(self)@ == (PartialRepoConfigView { branch: Some(value@), ..old(self)@ }),
    {
        self.branch = Some(value);
    }

    /// Sets the account.
    pub fn github_account(&mut self, value: String)
        ensures
            final(self)@ == (PartialRepoConfigView {
                github_account: Some(value@),
                ..old(self)@
            }),
    {
        self.github_account = Some(value);
    }

    /// Sets the command run after a clone.
    pub fn on_clone(&mut self, value: SystemCommand)
        ensures
            final(self)@ == (PartialRepoConfigView { on_clone: Some(value@), ..old(self)@ }),
    {
        self.on_clone = Some(value);
    }

    /// Sets the command run after a pull.
    pub fn on_pull(&mut self, value: SystemCommand)
        ensures
            final(self)@ == (PartialRepoConfigView { on_pull: Some(value@), ..old(self)@ }),
    {
        self.on_pull = Some(value);
    }

    /// Builds the configuration from the parts set so far, leaving the
    /// builder as it is.
    pub fn build(&self) -> (outcome: Result<RepoConfig, RepoConfigBuilderError>)
        ensures
            match built(self@) {
                Ok(config) => outcome matches Ok(made) && made@ == config,
                Err(name) => outcome matches Err(RepoConfigBuilderError::UninitializedField(field))
                    && field@ == name,
            },
    {
        let server_id = match copy_text(&self.server_id) {
            Some(value) => value,
            None => {
                return Err(RepoConfigBuilderError::UninitializedField("server_id"));
            },
        };
        let repo = match copy_text(&self.repo) {
            Some(value) => value,
            None => {
                return Err(RepoConfigBuilderError::UninitializedField("repo"));
            },
        };
        Ok(
            RepoConfig {
                server_id,
                repo,
                branch: text_or(copy_text(&self.branch), default_branch()),
                github_account: text_or(copy_text(&self.github_account), String::new()),
                on_clone: command_or(copy_command(&self.on_clone), SystemCommand::new()),
                on_pull: command_or(copy_command(&self.on_pull), SystemCommand::new()),
            },
        )
    }
}

impl Default for RepoConfigBuilder {
    fn default() -> (builder: RepoConfigBuilder)
        ensures
            builder@.all_open(),
    {
        RepoConfigBuilder::new()
    }
}

} // verus!
