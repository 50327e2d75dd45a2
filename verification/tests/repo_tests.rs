use stack_control::repo::{
    default_branch, PartialRepoConfig, RepoActionState, RepoConfig, RepoConfigBuilder,
    RepoConfigBuilderError, RepoInfo, SystemCommand,
};

fn command(path: &str, command: &str) -> SystemCommand {
    SystemCommand { path: path.to_string(), command: command.to_string() }
}

fn config() -> RepoConfig {
    RepoConfig {
        server_id: String::from("server-1"),
        repo: String::from("acme/shop"),
        branch: String::from("dev"),
        github_account: String::from("bot"),
        on_clone: command("/srv", "make"),
        on_pull: command("/srv", "make restart"),
    }
}

#[test]
fn default_branch_is_main() {
    assert_eq!(default_branch(), "main");
}

#[test]
fn defaults_of_the_plain_types() {
    assert_eq!(RepoInfo::default(), RepoInfo { last_pulled_at: 0 });
    let state = RepoActionState::default();
    assert_eq!(
        state,
        RepoActionState { cloning: false, pulling: false, updating: false, deleting: false }
    );
    assert!(!state.busy());
    assert!(RepoActionState { pulling: true, ..state }.busy());
    assert!(RepoActionState { deleting: true, ..state }.busy());
    assert_eq!(SystemCommand::default(), command("", ""));
    assert_eq!(SystemCommand::new(), command("", ""));
    assert_eq!(command("a", "b").duplicate(), command("a", "b"));
}

#[test]
fn builder_needs_server_and_repository() {
    let mut builder = RepoConfigBuilder::new();
    assert_eq!(builder.build(), Err(RepoConfigBuilderError::UninitializedField("server_id")));
    builder.repo(String::from("acme/shop"));
    assert_eq!(builder.build(), Err(RepoConfigBuilderError::UninitializedField("server_id")));
    let mut builder = RepoConfigBuilder::default();
    builder.server_id(String::from("server-1"));
    assert_eq!(builder.build(), Err(RepoConfigBuilderError::UninitializedField("repo")));
}

#[test]
fn builder_fills_in_the_defaults() {
    let mut builder = RepoConfigBuilder::new();
    builder.server_id(String::from("server-1"));
    builder.repo(String::from("acme/shop"));
    assert_eq!(
        builder.build(),
        Ok(RepoConfig {
            server_id: String::from("server-1"),
            repo: String::from("acme/shop"),
            branch: String::from("main"),
            github_account: String::new(),
            on_clone: command("", ""),
            on_pull: command("", ""),
        })
    );
}

#[test]
fn builder_takes_every_part() {
    let mut builder = RepoConfigBuilder::new();
    builder.server_id(String::from("server-1"));
    builder.repo(String::from("acme/shop"));
    builder.branch(String::from("dev"));
    builder.github_account(String::from("bot"));
    builder.on_clone(command("/srv", "make"));
    builder.on_pull(command("/srv", "make restart"));
    assert_eq!(builder.build(), Ok(config()));
    builder.branch(String::from("next"));
    assert_eq!(builder.build().unwrap().branch, "next");
}

#[test]
fn completing_a_partial_configuration() {
    let partial = PartialRepoConfig::new();
    assert!(partial.is_none());
    assert_eq!(partial, PartialRepoConfig::default());
    assert_eq!(
        RepoConfig::from_partial(partial),
        RepoConfig {
            server_id: String::new(),
            repo: String::new(),
            branch: String::from("main"),
            github_account: String::new(),
            on_clone: command("", ""),
            on_pull: command("", ""),
        }
    );
    let partial = PartialRepoConfig {
        repo: Some(String::from("acme/shop")),
        branch: Some(String::from("dev")),
        ..PartialRepoConfig::new()
    };
    assert!(!partial.is_none());
    let made = RepoConfig::from_partial(partial);
    assert_eq!(made.repo, "acme/shop");
    assert_eq!(made.branch, "dev");
    assert_eq!(made.server_id, "");
}

#[test]
fn merging_a_partial_configuration() {
    let partial = PartialRepoConfig {
        branch: Some(String::from("main")),
        on_pull: Some(command("/", "true")),
        ..PartialRepoConfig::new()
    };
    let merged = config().merge_partial(partial);
    assert_eq!(
        merged,
        RepoConfig { branch: String::from("main"), on_pull: command("/", "true"), ..config() }
    );
    assert_eq!(config().merge_partial(PartialRepoConfig::new()), config());
}

#[test]
fn partial_form_round_trips() {
    let partial = config().into_partial();
    assert!(!partial.is_none());
    assert_eq!(partial.server_id, Some(String::from("server-1")));
    assert_eq!(RepoConfig::from_partial(partial.clone()), config());
    let other = RepoConfig::from_partial(PartialRepoConfig::new());
    assert_eq!(other.merge_partial(partial), config());
}
