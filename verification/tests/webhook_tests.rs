use stack_control::error::CoreError;
use stack_control::permission::{PermissionLevel, User};
use stack_control::stack::{Stack, StackConfig};
use stack_control::webhook::{
    build_listener_url, find_segment_end, get_stack_webhooks_enabled, get_stack_webhooks_query,
    owner_configured, registered, webhooks_unmanaged, GetStackWebhooksEnabledResponse, Webhook,
    WebhookQuery,
};

fn user(admin: bool) -> User {
    User { id: String::from("u1"), username: String::from("ann"), admin }
}

fn stack(provider: &str, repo: &str) -> Option<Stack> {
    Some(Stack {
        id: String::from("stack-1"),
        name: String::from("shop"),
        config: StackConfig {
            server_id: String::from("server-1"),
            project_name: String::new(),
            git_provider: provider.to_string(),
            repo: repo.to_string(),
            extra_args: vec![],
            build_extra_args: vec![],
        },
    })
}

fn owners() -> Vec<String> {
    vec![String::from("acme"), String::from("other")]
}

fn query(configured: bool, stack: Option<Stack>, admin: bool, levels: Vec<PermissionLevel>) -> Result<WebhookQuery, CoreError> {
    get_stack_webhooks_query(configured, stack, &user(admin), &levels, &owners())
}

fn hook(active: bool, url: &str) -> Webhook {
    Webhook { active, url: url.to_string() }
}

#[test]
fn without_provider_nothing_is_managed() {
    assert_eq!(
        query(false, stack("github.com", "acme/shop"), false, vec![PermissionLevel::Read]),
        Ok(WebhookQuery::Unmanaged)
    );
    assert_eq!(query(false, stack("", ""), true, vec![]), Ok(WebhookQuery::Unmanaged));
}

#[test]
fn permission_is_checked_before_the_provider_is_looked_at() {
    assert_eq!(query(false, None, false, vec![]), Err(CoreError::NotFound));
    assert_eq!(query(false, None, true, vec![]), Err(CoreError::NotFound));
    assert_eq!(
        query(false, stack("github.com", "acme/shop"), false, vec![]),
        Err(CoreError::Unauthorized)
    );
    assert_eq!(
        query(false, stack("github.com", "acme/shop"), false, vec![PermissionLevel::NoAccess]),
        Err(CoreError::Unauthorized)
    );
    assert_eq!(query(true, stack("gitlab.com", ""), false, vec![]), Err(CoreError::Unauthorized));
}

#[test]
fn query_passes_the_permission_check_at_read() {
    assert_eq!(query(true, None, true, vec![]), Err(CoreError::NotFound));
    assert_eq!(
        query(true, stack("github.com", "acme/shop"), false, vec![]),
        Err(CoreError::Unauthorized)
    );
    assert_eq!(
        query(true, stack("github.com", "acme/shop"), false, vec![PermissionLevel::Read]),
        Ok(WebhookQuery::Repository { owner: String::from("acme"), name: String::from("shop") })
    );
}

#[test]
fn other_providers_and_missing_repositories_are_unmanaged() {
    assert_eq!(query(true, stack("gitlab.com", "acme/shop"), true, vec![]), Ok(WebhookQuery::Unmanaged));
    assert_eq!(query(true, stack("github.com", ""), true, vec![]), Ok(WebhookQuery::Unmanaged));
    assert_eq!(query(true, stack("", "acme/shop"), true, vec![]), Ok(WebhookQuery::Unmanaged));
}

#[test]
fn owner_without_client_is_unmanaged() {
    assert_eq!(query(true, stack("github.com", "nobody/shop"), true, vec![]), Ok(WebhookQuery::Unmanaged));
    assert_eq!(query(true, stack("github.com", "nobody"), true, vec![]), Ok(WebhookQuery::Unmanaged));
    assert_eq!(query(true, stack("github.com", "/shop"), true, vec![]), Ok(WebhookQuery::Unmanaged));
}

#[test]
fn repository_without_name_is_an_error_of_its_own() {
    assert_eq!(query(true, stack("github.com", "acme"), true, vec![]), Ok(WebhookQuery::MissingName));
}

#[test]
fn repository_is_split_at_the_slashes() {
    assert_eq!(
        query(true, stack("github.com", "acme/shop/extra"), true, vec![]),
        Ok(WebhookQuery::Repository { owner: String::from("acme"), name: String::from("shop") })
    );
    assert_eq!(
        query(true, stack("github.com", "acme/"), true, vec![]),
        Ok(WebhookQuery::Repository { owner: String::from("acme"), name: String::new() })
    );
    assert_eq!(
        query(true, stack("github.com", "other/dépôt"), true, vec![]),
        Ok(WebhookQuery::Repository { owner: String::from("other"), name: String::from("dépôt") })
    );
}

#[test]
fn segments_end_at_slashes() {
    assert_eq!(find_segment_end("acme/shop", 0), 4);
    assert_eq!(find_segment_end("acme/shop", 5), 9);
    assert_eq!(find_segment_end("acme/shop", 4), 4);
    assert_eq!(find_segment_end("acme", 0), 4);
    assert_eq!(find_segment_end("", 0), 0);
    assert_eq!(find_segment_end("é/x", 0), 1);
}

#[test]
fn owners_are_found_by_exact_name() {
    assert!(owner_configured(&owners(), "acme"));
    assert!(!owner_configured(&owners(), "Acme"));
    assert!(!owner_configured(&vec![], "acme"));
}

#[test]
fn listener_addresses() {
    assert_eq!(
        build_listener_url("https://core.example.com", "abc123", "refresh"),
        "https://core.example.com/listener/github/stack/abc123/refresh"
    );
    assert_eq!(
        build_listener_url("https://core.example.com", "abc123", "deploy"),
        "https://core.example.com/listener/github/stack/abc123/deploy"
    );
}

#[test]
fn enabled_webhooks_are_active_and_match_exactly() {
    let hooks = vec![
        hook(true, "https://core.example.com/listener/github/stack/abc/refresh"),
        hook(false, "https://core.example.com/listener/github/stack/abc/deploy"),
        hook(true, "https://core.example.com/listener/github/stack/other/deploy"),
    ];
    assert_eq!(
        get_stack_webhooks_enabled("https://core.example.com", "", "abc", &hooks),
        GetStackWebhooksEnabledResponse { managed: true, refresh_enabled: true, deploy_enabled: false }
    );
    assert_eq!(
        get_stack_webhooks_enabled("https://core.example.com", "", "other", &hooks),
        GetStackWebhooksEnabledResponse { managed: true, refresh_enabled: false, deploy_enabled: true }
    );
    assert_eq!(
        get_stack_webhooks_enabled("https://core.example.com", "", "abc", &vec![]),
        GetStackWebhooksEnabledResponse { managed: true, refresh_enabled: false, deploy_enabled: false }
    );
}

#[test]
fn webhook_base_takes_the_place_of_the_host() {
    let hooks = vec![
        hook(true, "https://hooks.example.com/listener/github/stack/abc/refresh"),
        hook(true, "https://core.example.com/listener/github/stack/abc/deploy"),
    ];
    assert_eq!(
        get_stack_webhooks_enabled("https://core.example.com", "https://hooks.example.com", "abc", &hooks),
        GetStackWebhooksEnabledResponse { managed: true, refresh_enabled: true, deploy_enabled: false }
    );
}

#[test]
fn registration_needs_an_active_webhook() {
    assert!(registered(&vec![hook(false, "u"), hook(true, "u")], "u"));
    assert!(!registered(&vec![hook(false, "u")], "u"));
    assert!(!registered(&vec![hook(true, "u/")], "u"));
}

#[test]
fn unmanaged_answer() {
    assert_eq!(
        webhooks_unmanaged(),
        GetStackWebhooksEnabledResponse { managed: false, refresh_enabled: false, deploy_enabled: false }
    );
}
