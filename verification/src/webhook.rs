//! Whether the webhooks of a stack's repository are registered with the
//! source-control provider.

use vstd::prelude::*;
use vstd::string::{StrSliceExecFns, StringExecFns};
use crate::error::CoreError;
use crate::permission::{PermissionLevel, User, checked, get_check_permissions, permitted};
use crate::stack::Stack;
use crate::text::same_text;

verus! {

/// A webhook as the provider lists it.
#[derive(Clone, Debug, PartialEq, Eq)]
pub struct Webhook {
    /// Whether the provider delivers to it.
    pub active: bool,
    /// Where the provider delivers to.
    pub url: String,
}

/// Which of a stack's webhooks are registered.
#[derive(Clone, Copy, Debug, PartialEq, Eq, Structural)]
pub struct GetStackWebhooksEnabledResponse {
    /// Whether the control plane can manage the repository's webhooks.
    pub managed: bool,
    /// Whether the webhook that refreshes the stack is registered.
    pub refresh_enabled: bool,
    /// Whether the webhook that deploys the stack is registered.
    pub deploy_enabled: bool,
}

/// What has to be asked of the provider for a stack.
#[derive(Debug, PartialEq, Eq)]
pub enum WebhookQuery {
    /// Nothing: the repository's webhooks are not managed.
    Unmanaged,
    /// Nothing: the repository has an owner and no name.
    MissingName,
    /// The webhooks of this repository.
    Repository { owner: String, name: String },
}

/// A query as a mathematical value.
pub enum WebhookQueryView {
    Unmanaged,
    MissingName,
    Repository { owner: Seq<char>, name: Seq<char> },
}

impl View for WebhookQuery {
    type V = WebhookQueryView;

    open spec fn view(&self) -> WebhookQueryView {
        match self {
            WebhookQuery::Unmanaged => WebhookQueryView::Unmanaged,
            WebhookQuery::MissingName => WebhookQueryView::MissingName,
            WebhookQuery::Repository { owner, name } => WebhookQueryView::Repository {
                owner: owner@,
                name: name@,
            },
        }
    }
}

/// The answer for a repository whose webhooks are not managed.
pub open spec fn unmanaged() -> GetStackWebhooksEnabledResponse {
    GetStackWebhooksEnabledResponse {
        managed: false,
        refresh_enabled: false,
        deploy_enabled: false,
    }
}

/// Where the path segment that starts at `from` ends: at the next `/`, or
/// at the end of the text.
pub open spec fn segment_end(text: Seq<char>, from: int) -> int
    decreases text.len() - from,
{
    if from < 0 || from >= text.len() {
        text.len() as int
    } else if text[from] == '/' {
        from
    } else {
        segment_end(text, from + 1)
    }
}

/// The segment ends at or after its start, within the text, at a `/`
/// unless at the end, and holds no `/`.
pub proof fn lemma_segment_end(text: Seq<char>, from: int)
    requires
        0 <= from <= text.len(),
    ensures
        from <= segment_end(text, from) <= text.len(),
        segment_end(text, from) < text.len() ==> text[segment_end(text, from)] == '/',
        forall|k: int| from <= k < segment_end(text, from) ==> text[k] != '/',
    decreases text.len() - from,
{
    if from < text.len() && text[from] != '/' {
        lemma_segment_end(text, from + 1);
    }
}

/// The owner of a repository written `owner/name`: what stands before the
/// first `/`.
pub open spec fn repo_owner(repo: Seq<char>) -> Seq<char> {
    repo.subrange(0, segment_end(repo, 0))
}

/// The name of a repository written `owner/name`: what stands between the
/// first `/` and the next; absent where there is no `/`.
pub open spec fn repo_name(repo: Seq<char>) -> Option<Seq<char>> {
    let slash = segment_end(repo, 0);
    if slash >= repo.len() {
        None
    } else {
        Some(repo.subrange(slash + 1, segment_end(repo, slash + 1)))
    }
}

/// Whether `owners` holds `owner`.
pub open spec fn has_owner(owners: Seq<String>, owner: Seq<char>) -> bool {
    exists|i: int| 0 <= i < owners.len() && (#[trigger] owners[i])@ == owner
}

/// What has to be asked of the provider. The stack passes the permission
/// check at level `Read` before anything else is looked at. Then, without
/// a provider client, nothing is managed. A stack that is not on
/// `github.com`, has no repository, or whose repository's owner has no
/// client, is unmanaged; a repository without a name is an error of its
/// own.
pub open spec fn webhook_query(
    provider_configured: bool,
    stack: Option<Stack>,
    admin: bool,
    assignments: Seq<PermissionLevel>,
    owners: Seq<String>,
) -> Result<WebhookQueryView, CoreError> {
    match checked(stack, admin, assignments, PermissionLevel::Read) {
        Err(error) => Err(error),
        Ok(stack) => if !provider_configured {
            Ok(WebhookQueryView::Unmanaged)
        } else if stack.config.git_provider@ != "github.com"@ || stack.config.repo@.len() == 0 {
            Ok(WebhookQueryView::Unmanaged)
        } else if !has_owner(owners, repo_owner(stack.config.repo@)) {
            Ok(WebhookQueryView::Unmanaged)
        } else {
            match repo_name(stack.config.repo@) {
                None => Ok(WebhookQueryView::MissingName),
                Some(name) => Ok(
                    WebhookQueryView::Repository { owner: repo_owner(stack.config.repo@), name },
                ),
            }
        },
    }
}

/// No answer comes before the permission check: whatever is configured,
/// an absent stack is `NotFound` and a user below `Read` is
/// `Unauthorized`.
pub proof fn law_webhook_query_is_checked_first(
    provider_configured: bool,
    stack: Option<Stack>,
    admin: bool,
    assignments: Seq<PermissionLevel>,
    owners: Seq<String>,
)
    ensures
        stack is None ==> webhook_query(provider_configured, stack, admin, assignments, owners)
            == Err::<WebhookQueryView, CoreError>(CoreError::NotFound),
        stack is Some && !permitted(admin, assignments, PermissionLevel::Read) ==> webhook_query(
            provider_configured,
            stack,
            admin,
            assignments,
            owners,
        ) == Err::<WebhookQueryView, CoreError>(CoreError::Unauthorized),
        webhook_query(provider_configured, stack, admin, assignments, owners) is Ok ==> stack
            is Some && permitted(admin, assignments, PermissionLevel::Read),
{
}

/// Finds where the segment that starts at `from` ends.
pub fn find_segment_end(text: &str, from: usize) -> (end: usize)
    requires
        from <= text@.len(),
    ensures
        end == segment_end(text@, from as int),
        from <= end <= text@.len(),
{
    let len = text.unicode_len();
    let mut i = from;
    while i < len
        invariant
            from <= i <= len,
            len == text@.len(),
            segment_end(text@, from as int) == segment_end(text@, i as int),
        decreases len - i,
    {
        if text.get_char(i) == '/' {
            return i;
        }
        i += 1;
    }
    i
}

/// Whether `owners` holds `owner`.
pub fn owner_configured(owners: &Vec<String>, owner: &str) -> (found: bool)
    ensures
        found == has_owner(owners@, owner@),
{
    let mut i: usize = 0;
    while i < owners.len()
        invariant
            i <= owners@.len(),
            forall|k: int| 0 <= k < i ==> (#[trigger] owners@[k])@ != owner@,
        decreases owners@.len() - i,
    {
        if same_text(owners[i].as_str(), owner) {
            return true;
        }
        i += 1;
    }
    false
}

/// Decides what has to be asked of the provider about a stack's webhooks.
/// `stack` is what the store answered, `assignments` the levels the
/// permission source holds for the user on the stack, `owners` the
/// repository owners a provider client is configured for.
pub fn get_stack_webhooks_query(
    provider_configured: bool,
    stack: Option<Stack>,
    user: &User,
    assignments: &Vec<PermissionLevel>,
    owners: &Vec<String>,
) -> (outcome: Result<WebhookQuery, CoreError>)
    ensures
        match webhook_query(provider_configured, stack, user.admin, assignments@, owners@) {
            Ok(query) => outcome matches Ok(found) && found@ == query,
            Err(error) => outcome matches Err(refusal) && refusal == error,
        },
{
    let stack = match get_check_permissions(stack, user, assignments, PermissionLevel::Read) {
        Ok(stack) => stack,
        Err(error) => {
            return Err(error);
        },
    };
    if !provider_configured {
        return Ok(WebhookQuery::Unmanaged);
    }
    let repo = stack.config.repo.as_str();
    if !same_text(stack.config.git_provider.as_str(), "github.com") || repo.is_empty() {
        return Ok(WebhookQuery::Unmanaged);
    }
    let len = repo.unicode_len();
    let slash = find_segment_end(repo, 0);
    let owner = repo.substring_char(0, slash);
    if !owner_configured(owners, owner) {
        return Ok(WebhookQuery::Unmanaged);
    }
    if slash >= len {
        return Ok(WebhookQuery::MissingName);
    }
    let end = find_segment_end(repo, slash + 1);
    let name = repo.substring_char(slash + 1, end);
    Ok(WebhookQuery::Repository { owner: owner.to_owned(), name: name.to_owned() })
}

/// The base of the listener's addresses: the webhook base where one is
/// configured, else the host.
pub open spec fn listener_host(host: Seq<char>, webhook_base_url: Seq<char>) -> Seq<char> {
    if webhook_base_url.len() == 0 {
        host
    } else {
        webhook_base_url
    }
}

/// The address a stack's webhook for `action` is delivered to.
pub open spec fn listener_url(base: Seq<char>, stack_id: Seq<char>, action: Seq<char>) -> Seq<
    char,
> {
    base + "/listener/github/stack/"@ + stack_id + seq!['/'] + action
}

/// Whether an active webhook of `webhooks` delivers to `url`.
pub open spec fn is_registered(webhooks: Seq<Webhook>, url: Seq<char>) -> bool {
    exists|i: int|
        0 <= i < webhooks.len() && (#[trigger] webhooks[i]).active && webhooks[i].url@ == url
}

/// Builds the address a stack's webhook for `action` is delivered to.
pub fn build_listener_url(base: &str, stack_id: &str, action: &str) -> (url: String)
    ensures
        url@ == listener_url(base@, stack_id@, action@),
{
    let mut url = String::from_str(base);
    url.append("/listener/github/stack/");
    url.append(stack_id);
    url.append("/");
    url.append(action);
    proof {
        reveal_strlit("/");
        assert("/"@ =~= seq!['/']);
    }
    url
}

/// Whether an active webhook of `webhooks` delivers to `url`.
pub fn registered(webhooks: &Vec<Webhook>, url: &str) -> (found: bool)
    ensures
        found == is_registered(webhooks@, url@),
{
    let mut i: usize = 0;
    while i < webhooks.len()
        invariant
            i <= webhooks@.len(),
            forall|k: int|
                0 <= k < i ==> !((#[trigger] webhooks@[k]).active && webhooks@[k].url@ == url@),
        decreases webhooks@.len() - i,
    {
        if webhooks[i].active && same_text(webhooks[i].url.as_str(), url) {
            return true;
        }
        i += 1;
    }
    false
}

/// Compares the webhooks the provider lists for a stack's repository with
/// the two addresses the listener serves for the stack.
pub fn get_stack_webhooks_enabled(
    host: &str,
    webhook_base_url: &str,
    stack_id: &str,
    webhooks: &Vec<Webhook>,
) -> (response: GetStackWebhooksEnabledResponse)
    ensures
        response.managed,
        response.refresh_enabled == is_registered(
            webhooks@,
            listener_url(listener_host(host@, webhook_base_url@), stack_id@, "refresh"@),
        ),
        response.deploy_enabled == is_registered(
            webhooks@,
            listener_url(listener_host(host@, webhook_base_url@), stack_id@, "deploy"@),
        ),
{
    let base = if webhook_base_url.is_empty() {
        host
    } else {
        webhook_base_url
    };
    let refresh_url = build_listener_url(base, stack_id, "refresh");
    let deploy_url = build_listener_url(base, stack_id, "deploy");
    GetStackWebhooksEnabledResponse {
        managed: true,
        refresh_enabled: registered(webhooks, refresh_url.as_str()),
        deploy_enabled: registered(webhooks, deploy_url.as_str()),
    }
}

/// The answer where nothing has to be asked of the provider.
pub fn webhooks_unmanaged() -> (response: GetStackWebhooksEnabledResponse)
    ensures
        response == unmanaged(),
{
    GetStackWebhooksEnabledResponse {
        managed: false,
        refresh_enabled: false,
        deploy_enabled: false,
    }
}

} // verus!
