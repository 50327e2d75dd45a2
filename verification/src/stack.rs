//! Stacks and the servers they are deployed on, as far as the control
//! plane's rules read them.

use vstd::prelude::*;
use crate::error::CoreError;
use crate::permission::{PermissionLevel, User, checked, get_check_permissions};
use crate::text::same_text;

verus! {

/// The configuration of a stack.
#[derive(Clone, Debug, PartialEq, Eq)]
pub struct StackConfig {
    /// The id of the server the stack is deployed on; empty when none is
    /// configured.
    pub server_id: String,
    /// The compose project name; empty to use the stack's name.
    pub project_name: String,
    /// The domain of the git provider of the stack's repository.
    pub git_provider: String,
    /// The repository as `owner/name`; empty when the stack has none.
    pub repo: String,
    /// Extra arguments passed when the stack is deployed.
    pub extra_args: Vec<String>,
    /// Extra arguments passed when the stack's images are built.
    pub build_extra_args: Vec<String>,
}

/// A named, server-bound set of services: the unit of action and of
/// permission.
#[derive(Clone, Debug, PartialEq, Eq)]
pub struct Stack {
    pub id: String,
    pub name: String,
    pub config: StackConfig,
}

/// A managed host.
#[derive(Clone, Debug, PartialEq, Eq)]
pub struct Server {
    pub id: String,
    pub name: String,
}

/// Whether a server can take requests.
#[derive(Clone, Copy, Debug, PartialEq, Eq, Structural)]
pub enum ServerState {
    /// The server answers.
    Reachable,
    /// The server does not answer.
    NotOk,
    /// The server is switched off in its configuration.
    Disabled,
}

impl Stack {
    /// The compose project of the stack: the configured project name, or
    /// the stack's name where none is configured.
    pub open spec fn project(&self) -> Seq<char> {
        if self.config.project_name@.len() == 0 {
            self.name@
        } else {
            self.config.project_name@
        }
    }

    /// The compose project of the stack.
    pub fn project_name(&self) -> (name: String)
        ensures
            name@ == self.project(),
    {
        if self.config.project_name.as_str().is_empty() {
            self.name.clone()
        } else {
            self.config.project_name.clone()
        }
    }
}

/// What resolving a stack together with its server answers. A stack that
/// is absent, or that the user may not use at the required level, fails as
/// at the permission check. Permission on the stack is permission to use the server it
/// names: the server itself is not checked against the user. A stack with
/// no server configured, or whose server the store does not have, is
/// `NotFound`. Where the caller asks for it, a server that is not in state
/// `Reachable` is `RemoteUnavailable`.
pub open spec fn stack_and_server(
    stack: Option<Stack>,
    admin: bool,
    assignments: Seq<PermissionLevel>,
    required: PermissionLevel,
    server: Option<(Server, ServerState)>,
    block_if_server_unreachable: bool,
) -> Result<(Stack, Server), CoreError> {
    match checked(stack, admin, assignments, required) {
        Err(error) => Err(error),
        Ok(stack) => if stack.config.server_id@.len() == 0 {
            Err(CoreError::NotFound)
        } else {
            match server {
                None => Err(CoreError::NotFound),
                Some((server, state)) => if server.id@ != stack.config.server_id@ {
                    Err(CoreError::NotFound)
                } else if block_if_server_unreachable && state != ServerState::Reachable {
                    Err(CoreError::RemoteUnavailable)
                } else {
                    Ok((stack, server))
                },
            }
        },
    }
}

/// Resolves a stack together with the server it is deployed on. `stack`
/// and `server` are what the store answered for the stack's id or name and
/// for the server id in the stack's configuration; `assignments` are the
/// levels the permission source holds for the user on the stack.
pub fn get_stack_and_server(
    stack: Option<Stack>,
    user: &User,
    assignments: &Vec<PermissionLevel>,
    required: PermissionLevel,
    server: Option<(Server, ServerState)>,
    block_if_server_unreachable: bool,
) -> (outcome: Result<(Stack, Server), CoreError>)
    ensures
        outcome == stack_and_server(
            stack,
            user.admin,
            assignments@,
            required,
            server,
            block_if_server_unreachable,
        ),
{
    let stack = match get_check_permissions(stack, user, assignments, required) {
        Ok(stack) => stack,
        Err(error) => {
            return Err(error);
        },
    };
    if stack.config.server_id.as_str().is_empty() {
        return Err(CoreError::NotFound);
    }
    match server {
        None => Err(CoreError::NotFound),
        Some((server, state)) => {
            if !same_text(server.id.as_str(), stack.config.server_id.as_str()) {
                return Err(CoreError::NotFound);
            }
            let reachable = match state {
                ServerState::Reachable => true,
                _ => false,
            };
            if block_if_server_unreachable && !reachable {
                return Err(CoreError::RemoteUnavailable);
            }
            Ok((stack, server))
        },
    }
}

} // verus!
