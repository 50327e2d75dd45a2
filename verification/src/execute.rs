//! The actions that can be executed against a stack, each with the command
//! it sends to the remote agent.

use vstd::prelude::*;
use crate::command::{build_command, command_line, service_view};

verus! {

/// An action on a stack that is carried out by one compose command on the
/// stack's server.
pub trait ExecuteCompose {
    /// What the action takes besides the optional service name.
    type Extras;

    /// The command for this action.
    spec fn command_spec(service: Option<Seq<char>>, extras: Self::Extras) -> Seq<char>;

    /// Builds the command for this action.
    fn command(service: &Option<String>, extras: Self::Extras) -> (command: String)
        ensures
            command@ == Self::command_spec(service_view(service), extras),
    ;
}

/// Starts a stopped stack, or one service of it.
pub struct StartStack {
    /// Id or name of the stack.
    pub stack: String,
    /// The service to address; the whole stack when absent.
    pub service: Option<String>,
}

/// Restarts a stack, or one service of it.
pub struct RestartStack {
    /// Id or name of the stack.
    pub stack: String,
    /// The service to address; the whole stack when absent.
    pub service: Option<String>,
}

/// Pauses a running stack, or one service of it.
pub struct PauseStack {
    /// Id or name of the stack.
    pub stack: String,
    /// The service to address; the whole stack when absent.
    pub service: Option<String>,
}

/// Resumes a paused stack, or one service of it.
pub struct UnpauseStack {
    /// Id or name of the stack.
    pub stack: String,
    /// The service to address; the whole stack when absent.
    pub service: Option<String>,
}

/// Stops a running stack, or one service of it.
pub struct StopStack {
    /// Id or name of the stack.
    pub stack: String,
    /// Seconds to wait for the containers before they are killed.
    pub stop_time: Option<i32>,
    /// The service to address; the whole stack when absent.
    pub service: Option<String>,
}

/// Takes a stack down, or one service of it.
pub struct DestroyStack {
    /// Id or name of the stack.
    pub stack: String,
    /// The service to address; the whole stack when absent.
    pub service: Option<String>,
    /// Whether containers of services no longer declared are removed too.
    pub remove_orphans: bool,
    /// Seconds to wait for the containers before they are killed.
    pub stop_time: Option<i32>,
}

impl ExecuteCompose for StartStack {
    type Extras = ();

    open spec fn command_spec(service: Option<Seq<char>>, extras: ()) -> Seq<char> {
        command_line("start"@, None, false, service)
    }

    fn command(service: &Option<String>, extras: ()) -> (command: String) {
        build_command("start", None, false, service)
    }
}

impl ExecuteCompose for RestartStack {
    type Extras = ();

    open spec fn command_spec(service: Option<Seq<char>>, extras: ()) -> Seq<char> {
        command_line("restart"@, None, false, service)
    }

    fn command(service: &Option<String>, extras: ()) -> (command: String) {
        build_command("restart", None, false, service)
    }
}

impl ExecuteCompose for PauseStack {
    type Extras = ();

    open spec fn command_spec(service: Option<Seq<char>>, extras: ()) -> Seq<char> {
        command_line("pause"@, None, false, service)
    }

    fn command(service: &Option<String>, extras: ()) -> (command: String) {
        build_command("pause", None, false, service)
    }
}

impl ExecuteCompose for UnpauseStack {
    type Extras = ();

    open spec fn command_spec(service: Option<Seq<char>>, extras: ()) -> Seq<char> {
        command_line("unpause"@, None, false, service)
    }

    fn command(service: &Option<String>, extras: ()) -> (command: String) {
        build_command("unpause", None, false, service)
    }
}

impl ExecuteCompose for StopStack {
    type Extras = Option<i32>;

    open spec fn command_spec(service: Option<Seq<char>>, extras: Option<i32>) -> Seq<char> {
        command_line("stop"@, extras, false, service)
    }

    fn command(service: &Option<String>, extras: Option<i32>) -> (command: String) {
        build_command("stop", extras, false, service)
    }
}

impl ExecuteCompose for DestroyStack {
    type Extras = (Option<i32>, bool);

    open spec fn command_spec(service: Option<Seq<char>>, extras: (Option<i32>, bool)) -> Seq<
        char,
    > {
        command_line("down"@, extras.0, extras.1, service)
    }

    fn command(service: &Option<String>, extras: (Option<i32>, bool)) -> (command: String) {
        build_command("down", extras.0, extras.1, service)
    }
}

} // verus!
