//! Data model of the gateway: the canonical command, the raw execution
//! outcome, and the canonical response shared by every transport.

use vstd::prelude::*;

verus! {

/// Canonical representation of one operation request: the logical operation
/// name (for example `board` or `compile`) and the exact, ordered argument
/// vector to hand to the external process.
pub struct ArduinoCommand {
    pub command: String,
    pub args: Vec<String>,
}

/// Mathematical model of an [`ArduinoCommand`].
pub struct CommandView {
    pub command: Seq<char>,
    pub args: Seq<Seq<char>>,
}

impl View for ArduinoCommand {
    type V = CommandView;

    open spec fn view(&self) -> CommandView {
        CommandView { command: self.command@, args: self.args.deep_view() }
    }
}

/// Raw result of running an [`ArduinoCommand`]: whether the process exited
/// with a success status, and its captured output streams decoded as text.
pub struct ExecutionOutcome {
    pub exit_succeeded: bool,
    pub stdout: String,
    pub stderr: String,
}

/// Mathematical model of an [`ExecutionOutcome`].
pub struct OutcomeView {
    pub exit_succeeded: bool,
    pub stdout: Seq<char>,
    pub stderr: Seq<char>,
}

impl View for ExecutionOutcome {
    type V = OutcomeView;

    open spec fn view(&self) -> OutcomeView {
        OutcomeView {
            exit_succeeded: self.exit_succeeded,
            stdout: self.stdout@,
            stderr: self.stderr@,
        }
    }
}

/// Canonical, transport-agnostic response. `success` is true iff validation
/// passed, the process was spawned, and it exited with success status.
/// `command` and `args` always echo the originating command, or the
/// best-effort operation name and arguments known at the point of failure.
pub struct CommandResponse {
    pub success: bool,
    pub output: String,
    pub error: Option<String>,
    pub command: String,
    pub args: Vec<String>,
}

/// Mathematical model of a [`CommandResponse`].
pub struct ResponseView {
    pub success: bool,
    pub output: Seq<char>,
    pub error: Option<Seq<char>>,
    pub command: Seq<char>,
    pub args: Seq<Seq<char>>,
}

impl View for CommandResponse {
    type V = ResponseView;

    open spec fn view(&self) -> ResponseView {
        ResponseView {
            success: self.success,
            output: self.output@,
            error: self.error.deep_view(),
            command: self.command@,
            args: self.args.deep_view(),
        }
    }
}

} // verus!
