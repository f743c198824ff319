//! Response building: the single, total mapping from a command and its
//! execution outcome (or spawn failure) to the canonical response, shared by
//! every transport.

use vstd::prelude::*;
use crate::models::ArduinoCommand;
use crate::models::CommandResponse;
use crate::models::CommandView;
use crate::models::ExecutionOutcome;
use crate::models::OutcomeView;
use crate::models::ResponseView;

verus! {

/// Mathematical model of an execution result: the raw outcome of a process
/// that was spawned, or the text of a spawn failure.
pub open spec fn outcome_result_view(
    outcome: Result<ExecutionOutcome, String>,
) -> Result<OutcomeView, Seq<char>> {
    match outcome {
        Ok(o) => Ok(o@),
        Err(e) => Err(e@),
    }
}

/// The canonical response for a command and its execution result.
///
/// A spawn failure yields a failure response with empty output and the
/// failure text as the error. A successful exit yields a success response
/// carrying the captured stdout, with no error (stderr is discarded by
/// design). A failed exit yields a failure response carrying the captured
/// stdout, with the captured stderr as the error when it is non-empty.
/// The response always echoes the originating command and argument vector.
pub open spec fn spec_build_response(
    cmd: CommandView,
    outcome: Result<OutcomeView, Seq<char>>,
) -> ResponseView {
    match outcome {
        Err(msg) => ResponseView {
            success: false,
            output: Seq::<char>::empty(),
            error: Some(msg),
            command: cmd.command,
            args: cmd.args,
        },
        Ok(o) => {
            if o.exit_succeeded {
                ResponseView {
                    success: true,
                    output: o.stdout,
                    error: None,
                    command: cmd.command,
                    args: cmd.args,
                }
            } else {
                ResponseView {
                    success: false,
                    output: o.stdout,
                    error: if o.stderr.len() > 0 {
                        Some(o.stderr)
                    } else {
                        None
                    },
                    command: cmd.command,
                    args: cmd.args,
                }
            }
        },
    }
}

/// Maps a command and its execution result to the canonical response, as
/// [`spec_build_response`] states. This is the only place the canonical
/// response shape is produced, so every transport emits the same shape for
/// the same outcome.
pub fn build_response(cmd: ArduinoCommand, outcome: Result<ExecutionOutcome, String>) -> (r:
    CommandResponse)
    ensures
        r@ == spec_build_response(cmd@, outcome_result_view(outcome)),
{
    match outcome {
        Err(msg) => CommandResponse {
            success: false,
            output: String::new(),
            error: Some(msg),
            command: cmd.command,
            args: cmd.args,
        },
        Ok(o) => {
            if o.exit_succeeded {
                CommandResponse {
                    success: true,
                    output: o.stdout,
                    error: None,
                    command: cmd.command,
                    args: cmd.args,
                }
            } else {
                let has_stderr = !o.stderr.as_str().is_empty();
                CommandResponse {
                    success: false,
                    output: o.stdout,
                    error: if has_stderr {
                        Some(o.stderr)
                    } else {
                        None
                    },
                    command: cmd.command,
                    args: cmd.args,
                }
            }
        },
    }
}

} // verus!
