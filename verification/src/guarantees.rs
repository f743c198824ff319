//! The gateway's guarantees, stated and proved over the models of the
//! validator and the response builder.

use vstd::prelude::*;
use crate::models::CommandView;
use crate::models::OutcomeView;
use crate::models::ResponseView;
use crate::response::spec_build_response;
use crate::validator::Operation;
use crate::validator::StepView;
use crate::validator::derived_args;
use crate::validator::required_fields_present;
use crate::validator::spec_operation_name;
use crate::validator::spec_validate;

verus! {

/// For every operation whose required fields are all present, validation
/// yields the derived command, and a successful execution of that command
/// yields a success response that carries the captured stdout, no error, and
/// the command's own name and argument vector — whatever stderr held.
pub proof fn lemma_valid_request_success(
    op: Operation,
    fields: Map<Seq<char>, Seq<char>>,
    stdout: Seq<char>,
    stderr: Seq<char>,
)
    requires
        required_fields_present(op, fields),
    ensures
        spec_validate(op, fields) == StepView::Execute(
            (CommandView { command: spec_operation_name(op), args: derived_args(op, fields) }),
        ),
        spec_build_response(
            (CommandView { command: spec_operation_name(op), args: derived_args(op, fields) }),
            Ok((OutcomeView { exit_succeeded: true, stdout, stderr })),
        ) == (ResponseView {
            success: true,
            output: stdout,
            error: None::<Seq<char>>,
            command: spec_operation_name(op),
            args: derived_args(op, fields),
        }),
{
}

/// A request missing a required field is stopped by validation alone: the
/// validator replies directly with a failure response that carries an error
/// and no output, and it yields no command, so nothing is ever handed to an
/// executor for that request.
pub proof fn lemma_missing_field_stops_pipeline(op: Operation, fields: Map<Seq<char>, Seq<char>>)
    requires
        !required_fields_present(op, fields),
    ensures
        spec_validate(op, fields) is Reply,
        !(spec_validate(op, fields) is Execute),
        spec_validate(op, fields)->Reply_0.success == false,
        spec_validate(op, fields)->Reply_0.error is Some,
        spec_validate(op, fields)->Reply_0.output == Seq::<char>::empty(),
{
}

/// Every response echoes the command name and argument vector of its own
/// originating command, whatever the execution result. Each concurrently
/// dispatched pipeline owns its command, so responses cannot be contaminated
/// by other in-flight operations.
pub proof fn lemma_response_echoes_command(
    cmd: CommandView,
    outcome: Result<OutcomeView, Seq<char>>,
)
    ensures
        spec_build_response(cmd, outcome).command == cmd.command,
        spec_build_response(cmd, outcome).args == cmd.args,
{
}

/// A response reports success exactly when the process was spawned and
/// exited with success status: spawn failures and failed exits always yield
/// a failure response.
pub proof fn lemma_success_iff_clean_exit(
    cmd: CommandView,
    outcome: Result<OutcomeView, Seq<char>>,
)
    ensures
        spec_build_response(cmd, outcome).success == (outcome matches Ok(o)
            && o.exit_succeeded),
{
}

/// A response carries an error exactly on a spawn failure or on a failed
/// exit whose captured stderr is non-empty: a clean exit never surfaces an
/// error, and a failed exit with empty stderr surfaces none either.
pub proof fn lemma_error_iff_failure_with_cause(
    cmd: CommandView,
    outcome: Result<OutcomeView, Seq<char>>,
)
    ensures
        spec_build_response(cmd, outcome).error is Some <==> (outcome is Err || (outcome
            matches Ok(o) && !o.exit_succeeded && o.stderr.len() > 0)),
{
}

/// Whenever the process was spawned, the response's output is the captured
/// stdout, whatever the exit status; a spawn failure yields empty output,
/// since no stream was ever captured.
pub proof fn lemma_output_is_captured_stdout(
    cmd: CommandView,
    outcome: Result<OutcomeView, Seq<char>>,
)
    ensures
        outcome matches Ok(o) ==> spec_build_response(cmd, outcome).output == o.stdout,
        outcome is Err ==> spec_build_response(cmd, outcome).output == Seq::<char>::empty(),
{
}

/// A response that carries an error never reports success, and a success
/// response never carries an error.
pub proof fn lemma_error_excludes_success(
    cmd: CommandView,
    outcome: Result<OutcomeView, Seq<char>>,
)
    ensures
        spec_build_response(cmd, outcome).error is Some ==> !spec_build_response(
            cmd,
            outcome,
        ).success,
        spec_build_response(cmd, outcome).success ==> spec_build_response(cmd, outcome).error
            is None,
{
}

} // verus!
