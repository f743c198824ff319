//! Outcome normalization and the startup health probe: the verified side of
//! process execution. Spawning the external binary is I/O and lives outside
//! the library; the raw exit status and byte streams it hands back are
//! normalized here into an [`ExecutionOutcome`].

use vstd::prelude::*;
use crate::models::ArduinoCommand;
use crate::models::ExecutionOutcome;

verus! {

/// The text that lossy decoding yields for a byte sequence.
pub uninterp spec fn lossy_text(bytes: Seq<u8>) -> Seq<char>;

/// Relies on `String::from_utf8_lossy`: the decoding is a pure function of
/// the bytes alone, it never fails (invalid sequences are replaced, not
/// dropped), and an empty input decodes to the empty string.
#[verifier::external_body]
fn decode_lossy(bytes: &Vec<u8>) -> (r: String)
    ensures
        r@ == lossy_text(bytes@),
        bytes@.len() == 0 ==> r@.len() == 0,
{
    String::from_utf8_lossy(bytes).into_owned()
}

/// Normalizes the raw result of a spawned process — its exit status and
/// captured byte streams — into an execution outcome. The streams are
/// decoded as text with lossy substitution, never a fatal condition.
pub fn outcome_from_raw(exit_succeeded: bool, stdout: Vec<u8>, stderr: Vec<u8>) -> (r:
    ExecutionOutcome)
    ensures
        r.exit_succeeded == exit_succeeded,
        r.stdout@ == lossy_text(stdout@),
        r.stderr@ == lossy_text(stderr@),
{
    ExecutionOutcome {
        exit_succeeded: exit_succeeded,
        stdout: decode_lossy(&stdout),
        stderr: decode_lossy(&stderr),
    }
}

/// The no-op invocation the startup health probe runs: the external binary's
/// own version report, which succeeds exactly when the binary is present and
/// executable.
pub fn health_probe_command() -> (r: ArduinoCommand)
    ensures
        r@.command == "version"@,
        r@.args == Seq::<Seq<char>>::empty(),
{
    let args: Vec<String> = Vec::new();
    proof {
        assert(args.deep_view() =~= Seq::<Seq<char>>::empty());
    }
    ArduinoCommand { command: "version".to_owned(), args }
}

/// Whether the startup health probe passed: the probe process was spawned
/// and exited with success status. A failed probe is fatal to the service,
/// which must not accept traffic it cannot serve.
pub fn health_probe_passed(outcome: &Result<ExecutionOutcome, String>) -> (r: bool)
    ensures
        r == ((*outcome) matches Ok(o) && o.exit_succeeded),
{
    match outcome {
        Ok(o) => o.exit_succeeded,
        Err(_) => false,
    }
}

} // verus!
