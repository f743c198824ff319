//! Request validation: turns a loosely-typed transport payload into a
//! canonical [`ArduinoCommand`], or fails fast with a field-level
//! validation-error response before any process is spawned.

use vstd::prelude::*;
use crate::models::ArduinoCommand;
use crate::models::CommandResponse;
use crate::models::CommandView;
use crate::models::ResponseView;

verus! {

/// The fixed catalogue of operations the gateway exposes.
#[derive(Clone, Copy, Debug)]
pub enum Operation {
    ListBoards,
    ListConnectedBoards,
    ListCores,
    InstallCore,
    CompileSketch,
    UploadSketch,
}

/// What validation decided for one request: either a ready validation-error
/// response (no process is ever spawned for it), or a canonical command to
/// hand to the executor.
pub enum PipelineStep {
    Reply(CommandResponse),
    Execute(ArduinoCommand),
}

/// Mathematical model of a [`PipelineStep`].
pub enum StepView {
    Reply(ResponseView),
    Execute(CommandView),
}

impl View for PipelineStep {
    type V = StepView;

    open spec fn view(&self) -> StepView {
        match self {
            PipelineStep::Reply(r) => StepView::Reply(r@),
            PipelineStep::Execute(c) => StepView::Execute(c@),
        }
    }
}

#[verifier::external_type_specification]
#[verifier::external_body]
pub struct ExValue(serde_json::Value);

/// The string-valued fields of a JSON payload: the map from each key of the
/// payload (when it is a JSON object) to its value, restricted to the keys
/// whose value is a JSON string.
pub uninterp spec fn json_str_fields(v: serde_json::Value) -> Map<Seq<char>, Seq<char>>;

/// Relies on `serde_json::Value::get` (with a string index, it returns the
/// value at that key iff the payload is a JSON object containing the key)
/// and `serde_json::Value::as_str` (it returns the contained text iff that
/// value is a JSON string): together they look one string-valued field up.
#[verifier::external_body]
fn get_str_field(payload: &serde_json::Value, key: &str) -> (r: Option<String>)
    ensures
        r is Some <==> json_str_fields(*payload).dom().contains(key@),
        r matches Some(s) ==> s@ == json_str_fields(*payload)[key@],
{
    payload.get(key).and_then(serde_json::Value::as_str).map(str::to_owned)
}

/// The logical name of the external subcommand each operation maps to.
pub open spec fn spec_operation_name(op: Operation) -> Seq<char> {
    match op {
        Operation::ListBoards => "board"@,
        Operation::ListConnectedBoards => "board"@,
        Operation::ListCores => "core"@,
        Operation::InstallCore => "core"@,
        Operation::CompileSketch => "compile"@,
        Operation::UploadSketch => "upload"@,
    }
}

/// Whether a payload carries every field the operation requires.
/// Validation is purely structural: a field counts as present exactly when
/// it is a string-valued field of the payload.
pub open spec fn required_fields_present(op: Operation, fields: Map<Seq<char>, Seq<char>>) -> bool {
    match op {
        Operation::ListBoards => true,
        Operation::ListConnectedBoards => true,
        Operation::ListCores => true,
        Operation::InstallCore => fields.dom().contains("core_name"@),
        Operation::CompileSketch => fields.dom().contains("sketch_path"@),
        Operation::UploadSketch => {
            &&& fields.dom().contains("sketch_path"@)
            &&& fields.dom().contains("port"@)
            &&& fields.dom().contains("fqbn"@)
        },
    }
}

/// The canonical response for a request that failed validation: no output,
/// an error naming the missing field, and the attempted operation name with
/// the arguments known at the point of failure.
pub open spec fn validation_error(
    command: Seq<char>,
    args: Seq<Seq<char>>,
    message: Seq<char>,
) -> ResponseView {
    ResponseView {
        success: false,
        output: Seq::<char>::empty(),
        error: Some(message),
        command: command,
        args: args,
    }
}

/// The derived argument vector for an operation whose required fields are
/// all present.
pub open spec fn derived_args(op: Operation, fields: Map<Seq<char>, Seq<char>>) -> Seq<Seq<char>> {
    match op {
        Operation::ListBoards => seq!["listall"@, "--format"@, "json"@],
        Operation::ListConnectedBoards => seq!["list"@, "--format"@, "json"@],
        Operation::ListCores => seq!["list"@, "--format"@, "json"@],
        Operation::InstallCore => seq!["install"@, fields["core_name"@]],
        Operation::CompileSketch => {
            if fields.dom().contains("fqbn"@) {
                seq!["--fqbn"@, fields["fqbn"@], fields["sketch_path"@]]
            } else {
                seq![fields["sketch_path"@]]
            }
        },
        Operation::UploadSketch => seq![
            "--port"@,
            fields["port"@],
            "--fqbn"@,
            fields["fqbn"@],
            fields["sketch_path"@],
        ],
    }
}

/// The validation-error response for an operation with a missing required
/// field: the error names the first missing field, and the argument vector
/// echoes what was known at the point of failure. Only meaningful when a
/// required field is missing; the listing operations require none and never
/// fail validation.
pub open spec fn failed_validation(op: Operation, fields: Map<Seq<char>, Seq<char>>) -> ResponseView {
    match op {
        Operation::InstallCore => validation_error(
            "core"@,
            seq!["install"@],
            "Missing core name"@,
        ),
        Operation::CompileSketch => validation_error(
            "compile"@,
            Seq::<Seq<char>>::empty(),
            "Missing sketch path"@,
        ),
        Operation::UploadSketch => {
            if !fields.dom().contains("sketch_path"@) {
                validation_error("upload"@, Seq::<Seq<char>>::empty(), "Missing sketch path"@)
            } else if !fields.dom().contains("port"@) {
                validation_error("upload"@, Seq::<Seq<char>>::empty(), "Missing port"@)
            } else {
                validation_error("upload"@, Seq::<Seq<char>>::empty(), "Missing FQBN"@)
            }
        },
        _ => validation_error(
            spec_operation_name(op),
            Seq::<Seq<char>>::empty(),
            Seq::<char>::empty(),
        ),
    }
}

/// What validation yields for an operation over the string-valued fields of
/// its payload: a command when every required field is present, and a
/// validation-error response otherwise.
pub open spec fn spec_validate(op: Operation, fields: Map<Seq<char>, Seq<char>>) -> StepView {
    if required_fields_present(op, fields) {
        StepView::Execute(
            CommandView { command: spec_operation_name(op), args: derived_args(op, fields) },
        )
    } else {
        StepView::Reply(failed_validation(op, fields))
    }
}

/// Pushes one more argument onto an argument vector being built.
fn push_arg(args: &mut Vec<String>, arg: &str)
    ensures
        final(args).deep_view() == old(args).deep_view().push(arg@),
{
    args.push(arg.to_owned());
    proof {
        assert(args.deep_view() =~= old(args).deep_view().push(arg@));
    }
}

/// Pushes one more owned argument onto an argument vector being built.
fn push_owned_arg(args: &mut Vec<String>, arg: String)
    ensures
        final(args).deep_view() == old(args).deep_view().push(arg@),
{
    args.push(arg);
    proof {
        assert(args.deep_view() =~= old(args).deep_view().push(arg@));
    }
}

/// Builds the canonical validation-error response for a missing field.
fn validation_failure(command: &str, args: Vec<String>, message: &str) -> (r: CommandResponse)
    ensures
        r@ == validation_error(command@, args.deep_view(), message@),
{
    CommandResponse {
        success: false,
        output: String::new(),
        error: Some(message.to_owned()),
        command: command.to_owned(),
        args: args,
    }
}

/// Converts a transport payload into a canonical command for the requested
/// operation, or rejects it with a validation-error response naming the
/// missing field. Validation is purely structural and spawns nothing.
pub fn validate_request(op: Operation, payload: &serde_json::Value) -> (r: PipelineStep)
    ensures
        r@ == spec_validate(op, json_str_fields(*payload)),
{
    let ghost fields = json_str_fields(*payload);
    match op {
        Operation::ListBoards => {
            let mut args: Vec<String> = Vec::new();
            push_arg(&mut args, "listall");
            push_arg(&mut args, "--format");
            push_arg(&mut args, "json");
            proof {
                assert(args.deep_view() =~= derived_args(op, fields));
            }
            PipelineStep::Execute(ArduinoCommand { command: "board".to_owned(), args })
        },
        Operation::ListConnectedBoards => {
            let mut args: Vec<String> = Vec::new();
            push_arg(&mut args, "list");
            push_arg(&mut args, "--format");
            push_arg(&mut args, "json");
            proof {
                assert(args.deep_view() =~= derived_args(op, fields));
            }
            PipelineStep::Execute(ArduinoCommand { command: "board".to_owned(), args })
        },
        Operation::ListCores => {
            let mut args: Vec<String> = Vec::new();
            push_arg(&mut args, "list");
            push_arg(&mut args, "--format");
            push_arg(&mut args, "json");
            proof {
                assert(args.deep_view() =~= derived_args(op, fields));
            }
            PipelineStep::Execute(ArduinoCommand { command: "core".to_owned(), args })
        },
        Operation::InstallCore => {
            match get_str_field(payload, "core_name") {
                Some(core_name) => {
                    let mut args: Vec<String> = Vec::new();
                    push_arg(&mut args, "install");
                    push_owned_arg(&mut args, core_name);
                    proof {
                        assert(args.deep_view() =~= derived_args(op, fields));
                    }
                    PipelineStep::Execute(ArduinoCommand { command: "core".to_owned(), args })
                },
                None => {
                    let mut args: Vec<String> = Vec::new();
                    push_arg(&mut args, "install");
                    proof {
                        assert(args.deep_view() =~= seq!["install"@]);
                    }
                    PipelineStep::Reply(validation_failure("core", args, "Missing core name"))
                },
            }
        },
        Operation::CompileSketch => {
            match get_str_field(payload, "sketch_path") {
                Some(sketch_path) => {
                    let mut args: Vec<String> = Vec::new();
                    if let Some(fqbn) = get_str_field(payload, "fqbn") {
                        push_arg(&mut args, "--fqbn");
                        push_owned_arg(&mut args, fqbn);
                    }
                    push_owned_arg(&mut args, sketch_path);
                    proof {
                        assert(args.deep_view() =~= derived_args(op, fields));
                    }
                    PipelineStep::Execute(ArduinoCommand { command: "compile".to_owned(), args })
                },
                None => {
                    let args: Vec<String> = Vec::new();
                    proof {
                        assert(args.deep_view() =~= Seq::<Seq<char>>::empty());
                    }
                    PipelineStep::Reply(validation_failure("compile", args, "Missing sketch path"))
                },
            }
        },
        Operation::UploadSketch => {
            let sketch_path = match get_str_field(payload, "sketch_path") {
                Some(p) => p,
                None => {
                    let args: Vec<String> = Vec::new();
                    proof {
                        assert(args.deep_view() =~= Seq::<Seq<char>>::empty());
                    }
                    return PipelineStep::Reply(
                        validation_failure("upload", args, "Missing sketch path"),
                    );
                },
            };
            let port = match get_str_field(payload, "port") {
                Some(p) => p,
                None => {
                    let args: Vec<String> = Vec::new();
                    proof {
                        assert(args.deep_view() =~= Seq::<Seq<char>>::empty());
                    }
                    return PipelineStep::Reply(validation_failure("upload", args, "Missing port"));
                },
            };
            let fqbn = match get_str_field(payload, "fqbn") {
                Some(f) => f,
                None => {
                    let args: Vec<String> = Vec::new();
                    proof {
                        assert(args.deep_view() =~= Seq::<Seq<char>>::empty());
                    }
                    return PipelineStep::Reply(validation_failure("upload", args, "Missing FQBN"));
                },
            };
            let mut args: Vec<String> = Vec::new();
            push_arg(&mut args, "--port");
            push_owned_arg(&mut args, port);
            push_arg(&mut args, "--fqbn");
            push_owned_arg(&mut args, fqbn);
            push_owned_arg(&mut args, sketch_path);
            proof {
                assert(args.deep_view() =~= derived_args(op, fields));
            }
            PipelineStep::Execute(ArduinoCommand { command: "upload".to_owned(), args })
        },
    }
}

} // verus!
