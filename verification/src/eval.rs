//! Sandbox evaluator: compiles and runs a string of script source and reports
//! a compile or runtime failure as data, never as a thrown engine exception.
//!
//! The engine compiles and runs. What is compiled, under which origin, and what
//! is handed back for each outcome is decided here.

use vstd::prelude::*;
use url::Url;
use crate::error::BindingError;
use crate::value::{argument, get_argument, Handle, ScriptValue};

verus! {

/// Where a script comes from, as the engine records it for error reports.
#[derive(Debug, PartialEq, Eq)]
pub struct ScriptOrigin {
    pub resource_name: String,
    pub resource_line_offset: i32,
    pub resource_column_offset: i32,
    pub resource_is_shared_cross_origin: bool,
    pub script_id: i32,
    pub source_map_url: String,
    pub resource_is_opaque: bool,
    pub is_wasm: bool,
    pub is_module: bool,
}

/// The origin given to source named `resource_name`: no offsets, no source map,
/// opaque, not shared across origins, and a module or a classic script as
/// `is_module` says.
pub open spec fn is_origin_of(
    origin: ScriptOrigin,
    resource_name: Seq<char>,
    is_module: bool,
) -> bool {
    &&& origin.resource_name@ == resource_name
    &&& origin.resource_line_offset == 0
    &&& origin.resource_column_offset == 0
    &&& origin.resource_is_shared_cross_origin == false
    &&& origin.script_id == 123
    &&& origin.source_map_url@ == Seq::<char>::empty()
    &&& origin.resource_is_opaque == true
    &&& origin.is_wasm == false
    &&& origin.is_module == is_module
}

/// The origin of a classic script.
pub fn script_origin(resource_name: String) -> (origin: ScriptOrigin)
    ensures
        is_origin_of(origin, resource_name@, false),
{
    ScriptOrigin {
        resource_name,
        resource_line_offset: 0,
        resource_column_offset: 0,
        resource_is_shared_cross_origin: false,
        script_id: 123,
        source_map_url: String::new(),
        resource_is_opaque: true,
        is_wasm: false,
        is_module: false,
    }
}

/// The origin of a module.
pub fn module_origin(resource_name: String) -> (origin: ScriptOrigin)
    ensures
        is_origin_of(origin, resource_name@, true),
{
    ScriptOrigin {
        resource_name,
        resource_line_offset: 0,
        resource_column_offset: 0,
        resource_is_shared_cross_origin: false,
        script_id: 123,
        source_map_url: String::new(),
        resource_is_opaque: true,
        is_wasm: false,
        is_module: true,
    }
}

/// The `file` URL that `url::Url::from_file_path` builds for a path, as text;
/// `None` where it builds none.
pub uninterp spec fn file_url_text(path: Seq<char>) -> Option<Seq<char>>;

/// Calls `url::Url::from_file_path` and returns the URL's serialization.
///
/// Trusted: the result is a function of the path alone, and the call never
/// panics.
#[verifier::external_body]
fn file_url(path: &str) -> (url: Option<String>)
    ensures
        url matches Some(text) ==> file_url_text(path@) == Some(text@),
        url is None ==> file_url_text(path@) is None,
{
    match Url::from_file_path(path) {
        Ok(url) => Some(String::from(url)),
        Err(()) => None,
    }
}

/// The resource name under which source is compiled. A name that is text
/// gives its `file` URL, or stands as it was given where it has none; any
/// other value, and no value, gives a fixed placeholder.
pub open spec fn origin_name_text(name: ScriptValue) -> Seq<char> {
    match name {
        ScriptValue::Text(path) => match file_url_text(path@) {
            Some(url) => url,
            None => path@,
        },
        _ => "<unknown>"@,
    }
}

/// Derives the resource name from the optional name argument.
pub fn origin_name(name: Option<&ScriptValue>) -> (resource_name: String)
    ensures
        resource_name@ == origin_name_text(
            match name {
                Some(value) => *value,
                None => ScriptValue::Undefined,
            },
        ),
{
    match name {
        Some(ScriptValue::Text(path)) => {
            match file_url(path.as_str()) {
                Some(url) => url,
                None => path.clone(),
            }
        },
        _ => "<unknown>".to_owned(),
    }
}

/// A request to the engine: compile `source` as a classic script under `origin`.
#[derive(Debug, PartialEq, Eq)]
pub struct EvalRequest {
    pub source: String,
    pub origin: ScriptOrigin,
}

/// What becomes of an evaluation call with arguments `args`: a request to
/// compile the source under the origin that the name gives, or an error where
/// the source is no text.
pub open spec fn eval_request_matches(
    args: Seq<ScriptValue>,
    outcome: Result<EvalRequest, BindingError>,
) -> bool {
    match argument(args, 0) {
        ScriptValue::Text(source) => {
            &&& outcome is Ok
            &&& outcome->Ok_0.source@ == source@
            &&& is_origin_of(outcome->Ok_0.origin, origin_name_text(argument(args, 1)), false)
        },
        _ => outcome == Err::<EvalRequest, BindingError>(BindingError::InvalidArgument),
    }
}

/// Starts a sandbox evaluation. The first argument is the source and must be
/// text; the second, if it is text, names the source. A name of any form is
/// taken.
pub fn eval_context(args: &Vec<ScriptValue>) -> (outcome: Result<EvalRequest, BindingError>)
    ensures
        eval_request_matches(args@, outcome),
{
    match get_argument(args, 0) {
        Some(ScriptValue::Text(source)) => {
            let resource_name = origin_name(get_argument(args, 1));
            let origin = script_origin(resource_name);
            Ok(EvalRequest { source: source.clone(), origin })
        },
        _ => Err(BindingError::InvalidArgument),
    }
}

/// An exception that the engine caught while compiling or running.
#[derive(Clone, Copy, Debug, PartialEq, Eq, Structural)]
pub struct Thrown {
    pub exception: Handle,
    pub is_native_error: bool,
}

/// The failure report of an evaluation.
#[derive(Clone, Copy, Debug, PartialEq, Eq, Structural)]
pub struct ErrorInfo {
    pub thrown: Handle,
    pub is_native_error: bool,
    pub is_compile_error: bool,
}

/// The two slots that an evaluation returns to script code. A slot that is
/// `None` reads as `null`.
#[derive(Clone, Copy, Debug, PartialEq, Eq, Structural)]
pub struct EvalOutput {
    pub result: Option<Handle>,
    pub error: Option<ErrorInfo>,
}

/// What follows a compile attempt.
#[derive(Clone, Copy, Debug, PartialEq, Eq, Structural)]
pub enum EvalProgress {
    /// The source compiled: the engine is to run the script.
    Run(Handle),
    /// The source did not compile: the evaluation ends with this output.
    Done(EvalOutput),
}

/// The output of an evaluation that failed with `thrown`.
pub open spec fn failure(thrown: Thrown, is_compile_error: bool) -> EvalOutput {
    EvalOutput {
        result: None,
        error: Some(
            ErrorInfo {
                thrown: thrown.exception,
                is_native_error: thrown.is_native_error,
                is_compile_error,
            },
        ),
    }
}

/// The output of an evaluation that produced `value`.
pub open spec fn success(value: Handle) -> EvalOutput {
    EvalOutput { result: Some(value), error: None }
}

/// The step after compiling, for each result of the compile attempt.
pub open spec fn after_compile(compiled: Result<Handle, Thrown>) -> EvalProgress {
    match compiled {
        Ok(script) => EvalProgress::Run(script),
        Err(thrown) => EvalProgress::Done(failure(thrown, true)),
    }
}

/// The output, for each result of running the script.
pub open spec fn after_run(ran: Result<Handle, Thrown>) -> EvalOutput {
    match ran {
        Ok(value) => success(value),
        Err(thrown) => failure(thrown, false),
    }
}

/// Exactly one of the two slots holds a value.
pub open spec fn one_slot_populated(output: EvalOutput) -> bool {
    output.result is Some <==> output.error is None
}

/// Takes the result of the compile attempt: a script to run, or the exception
/// that the engine caught.
pub fn eval_context_compiled(compiled: Result<Handle, Thrown>) -> (progress: EvalProgress)
    ensures
        progress == after_compile(compiled),
        progress matches EvalProgress::Done(output) ==> one_slot_populated(output),
{
    match compiled {
        Ok(script) => EvalProgress::Run(script),
        Err(thrown) => EvalProgress::Done(
            EvalOutput {
                result: None,
                error: Some(
                    ErrorInfo {
                        thrown: thrown.exception,
                        is_native_error: thrown.is_native_error,
                        is_compile_error: true,
                    },
                ),
            },
        ),
    }
}

/// Takes the result of running the script: the value it produced, or the
/// exception that the engine caught.
pub fn eval_context_ran(ran: Result<Handle, Thrown>) -> (output: EvalOutput)
    ensures
        output == after_run(ran),
        one_slot_populated(output),
{
    match ran {
        Ok(value) => EvalOutput { result: Some(value), error: None },
        Err(thrown) => EvalOutput {
            result: None,
            error: Some(
                ErrorInfo {
                    thrown: thrown.exception,
                    is_native_error: thrown.is_native_error,
                    is_compile_error: false,
                },
            ),
        },
    }
}

} // verus!
