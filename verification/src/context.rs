//! The script-facing surface: which bindings a fresh context carries and under
//! which names, and the bindings that need no runtime state.

use vstd::prelude::*;
use crate::error::BindingError;
use crate::value::{argument, get_argument, Handle, ScriptValue};

verus! {

/// The native functions that script code can reach.
#[derive(Clone, Copy, Debug, PartialEq, Eq, Structural)]
pub enum Builtin {
    Print,
    Recv,
    Send,
    SetMacrotaskCallback,
    EvalContext,
    SharedGetter,
    QueueMicrotask,
    Encode,
    Decode,
    GetPromiseDetails,
    GetProxyDetails,
}

/// The objects of a fresh context on which properties are set.
#[derive(Clone, Copy, Debug, PartialEq, Eq, Structural)]
pub enum Holder {
    /// The global object.
    Global,
    /// The namespace object `Deno` on the global object.
    Namespace,
    /// The object `core` inside the namespace.
    Core,
}

/// What is installed under a property name.
#[derive(Clone, Copy, Debug, PartialEq, Eq, Structural)]
pub enum Installed {
    /// A fresh plain object, which from then on is the given holder.
    Object(Holder),
    /// A function backed by a builtin.
    Function(Builtin),
    /// A read-only accessor backed by a builtin.
    Accessor(Builtin),
}

/// One property to set while a context is built.
#[derive(Debug, PartialEq, Eq)]
pub struct Binding {
    pub holder: Holder,
    pub key: String,
    pub value: Installed,
}

/// A binding with its key as a sequence of characters.
pub struct BindingView {
    pub holder: Holder,
    pub key: Seq<char>,
    pub value: Installed,
}

impl View for Binding {
    type V = BindingView;

    open spec fn view(&self) -> BindingView {
        BindingView { holder: self.holder, key: self.key@, value: self.value }
    }
}

/// The function `builtin` under `key` on the object `core`.
pub open spec fn core_function(key: Seq<char>, builtin: Builtin) -> BindingView {
    BindingView { holder: Holder::Core, key, value: Installed::Function(builtin) }
}

/// The properties of a fresh context, in the order in which they are set.
pub open spec fn context_layout() -> Seq<BindingView> {
    seq![
        BindingView {
            holder: Holder::Global,
            key: "Deno"@,
            value: Installed::Object(Holder::Namespace),
        },
        BindingView {
            holder: Holder::Namespace,
            key: "core"@,
            value: Installed::Object(Holder::Core),
        },
        core_function("print"@, Builtin::Print),
        core_function("recv"@, Builtin::Recv),
        core_function("send"@, Builtin::Send),
        core_function("setMacrotaskCallback"@, Builtin::SetMacrotaskCallback),
        core_function("evalContext"@, Builtin::EvalContext),
        core_function("encode"@, Builtin::Encode),
        core_function("decode"@, Builtin::Decode),
        core_function("getPromiseDetails"@, Builtin::GetPromiseDetails),
        core_function("getProxyDetails"@, Builtin::GetProxyDetails),
        BindingView {
            holder: Holder::Core,
            key: "shared"@,
            value: Installed::Accessor(Builtin::SharedGetter),
        },
        BindingView {
            holder: Holder::Global,
            key: "queueMicrotask"@,
            value: Installed::Function(Builtin::QueueMicrotask),
        },
    ]
}

/// The keys and values of `layout`, in order.
pub open spec fn views_of(layout: Seq<Binding>) -> Seq<BindingView> {
    layout.map_values(|binding: Binding| binding@)
}

fn function_on_core(key: &str, builtin: Builtin) -> (binding: Binding)
    ensures
        binding@ == core_function(key@, builtin),
{
    Binding { holder: Holder::Core, key: key.to_owned(), value: Installed::Function(builtin) }
}

/// Lays out a fresh context: the namespace objects, every builtin under its
/// script-facing name, the accessor of the shared buffer, and the microtask
/// function on the global object.
pub fn initialize_context() -> (layout: Vec<Binding>)
    ensures
        views_of(layout@) == context_layout(),
{
    let mut layout: Vec<Binding> = Vec::new();
    layout.push(
        Binding {
            holder: Holder::Global,
            key: "Deno".to_owned(),
            value: Installed::Object(Holder::Namespace),
        },
    );
    layout.push(
        Binding {
            holder: Holder::Namespace,
            key: "core".to_owned(),
            value: Installed::Object(Holder::Core),
        },
    );
    layout.push(function_on_core("print", Builtin::Print));
    layout.push(function_on_core("recv", Builtin::Recv));
    layout.push(function_on_core("send", Builtin::Send));
    layout.push(function_on_core("setMacrotaskCallback", Builtin::SetMacrotaskCallback));
    layout.push(function_on_core("evalContext", Builtin::EvalContext));
    layout.push(function_on_core("encode", Builtin::Encode));
    layout.push(function_on_core("decode", Builtin::Decode));
    layout.push(function_on_core("getPromiseDetails", Builtin::GetPromiseDetails));
    layout.push(function_on_core("getProxyDetails", Builtin::GetProxyDetails));
    layout.push(
        Binding {
            holder: Holder::Core,
            key: "shared".to_owned(),
            value: Installed::Accessor(Builtin::SharedGetter),
        },
    );
    layout.push(
        Binding {
            holder: Holder::Global,
            key: "queueMicrotask".to_owned(),
            value: Installed::Function(Builtin::QueueMicrotask),
        },
    );
    assert(views_of(layout@) =~= context_layout());
    layout
}

/// The builtins whose addresses a snapshot of the engine's heap refers to, in
/// the order in which they are listed for it.
pub open spec fn reference_list() -> Seq<Builtin> {
    seq![
        Builtin::Print,
        Builtin::Recv,
        Builtin::Send,
        Builtin::SetMacrotaskCallback,
        Builtin::EvalContext,
        Builtin::SharedGetter,
        Builtin::QueueMicrotask,
        Builtin::Encode,
        Builtin::Decode,
        Builtin::GetPromiseDetails,
        Builtin::GetProxyDetails,
    ]
}

/// Lists the builtins for the engine's table of external references.
pub fn external_references() -> (references: Vec<Builtin>)
    ensures
        references@ == reference_list(),
{
    let mut references: Vec<Builtin> = Vec::new();
    references.push(Builtin::Print);
    references.push(Builtin::Recv);
    references.push(Builtin::Send);
    references.push(Builtin::SetMacrotaskCallback);
    references.push(Builtin::EvalContext);
    references.push(Builtin::SharedGetter);
    references.push(Builtin::QueueMicrotask);
    references.push(Builtin::Encode);
    references.push(Builtin::Decode);
    references.push(Builtin::GetPromiseDetails);
    references.push(Builtin::GetProxyDetails);
    assert(references@ =~= reference_list());
    references
}

/// What to write, and to which of the two output streams.
#[derive(Debug, PartialEq, Eq)]
pub struct PrintRequest {
    pub text: String,
    pub to_stderr: bool,
}

/// Whether a print call with `arg_count` arguments, the second of which
/// converts to the integer `error_flag`, writes to the error stream.
pub open spec fn prints_to_stderr(arg_count: usize, error_flag: Option<i64>) -> bool {
    arg_count == 2 && error_flag != Some(0i64)
}

/// Decides what a print call writes. `text` is the first argument as the
/// engine turned it into a string, `None` if it could not; `error_flag` is the
/// second argument as an integer. More than two arguments are not accepted,
/// and a second argument must have converted.
pub fn print(arg_count: usize, text: Option<String>, error_flag: Option<i64>) -> (request:
    PrintRequest)
    requires
        arg_count <= 2,
        arg_count == 2 ==> error_flag is Some,
    ensures
        request.to_stderr == prints_to_stderr(arg_count, error_flag),
        request.text@ == (match text {
            Some(t) => t@,
            None => Seq::<char>::empty(),
        }),
{
    let mut to_stderr = false;
    if arg_count == 2 {
        if let Some(flag) = error_flag {
            to_stderr = flag != 0;
        }
    }
    let text = match text {
        Some(t) => t,
        None => String::new(),
    };
    PrintRequest { text, to_stderr }
}

/// What a microtask call does with `args`: the function to put on the
/// engine's microtask queue, or the error to throw when the first argument is
/// no function.
pub open spec fn microtask_of(args: Seq<ScriptValue>) -> Result<Handle, BindingError> {
    match argument(args, 0) {
        ScriptValue::Function(callback) => Ok(callback),
        _ => Err(BindingError::InvalidArgument),
    }
}

/// Takes the callback of a microtask call.
pub fn queue_microtask(args: &Vec<ScriptValue>) -> (task: Result<Handle, BindingError>)
    ensures
        task == microtask_of(args@),
{
    match get_argument(args, 0) {
        Some(ScriptValue::Function(callback)) => Ok(*callback),
        _ => Err(BindingError::InvalidArgument),
    }
}

} // verus!
