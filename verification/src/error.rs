//! Errors that a binding reports to the script that called it.

use vstd::prelude::*;
use vstd::string::*;

verus! {

/// Why the first argument of a dispatch names no operation.
#[derive(Clone, Copy, Debug, PartialEq, Eq, Structural)]
pub enum OpIdFault {
    /// The argument is missing or is not an integer.
    NotAnInteger,
    /// The integer is negative or too large for an operation id.
    OutOfRange,
    /// The id is the one under which nothing is ever registered.
    Reserved,
}

/// The two callbacks of which a runtime instance holds at most one each.
#[derive(Clone, Copy, Debug, PartialEq, Eq, Structural)]
pub enum CallbackKind {
    Receive,
    Macrotask,
}

/// The kind of script error that is thrown for a failure.
#[derive(Clone, Copy, Debug, PartialEq, Eq, Structural)]
pub enum ErrorClass {
    TypeError,
    RangeError,
}

/// A failure that a binding hands back to script code as a thrown error.
#[derive(Clone, Copy, Debug, PartialEq, Eq, Structural)]
pub enum BindingError {
    /// The first argument of a dispatch names no operation id.
    InvalidOpId(OpIdFault),
    /// The dispatch argument at `position` is not a byte view.
    InvalidArgumentAt { position: usize },
    /// No handler is registered under `op_id`.
    UnknownOpId { op_id: usize },
    /// The callback was registered before.
    AlreadyRegistered(CallbackKind),
    /// A callback was expected and the argument is not a function.
    NotAFunction,
    /// The argument has the wrong type for the binding.
    InvalidArgument,
    /// The decoded text is longer than the engine's strings can be.
    StringTooLong,
}

/// An error value ready to be thrown into script code.
#[derive(Debug, PartialEq, Eq)]
pub struct Exception {
    pub class: ErrorClass,
    pub message: String,
}

/// The character of a decimal digit.
pub open spec fn digit_char(d: nat) -> char {
    if d == 0 {
        '0'
    } else if d == 1 {
        '1'
    } else if d == 2 {
        '2'
    } else if d == 3 {
        '3'
    } else if d == 4 {
        '4'
    } else if d == 5 {
        '5'
    } else if d == 6 {
        '6'
    } else if d == 7 {
        '7'
    } else if d == 8 {
        '8'
    } else {
        '9'
    }
}

/// The decimal numeral of `n`, without sign or leading zeros.
pub open spec fn decimal(n: nat) -> Seq<char>
    decreases n,
{
    if n < 10 {
        seq![digit_char(n)]
    } else {
        decimal(n / 10).push(digit_char(n % 10))
    }
}

fn digit_str(d: usize) -> (s: &'static str)
    requires
        d < 10,
    ensures
        s@ == seq![digit_char(d as nat)],
{
    proof {
        reveal_strlit("0");
        reveal_strlit("1");
        reveal_strlit("2");
        reveal_strlit("3");
        reveal_strlit("4");
        reveal_strlit("5");
        reveal_strlit("6");
        reveal_strlit("7");
        reveal_strlit("8");
        reveal_strlit("9");
    }
    let s = if d == 0 {
        "0"
    } else if d == 1 {
        "1"
    } else if d == 2 {
        "2"
    } else if d == 3 {
        "3"
    } else if d == 4 {
        "4"
    } else if d == 5 {
        "5"
    } else if d == 6 {
        "6"
    } else if d == 7 {
        "7"
    } else if d == 8 {
        "8"
    } else {
        "9"
    };
    assert(s@ =~= seq![digit_char(d as nat)]);
    s
}

/// Appends the decimal numeral of `n` to `out`.
pub fn push_decimal(out: &mut String, n: usize)
    ensures
        final(out)@ == old(out)@ + decimal(n as nat),
    decreases n,
{
    if n >= 10 {
        push_decimal(out, n / 10);
    }
    out.append(digit_str(n % 10));
    assert(out@ =~= old(out)@ + decimal(n as nat));
}

/// What is wrong with an argument that should have named an operation.
pub open spec fn op_id_fault_text(fault: OpIdFault) -> Seq<char> {
    match fault {
        OpIdFault::NotAnInteger => "expected an integer"@,
        OpIdFault::OutOfRange => "out of range integral type conversion attempted"@,
        OpIdFault::Reserved => "0 is reserved"@,
    }
}

/// The message with which a callback registration is refused the second time.
pub open spec fn already_registered_text(kind: CallbackKind) -> Seq<char> {
    match kind {
        CallbackKind::Receive => "Deno.core.recv() already called"@,
        CallbackKind::Macrotask => "Deno.core.setMacrotaskCallback() already called"@,
    }
}

/// The message that script code reads on the thrown error.
pub open spec fn message_text(error: BindingError) -> Seq<char> {
    match error {
        BindingError::InvalidOpId(fault) => "invalid op id: "@ + op_id_fault_text(fault),
        BindingError::InvalidArgumentAt { position } => "Invalid argument at position "@ + decimal(
            position as nat,
        ) + ": expected a buffer view"@,
        BindingError::UnknownOpId { op_id } => "Unknown op id: "@ + decimal(op_id as nat),
        BindingError::AlreadyRegistered(kind) => already_registered_text(kind),
        BindingError::NotAFunction => "expected a function"@,
        BindingError::InvalidArgument => "Invalid argument"@,
        BindingError::StringTooLong => "string too long"@,
    }
}

/// The class of error that is thrown for `error`.
pub open spec fn class_of(error: BindingError) -> ErrorClass {
    match error {
        BindingError::StringTooLong => ErrorClass::RangeError,
        _ => ErrorClass::TypeError,
    }
}

impl BindingError {
    /// A range error for text that is too long, a type error for all else.
    pub fn class(&self) -> (class: ErrorClass)
        ensures
            class == class_of(*self),
    {
        match self {
            BindingError::StringTooLong => ErrorClass::RangeError,
            _ => ErrorClass::TypeError,
        }
    }

    /// The message of the thrown error.
    pub fn message(&self) -> (text: String)
        ensures
            text@ == message_text(*self),
    {
        match self {
            BindingError::InvalidOpId(fault) => {
                let mut text = "invalid op id: ".to_owned();
                match fault {
                    OpIdFault::NotAnInteger => text.append("expected an integer"),
                    OpIdFault::OutOfRange => text.append(
                        "out of range integral type conversion attempted",
                    ),
                    OpIdFault::Reserved => text.append("0 is reserved"),
                }
                text
            },
            BindingError::InvalidArgumentAt { position } => {
                let mut text = "Invalid argument at position ".to_owned();
                push_decimal(&mut text, *position);
                text.append(": expected a buffer view");
                text
            },
            BindingError::UnknownOpId { op_id } => {
                let mut text = "Unknown op id: ".to_owned();
                push_decimal(&mut text, *op_id);
                text
            },
            BindingError::AlreadyRegistered(kind) => match kind {
                CallbackKind::Receive => "Deno.core.recv() already called".to_owned(),
                CallbackKind::Macrotask => {
                    "Deno.core.setMacrotaskCallback() already called".to_owned()
                },
            },
            BindingError::NotAFunction => "expected a function".to_owned(),
            BindingError::InvalidArgument => "Invalid argument".to_owned(),
            BindingError::StringTooLong => "string too long".to_owned(),
        }
    }

    /// The error value to throw into script code.
    pub fn to_exception(&self) -> (exception: Exception)
        ensures
            exception.class == class_of(*self),
            exception.message@ == message_text(*self),
    {
        Exception { class: self.class(), message: self.message() }
    }
}

/// The type error that carries `message`.
pub fn throw_type_error(message: &str) -> (exception: Exception)
    ensures
        exception.class == ErrorClass::TypeError,
        exception.message@ == message@,
{
    Exception { class: ErrorClass::TypeError, message: message.to_owned() }
}

} // verus!
