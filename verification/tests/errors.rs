use script_bridge::error::{
    throw_type_error, BindingError, CallbackKind, ErrorClass, OpIdFault,
};

#[test]
fn unknown_op_message_names_the_id() {
    assert_eq!(BindingError::UnknownOpId { op_id: 0 }.message(), "Unknown op id: 0");
    assert_eq!(BindingError::UnknownOpId { op_id: 7 }.message(), "Unknown op id: 7");
    assert_eq!(BindingError::UnknownOpId { op_id: 10 }.message(), "Unknown op id: 10");
    assert_eq!(BindingError::UnknownOpId { op_id: 4096 }.message(), "Unknown op id: 4096");
    assert_eq!(
        BindingError::UnknownOpId { op_id: usize::MAX }.message(),
        format!("Unknown op id: {}", usize::MAX)
    );
}

#[test]
fn invalid_argument_message_names_the_position() {
    assert_eq!(
        BindingError::InvalidArgumentAt { position: 3 }.message(),
        "Invalid argument at position 3: expected a buffer view"
    );
    assert_eq!(
        BindingError::InvalidArgumentAt { position: 12 }.message(),
        "Invalid argument at position 12: expected a buffer view"
    );
}

#[test]
fn invalid_op_id_messages() {
    assert_eq!(
        BindingError::InvalidOpId(OpIdFault::NotAnInteger).message(),
        "invalid op id: expected an integer"
    );
    assert_eq!(
        BindingError::InvalidOpId(OpIdFault::OutOfRange).message(),
        "invalid op id: out of range integral type conversion attempted"
    );
    assert_eq!(
        BindingError::InvalidOpId(OpIdFault::Reserved).message(),
        "invalid op id: 0 is reserved"
    );
}

#[test]
fn fixed_messages() {
    assert_eq!(
        BindingError::AlreadyRegistered(CallbackKind::Receive).message(),
        "Deno.core.recv() already called"
    );
    assert_eq!(
        BindingError::AlreadyRegistered(CallbackKind::Macrotask).message(),
        "Deno.core.setMacrotaskCallback() already called"
    );
    assert_eq!(BindingError::NotAFunction.message(), "expected a function");
    assert_eq!(BindingError::InvalidArgument.message(), "Invalid argument");
    assert_eq!(BindingError::StringTooLong.message(), "string too long");
}

#[test]
fn only_long_strings_are_range_errors() {
    assert_eq!(BindingError::StringTooLong.class(), ErrorClass::RangeError);
    assert_eq!(BindingError::InvalidArgument.class(), ErrorClass::TypeError);
    assert_eq!(BindingError::NotAFunction.class(), ErrorClass::TypeError);
    assert_eq!(BindingError::UnknownOpId { op_id: 1 }.class(), ErrorClass::TypeError);
    assert_eq!(BindingError::InvalidArgumentAt { position: 1 }.class(), ErrorClass::TypeError);
    assert_eq!(
        BindingError::InvalidOpId(OpIdFault::OutOfRange).class(),
        ErrorClass::TypeError
    );
    assert_eq!(
        BindingError::AlreadyRegistered(CallbackKind::Receive).class(),
        ErrorClass::TypeError
    );
}

#[test]
fn exception_carries_class_and_message() {
    let exception = BindingError::StringTooLong.to_exception();
    assert_eq!(exception.class, ErrorClass::RangeError);
    assert_eq!(exception.message, "string too long");
    let exception = throw_type_error("boom");
    assert_eq!(exception.class, ErrorClass::TypeError);
    assert_eq!(exception.message, "boom");
}
