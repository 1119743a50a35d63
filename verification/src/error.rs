//! The canonical error value and the conversions into and out of it.

use std::collections::BTreeMap;
use vstd::prelude::*;
use crate::decimal::{decimal_digits, decimal_string};
use crate::foreign::{invalid_data_error, new_invalid_data};
use crate::kind::{ErrorKind, KindView};

verus! {

/// What a type must offer to take part in the taxonomy.
///
/// The kind belongs to the type, not to a value: all values of one type share
/// it. The message, the classification string (by convention
/// `"<side>::<kind name>::<type name>"`) and the details belong to the value.
pub trait AsError {
    /// The kind that every value of this type belongs to.
    fn kind() -> ErrorKind;

    /// A human-readable message for this value.
    fn message(&self) -> String;

    /// The classification string of this value.
    fn class(&self) -> String;

    /// Structured details of this value, if it has any.
    fn details(&self) -> Option<BTreeMap<String, serde_value::Value>>;
}

/// The canonical error: the one shape that every [`AsError`] value converts
/// into.
#[derive(Debug)]
pub struct Error {
    /// The kind of the error. It serves in-process logic such as rendering and
    /// is not part of the serialized form.
    pub kind: ErrorKind,
    /// The classification string.
    pub class: String,
    /// The human-readable message.
    pub message: String,
    /// Structured details, keyed by name.
    pub details: Option<BTreeMap<String, serde_value::Value>>,
}

/// The mathematical content of an [`Error`].
pub struct ErrorView {
    pub kind: KindView,
    pub class: Seq<char>,
    pub message: Seq<char>,
    pub details: Option<Map<String, serde_value::Value>>,
}

/// The content of optional details.
pub open spec fn details_view(
    details: Option<BTreeMap<String, serde_value::Value>>,
) -> Option<Map<String, serde_value::Value>> {
    match details {
        Some(map) => Some(map@),
        None => None,
    }
}

impl View for Error {
    type V = ErrorView;

    open spec fn view(&self) -> ErrorView {
        ErrorView {
            kind: self.kind@,
            class: self.class@,
            message: self.message@,
            details: details_view(self.details),
        }
    }
}

/// The rendering `[message_id] class (code) - message`, with the code in
/// decimal notation.
pub open spec fn rendered(
    message_id: Seq<char>,
    class: Seq<char>,
    code: u16,
    message: Seq<char>,
) -> Seq<char> {
    "["@ + message_id + "] "@ + class + " ("@ + decimal_digits(code as nat) + ") - "@ + message
}

/// The content of the fallback error: an internal server error without
/// details.
pub open spec fn internal_server_error() -> ErrorView {
    ErrorView {
        kind: KindView {
            name: "InternalServerError"@,
            message_id: "MSG000"@,
            code: 500,
            description: "Internal Server Error"@,
        },
        class: "Server::InternalServerError::Error"@,
        message: "Internal Server Error"@,
        details: None,
    }
}

impl Error {
    /// Puts an error together from its four parts, unchanged.
    pub fn from_parts(
        kind: ErrorKind,
        class: String,
        message: String,
        details: Option<BTreeMap<String, serde_value::Value>>,
    ) -> (error: Error)
        ensures
            error.kind == kind,
            error.class == class,
            error.message == message,
            error.details == details,
    {
        Error { kind, class, message, details }
    }

    /// The text that [`Error::to_string`] produces.
    pub open spec fn rendering(&self) -> Seq<char> {
        rendered(self.kind@.message_id, self.class@, self.kind@.code, self.message@)
    }

    /// Renders the error as `[message_id] class (code) - message`.
    pub fn to_string(&self) -> (text: String)
        ensures
            text@ == self.rendering(),
    {
        let mut text = String::from_str("[");
        text.append(self.kind.message_id());
        text.append("] ");
        text.append(self.class.as_str());
        text.append(" (");
        let code = decimal_string(self.kind.code());
        text.append(code.as_str());
        text.append(") - ");
        text.append(self.message.as_str());
        text
    }
}

impl Clone for Error {
    fn clone(&self) -> (copy: Self)
        ensures
            copy@ == self@,
    {
        let details = match &self.details {
            Some(map) => Some(map.clone()),
            None => None,
        };
        Error {
            kind: self.kind.clone(),
            class: self.class.clone(),
            message: self.message.clone(),
            details,
        }
    }
}

impl Default for Error {
    /// The fallback for failures that no specific kind applies to.
    fn default() -> (error: Error)
        ensures
            error@ == internal_server_error(),
    {
        Error {
            kind: ErrorKind("InternalServerError", "MSG000", 500, "Internal Server Error"),
            class: String::from_str("Server::InternalServerError::Error"),
            message: String::from_str("Internal Server Error"),
            details: None,
        }
    }
}

impl<E: AsError> From<E> for Error {
    /// Normalizes any [`AsError`] value: the kind is that of the type, and
    /// the class, the message and the details are what the value's own
    /// methods return, field for field.
    fn from(value: E) -> (error: Error)
        ensures
            call_ensures(E::kind, (), error.kind),
            call_ensures(E::class, (&value,), error.class),
            call_ensures(E::message, (&value,), error.message),
            call_ensures(E::details, (&value,), error.details),
    {
        let kind = E::kind();
        let class = value.class();
        let message = value.message();
        let details = value.details();
        Error::from_parts(kind, class, message, details)
    }
}

/// The methods of an [`AsError`] type need not be functions of the value, so
/// no spec function gives the result of the conversion; what holds of it is
/// stated on `from` itself.
impl<E: AsError> vstd::std_specs::convert::FromSpecImpl<E> for Error {
    open spec fn obeys_from_spec() -> bool {
        false
    }

    open spec fn from_spec(value: E) -> Error {
        arbitrary()
    }
}

impl From<Error> for std::io::Error {
    /// Flattens the error into an I/O error of kind `InvalidData` that
    /// carries the rendering as its text.
    fn from(error: Error) -> (io: std::io::Error) {
        new_invalid_data(error.to_string())
    }
}

impl vstd::std_specs::convert::FromSpecImpl<Error> for std::io::Error {
    open spec fn obeys_from_spec() -> bool {
        true
    }

    open spec fn from_spec(error: Error) -> std::io::Error {
        invalid_data_error(error.rendering())
    }
}

} // verus!
