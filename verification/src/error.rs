//! Why a line could not be decoded.

use crate::catalog::EventKind;
use vstd::prelude::*;
use vstd::string::StringExecFns;

verus! {

/// The mathematical content of a decode failure.
pub enum Failure {
    /// The line holds no `>>`; `detail` says so and quotes the line.
    Format { detail: Seq<char> },
    /// The payload does not hold as many fields as the kind requires.
    Arity { kind: EventKind, payload: Seq<char> },
    /// A numeric field of the payload is no unsigned 32-bit number.
    FieldType { kind: EventKind, payload: Seq<char> },
}

/// A failure to decode one line. None of them ends the stream: the next line
/// is decoded as if nothing had happened.
#[derive(Debug, Clone, PartialEq)]
pub enum EventInterpretError {
    /// The line lacks the delimiter between tag and payload. Holds the
    /// words `Invalid event format: ` followed by the offending line.
    InterpretationError(String),
    /// The payload's field count differs from the arity of `variant`.
    ArityError { variant: EventKind, payload: String },
    /// A numeric field in the payload of `variant` does not parse.
    FieldTypeError { variant: EventKind, payload: String },
}

impl View for EventInterpretError {
    type V = Failure;

    open spec fn view(&self) -> Failure {
        match self {
            EventInterpretError::InterpretationError(detail) => Failure::Format {
                detail: detail@,
            },
            EventInterpretError::ArityError { variant, payload } => Failure::Arity {
                kind: *variant,
                payload: payload@,
            },
            EventInterpretError::FieldTypeError { variant, payload } => Failure::FieldType {
                kind: *variant,
                payload: payload@,
            },
        }
    }
}

/// The detail of a format failure on the line `raw`.
pub open spec fn format_detail(raw: Seq<char>) -> Seq<char> {
    "Invalid event format: "@ + raw
}

/// The text that reports `failure` to a reader.
pub open spec fn message_text(failure: Failure) -> Seq<char> {
    match failure {
        Failure::Format { detail } => "Failed to interpret event: "@ + detail,
        Failure::Arity { kind, payload } => "Failed to interpret event: "@
            + "Invalid field count for "@ + kind.tag_text() + ": "@ + payload,
        Failure::FieldType { kind, payload } => "Failed to interpret event: "@
            + "Invalid number for "@ + kind.tag_text() + ": "@ + payload,
    }
}

impl EventInterpretError {
    /// The failure of a line `raw` that has no delimiter.
    pub fn format(raw: &str) -> (error: EventInterpretError)
        ensures
            error@ == (Failure::Format { detail: format_detail(raw@) }),
    {
        EventInterpretError::InterpretationError(
            String::from_str("Invalid event format: ").concat(raw),
        )
    }

    /// The failure of a payload with the wrong number of fields.
    pub fn arity(variant: EventKind, payload: &str) -> (error: EventInterpretError)
        ensures
            error@ == (Failure::Arity { kind: variant, payload: payload@ }),
    {
        EventInterpretError::ArityError { variant, payload: payload.to_owned() }
    }

    /// The failure of a payload with an unreadable numeric field.
    pub fn field_type(variant: EventKind, payload: &str) -> (error: EventInterpretError)
        ensures
            error@ == (Failure::FieldType { kind: variant, payload: payload@ }),
    {
        EventInterpretError::FieldTypeError { variant, payload: payload.to_owned() }
    }

    /// The text that reports this failure to a reader.
    pub fn message(&self) -> (text: String)
        ensures
            text@ == message_text(self@),
    {
        let head = String::from_str("Failed to interpret event: ");
        match self {
            EventInterpretError::InterpretationError(detail) => head.concat(detail.as_str()),
            EventInterpretError::ArityError { variant, payload } => head.concat(
                "Invalid field count for ",
            ).concat(variant.tag()).concat(": ").concat(payload.as_str()),
            EventInterpretError::FieldTypeError { variant, payload } => head.concat(
                "Invalid number for ",
            ).concat(variant.tag()).concat(": ").concat(payload.as_str()),
        }
    }
}

} // verus!
