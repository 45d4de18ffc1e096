//! Interpreting one raw line of the stream: finding the boundary between tag
//! and payload, then decoding the two.

use crate::catalog::{lemma_tags_hold_no_angle, EventKind};
use crate::error::{format_detail, Failure};
use crate::events::{
    all_readable, decode, lemma_well_formed_payload_decodes, values_of, EventModel,
};
use crate::text::{
    comma_free, has_delimiter, joined, lemma_line_splits, line_payload, line_tag, split_line,
};
use vstd::prelude::*;

pub use crate::error::EventInterpretError;
pub use crate::events::Event;

verus! {

/// What interpreting the line `raw` gives. A line is cut at its first `>>`
/// into tag and payload, which are then decoded; a line without `>>` is a
/// format failure that quotes the line.
pub open spec fn interpret_line(raw: Seq<char>) -> Result<EventModel, Failure> {
    if has_delimiter(raw) {
        decode(line_tag(raw), line_payload(raw))
    } else {
        Err(Failure::Format { detail: format_detail(raw) })
    }
}

/// The mathematical content of an interpreter's outcome.
pub open spec fn outcome_model(outcome: Result<Event, EventInterpretError>) -> Result<
    EventModel,
    Failure,
> {
    match outcome {
        Ok(event) => Ok(event@),
        Err(error) => Err(error@),
    }
}

/// Interprets one raw line. It borrows the line and keeps no other state.
pub struct Interpreter<'a> {
    /// The line, without its line terminator.
    pub raw: &'a str,
}

impl<'b> Interpreter<'b> {
    /// An interpreter for the line `raw`.
    pub fn new(raw: &'b str) -> (interpreter: Self)
        ensures
            interpreter.raw@ == raw@,
    {
        Interpreter { raw }
    }

    /// Decodes the line into an event, or says why it cannot be decoded.
    pub fn interpret(&self) -> (outcome: Result<Event, EventInterpretError>)
        ensures
            outcome_model(outcome) == interpret_line(self.raw@),
    {
        match split_line(self.raw) {
            Some((event_type, data)) => Event::from(event_type, data),
            None => Err(EventInterpretError::format(self.raw)),
        }
    }
}

/// Decoding is a function of the line alone: whatever two runs of the
/// interpreter on the same line return, the two outcomes have the same
/// content, event for event and failure for failure.
pub proof fn lemma_interpret_repeatable(
    raw: Seq<char>,
    first: Result<Event, EventInterpretError>,
    second: Result<Event, EventInterpretError>,
)
    requires
        outcome_model(first) == interpret_line(raw),
        outcome_model(second) == interpret_line(raw),
    ensures
        outcome_model(first) == outcome_model(second),
        first is Ok <==> second is Ok,
{
}

/// A line without the delimiter is never decoded, and a line with it never
/// fails for its format: the only failures left are those of the payload.
pub proof fn lemma_format_failure_iff_no_delimiter(raw: Seq<char>)
    ensures
        interpret_line(raw) is Err && interpret_line(raw)->Err_0 is Format <==> !has_delimiter(raw),
{
}

/// A line whose tag the catalog does not hold is no failure, whatever its
/// payload: it decodes to the unknown notification that keeps both.
pub proof fn lemma_unknown_tag_is_kept(raw: Seq<char>)
    requires
        has_delimiter(raw),
        !crate::catalog::is_known_tag(line_tag(raw)),
    ensures
        interpret_line(raw) == Ok::<EventModel, Failure>(
            EventModel::Unknown { tag: line_tag(raw), payload: line_payload(raw) },
        ),
{
}

/// Every well-formed line decodes, for every kind of the catalog: the
/// kind's tag, the delimiter and a well-formed payload make a line that
/// decodes to the notification of that kind with exactly the payload's values.
pub proof fn lemma_well_formed_line_decodes(kind: EventKind, parts: Seq<Seq<char>>)
    requires
        parts.len() == kind.schema().len(),
        all_readable(kind.schema(), parts),
        parts.len() >= 2 ==> forall|k: int| 0 <= k < parts.len() ==> comma_free(#[trigger] parts[k]),
    ensures
        interpret_line(kind.tag_text() + seq!['>', '>'] + joined(parts)) == Ok::<
            EventModel,
            Failure,
        >(EventModel::Known { kind, values: values_of(kind.schema(), parts) }),
{
    lemma_tags_hold_no_angle(kind);
    lemma_line_splits(kind.tag_text(), joined(parts));
    lemma_well_formed_payload_decodes(kind, parts);
}

} // verus!
