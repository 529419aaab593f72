//! The two entry points: from JSON text to an `Event`, and from an `Event`
//! to JSON text.

use crate::envelope::{event_of, EVENT_DEPTH};
use crate::error::{agrees, DecodeError, EncodeError};
use crate::tree::JsonView;
use crate::tree::decoded;
use crate::types::Event;
use vstd::prelude::*;

verus! {

/// Deserializes an event from its JSON text.
///
/// Text that is not JSON is a syntax error. Every other text is read as a
/// JSON value, and what comes back is what `event_of` says of that value:
/// the event it stands for, or the reason why it stands for none. An event
/// that comes back is well formed and all its opaque cells are JSON.
pub fn deserialize_event(x: &String) -> (result: Result<Event, DecodeError>)
    ensures
        agrees(result, decoded(x@, EVENT_DEPTH as nat, |value: JsonView| event_of(value))),
        result matches Ok(event) ==> event@.wf() && event@.valid(),
{
    Event::decode(x.as_str())
}

/// Serializes an event to JSON text.
///
/// Succeeds exactly on the events that have a text, and returns that text:
/// an array of six cells with no white space between them.
pub fn serialize_event(x: &Event) -> (result: Result<String, EncodeError>)
    ensures
        result is Ok <==> x@.encodable(),
        result matches Ok(text) ==> text@ == x@.text(),
{
    x.encode()
}

} // verus!
