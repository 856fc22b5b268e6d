//! Mapping the payload of an event.

use crate::error::CodecError;
use crate::event::Event;
use crate::json::{json_parse, json_text, JsonValue};
use crate::payload::PayloadMapper;
use crate::payload_json::unparsable;
use vstd::prelude::*;

verus! {

/// The data is JSON text in the form in which the printer writes it: the
/// parser reads a value from it, and the printer writes the same text for
/// that value.
pub open spec fn is_printed_json(data: Seq<u8>) -> bool {
    json_parse(data) matches Some(value) && json_text(value) == Some(data)
}

/// Mapping the payload through a function that gives back what it was
/// given leaves the event as it was: for an event without payload, and for
/// one whose data is JSON text as the printer writes it. Where the data is
/// no JSON text, the mapping fails with the error of the reading.
pub proof fn law_map_payload_identity<F: Fn(JsonValue) -> JsonValue>(
    event: Event,
    f: F,
    r: Result<Event, CodecError>,
)
    requires
        forall|given: JsonValue, made: JsonValue|
            call_ensures(f, (given,), made) ==> made@ == given@,
        event.mapped(f, r),
    ensures
        event.payload is None ==> (r matches Ok(copy) && copy@ == event@),
        event.payload matches Some(payload) ==> (is_printed_json(payload.data@) ==> (
        r matches Ok(copy) && copy@ == event@)),
        event.payload matches Some(payload) ==> (json_parse(payload.data@) is None ==> (
        r matches Err(error) && error@ == unparsable())),
{
}

} // verus!
