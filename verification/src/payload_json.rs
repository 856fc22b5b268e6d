//! The JSON codec of the payload: the data of an event read as a JSON
//! value, and set from one.

use crate::error::{Cause, CauseView, CodecError, CodecErrorView};
use crate::event::{Event, EventView};
use crate::json::{json_parse, json_text, parse_json, print_json, JsonValue};
use crate::payload::{Payload, PayloadReader, PayloadResult, PayloadView, PayloadWriter};
use vstd::prelude::*;
use vstd::string::*;

verus! {

/// The event with the given payload in place of its own.
pub open spec fn with_payload(event: EventView, payload: PayloadView) -> EventView {
    EventView { payload: Some(payload), ..event }
}

/// The error of a value that the JSON printer could not write.
pub open spec fn unprintable() -> CodecErrorView {
    CodecErrorView::SerializationError(CauseView::Json)
}

/// The error of data that the JSON parser could not read.
pub open spec fn unparsable() -> CodecErrorView {
    CodecErrorView::DeserializationError(CauseView::Json)
}

/// Reading the data of a payload as JSON may return `r`: the content type
/// with the value that the data holds, or the parser's failure.
pub open spec fn decoded_payload(
    payload: PayloadView,
    r: PayloadResult<(String, JsonValue), CodecError>,
) -> bool {
    match json_parse(payload.data) {
        Some(value) => r matches Some(Ok((content_type, json))) && content_type@
            == payload.content_type && json@ == value,
        None => r matches Some(Err(error)) && error@ == unparsable(),
    }
}

impl PayloadWriter<JsonValue, CodecError> for Event {
    /// The payload becomes the JSON text of the value under the content
    /// type, and nothing else changes; where the printer fails, nothing
    /// changes at all.
    open spec fn wrote(
        before: Event,
        content_type: Seq<char>,
        value: JsonValue,
        after: Event,
        r: Result<(), CodecError>,
    ) -> bool {
        &&& after.extensions.pairs() == before.extensions.pairs()
        &&& match json_text(value@) {
            Some(data) => r is Ok && after@ == with_payload(
                before@,
                PayloadView { content_type, data },
            ),
            None => r matches Err(error) && error@ == unprintable() && after@ == before@,
        }
    }

    fn write_payload(&mut self, content_type: &str, value: JsonValue) -> (r: Result<
        (),
        CodecError,
    >) {
        match print_json(&value) {
            Ok(data) => {
                self.payload = Some(Payload { content_type: String::from_str(content_type), data });
                Ok(())
            },
            Err(error) => Err(CodecError::SerializationError(Cause::Json(error))),
        }
    }
}

impl PayloadReader<JsonValue, CodecError> for Event {
    open spec fn decoded(&self, r: PayloadResult<(String, JsonValue), CodecError>) -> bool {
        match self.payload {
            None => r is None,
            Some(payload) => decoded_payload(payload@, r),
        }
    }

    fn read_content_type_and_payload(&self) -> (r: PayloadResult<(String, JsonValue), CodecError>) {
        match &self.payload {
            None => None,
            Some(payload) => match parse_json(payload.data.as_slice()) {
                Ok(value) => Some(Ok((payload.content_type.clone(), value))),
                Err(error) => Some(Err(CodecError::DeserializationError(Cause::Json(error)))),
            },
        }
    }
}

impl PayloadReader<JsonValue, CodecError> for Option<Event> {
    open spec fn decoded(&self, r: PayloadResult<(String, JsonValue), CodecError>) -> bool {
        match self {
            None => r is None,
            Some(event) => event.decoded(r),
        }
    }

    fn read_content_type_and_payload(&self) -> (r: PayloadResult<(String, JsonValue), CodecError>) {
        match self {
            Some(event) => event.read_content_type_and_payload(),
            None => None,
        }
    }
}

} // verus!
