//! Writing events into the headers and the body of a response.

use crate::codec::{batch_to_json, event_to_json, json_of_batch, json_of_event};
use crate::error::{Cause, CauseView, CodecError, CodecErrorView};
use crate::event::{Event, EventView};
use crate::http::headers::{HeaderList, Headers};
use crate::http::{
    HttpCloudEvent, Response, ResponseView, CE_BATCH_JSON_CONTENT_TYPE, CE_ID_HEADER,
    CE_JSON_CONTENT_TYPE, CE_SOURCE_HEADER, CE_SPECVERSION_HEADER, CE_SUBJECT_HEADER,
    CE_TIME_HEADER, CE_TYPE_HEADER,
};
use crate::json::{json_text, print_json, JsonValue, JsonView};
use vstd::prelude::*;
use vstd::string::*;
use vstd::utf8::*;

verus! {

/// Why an event could not be written.
#[derive(Debug)]
pub enum WriterError {
    /// A document could not be written.
    Other(CodecError),
}

/// What a writer's error holds.
pub enum WriterErrorView {
    Other(CodecErrorView),
}

impl View for WriterError {
    type V = WriterErrorView;

    open spec fn view(&self) -> WriterErrorView {
        match self {
            WriterError::Other(error) => WriterErrorView::Other(error@),
        }
    }
}

impl WriterError {
    /// The message of this error: that of the codec's failure.
    pub fn to_string(&self) -> (r: String)
        ensures
            self@ matches WriterErrorView::Other(CodecErrorView::SerializationError(c)) ==> !(c is Json)
                ==> r@ == c.message(),
    {
        match self {
            WriterError::Other(error) => error.to_string(),
        }
    }

    /// The failure of a codec that this error wraps.
    pub fn cause(&self) -> (r: Option<&CodecError>)
        ensures
            r matches Some(error) && self@ == WriterErrorView::Other(error@),
    {
        match self {
            WriterError::Other(error) => Some(error),
        }
    }
}

/// The status of a response that carries an event.
pub const STATUS_OK: u16 = 200;

/// The status of a response that carries no event.
pub const STATUS_ACCEPTED: u16 = 202;

/// A header whose name and value are texts.
pub open spec fn text_header(name: Seq<char>, value: Seq<char>) -> (Seq<u8>, Seq<u8>) {
    (encode_utf8(name), encode_utf8(value))
}

/// The headers of the four required attributes.
pub open spec fn required_headers(event: EventView) -> HeaderList {
    seq![
        text_header(CE_ID_HEADER@, event.id),
        text_header(CE_SPECVERSION_HEADER@, event.spec_version.token()),
        text_header(CE_SOURCE_HEADER@, event.source),
        text_header(CE_TYPE_HEADER@, event.event_type),
    ]
}

/// The header of the subject, where the event has one.
pub open spec fn subject_headers(event: EventView) -> HeaderList {
    match event.subject {
        Some(subject) => seq![text_header(CE_SUBJECT_HEADER@, subject)],
        None => Seq::empty(),
    }
}

/// The header of the time, where the event has one.
pub open spec fn time_headers(event: EventView) -> HeaderList {
    match event.time {
        Some(time) => seq![text_header(CE_TIME_HEADER@, time.header_text())],
        None => Seq::empty(),
    }
}

/// The headers of an event in binary mode. The extension attributes have
/// none.
pub open spec fn binary_headers(event: EventView) -> HeaderList {
    required_headers(event) + subject_headers(event) + time_headers(event)
}

/// The response that carries an event in binary mode: its attributes in
/// headers, and its payload, if it has one, as content type and body.
pub open spec fn binary_response(event: EventView) -> ResponseView {
    ResponseView {
        status: STATUS_OK,
        headers: binary_headers(event),
        content_type: match event.payload {
            Some(payload) => Some(payload.content_type),
            None => None,
        },
        body: match event.payload {
            Some(payload) => payload.data,
            None => Seq::empty(),
        },
    }
}

/// The response that carries no event.
pub open spec fn empty_response() -> ResponseView {
    ResponseView {
        status: STATUS_ACCEPTED,
        headers: Seq::empty(),
        content_type: None,
        body: Seq::empty(),
    }
}

/// The error of a document that could not be written.
pub open spec fn unwritten(cause: CauseView) -> WriterErrorView {
    WriterErrorView::Other(CodecErrorView::SerializationError(cause))
}

/// The response that carries a document under a content type.
pub open spec fn document_response(
    document: Result<JsonView, CauseView>,
    content_type: Seq<char>,
) -> Result<ResponseView, WriterErrorView> {
    match document {
        Err(cause) => Err(unwritten(cause)),
        Ok(value) => match json_text(value) {
            None => Err(unwritten(CauseView::Json)),
            Some(body) => Ok(
                ResponseView {
                    status: STATUS_OK,
                    headers: Seq::empty(),
                    content_type: Some(content_type),
                    body,
                },
            ),
        },
    }
}

/// The response that carries what is to be written.
pub open spec fn write_outcome(wire: HttpCloudEvent) -> Result<ResponseView, WriterErrorView> {
    match wire {
        HttpCloudEvent::Binary(Some(event)) => Ok(binary_response(event@)),
        HttpCloudEvent::Structured(Some(event)) => document_response(
            json_of_event(event@, event.extensions.pairs()),
            CE_JSON_CONTENT_TYPE@,
        ),
        HttpCloudEvent::Batch(events) => document_response(
            json_of_batch(events@),
            CE_BATCH_JSON_CONTENT_TYPE@,
        ),
        _ => Ok(empty_response()),
    }
}

/// What the result of writing a response holds.
pub open spec fn response_outcome(r: Result<Response, WriterError>) -> Result<
    ResponseView,
    WriterErrorView,
> {
    match r {
        Ok(response) => Ok(response@),
        Err(error) => Err(error@),
    }
}

fn append_text(headers: &mut Headers, name: &str, value: &str)
    ensures
        final(headers)@ == old(headers)@.push(text_header(name@, value@)),
{
    headers.append(name, value.as_bytes_vec());
}

/// Writes an event in binary mode: one header for each of id, version,
/// source and type, one for the subject and one for the time where the
/// event has them, and the payload as content type and body.
pub fn write_binary(event: Event) -> (r: Response)
    ensures
        r@ == binary_response(event@),
{
    let ghost view = event@;
    let mut headers = Headers::new();
    append_text(&mut headers, CE_ID_HEADER, event.id.as_str());
    append_text(&mut headers, CE_SPECVERSION_HEADER, event.spec_version.as_str());
    append_text(&mut headers, CE_SOURCE_HEADER, event.source.as_str());
    append_text(&mut headers, CE_TYPE_HEADER, event.event_type.as_str());
    assert(headers@ =~= required_headers(view));
    match &event.subject {
        Some(subject) => {
            append_text(&mut headers, CE_SUBJECT_HEADER, subject.as_str());
        },
        None => {},
    }
    assert(headers@ =~= required_headers(view) + subject_headers(view));
    match &event.time {
        Some(time) => {
            let text = time.to_rfc3339();
            append_text(&mut headers, CE_TIME_HEADER, text.as_str());
        },
        None => {},
    }
    assert(headers@ =~= binary_headers(view));
    match event.payload {
        Some(payload) => Response {
            status: STATUS_OK,
            headers,
            content_type: Some(payload.content_type),
            body: payload.data,
        },
        None => Response { status: STATUS_OK, headers, content_type: None, body: Vec::new() },
    }
}

/// The writer's error for a document that could not be written.
pub fn unwritten_error(cause: Cause) -> (r: WriterError)
    ensures
        r@ == unwritten(cause@),
{
    WriterError::Other(CodecError::SerializationError(cause))
}

/// Writes a document as the body of a response with the given content
/// type.
pub fn serialize_and_write(document: Result<JsonValue, Cause>, content_type: &str) -> (r: Result<
    Response,
    WriterError,
>)
    ensures
        response_outcome(r) == document_response(
            crate::codec::json_outcome(document),
            content_type@,
        ),
{
    match document {
        Err(cause) => Err(unwritten_error(cause)),
        Ok(value) => match print_json(&value) {
            Err(error) => Err(unwritten_error(Cause::Json(error))),
            Ok(body) => Ok(
                Response {
                    status: STATUS_OK,
                    headers: Headers::new(),
                    content_type: Some(String::from_str(content_type)),
                    body,
                },
            ),
        },
    }
}

/// A writer of events into responses of type `R`.
pub trait Writer<R> {
    /// The response that carries what is to be written, as far as it is
    /// pinned down.
    spec fn written(wire: HttpCloudEvent, r: Result<R, WriterError>) -> bool;

    /// Writes one event, a batch of events, or no event into a response.
    fn write_cloud_event(wire: HttpCloudEvent) -> (r: Result<R, WriterError>)
        ensures
            Self::written(wire, r),
    ;
}

/// The writer of events into the headers and the body of a response.
pub struct EventWriter {}

impl Writer<Response> for EventWriter {
    open spec fn written(wire: HttpCloudEvent, r: Result<Response, WriterError>) -> bool {
        response_outcome(r) == write_outcome(wire)
    }

    fn write_cloud_event(wire: HttpCloudEvent) -> (r: Result<Response, WriterError>) {
        match wire {
            HttpCloudEvent::Binary(Some(event)) => Ok(write_binary(event)),
            HttpCloudEvent::Structured(Some(event)) => serialize_and_write(
                event_to_json(&event),
                CE_JSON_CONTENT_TYPE,
            ),
            HttpCloudEvent::Batch(events) => serialize_and_write(
                batch_to_json(&events),
                CE_BATCH_JSON_CONTENT_TYPE,
            ),
            _ => Ok(
                Response {
                    status: STATUS_ACCEPTED,
                    headers: Headers::new(),
                    content_type: None,
                    body: Vec::new(),
                },
            ),
        }
    }
}

} // verus!
