//! The HTTP protocol binding: header names, media types, and the three
//! encodings of events in a request or a response.

pub mod headers;
pub mod reader;
pub mod writer;

pub use headers::{Header, Headers};
pub use reader::{EventReader, Reader, ReaderError, ReaderErrorView};
pub use writer::{EventWriter, Writer, WriterError, WriterErrorView};

use crate::codec::events_view;
use crate::event::{text_view, Event, EventView};
use crate::http::headers::HeaderList;
use vstd::prelude::*;

verus! {

/// The name of the header of the id.
pub const CE_ID_HEADER: &'static str = "ce-id";

/// The name of the header of the type.
pub const CE_TYPE_HEADER: &'static str = "ce-type";

/// The name of the header of the source.
pub const CE_SOURCE_HEADER: &'static str = "ce-source";

/// The name of the header of the version.
pub const CE_SPECVERSION_HEADER: &'static str = "ce-specversion";

/// The name of the header of the subject.
pub const CE_SUBJECT_HEADER: &'static str = "ce-subject";

/// The name of the header of the time.
pub const CE_TIME_HEADER: &'static str = "ce-time";

/// The prefix of the name of a header that carries an extension attribute.
pub const CE_PREFIX: &'static str = "ce-";

/// The name of the header of the content type.
pub const CONTENT_TYPE_HEADER: &'static str = "content-type";

/// The media type of one event as a JSON document.
pub const CE_JSON_CONTENT_TYPE: &'static str = "application/cloudevents+json";

/// The media type of a batch of events as a JSON array.
pub const CE_BATCH_JSON_CONTENT_TYPE: &'static str = "application/cloudevents-batch+json";

/// What a request or a response carries, by its encoding: one event in
/// headers and body, one event as a JSON document, or a batch of events as
/// a JSON array. The first two may carry no event.
#[derive(Debug)]
pub enum HttpCloudEvent {
    Binary(Option<Event>),
    Structured(Option<Event>),
    Batch(Vec<Event>),
}

/// What an `HttpCloudEvent` holds.
pub enum WireEvent {
    Binary(Option<EventView>),
    Structured(Option<EventView>),
    Batch(Seq<EventView>),
}

/// What an optional event holds.
pub open spec fn event_view(event: Option<Event>) -> Option<EventView> {
    match event {
        Some(event) => Some(event@),
        None => None,
    }
}

impl View for HttpCloudEvent {
    type V = WireEvent;

    open spec fn view(&self) -> WireEvent {
        match self {
            HttpCloudEvent::Binary(event) => WireEvent::Binary(event_view(*event)),
            HttpCloudEvent::Structured(event) => WireEvent::Structured(event_view(*event)),
            HttpCloudEvent::Batch(events) => WireEvent::Batch(events_view(events@)),
        }
    }
}

/// The headers and the body of a request.
#[derive(Debug)]
pub struct Request {
    pub headers: Headers,
    pub body: Vec<u8>,
}

/// A response: its status, its headers, its content type and its body.
#[derive(Debug)]
pub struct Response {
    pub status: u16,
    pub headers: Headers,
    pub content_type: Option<String>,
    pub body: Vec<u8>,
}

/// What a response holds.
pub struct ResponseView {
    pub status: u16,
    pub headers: HeaderList,
    pub content_type: Option<Seq<char>>,
    pub body: Seq<u8>,
}

impl View for Response {
    type V = ResponseView;

    open spec fn view(&self) -> ResponseView {
        ResponseView {
            status: self.status,
            headers: self.headers@,
            content_type: text_view(self.content_type),
            body: self.body@,
        }
    }
}

} // verus!
