//! Reading events from the headers and the body of a request.

use crate::codec::{batch_from_json, batch_of_json, event_from_json, event_of_json};
use crate::error::{Cause, CauseView, CodecError, CodecErrorView};
use crate::event::{Event, EventView};
use crate::extensions::Extensions;
use crate::http::headers::{lookup, without, HeaderList, Headers};
use crate::http::{
    HttpCloudEvent, Request, WireEvent, CE_BATCH_JSON_CONTENT_TYPE, CE_ID_HEADER,
    CE_JSON_CONTENT_TYPE, CE_PREFIX, CE_SOURCE_HEADER, CE_SPECVERSION_HEADER, CE_SUBJECT_HEADER,
    CE_TIME_HEADER, CE_TYPE_HEADER, CONTENT_TYPE_HEADER,
};
use crate::json::{json_parse, parse_json};
use crate::payload::{Payload, PayloadView};
use crate::spec_version::SpecVersion;
use crate::text::{
    ascii_chars, contains, contains_bytes, eq_ignore_ascii_case, eq_ignore_case,
    has_prefix_ignore_case, is_text, lower, starts_with_ignore_case, text_of, to_lower,
};
use crate::timestamp::{rfc3339_parse, Timestamp};
use vstd::prelude::*;
use vstd::string::*;
use vstd::utf8::*;

verus! {

/// Why a request could not be read.
#[derive(Debug)]
pub enum ReaderError {
    /// An attribute is missing or cannot be read.
    InvalidMetadata { name: String, reason: String },
    /// The content type does not fit the body or the headers.
    InvalidEncoding { content_type: String, reason: String },
    /// A document could not be read.
    Other(CodecError),
}

/// What a reader's error holds.
pub enum ReaderErrorView {
    InvalidMetadata { name: Seq<char>, reason: Seq<char> },
    InvalidEncoding { content_type: Seq<char>, reason: Seq<char> },
    Other(CodecErrorView),
}

impl View for ReaderError {
    type V = ReaderErrorView;

    open spec fn view(&self) -> ReaderErrorView {
        match self {
            ReaderError::InvalidMetadata { name, reason } => ReaderErrorView::InvalidMetadata {
                name: name@,
                reason: reason@,
            },
            ReaderError::InvalidEncoding {
                content_type,
                reason,
            } => ReaderErrorView::InvalidEncoding { content_type: content_type@, reason: reason@ },
            ReaderError::Other(error) => ReaderErrorView::Other(error@),
        }
    }
}

impl ReaderErrorView {
    /// The message of an error that is not the failure of a codec.
    pub open spec fn message(self) -> Seq<char> {
        match self {
            ReaderErrorView::InvalidMetadata { name, reason } => "Invalid metadata '"@ + name
                + "': "@ + reason,
            ReaderErrorView::InvalidEncoding {
                content_type,
                reason,
            } => "Invalid encoding with Content-Type header '"@ + content_type + "': "@ + reason,
            ReaderErrorView::Other(_) => Seq::empty(),
        }
    }
}

impl ReaderError {
    /// The message of this error; that of a codec's failure is the
    /// codec's.
    pub fn to_string(&self) -> (r: String)
        ensures
            !(self@ is Other) ==> r@ == self@.message(),
    {
        match self {
            ReaderError::InvalidMetadata { name, reason } => String::from_str(
                "Invalid metadata '",
            ).concat(name.as_str()).concat("': ").concat(reason.as_str()),
            ReaderError::InvalidEncoding { content_type, reason } => String::from_str(
                "Invalid encoding with Content-Type header '",
            ).concat(content_type.as_str()).concat("': ").concat(reason.as_str()),
            ReaderError::Other(error) => error.to_string(),
        }
    }

    /// The failure of a codec that this error wraps, if it wraps one.
    pub fn source(&self) -> (r: Option<&CodecError>)
        ensures
            match r {
                Some(error) => self@ == ReaderErrorView::Other(error@),
                None => !(self@ is Other),
            },
    {
        match self {
            ReaderError::Other(error) => Some(error),
            _ => None,
        }
    }
}

/// The error of an attribute whose header is missing.
pub open spec fn missing(attribute: Seq<char>) -> ReaderErrorView {
    ReaderErrorView::InvalidMetadata { name: attribute, reason: "missing header"@ }
}

/// The error of an attribute whose header holds no text.
pub open spec fn unreadable(attribute: Seq<char>, key: Seq<char>) -> ReaderErrorView {
    ReaderErrorView::InvalidMetadata {
        name: attribute,
        reason: "Error while parsing header "@ + key + ": failed to convert header to a str"@,
    }
}

/// The error of an extension header that holds no text.
pub open spec fn unreadable_extension() -> ReaderErrorView {
    ReaderErrorView::InvalidMetadata {
        name: "extensions"@,
        reason: "failed to convert header to a str"@,
    }
}

/// The text of the first header of a name; none where there is no such
/// header or its value is no text.
pub open spec fn header_text(list: HeaderList, key: Seq<char>) -> Option<Seq<char>> {
    match lookup(list, encode_utf8(key)) {
        Some(value) => if is_text(value) {
            Some(ascii_chars(value))
        } else {
            None
        },
        None => None,
    }
}

/// The text of the header of a mandatory attribute.
pub open spec fn required_header(list: HeaderList, key: Seq<char>, attribute: Seq<char>) -> Result<
    Seq<char>,
    ReaderErrorView,
> {
    match lookup(list, encode_utf8(key)) {
        None => Err(missing(attribute)),
        Some(value) => if is_text(value) {
            Ok(ascii_chars(value))
        } else {
            Err(unreadable(attribute, key))
        },
    }
}

/// The version that the version header names.
pub open spec fn version_header(list: HeaderList) -> Result<SpecVersion, ReaderErrorView> {
    match required_header(list, CE_SPECVERSION_HEADER@, "specversion"@) {
        Err(error) => Err(error),
        Ok(token) => match SpecVersion::parse(token) {
            Some(version) => Ok(version),
            None => Err(
                ReaderErrorView::InvalidMetadata {
                    name: "specversion"@,
                    reason: SpecVersion::rejection(token),
                },
            ),
        },
    }
}

/// The time that the time header holds; none where the header is missing,
/// holds no text, or holds no timestamp.
pub open spec fn time_header(list: HeaderList) -> Option<Timestamp> {
    match header_text(list, CE_TIME_HEADER@) {
        Some(text) => Timestamp::of(rfc3339_parse(text)),
        None => None,
    }
}

/// The name is that of the header of one of the six attributes.
pub open spec fn is_attribute_header(name: Seq<u8>) -> bool {
    eq_ignore_case(name, encode_utf8(CE_ID_HEADER@)) || eq_ignore_case(
        name,
        encode_utf8(CE_TYPE_HEADER@),
    ) || eq_ignore_case(name, encode_utf8(CE_SOURCE_HEADER@)) || eq_ignore_case(
        name,
        encode_utf8(CE_SPECVERSION_HEADER@),
    ) || eq_ignore_case(name, encode_utf8(CE_SUBJECT_HEADER@)) || eq_ignore_case(
        name,
        encode_utf8(CE_TIME_HEADER@),
    )
}

/// The name is that of a header that carries an extension attribute: it
/// has the prefix and is not the header of one of the six attributes.
pub open spec fn is_extension_header(name: Seq<u8>) -> bool {
    has_prefix_ignore_case(name, encode_utf8(CE_PREFIX@)) && !is_attribute_header(name)
}

/// The name of the extension attribute that a header carries: the name of
/// the header in lower case, without the prefix.
pub open spec fn extension_key(name: Seq<u8>) -> Seq<u8> {
    lower(name).subrange(encode_utf8(CE_PREFIX@).len() as int, name.len() as int)
}

/// The extension attributes that the headers carry. The name and the
/// value of each are text; the first header of which one is not gives the
/// error. Of two headers with one name the later stays.
pub open spec fn extension_headers(list: HeaderList) -> Result<
    Map<Seq<char>, Seq<char>>,
    ReaderErrorView,
>
    decreases list.len(),
{
    if list.len() == 0 {
        Ok(Map::empty())
    } else {
        match extension_headers(list.drop_last()) {
            Err(error) => Err(error),
            Ok(map) => {
                let (name, value) = list.last();
                if !is_extension_header(name) {
                    Ok(map)
                } else if is_text(extension_key(name)) && is_text(value) {
                    Ok(map.insert(ascii_chars(extension_key(name)), ascii_chars(value)))
                } else {
                    Err(unreadable_extension())
                }
            },
        }
    }
}

/// The event that headers carry in binary mode, with the given payload.
/// The attributes are read in the order id, type, source, version; the
/// first that fails gives the error. A subject or a time that cannot be
/// read is left out.
pub open spec fn binary_event(list: HeaderList, payload: Option<PayloadView>) -> Result<
    EventView,
    ReaderErrorView,
> {
    let id = required_header(list, CE_ID_HEADER@, "id"@);
    let event_type = required_header(list, CE_TYPE_HEADER@, "type"@);
    let source = required_header(list, CE_SOURCE_HEADER@, "source"@);
    let version = version_header(list);
    let extensions = extension_headers(list);
    if id is Err {
        Err(id->Err_0)
    } else if event_type is Err {
        Err(event_type->Err_0)
    } else if source is Err {
        Err(source->Err_0)
    } else if version is Err {
        Err(version->Err_0)
    } else if extensions is Err {
        Err(extensions->Err_0)
    } else {
        Ok(
            EventView {
                id: id->Ok_0,
                source: source->Ok_0,
                spec_version: version->Ok_0,
                event_type: event_type->Ok_0,
                subject: header_text(list, CE_SUBJECT_HEADER@),
                time: time_header(list),
                payload,
                extensions: extensions->Ok_0,
            },
        )
    }
}

/// The error of a document that could not be read.
pub open spec fn unread(cause: CauseView) -> ReaderErrorView {
    ReaderErrorView::Other(CodecErrorView::DeserializationError(cause))
}

/// The event that a body holds as one JSON document.
pub open spec fn structured_event(body: Seq<u8>) -> Result<EventView, ReaderErrorView> {
    match json_parse(body) {
        None => Err(unread(CauseView::Json)),
        Some(value) => match event_of_json(value) {
            Ok(event) => Ok(event),
            Err(cause) => Err(unread(cause)),
        },
    }
}

/// The events that a body holds as a JSON array of documents.
pub open spec fn batch_events(body: Seq<u8>) -> Result<Seq<EventView>, ReaderErrorView> {
    match json_parse(body) {
        None => Err(unread(CauseView::Json)),
        Some(value) => match batch_of_json(value) {
            Ok(events) => Ok(events),
            Err(cause) => Err(unread(cause)),
        },
    }
}

/// The error of a content type that does not fit the request.
pub open spec fn invalid_encoding(content_type: Seq<u8>, reason: Seq<char>) -> ReaderErrorView {
    ReaderErrorView::InvalidEncoding { content_type: ascii_chars(content_type), reason }
}

/// What a request carries.
///
/// The content type is the text of the first `content-type` header; the
/// other headers are those that remain without it. With a content type, an
/// empty body is an error; a content type that holds the media type of a
/// JSON event asks for structured mode, one that holds that of a JSON
/// batch for batch mode; any other content type is that of the payload of
/// a binary event, if the id header is there, and else an error. Without a
/// content type the request carries a binary event without payload, if the
/// id header is there, and else no event.
pub open spec fn read_outcome(list: HeaderList, body: Seq<u8>) -> Result<WireEvent, ReaderErrorView> {
    let rest = without(list, encode_utf8(CONTENT_TYPE_HEADER@));
    let has_id = lookup(rest, encode_utf8(CE_ID_HEADER@)) is Some;
    match lookup(list, encode_utf8(CONTENT_TYPE_HEADER@)) {
        Some(content_type) if is_text(content_type) => {
            if body.len() == 0 {
                Err(invalid_encoding(content_type, "empty body with content type present"@))
            } else if contains(content_type, encode_utf8(CE_JSON_CONTENT_TYPE@)) {
                match structured_event(body) {
                    Ok(event) => Ok(WireEvent::Structured(Some(event))),
                    Err(error) => Err(error),
                }
            } else if contains(content_type, encode_utf8(CE_BATCH_JSON_CONTENT_TYPE@)) {
                match batch_events(body) {
                    Ok(events) => Ok(WireEvent::Batch(events)),
                    Err(error) => Err(error),
                }
            } else if has_id {
                let payload = PayloadView { content_type: ascii_chars(content_type), data: body };
                match binary_event(rest, Some(payload)) {
                    Ok(event) => Ok(WireEvent::Binary(Some(event))),
                    Err(error) => Err(error),
                }
            } else {
                Err(invalid_encoding(content_type, "unrecognized encoding"@))
            }
        },
        _ => {
            if has_id {
                match binary_event(rest, None) {
                    Ok(event) => Ok(WireEvent::Binary(Some(event))),
                    Err(error) => Err(error),
                }
            } else {
                Ok(WireEvent::Binary(None))
            }
        },
    }
}

/// What the result of reading a text holds.
pub open spec fn text_outcome(r: Result<String, ReaderError>) -> Result<Seq<char>, ReaderErrorView> {
    match r {
        Ok(text) => Ok(text@),
        Err(error) => Err(error@),
    }
}

/// What the result of reading one event holds.
pub open spec fn event_outcome(r: Result<Event, ReaderError>) -> Result<EventView, ReaderErrorView> {
    match r {
        Ok(event) => Ok(event@),
        Err(error) => Err(error@),
    }
}

/// What the result of reading a request holds.
pub open spec fn wire_outcome(r: Result<HttpCloudEvent, ReaderError>) -> Result<
    WireEvent,
    ReaderErrorView,
> {
    match r {
        Ok(wire) => Ok(wire@),
        Err(error) => Err(error@),
    }
}

fn read_text(headers: &Headers, key: &str) -> (r: Option<String>)
    ensures
        crate::event::text_view(r) == header_text(headers@, key@),
{
    match headers.get(key) {
        Some(value) => text_of(value.as_slice()),
        None => None,
    }
}

fn read_required(headers: &Headers, key: &str, attribute: &str) -> (r: Result<String, ReaderError>)
    ensures
        text_outcome(r) == required_header(headers@, key@, attribute@),
{
    match headers.get(key) {
        None => Err(
            ReaderError::InvalidMetadata {
                name: String::from_str(attribute),
                reason: String::from_str("missing header"),
            },
        ),
        Some(value) => match text_of(value.as_slice()) {
            Some(text) => Ok(text),
            None => Err(
                ReaderError::InvalidMetadata {
                    name: String::from_str(attribute),
                    reason: String::from_str("Error while parsing header ").concat(key).concat(
                        ": failed to convert header to a str",
                    ),
                },
            ),
        },
    }
}

fn read_version(headers: &Headers) -> (r: Result<SpecVersion, ReaderError>)
    ensures
        match r {
            Ok(version) => version_header(headers@) == Ok::<SpecVersion, ReaderErrorView>(version),
            Err(error) => version_header(headers@) == Err::<SpecVersion, ReaderErrorView>(error@),
        },
{
    match read_required(headers, CE_SPECVERSION_HEADER, "specversion") {
        Err(error) => Err(error),
        Ok(token) => match SpecVersion::try_from(token) {
            Ok(version) => Ok(version),
            Err(reason) => Err(
                ReaderError::InvalidMetadata { name: String::from_str("specversion"), reason },
            ),
        },
    }
}

fn read_time(headers: &Headers) -> (r: Option<Timestamp>)
    ensures
        r == time_header(headers@),
{
    match read_text(headers, CE_TIME_HEADER) {
        Some(text) => Timestamp::parse_from_rfc3339(text.as_str()),
        None => None,
    }
}

/// Tells whether a name is that of the header of one of the six
/// attributes.
pub fn is_attribute_name(name: &[u8]) -> (r: bool)
    ensures
        r == is_attribute_header(name@),
{
    eq_ignore_ascii_case(name, CE_ID_HEADER.as_bytes()) || eq_ignore_ascii_case(
        name,
        CE_TYPE_HEADER.as_bytes(),
    ) || eq_ignore_ascii_case(name, CE_SOURCE_HEADER.as_bytes()) || eq_ignore_ascii_case(
        name,
        CE_SPECVERSION_HEADER.as_bytes(),
    ) || eq_ignore_ascii_case(name, CE_SUBJECT_HEADER.as_bytes()) || eq_ignore_ascii_case(
        name,
        CE_TIME_HEADER.as_bytes(),
    )
}

/// An error among the first headers is the error of all of them.
pub proof fn lemma_extension_error(list: HeaderList, n: int)
    requires
        0 <= n <= list.len(),
        extension_headers(list.subrange(0, n)) is Err,
    ensures
        extension_headers(list) == extension_headers(list.subrange(0, n)),
    decreases list.len() - n,
{
    if n < list.len() {
        let next = list.subrange(0, n + 1);
        assert(next.drop_last() =~= list.subrange(0, n));
        lemma_extension_error(list, n + 1);
    } else {
        assert(list.subrange(0, n) =~= list);
    }
}

fn read_extensions(headers: &Headers) -> (r: Result<Extensions, ReaderError>)
    ensures
        match r {
            Ok(extensions) => extension_headers(headers@) == Ok::<
                Map<Seq<char>, Seq<char>>,
                ReaderErrorView,
            >(extensions@),
            Err(error) => extension_headers(headers@) == Err::<
                Map<Seq<char>, Seq<char>>,
                ReaderErrorView,
            >(error@),
        },
{
    let ghost list = headers@;
    let prefix = CE_PREFIX.as_bytes();
    let mut extensions = Extensions::new();
    let mut i: usize = 0;
    assert(list.subrange(0, 0) =~= HeaderList::empty());
    while i < headers.len()
        invariant
            i <= list.len(),
            list == headers@,
            prefix@ == encode_utf8(CE_PREFIX@),
            extension_headers(list.subrange(0, i as int)) == Ok::<
                Map<Seq<char>, Seq<char>>,
                ReaderErrorView,
            >(extensions@),
        decreases list.len() - i,
    {
        let ghost next = list.subrange(0, i + 1);
        assert(next.drop_last() =~= list.subrange(0, i as int));
        assert(next.last() == list[i as int]);
        let (name, value) = headers.entry(i);
        if starts_with_ignore_case(name.as_slice(), prefix) && !is_attribute_name(name.as_slice()) {
            let lowered = to_lower(name.as_slice());
            let key = vstd::slice::slice_subrange(lowered.as_slice(), prefix.len(), lowered.len());
            assert(key@ == extension_key(name@));
            match (text_of(key), text_of(value.as_slice())) {
                (Some(key), Some(value)) => {
                    extensions.insert(key, value);
                },
                _ => {
                    proof {
                        assert(extension_headers(next) == Err::<
                            Map<Seq<char>, Seq<char>>,
                            ReaderErrorView,
                        >(unreadable_extension()));
                        lemma_extension_error(list, i + 1);
                    }
                    return Err(
                        ReaderError::InvalidMetadata {
                            name: String::from_str("extensions"),
                            reason: String::from_str("failed to convert header to a str"),
                        },
                    );
                },
            }
        }
        i += 1;
    }
    assert(list.subrange(0, i as int) =~= list);
    Ok(extensions)
}

/// Reads the event that headers carry in binary mode, with the given
/// payload.
pub fn read_binary(headers: &Headers, payload: Option<Payload>) -> (r: Result<Event, ReaderError>)
    ensures
        event_outcome(r) == binary_event(headers@, crate::event::payload_view(payload)),
{
    let id = match read_required(headers, CE_ID_HEADER, "id") {
        Ok(id) => id,
        Err(error) => { return Err(error); },
    };
    let event_type = match read_required(headers, CE_TYPE_HEADER, "type") {
        Ok(event_type) => event_type,
        Err(error) => { return Err(error); },
    };
    let source = match read_required(headers, CE_SOURCE_HEADER, "source") {
        Ok(source) => source,
        Err(error) => { return Err(error); },
    };
    let spec_version = match read_version(headers) {
        Ok(version) => version,
        Err(error) => { return Err(error); },
    };
    let extensions = match read_extensions(headers) {
        Ok(extensions) => extensions,
        Err(error) => { return Err(error); },
    };
    let subject = read_text(headers, CE_SUBJECT_HEADER);
    let time = read_time(headers);
    Ok(Event { id, source, spec_version, event_type, subject, time, payload, extensions })
}

/// The reader's error for a document that could not be read.
pub fn unread_error(cause: Cause) -> (r: ReaderError)
    ensures
        r@ == unread(cause@),
{
    ReaderError::Other(CodecError::DeserializationError(cause))
}

/// Reads the event that a body holds as one JSON document.
pub fn read_structured(body: &[u8]) -> (r: Result<Event, ReaderError>)
    ensures
        event_outcome(r) == structured_event(body@),
{
    match parse_json(body) {
        Err(error) => Err(unread_error(Cause::Json(error))),
        Ok(value) => match event_from_json(&value) {
            Ok(event) => Ok(event),
            Err(cause) => Err(unread_error(cause)),
        },
    }
}

/// Reads the events that a body holds as a JSON array of documents.
pub fn read_batch(body: &[u8]) -> (r: Result<Vec<Event>, ReaderError>)
    ensures
        match r {
            Ok(events) => batch_events(body@) == Ok::<Seq<EventView>, ReaderErrorView>(
                crate::codec::events_view(events@),
            ),
            Err(error) => batch_events(body@) == Err::<Seq<EventView>, ReaderErrorView>(error@),
        },
{
    match parse_json(body) {
        Err(error) => Err(unread_error(Cause::Json(error))),
        Ok(value) => match batch_from_json(&value) {
            Ok(events) => Ok(events),
            Err(cause) => Err(unread_error(cause)),
        },
    }
}

/// A reader of events from requests of type `R`.
pub trait Reader<R> {
    /// What the request carries.
    spec fn carried(req: R) -> Result<WireEvent, ReaderErrorView>;

    /// Reads what a request carries: one event, a batch of events, or no
    /// event.
    fn read_cloud_event(req: R) -> (r: Result<HttpCloudEvent, ReaderError>)
        ensures
            wire_outcome(r) == Self::carried(req),
    ;
}

/// The reader of events from the headers and the body of a request.
pub struct EventReader {}

impl Reader<Request> for EventReader {
    open spec fn carried(req: Request) -> Result<WireEvent, ReaderErrorView> {
        read_outcome(req.headers@, req.body@)
    }

    fn read_cloud_event(req: Request) -> (r: Result<HttpCloudEvent, ReaderError>) {
        let mut headers = req.headers;
        let body = req.body;
        let content_type = match headers.get(CONTENT_TYPE_HEADER) {
            Some(value) => match text_of(value.as_slice()) {
                Some(text) => Some((text, value.clone())),
                None => None,
            },
            None => None,
        };
        headers.remove(CONTENT_TYPE_HEADER);
        let has_id = headers.contains_key(CE_ID_HEADER);
        match content_type {
            Some((text, bytes)) => {
                if body.len() == 0 {
                    Err(
                        ReaderError::InvalidEncoding {
                            content_type: text,
                            reason: String::from_str("empty body with content type present"),
                        },
                    )
                } else if contains_bytes(bytes.as_slice(), CE_JSON_CONTENT_TYPE.as_bytes()) {
                    match read_structured(body.as_slice()) {
                        Ok(event) => Ok(HttpCloudEvent::Structured(Some(event))),
                        Err(error) => Err(error),
                    }
                } else if contains_bytes(bytes.as_slice(), CE_BATCH_JSON_CONTENT_TYPE.as_bytes()) {
                    match read_batch(body.as_slice()) {
                        Ok(events) => Ok(HttpCloudEvent::Batch(events)),
                        Err(error) => Err(error),
                    }
                } else if has_id {
                    let payload = Payload { content_type: text, data: body };
                    match read_binary(&headers, Some(payload)) {
                        Ok(event) => Ok(HttpCloudEvent::Binary(Some(event))),
                        Err(error) => Err(error),
                    }
                } else {
                    Err(
                        ReaderError::InvalidEncoding {
                            content_type: text,
                            reason: String::from_str("unrecognized encoding"),
                        },
                    )
                }
            },
            None => {
                if has_id {
                    match read_binary(&headers, None) {
                        Ok(event) => Ok(HttpCloudEvent::Binary(Some(event))),
                        Err(error) => Err(error),
                    }
                } else {
                    Ok(HttpCloudEvent::Binary(None))
                }
            },
        }
    }
}

} // verus!
