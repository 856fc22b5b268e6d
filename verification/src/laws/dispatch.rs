//! How the reader decides between the encodings.

use crate::event::EventView;
use crate::http::headers::{
    lemma_lookup_none, lemma_lookup_none_means_absent, lemma_without, lookup, without, HeaderList,
};
use crate::http::reader::is_attribute_header;
use crate::laws::names::lemma_name_bytes;
use crate::text::{eq_ignore_case, lower};
use crate::http::reader::{read_outcome, structured_event, ReaderErrorView};
use crate::http::{WireEvent, CE_ID_HEADER, CE_JSON_CONTENT_TYPE, CONTENT_TYPE_HEADER};
use crate::text::{ascii_chars, contains, is_text};
use vstd::prelude::*;
use vstd::utf8::*;

verus! {

/// A request with a content type and an empty body is rejected as badly
/// encoded, whatever the content type is, and the error names the content
/// type.
pub proof fn law_empty_body_is_invalid_encoding(list: HeaderList, content_type: Seq<u8>)
    requires
        lookup(list, encode_utf8(CONTENT_TYPE_HEADER@)) == Some(content_type),
        is_text(content_type),
    ensures
        read_outcome(list, Seq::<u8>::empty()) == Err::<WireEvent, ReaderErrorView>(
            ReaderErrorView::InvalidEncoding {
                content_type: ascii_chars(content_type),
                reason: "empty body with content type present"@,
            },
        ),
{
}

/// A request without a content type header and without an id header
/// carries no event, and that is no error.
pub proof fn law_no_headers_is_no_event(list: HeaderList, body: Seq<u8>)
    requires
        lookup(list, encode_utf8(CONTENT_TYPE_HEADER@)) is None,
        lookup(list, encode_utf8(CE_ID_HEADER@)) is None,
    ensures
        read_outcome(list, body) == Ok::<WireEvent, ReaderErrorView>(WireEvent::Binary(None)),
{
    lemma_lookup_none_means_absent(list, encode_utf8(CONTENT_TYPE_HEADER@));
    lemma_lookup_none(list, encode_utf8(CONTENT_TYPE_HEADER@));
}

/// A request whose content type holds the media type of a JSON event, and
/// whose body holds the document of an event, carries that event in
/// structured mode, whatever its other headers are.
pub proof fn law_json_content_type_is_structured(
    list: HeaderList,
    body: Seq<u8>,
    content_type: Seq<u8>,
    event: EventView,
)
    requires
        lookup(list, encode_utf8(CONTENT_TYPE_HEADER@)) == Some(content_type),
        is_text(content_type),
        contains(content_type, encode_utf8(CE_JSON_CONTENT_TYPE@)),
        body.len() > 0,
    ensures
        structured_event(body) == Ok::<EventView, ReaderErrorView>(event) ==> read_outcome(
            list,
            body,
        ) == Ok::<WireEvent, ReaderErrorView>(WireEvent::Structured(Some(event))),
{
}

/// Taking the content type header out of the headers leaves the header of
/// every attribute where it was: each is found as before.
pub proof fn law_attributes_survive_content_type(list: HeaderList, name: Seq<u8>)
    requires
        is_attribute_header(name),
    ensures
        lookup(without(list, encode_utf8(CONTENT_TYPE_HEADER@)), name) == lookup(list, name),
{
    lemma_name_bytes();
    let content_type = encode_utf8(CONTENT_TYPE_HEADER@);
    assert(lower(content_type).len() == 12);
    assert(lower(name).len() != 12);
    assert(!eq_ignore_case(name, content_type));
    lemma_without(list, content_type, name);
}

} // verus!
