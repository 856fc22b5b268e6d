//! Writing an event in binary mode and reading the headers back.

use crate::event::EventView;
use crate::http::headers::{lemma_lookup_first, lemma_lookup_none, HeaderList};
use crate::http::reader::{
    binary_event, extension_headers, header_text, is_attribute_header, is_extension_header,
    required_header, time_header, version_header, ReaderErrorView,
};
use crate::http::writer::{binary_headers, required_headers, text_header};
use crate::http::{
    CE_ID_HEADER, CE_SOURCE_HEADER, CE_SPECVERSION_HEADER, CE_SUBJECT_HEADER, CE_TIME_HEADER,
    CE_TYPE_HEADER,
};
use crate::laws::names::{is_header_chars, lemma_header_text, lemma_name_bytes};
use crate::spec_version::{lemma_version_round_trip, SpecVersion};
use crate::text::{eq_ignore_case, lower};
use crate::timestamp::{lemma_timestamp_at, lemma_timestamp_numbers, rfc3339_parse, Timestamp};
use vstd::prelude::*;
use vstd::utf8::*;

verus! {

/// The texts of the event can stand in header values.
pub open spec fn fits_headers(event: EventView) -> bool {
    &&& is_header_chars(event.id)
    &&& is_header_chars(event.source)
    &&& is_header_chars(event.event_type)
    &&& event.subject matches Some(subject) ==> is_header_chars(subject)
}

/// The text that is written for the time can stand in a header value, and
/// is read back as the same time.
pub open spec fn time_reads_back(time: Timestamp) -> bool {
    &&& time.valid()
    &&& is_header_chars(time.header_text())
    &&& rfc3339_parse(time.header_text()) == Some((time.seconds(), time.nanos(), time.offset()))
}

/// Headers none of which carries an extension attribute give no extension
/// attributes.
pub proof fn lemma_no_extension_headers(list: HeaderList)
    requires
        forall|i: int| 0 <= i < list.len() ==> !is_extension_header(#[trigger] list[i].0),
    ensures
        extension_headers(list) == Ok::<Map<Seq<char>, Seq<char>>, ReaderErrorView>(Map::empty()),
    decreases list.len(),
{
    if list.len() > 0 {
        let front = list.drop_last();
        assert forall|i: int| 0 <= i < front.len() implies !is_extension_header(
            #[trigger] front[i].0,
        ) by {
            assert(front[i] == list[i]);
        }
        lemma_no_extension_headers(front);
        assert(!is_extension_header(list[list.len() - 1].0));
    }
}

/// No two of the six names of attribute headers are the same, whatever
/// the case.
pub proof fn lemma_names_differ()
    ensures
        !eq_ignore_case(encode_utf8(CE_ID_HEADER@), encode_utf8(CE_TYPE_HEADER@)),
        !eq_ignore_case(encode_utf8(CE_ID_HEADER@), encode_utf8(CE_SOURCE_HEADER@)),
        !eq_ignore_case(encode_utf8(CE_ID_HEADER@), encode_utf8(CE_SPECVERSION_HEADER@)),
        !eq_ignore_case(encode_utf8(CE_ID_HEADER@), encode_utf8(CE_SUBJECT_HEADER@)),
        !eq_ignore_case(encode_utf8(CE_ID_HEADER@), encode_utf8(CE_TIME_HEADER@)),
        !eq_ignore_case(encode_utf8(CE_TYPE_HEADER@), encode_utf8(CE_SOURCE_HEADER@)),
        !eq_ignore_case(encode_utf8(CE_TYPE_HEADER@), encode_utf8(CE_SPECVERSION_HEADER@)),
        !eq_ignore_case(encode_utf8(CE_TYPE_HEADER@), encode_utf8(CE_SUBJECT_HEADER@)),
        !eq_ignore_case(encode_utf8(CE_TYPE_HEADER@), encode_utf8(CE_TIME_HEADER@)),
        !eq_ignore_case(encode_utf8(CE_SOURCE_HEADER@), encode_utf8(CE_SPECVERSION_HEADER@)),
        !eq_ignore_case(encode_utf8(CE_SOURCE_HEADER@), encode_utf8(CE_SUBJECT_HEADER@)),
        !eq_ignore_case(encode_utf8(CE_SOURCE_HEADER@), encode_utf8(CE_TIME_HEADER@)),
        !eq_ignore_case(encode_utf8(CE_SPECVERSION_HEADER@), encode_utf8(CE_SUBJECT_HEADER@)),
        !eq_ignore_case(encode_utf8(CE_SPECVERSION_HEADER@), encode_utf8(CE_TIME_HEADER@)),
        !eq_ignore_case(encode_utf8(CE_SUBJECT_HEADER@), encode_utf8(CE_TIME_HEADER@)),
{
    lemma_name_bytes();
    let id = encode_utf8(CE_ID_HEADER@);
    let ty = encode_utf8(CE_TYPE_HEADER@);
    let source = encode_utf8(CE_SOURCE_HEADER@);
    let version = encode_utf8(CE_SPECVERSION_HEADER@);
    let subject = encode_utf8(CE_SUBJECT_HEADER@);
    let time = encode_utf8(CE_TIME_HEADER@);
    assert(lower(id).len() == 5);
    assert(lower(ty).len() == 7);
    assert(lower(source).len() == 9);
    assert(lower(version).len() == 14);
    assert(lower(subject).len() == 10);
    assert(lower(time).len() == 7);
    assert(lower(ty)[4] != lower(time)[4]);
}

/// A time that is read from headers is made of the numbers that the text
/// of the time header holds.
pub proof fn law_time_header_numbers(list: HeaderList)
    ensures
        time_header(list) matches Some(time) ==> time.valid(),
        time_header(list) matches Some(time) ==> header_text(list, CE_TIME_HEADER@) is Some,
        time_header(list) matches Some(time) ==> rfc3339_parse(
            header_text(list, CE_TIME_HEADER@)->Some_0,
        ) == Some((time.seconds(), time.nanos(), time.offset())),
{
    if time_header(list) is Some {
        let text = header_text(list, CE_TIME_HEADER@)->Some_0;
        let numbers = rfc3339_parse(text)->Some_0;
        lemma_timestamp_at(numbers.0, numbers.1, numbers.2);
    }
}

/// The four required attributes are read back from the headers that are
/// written for them, whatever headers follow.
proof fn lemma_required_read_back(event: EventView, list: HeaderList)
    requires
        fits_headers(event),
        list.len() >= 4,
        list.subrange(0, 4) == required_headers(event),
    ensures
        required_header(list, CE_ID_HEADER@, "id"@) == Ok::<Seq<char>, ReaderErrorView>(event.id),
        required_header(list, CE_TYPE_HEADER@, "type"@) == Ok::<Seq<char>, ReaderErrorView>(
            event.event_type,
        ),
        required_header(list, CE_SOURCE_HEADER@, "source"@) == Ok::<Seq<char>, ReaderErrorView>(
            event.source,
        ),
        version_header(list) == Ok::<SpecVersion, ReaderErrorView>(event.spec_version),
{
    lemma_names_differ();
    let head = required_headers(event);
    assert(list[0] == head[0]);
    assert(list[1] == head[1]);
    assert(list[2] == head[2]);
    assert(list[3] == head[3]);
    lemma_lookup_first(list, encode_utf8(CE_ID_HEADER@), 0);
    lemma_lookup_first(list, encode_utf8(CE_SPECVERSION_HEADER@), 1);
    lemma_lookup_first(list, encode_utf8(CE_SOURCE_HEADER@), 2);
    lemma_lookup_first(list, encode_utf8(CE_TYPE_HEADER@), 3);
    lemma_header_text(event.id);
    lemma_header_text(event.source);
    lemma_header_text(event.event_type);
    let token = event.spec_version.token();
    assert(is_header_chars(token)) by {
        reveal_strlit("0.2");
        reveal_strlit("0.3");
        reveal_strlit("1.0");
    }
    lemma_header_text(token);
    lemma_version_round_trip(event.spec_version);
}

/// An event without extension attributes, whose texts can stand in header
/// values, is read back from the headers that are written for it in binary
/// mode, together with its payload, if it has one: its id, type, source,
/// version, subject and time are the same. For an event with a time this
/// holds where the text of the time is read back as the same time.
pub proof fn law_binary_round_trip(event: EventView)
    requires
        event.extensions == Map::<Seq<char>, Seq<char>>::empty(),
        fits_headers(event),
    ensures
        (event.time matches Some(time) ==> time_reads_back(time)) ==> binary_event(
            binary_headers(event),
            event.payload,
        ) == Ok::<EventView, ReaderErrorView>(event),
{
    if event.time matches Some(time) ==> time_reads_back(time) {
        lemma_names_differ();
        let list = binary_headers(event);
        let head = required_headers(event);
        assert(list.subrange(0, 4) =~= head);
        lemma_required_read_back(event, list);
        assert(list[0] == head[0]);
        assert(list[1] == head[1]);
        assert(list[2] == head[2]);
        assert(list[3] == head[3]);
        let subject_name = encode_utf8(CE_SUBJECT_HEADER@);
        let time_name = encode_utf8(CE_TIME_HEADER@);
        match event.subject {
            Some(subject) => {
                assert(list[4] == text_header(CE_SUBJECT_HEADER@, subject));
                lemma_lookup_first(list, subject_name, 4);
                lemma_header_text(subject);
                match event.time {
                    Some(time) => {
                        assert(list.len() == 6);
                        assert(list[5] == text_header(CE_TIME_HEADER@, time.header_text()));
                        lemma_lookup_first(list, time_name, 5);
                    },
                    None => {
                        assert(list.len() == 5);
                        lemma_lookup_none(list, time_name);
                    },
                }
            },
            None => {
                match event.time {
                    Some(time) => {
                        assert(list.len() == 5);
                        assert(list[4] == text_header(CE_TIME_HEADER@, time.header_text()));
                        lemma_lookup_first(list, time_name, 4);
                        lemma_lookup_none(list, subject_name);
                    },
                    None => {
                        assert(list.len() == 4);
                        lemma_lookup_none(list, time_name);
                        lemma_lookup_none(list, subject_name);
                    },
                }
            },
        }
        if event.time is Some {
            let time = event.time->Some_0;
            lemma_header_text(time.header_text());
            lemma_timestamp_numbers(time);
        }
        assert(header_text(list, CE_SUBJECT_HEADER@) == event.subject);
        assert(time_header(list) == event.time);
        assert forall|i: int| 0 <= i < list.len() implies !is_extension_header(
            #[trigger] list[i].0,
        ) by {
            assert(is_attribute_header(list[i].0));
        }
        lemma_no_extension_headers(list);
        assert(binary_event(list, event.payload)->Ok_0.extensions =~= event.extensions);
    }
}

} // verus!
