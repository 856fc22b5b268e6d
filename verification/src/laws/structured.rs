//! Writing the document of an event and reading it back.

use crate::codec::{
    batch_of_json, event_of_json, events_of_items, extension_members,
    extensions_of, is_reserved, json_of_batch, json_of_event, json_of_events, member, members_of,
    optional_text, payload_members, payload_of, required_members, required_text, subject_members,
    text_member, time_members, time_of, version_of, Members,
};
use crate::error::CauseView;
use crate::event::{Event, EventView};
use crate::extensions::{distinct_names, has_name, lemma_map_of_push, map_of};
use crate::http::reader::{structured_event, ReaderErrorView};
use crate::json::{json_parse, json_text, JsonView};
use crate::spec_version::{lemma_version_round_trip, SpecVersion};
use crate::timestamp::{datetime_parse, lemma_timestamp_numbers, Timestamp};
use vstd::prelude::*;
use vstd::utf8::*;

verus! {

/// No extension attribute has the name of an attribute or of the payload.
pub open spec fn no_reserved_names(pairs: Seq<(Seq<char>, Seq<char>)>) -> bool {
    forall|i: int| 0 <= i < pairs.len() ==> !is_reserved((#[trigger] pairs[i]).0)
}

/// The event can be written as a document: its extension attributes are
/// the given pairs, none of them has a reserved name, and the data of its
/// payload is UTF-8 text.
pub open spec fn has_document(event: EventView, pairs: Seq<(Seq<char>, Seq<char>)>) -> bool {
    &&& distinct_names(pairs)
    &&& no_reserved_names(pairs)
    &&& event.extensions == map_of(pairs)
    &&& event.payload matches Some(payload) ==> valid_utf8(payload.data)
}

/// The text that a document holds for the time is read back as the same
/// time.
pub open spec fn time_reads_back(time: Timestamp) -> bool {
    &&& time.valid()
    &&& datetime_parse(time.json_text()) == Some((time.seconds(), time.nanos(), time.offset()))
}

/// The first of two lookups that finds something.
pub open spec fn or_else(first: Option<JsonView>, second: Option<JsonView>) -> Option<JsonView> {
    match first {
        Some(value) => Some(value),
        None => second,
    }
}

/// A member is looked up in the first of two lists, and in the second
/// where the first has none of the name.
pub proof fn lemma_member_concat(a: Members, b: Members, name: Seq<char>)
    ensures
        member(a + b, name) == or_else(member(a, name), member(b, name)),
    decreases b.len(),
{
    if b.len() == 0 {
        assert(a + b =~= a);
    } else {
        let ab = a + b;
        assert(ab.drop_last() =~= a + b.drop_last());
        assert(ab.last() == b.last());
        lemma_member_concat(a, b.drop_last(), name);
    }
}

/// The eight reserved names differ from each other.
pub proof fn lemma_reserved_names()
    ensures
        "id"@.len() == 2,
        "source"@.len() == 6,
        "specversion"@.len() == 11,
        "type"@.len() == 4,
        "subject"@.len() == 7,
        "time"@.len() == 4,
        "datacontenttype"@.len() == 15,
        "data"@.len() == 4,
        "type"@ != "time"@,
        "type"@ != "data"@,
        "time"@ != "data"@,
{
    reveal_strlit("id");
    reveal_strlit("source");
    reveal_strlit("specversion");
    reveal_strlit("type");
    reveal_strlit("subject");
    reveal_strlit("time");
    reveal_strlit("datacontenttype");
    reveal_strlit("data");
    assert("type"@[1] != "time"@[1]);
    assert("type"@[0] != "data"@[0]);
    assert("time"@[0] != "data"@[0]);
}

/// Members that all have reserved names hold no extension attribute, and
/// none holds one before members that follow them.
pub proof fn lemma_reserved_prefix(a: Members, b: Members)
    requires
        forall|i: int| 0 <= i < a.len() ==> is_reserved((#[trigger] a[i]).0),
    ensures
        extensions_of(a + b) == extensions_of(b),
    decreases a.len() + b.len(),
{
    if b.len() == 0 {
        assert(a + b =~= a);
        if a.len() > 0 {
            let front = a.drop_last();
            assert forall|i: int| 0 <= i < front.len() implies is_reserved(
                (#[trigger] front[i]).0,
            ) by {
                assert(front[i] == a[i]);
            }
            lemma_reserved_prefix(front, b);
            assert(front + b =~= front);
            assert(is_reserved(a[a.len() - 1].0));
        }
    } else {
        let ab = a + b;
        assert(ab.drop_last() =~= a + b.drop_last());
        assert(ab.last() == b.last());
        lemma_reserved_prefix(a, b.drop_last());
    }
}

/// The members of extension attributes with distinct names, none of them
/// reserved, are read back as the map of the attributes.
pub proof fn lemma_extension_members(pairs: Seq<(Seq<char>, Seq<char>)>)
    requires
        distinct_names(pairs),
        no_reserved_names(pairs),
    ensures
        extensions_of(extension_members(pairs)) == Ok::<Map<Seq<char>, Seq<char>>, CauseView>(
            map_of(pairs),
        ),
    decreases pairs.len(),
{
    let members = extension_members(pairs);
    if pairs.len() == 0 {
        assert(map_of(pairs) =~= Map::<Seq<char>, Seq<char>>::empty());
    } else {
        let front = pairs.drop_last();
        let last = pairs.last();
        assert(distinct_names(front)) by {
            assert forall|i: int, j: int|
                0 <= i < front.len() && 0 <= j < front.len() && (#[trigger] front[i]).0 == (
                #[trigger] front[j]).0 implies i == j by {
                assert(front[i] == pairs[i]);
                assert(front[j] == pairs[j]);
            }
        }
        assert(no_reserved_names(front)) by {
            assert forall|i: int| 0 <= i < front.len() implies !is_reserved(
                (#[trigger] front[i]).0,
            ) by {
                assert(front[i] == pairs[i]);
            }
        }
        lemma_extension_members(front);
        assert(members.drop_last() =~= extension_members(front));
        assert(members.last() == text_member(last.0, last.1));
        assert(!has_name(front, last.0)) by {
            if has_name(front, last.0) {
                let i = choose|i: int| 0 <= i < front.len() && (#[trigger] front[i]).0 == last.0;
                assert(front[i] == pairs[i]);
                assert(pairs[i].0 == pairs[pairs.len() - 1].0);
            }
        }
        lemma_map_of_push(front, last.0, last.1);
        assert(front.push((last.0, last.1)) =~= pairs);
        assert(!is_reserved(pairs[pairs.len() - 1].0));
    }
}

/// Members of extension attributes without reserved names have no member
/// of a reserved name.
pub proof fn lemma_extension_members_lookup(pairs: Seq<(Seq<char>, Seq<char>)>, name: Seq<char>)
    requires
        no_reserved_names(pairs),
        is_reserved(name),
    ensures
        member(extension_members(pairs), name) is None,
{
    let members = extension_members(pairs);
    assert forall|j: int| 0 <= j < members.len() implies (#[trigger] members[j]).0 != name by {
        assert(members[j].0 == pairs[j].0);
    }
    crate::codec::lemma_member_none(members, name);
}

/// A member of the document is looked up in its parts, one after the
/// other.
pub proof fn lemma_member_parts(
    event: EventView,
    pairs: Seq<(Seq<char>, Seq<char>)>,
    name: Seq<char>,
)
    ensures
        member(members_of(event, pairs), name) == or_else(
            member(required_members(event), name),
            or_else(
                member(subject_members(event), name),
                or_else(
                    member(time_members(event), name),
                    or_else(
                        member(payload_members(event), name),
                        member(extension_members(pairs), name),
                    ),
                ),
            ),
        ),
{
    let r = required_members(event);
    let s = subject_members(event);
    let t = time_members(event);
    let p = payload_members(event);
    let x = extension_members(pairs);
    lemma_member_concat(r + s + t + p, x, name);
    lemma_member_concat(r + s + t, p, name);
    lemma_member_concat(r + s, t, name);
    lemma_member_concat(r, s, name);
}

/// What the members of the required attributes hold under each reserved
/// name.
proof fn lemma_required_lookup(event: EventView)
    ensures
        member(required_members(event), "id"@) == Some(JsonView::String(event.id)),
        member(required_members(event), "source"@) == Some(JsonView::String(event.source)),
        member(required_members(event), "specversion"@) == Some(
            JsonView::String(event.spec_version.token()),
        ),
        member(required_members(event), "type"@) == Some(JsonView::String(event.event_type)),
        member(required_members(event), "subject"@) is None,
        member(required_members(event), "time"@) is None,
        member(required_members(event), "datacontenttype"@) is None,
        member(required_members(event), "data"@) is None,
{
    lemma_reserved_names();
    let r = required_members(event);
    assert(r[0].0 == "id"@ && r[1].0 == "source"@ && r[2].0 == "specversion"@ && r[3].0
        == "type"@);
    crate::codec::lemma_member_first(r, "id"@, 0);
    crate::codec::lemma_member_first(r, "source"@, 1);
    crate::codec::lemma_member_first(r, "specversion"@, 2);
    crate::codec::lemma_member_first(r, "type"@, 3);
    crate::codec::lemma_member_none(r, "subject"@);
    crate::codec::lemma_member_none(r, "time"@);
    crate::codec::lemma_member_none(r, "datacontenttype"@);
    crate::codec::lemma_member_none(r, "data"@);
}

/// What the member of the subject holds under each reserved name.
proof fn lemma_subject_lookup(event: EventView)
    ensures
        member(subject_members(event), "subject"@) == match event.subject {
            Some(subject) => Some(JsonView::String(subject)),
            None => None,
        },
        member(subject_members(event), "id"@) is None,
        member(subject_members(event), "source"@) is None,
        member(subject_members(event), "specversion"@) is None,
        member(subject_members(event), "type"@) is None,
        member(subject_members(event), "time"@) is None,
        member(subject_members(event), "datacontenttype"@) is None,
        member(subject_members(event), "data"@) is None,
{
    lemma_reserved_names();
    let s = subject_members(event);
    if event.subject is Some {
        assert(s[0].0 == "subject"@);
        crate::codec::lemma_member_first(s, "subject"@, 0);
    } else {
        crate::codec::lemma_member_none(s, "subject"@);
    }
    crate::codec::lemma_member_none(s, "id"@);
    crate::codec::lemma_member_none(s, "source"@);
    crate::codec::lemma_member_none(s, "specversion"@);
    crate::codec::lemma_member_none(s, "type"@);
    crate::codec::lemma_member_none(s, "time"@);
    crate::codec::lemma_member_none(s, "datacontenttype"@);
    crate::codec::lemma_member_none(s, "data"@);
}

/// What the member of the time holds under each reserved name.
proof fn lemma_time_lookup(event: EventView)
    ensures
        member(time_members(event), "time"@) == match event.time {
            Some(time) => Some(JsonView::String(time.json_text())),
            None => None,
        },
        member(time_members(event), "id"@) is None,
        member(time_members(event), "source"@) is None,
        member(time_members(event), "specversion"@) is None,
        member(time_members(event), "type"@) is None,
        member(time_members(event), "subject"@) is None,
        member(time_members(event), "datacontenttype"@) is None,
        member(time_members(event), "data"@) is None,
{
    lemma_reserved_names();
    let t = time_members(event);
    if event.time is Some {
        assert(t[0].0 == "time"@);
        crate::codec::lemma_member_first(t, "time"@, 0);
    } else {
        crate::codec::lemma_member_none(t, "time"@);
    }
    crate::codec::lemma_member_none(t, "id"@);
    crate::codec::lemma_member_none(t, "source"@);
    crate::codec::lemma_member_none(t, "specversion"@);
    crate::codec::lemma_member_none(t, "type"@);
    crate::codec::lemma_member_none(t, "subject"@);
    crate::codec::lemma_member_none(t, "datacontenttype"@);
    crate::codec::lemma_member_none(t, "data"@);
}

/// What the members of the payload hold under each reserved name.
proof fn lemma_payload_lookup(event: EventView)
    ensures
        member(payload_members(event), "datacontenttype"@) == match event.payload {
            Some(payload) => Some(JsonView::String(payload.content_type)),
            None => None,
        },
        member(payload_members(event), "data"@) == match event.payload {
            Some(payload) => Some(JsonView::String(decode_utf8(payload.data))),
            None => None,
        },
        member(payload_members(event), "id"@) is None,
        member(payload_members(event), "source"@) is None,
        member(payload_members(event), "specversion"@) is None,
        member(payload_members(event), "type"@) is None,
        member(payload_members(event), "subject"@) is None,
        member(payload_members(event), "time"@) is None,
{
    lemma_reserved_names();
    let p = payload_members(event);
    if event.payload is Some {
        assert(p[0].0 == "datacontenttype"@ && p[1].0 == "data"@);
        crate::codec::lemma_member_first(p, "datacontenttype"@, 0);
        crate::codec::lemma_member_first(p, "data"@, 1);
    } else {
        crate::codec::lemma_member_none(p, "datacontenttype"@);
        crate::codec::lemma_member_none(p, "data"@);
    }
    crate::codec::lemma_member_none(p, "id"@);
    crate::codec::lemma_member_none(p, "source"@);
    crate::codec::lemma_member_none(p, "specversion"@);
    crate::codec::lemma_member_none(p, "type"@);
    crate::codec::lemma_member_none(p, "subject"@);
    crate::codec::lemma_member_none(p, "time"@);
}

/// What the document of an event holds under each reserved name.
proof fn lemma_document_lookup(event: EventView, pairs: Seq<(Seq<char>, Seq<char>)>)
    requires
        no_reserved_names(pairs),
    ensures
        member(members_of(event, pairs), "id"@) == Some(JsonView::String(event.id)),
        member(members_of(event, pairs), "source"@) == Some(JsonView::String(event.source)),
        member(members_of(event, pairs), "specversion"@) == Some(
            JsonView::String(event.spec_version.token()),
        ),
        member(members_of(event, pairs), "type"@) == Some(JsonView::String(event.event_type)),
        member(members_of(event, pairs), "subject"@) == match event.subject {
            Some(subject) => Some(JsonView::String(subject)),
            None => None,
        },
        member(members_of(event, pairs), "time"@) == match event.time {
            Some(time) => Some(JsonView::String(time.json_text())),
            None => None,
        },
        member(members_of(event, pairs), "datacontenttype"@) == match event.payload {
            Some(payload) => Some(JsonView::String(payload.content_type)),
            None => None,
        },
        member(members_of(event, pairs), "data"@) == match event.payload {
            Some(payload) => Some(JsonView::String(decode_utf8(payload.data))),
            None => None,
        },
{
    lemma_required_lookup(event);
    lemma_subject_lookup(event);
    lemma_time_lookup(event);
    lemma_payload_lookup(event);
    lemma_member_parts(event, pairs, "id"@);
    lemma_member_parts(event, pairs, "source"@);
    lemma_member_parts(event, pairs, "specversion"@);
    lemma_member_parts(event, pairs, "type"@);
    lemma_member_parts(event, pairs, "subject"@);
    lemma_member_parts(event, pairs, "time"@);
    lemma_member_parts(event, pairs, "datacontenttype"@);
    lemma_member_parts(event, pairs, "data"@);
    lemma_extension_members_lookup(pairs, "subject"@);
    lemma_extension_members_lookup(pairs, "time"@);
    lemma_extension_members_lookup(pairs, "datacontenttype"@);
    lemma_extension_members_lookup(pairs, "data"@);
}

/// The extension attributes of the document of an event are those of the
/// event.
proof fn lemma_document_extensions(event: EventView, pairs: Seq<(Seq<char>, Seq<char>)>)
    requires
        distinct_names(pairs),
        no_reserved_names(pairs),
    ensures
        extensions_of(members_of(event, pairs)) == Ok::<Map<Seq<char>, Seq<char>>, CauseView>(
            map_of(pairs),
        ),
{
    let fixed = required_members(event) + subject_members(event) + time_members(event)
        + payload_members(event);
    assert forall|i: int| 0 <= i < fixed.len() implies is_reserved((#[trigger] fixed[i]).0) by {
        let r = required_members(event);
        let s = subject_members(event);
        let t = time_members(event);
        let p = payload_members(event);
        if i < 4 {
            assert(fixed[i] == r[i]);
        } else if i < 4 + s.len() {
            assert(fixed[i] == s[i - 4]);
        } else if i < 4 + s.len() + t.len() {
            assert(fixed[i] == t[i - 4 - s.len()]);
        } else {
            assert(fixed[i] == p[i - 4 - s.len() - t.len()]);
        }
    }
    lemma_reserved_prefix(fixed, extension_members(pairs));
    lemma_extension_members(pairs);
}

/// An event is read back from its own document: every attribute, the
/// payload and the extension attributes are the same. For an event with a
/// time this holds where the text of the time is read back as the same
/// time.
pub proof fn law_document_round_trip(event: EventView, pairs: Seq<(Seq<char>, Seq<char>)>)
    requires
        has_document(event, pairs),
    ensures
        json_of_event(event, pairs) is Ok,
        (event.time matches Some(time) ==> time_reads_back(time)) ==> event_of_json(
            json_of_event(event, pairs)->Ok_0,
        ) == Ok::<EventView, CauseView>(event),
{
    if event.time matches Some(time) ==> time_reads_back(time) {
        let members = members_of(event, pairs);
        lemma_document_lookup(event, pairs);
        lemma_document_extensions(event, pairs);
        lemma_version_round_trip(event.spec_version);
        if event.time is Some {
            lemma_timestamp_numbers(event.time->Some_0);
        }
        if event.payload is Some {
            decode_utf8_encode_utf8(event.payload->Some_0.data);
        }
        assert(required_text(members, "id"@) == Ok::<Seq<char>, CauseView>(event.id));
        assert(required_text(members, "source"@) == Ok::<Seq<char>, CauseView>(event.source));
        assert(version_of(members) == Ok::<SpecVersion, CauseView>(event.spec_version));
        assert(required_text(members, "type"@) == Ok::<Seq<char>, CauseView>(event.event_type));
        assert(optional_text(members, "subject"@) == Ok::<Option<Seq<char>>, CauseView>(
            event.subject,
        ));
        assert(time_of(members) == Ok::<Option<Timestamp>, CauseView>(event.time));
        assert(payload_of(members) == event.payload);
    }
}

/// An event is read back from the text of its own document, where the
/// JSON parser reads the text that the printer wrote as the document that
/// was printed.
pub proof fn law_structured_round_trip(
    event: EventView,
    pairs: Seq<(Seq<char>, Seq<char>)>,
    body: Seq<u8>,
)
    requires
        has_document(event, pairs),
        event.time matches Some(time) ==> time.valid(),
    ensures
        ({
            let document = json_of_event(event, pairs)->Ok_0;
            &&& event.time matches Some(time) ==> time_reads_back(time)
            &&& json_text(document) == Some(body)
            &&& json_parse(body) == Some(document)
        }) ==> structured_event(body) == Ok::<EventView, ReaderErrorView>(event),
{
    law_document_round_trip(event, pairs);
}

/// The events of a list can be written as documents.
pub open spec fn have_documents(events: Seq<Event>) -> bool {
    forall|i: int|
        0 <= i < events.len() ==> has_document(
            (#[trigger] events[i])@,
            events[i].extensions.pairs(),
        )
}

/// The times of the events of a list are read back from their texts.
pub open spec fn times_read_back(events: Seq<Event>) -> bool {
    forall|i: int|
        0 <= i < events.len() ==> ((#[trigger] events[i]).time matches Some(time)
            ==> time_reads_back(time))
}

/// The documents of a list of events are read back as the events.
proof fn lemma_events_round_trip(events: Seq<Event>)
    requires
        have_documents(events),
    ensures
        json_of_events(events) is Ok,
        json_of_events(events)->Ok_0.len() == events.len(),
        times_read_back(events) ==> events_of_items(json_of_events(events)->Ok_0) == Ok::<
            Seq<EventView>,
            CauseView,
        >(crate::codec::events_view(events)),
    decreases events.len(),
{
    if events.len() == 0 {
        assert(crate::codec::events_view(events) =~= Seq::<EventView>::empty());
    } else {
        let front = events.drop_last();
        let last = events.last();
        assert(have_documents(front)) by {
            assert forall|i: int| 0 <= i < front.len() implies has_document(
                (#[trigger] front[i])@,
                front[i].extensions.pairs(),
            ) by {
                assert(front[i] == events[i]);
            }
        }
        lemma_events_round_trip(front);
        assert(has_document(events[events.len() - 1]@, last.extensions.pairs()));
        law_document_round_trip(last@, last.extensions.pairs());
        if times_read_back(events) {
            assert(times_read_back(front)) by {
                assert forall|i: int| 0 <= i < front.len() implies ((#[trigger] front[i]).time matches Some(
                    time,
                ) ==> time_reads_back(time)) by {
                    assert(front[i] == events[i]);
                }
            }
            assert(events[events.len() - 1].time matches Some(time) ==> time_reads_back(time));
            let items = json_of_events(events)->Ok_0;
            let item = json_of_event(last@, last.extensions.pairs())->Ok_0;
            assert(items == json_of_events(front)->Ok_0.push(item));
            assert(items.drop_last() =~= json_of_events(front)->Ok_0);
            assert(items.last() == item);
            assert(crate::codec::events_view(events) =~= crate::codec::events_view(front).push(
                last@,
            ));
        }
    }
}

/// A batch of events is read back from its own document: the same events
/// in the same order. For events with a time this holds where the text of
/// each time is read back as the same time.
pub proof fn law_batch_round_trip(events: Seq<Event>)
    requires
        have_documents(events),
    ensures
        json_of_batch(events) is Ok,
        times_read_back(events) ==> batch_of_json(json_of_batch(events)->Ok_0) == Ok::<
            Seq<EventView>,
            CauseView,
        >(crate::codec::events_view(events)),
{
    lemma_events_round_trip(events);
}

} // verus!
