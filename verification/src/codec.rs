//! The JSON document of an event: one object whose members are the
//! attributes, the payload and the extension attributes of the event.

use crate::error::{Cause, CauseView};
use crate::event::{Event, EventView};
use crate::extensions::Extensions;
use crate::json::{
    items_view, lemma_array_view, lemma_object_view, members_view, JsonValue, JsonView,
};
use crate::payload::{Payload, PayloadView};
use crate::spec_version::SpecVersion;
use crate::text::{str_eq, string_from_utf8};
use crate::timestamp::{datetime_parse, Timestamp};
use vstd::prelude::*;
use vstd::string::*;
use vstd::utf8::*;

verus! {

/// The members of a JSON object: names and values, in order.
pub type Members = Seq<(Seq<char>, JsonView)>;

/// The value of the first member with the given name.
pub open spec fn member(members: Members, name: Seq<char>) -> Option<JsonView>
    decreases members.len(),
{
    if members.len() == 0 {
        None
    } else {
        match member(members.drop_last(), name) {
            Some(value) => Some(value),
            None => if members.last().0 == name {
                Some(members.last().1)
            } else {
                None
            },
        }
    }
}

/// The first member of a name decides the lookup.
pub proof fn lemma_member_first(members: Members, name: Seq<char>, i: int)
    requires
        0 <= i < members.len(),
        members[i].0 == name,
        forall|j: int| 0 <= j < i ==> (#[trigger] members[j]).0 != name,
    ensures
        member(members, name) == Some(members[i].1),
    decreases members.len(),
{
    let front = members.drop_last();
    if i == members.len() - 1 {
        lemma_member_none(front, name);
    } else {
        lemma_member_first(front, name, i);
    }
}

/// Where no member has the name, the lookup finds nothing.
pub proof fn lemma_member_none(members: Members, name: Seq<char>)
    requires
        forall|j: int| 0 <= j < members.len() ==> (#[trigger] members[j]).0 != name,
    ensures
        member(members, name) is None,
    decreases members.len(),
{
    if members.len() > 0 {
        let front = members.drop_last();
        lemma_member_none(front, name);
        assert(members[members.len() - 1].0 != name);
    }
}

/// The names that an attribute or the payload has in the document; an
/// extension attribute has none of them.
pub open spec fn is_reserved(name: Seq<char>) -> bool {
    name == "id"@ || name == "source"@ || name == "specversion"@ || name == "type"@ || name
        == "subject"@ || name == "time"@ || name == "datacontenttype"@ || name == "data"@
}

/// A required attribute: a string member of the given name.
pub open spec fn required_text(members: Members, name: Seq<char>) -> Result<Seq<char>, CauseView> {
    match member(members, name) {
        None => Err(CauseView::MissingField(name)),
        Some(JsonView::String(s)) => Ok(s),
        Some(_) => Err(CauseView::InvalidType(name)),
    }
}

/// An optional attribute: a string member of the given name, or none, or
/// null.
pub open spec fn optional_text(members: Members, name: Seq<char>) -> Result<
    Option<Seq<char>>,
    CauseView,
> {
    match member(members, name) {
        None => Ok(None),
        Some(JsonView::Null) => Ok(None),
        Some(JsonView::String(s)) => Ok(Some(s)),
        Some(_) => Err(CauseView::InvalidType(name)),
    }
}

/// The version attribute: one of the supported tokens.
pub open spec fn version_of(members: Members) -> Result<SpecVersion, CauseView> {
    match required_text(members, "specversion"@) {
        Err(cause) => Err(cause),
        Ok(token) => match SpecVersion::parse(token) {
            Some(version) => Ok(version),
            None => Err(CauseView::UnsupportedVersion(token)),
        },
    }
}

/// The time attribute: a timestamp in the text form of a document.
pub open spec fn time_of(members: Members) -> Result<Option<Timestamp>, CauseView> {
    match optional_text(members, "time"@) {
        Err(cause) => Err(cause),
        Ok(None) => Ok(None),
        Ok(Some(text)) => match Timestamp::of(datetime_parse(text)) {
            Some(time) => Ok(Some(time)),
            None => Err(CauseView::InvalidTime(text)),
        },
    }
}

/// The payload: present where both its content type and its data are
/// string members. The data is the UTF-8 text of the string.
pub open spec fn payload_of(members: Members) -> Option<PayloadView> {
    match (member(members, "datacontenttype"@), member(members, "data"@)) {
        (Some(JsonView::String(content_type)), Some(JsonView::String(data))) => Some(
            PayloadView { content_type, data: encode_utf8(data) },
        ),
        _ => None,
    }
}

/// The extension attributes: every member whose name is not reserved. Each
/// holds a string; the first that does not is an error. Of two members
/// with one name the later stays.
pub open spec fn extensions_of(members: Members) -> Result<Map<Seq<char>, Seq<char>>, CauseView>
    decreases members.len(),
{
    if members.len() == 0 {
        Ok(Map::empty())
    } else {
        match extensions_of(members.drop_last()) {
            Err(cause) => Err(cause),
            Ok(map) => if is_reserved(members.last().0) {
                Ok(map)
            } else {
                match members.last().1 {
                    JsonView::String(value) => Ok(map.insert(members.last().0, value)),
                    _ => Err(CauseView::InvalidType(members.last().0)),
                }
            },
        }
    }
}

/// The event that the members of an object stand for. The attributes are
/// read in the order id, source, version, type, subject, time, then the
/// extension attributes; the first that fails gives the error.
pub open spec fn event_of_members(members: Members) -> Result<EventView, CauseView> {
    let id = required_text(members, "id"@);
    let source = required_text(members, "source"@);
    let version = version_of(members);
    let event_type = required_text(members, "type"@);
    let subject = optional_text(members, "subject"@);
    let time = time_of(members);
    let extensions = extensions_of(members);
    if id is Err {
        Err(id->Err_0)
    } else if source is Err {
        Err(source->Err_0)
    } else if version is Err {
        Err(version->Err_0)
    } else if event_type is Err {
        Err(event_type->Err_0)
    } else if subject is Err {
        Err(subject->Err_0)
    } else if time is Err {
        Err(time->Err_0)
    } else if extensions is Err {
        Err(extensions->Err_0)
    } else {
        Ok(
            EventView {
                id: id->Ok_0,
                source: source->Ok_0,
                spec_version: version->Ok_0,
                event_type: event_type->Ok_0,
                subject: subject->Ok_0,
                time: time->Ok_0,
                payload: payload_of(members),
                extensions: extensions->Ok_0,
            },
        )
    }
}

/// The event that a JSON value stands for.
pub open spec fn event_of_json(value: JsonView) -> Result<EventView, CauseView> {
    match value {
        JsonView::Object(members) => event_of_members(members),
        _ => Err(CauseView::NotAnObject),
    }
}

/// The events that the items of an array stand for; the first item that is
/// no event gives the error.
pub open spec fn events_of_items(items: Seq<JsonView>) -> Result<Seq<EventView>, CauseView>
    decreases items.len(),
{
    if items.len() == 0 {
        Ok(Seq::empty())
    } else {
        match events_of_items(items.drop_last()) {
            Err(cause) => Err(cause),
            Ok(events) => match event_of_json(items.last()) {
                Err(cause) => Err(cause),
                Ok(event) => Ok(events.push(event)),
            },
        }
    }
}

/// The events that a JSON value stands for as a batch.
pub open spec fn batch_of_json(value: JsonView) -> Result<Seq<EventView>, CauseView> {
    match value {
        JsonView::Array(items) => events_of_items(items),
        _ => Err(CauseView::NotAnArray),
    }
}

/// What a list of events holds.
pub open spec fn events_view(events: Seq<Event>) -> Seq<EventView> {
    Seq::new(events.len(), |i: int| events[i]@)
}

/// What the result of reading one event holds.
pub open spec fn event_outcome(r: Result<Event, Cause>) -> Result<EventView, CauseView> {
    match r {
        Ok(event) => Ok(event@),
        Err(cause) => Err(cause@),
    }
}

/// What the result of reading a batch holds.
pub open spec fn batch_outcome(r: Result<Vec<Event>, Cause>) -> Result<Seq<EventView>, CauseView> {
    match r {
        Ok(events) => Ok(events_view(events@)),
        Err(cause) => Err(cause@),
    }
}

fn find_member<'a>(members: &'a Vec<(String, JsonValue)>, name: &str) -> (r: Option<&'a JsonValue>)
    ensures
        match r {
            Some(value) => member(members_view(members@), name@) == Some(value@),
            None => member(members_view(members@), name@) is None,
        },
{
    let ghost list = members_view(members@);
    let mut i: usize = 0;
    while i < members.len()
        invariant
            i <= members@.len(),
            list == members_view(members@),
            forall|j: int| 0 <= j < i ==> (#[trigger] list[j]).0 != name@,
        decreases members@.len() - i,
    {
        if str_eq(members[i].0.as_str(), name) {
            proof {
                lemma_member_first(list, name@, i as int);
            }
            return Some(&members[i].1);
        }
        i += 1;
    }
    proof {
        lemma_member_none(list, name@);
    }
    None
}

fn read_required(members: &Vec<(String, JsonValue)>, name: &str) -> (r: Result<String, Cause>)
    ensures
        match r {
            Ok(s) => required_text(members_view(members@), name@) == Ok::<Seq<char>, CauseView>(s@),
            Err(c) => required_text(members_view(members@), name@) == Err::<Seq<char>, CauseView>(
                c@,
            ),
        },
{
    match find_member(members, name) {
        None => Err(Cause::MissingField(String::from_str(name))),
        Some(JsonValue::String(s)) => Ok(s.clone()),
        Some(_) => Err(Cause::InvalidType(String::from_str(name))),
    }
}

fn read_optional(members: &Vec<(String, JsonValue)>, name: &str) -> (r: Result<
    Option<String>,
    Cause,
>)
    ensures
        match r {
            Ok(Some(s)) => optional_text(members_view(members@), name@) == Ok::<
                Option<Seq<char>>,
                CauseView,
            >(Some(s@)),
            Ok(None) => optional_text(members_view(members@), name@) == Ok::<
                Option<Seq<char>>,
                CauseView,
            >(None),
            Err(c) => optional_text(members_view(members@), name@) == Err::<
                Option<Seq<char>>,
                CauseView,
            >(c@),
        },
{
    match find_member(members, name) {
        None => Ok(None),
        Some(JsonValue::Null) => Ok(None),
        Some(JsonValue::String(s)) => Ok(Some(s.clone())),
        Some(_) => Err(Cause::InvalidType(String::from_str(name))),
    }
}

fn read_version(members: &Vec<(String, JsonValue)>) -> (r: Result<SpecVersion, Cause>)
    ensures
        match r {
            Ok(v) => version_of(members_view(members@)) == Ok::<SpecVersion, CauseView>(v),
            Err(c) => version_of(members_view(members@)) == Err::<SpecVersion, CauseView>(c@),
        },
{
    match read_required(members, "specversion") {
        Err(cause) => Err(cause),
        Ok(token) => {
            match SpecVersion::try_from(token.clone()) {
                Ok(version) => Ok(version),
                Err(_) => Err(Cause::UnsupportedVersion(token)),
            }
        },
    }
}

fn read_time(members: &Vec<(String, JsonValue)>) -> (r: Result<Option<Timestamp>, Cause>)
    ensures
        match r {
            Ok(t) => time_of(members_view(members@)) == Ok::<Option<Timestamp>, CauseView>(t),
            Err(c) => time_of(members_view(members@)) == Err::<Option<Timestamp>, CauseView>(c@),
        },
{
    match read_optional(members, "time") {
        Err(cause) => Err(cause),
        Ok(None) => Ok(None),
        Ok(Some(text)) => match Timestamp::parse_from_json_text(text.as_str()) {
            Some(time) => Ok(Some(time)),
            None => Err(Cause::InvalidTime(text)),
        },
    }
}

fn read_payload(members: &Vec<(String, JsonValue)>) -> (r: Option<Payload>)
    ensures
        crate::event::payload_view(r) == payload_of(members_view(members@)),
{
    match (find_member(members, "datacontenttype"), find_member(members, "data")) {
        (Some(JsonValue::String(content_type)), Some(JsonValue::String(data))) => Some(
            Payload { content_type: content_type.clone(), data: data.as_str().as_bytes_vec() },
        ),
        _ => None,
    }
}

/// Tells whether a name is that of an attribute or of the payload.
pub fn is_reserved_name(name: &str) -> (r: bool)
    ensures
        r == is_reserved(name@),
{
    str_eq(name, "id") || str_eq(name, "source") || str_eq(name, "specversion") || str_eq(
        name,
        "type",
    ) || str_eq(name, "subject") || str_eq(name, "time") || str_eq(name, "datacontenttype")
        || str_eq(name, "data")
}

fn read_extensions(members: &Vec<(String, JsonValue)>) -> (r: Result<Extensions, Cause>)
    ensures
        match r {
            Ok(e) => extensions_of(members_view(members@)) == Ok::<
                Map<Seq<char>, Seq<char>>,
                CauseView,
            >(e@),
            Err(c) => extensions_of(members_view(members@)) == Err::<
                Map<Seq<char>, Seq<char>>,
                CauseView,
            >(c@),
        },
{
    let ghost list = members_view(members@);
    let mut extensions = Extensions::new();
    let mut i: usize = 0;
    while i < members.len()
        invariant
            i <= members@.len(),
            list == members_view(members@),
            extensions_of(list.subrange(0, i as int)) == Ok::<Map<Seq<char>, Seq<char>>, CauseView>(
                extensions@,
            ),
        decreases members@.len() - i,
    {
        let ghost next = list.subrange(0, i + 1);
        assert(next.drop_last() =~= list.subrange(0, i as int));
        assert(next.last() == list[i as int]);
        if !is_reserved_name(members[i].0.as_str()) {
            match &members[i].1 {
                JsonValue::String(value) => {
                    extensions.insert(members[i].0.clone(), value.clone());
                },
                _ => {
                    proof {
                        lemma_extensions_error(list, i + 1);
                    }
                    return Err(Cause::InvalidType(members[i].0.clone()));
                },
            }
        }
        i += 1;
    }
    assert(list.subrange(0, i as int) =~= list);
    Ok(extensions)
}

/// An error among the first members is the error of all of them.
pub proof fn lemma_extensions_error(members: Members, n: int)
    requires
        0 <= n <= members.len(),
        extensions_of(members.subrange(0, n)) is Err,
    ensures
        extensions_of(members) == extensions_of(members.subrange(0, n)),
    decreases members.len() - n,
{
    if n < members.len() {
        let next = members.subrange(0, n + 1);
        assert(next.drop_last() =~= members.subrange(0, n));
        lemma_extensions_error(members, n + 1);
    } else {
        assert(members.subrange(0, n) =~= members);
    }
}

/// Reads an event from the members of its JSON object.
fn event_from_members(members: &Vec<(String, JsonValue)>) -> (r: Result<Event, Cause>)
    ensures
        event_outcome(r) == event_of_members(members_view(members@)),
{
    let id = match read_required(members, "id") {
        Ok(id) => id,
        Err(cause) => { return Err(cause); },
    };
    let source = match read_required(members, "source") {
        Ok(source) => source,
        Err(cause) => { return Err(cause); },
    };
    let spec_version = match read_version(members) {
        Ok(version) => version,
        Err(cause) => { return Err(cause); },
    };
    let event_type = match read_required(members, "type") {
        Ok(event_type) => event_type,
        Err(cause) => { return Err(cause); },
    };
    let subject = match read_optional(members, "subject") {
        Ok(subject) => subject,
        Err(cause) => { return Err(cause); },
    };
    let time = match read_time(members) {
        Ok(time) => time,
        Err(cause) => { return Err(cause); },
    };
    let extensions = match read_extensions(members) {
        Ok(extensions) => extensions,
        Err(cause) => { return Err(cause); },
    };
    let payload = read_payload(members);
    Ok(Event { id, source, spec_version, event_type, subject, time, payload, extensions })
}

/// Reads an event from its JSON document. The value is an object; `id`,
/// `source`, `specversion` and `type` are strings; `subject` and `time`
/// are strings, null or absent; the payload is there where both
/// `datacontenttype` and `data` are strings; every other member is an
/// extension attribute and holds a string.
pub fn event_from_json(value: &JsonValue) -> (r: Result<Event, Cause>)
    ensures
        event_outcome(r) == event_of_json(value@),
{
    match value {
        JsonValue::Object(members) => {
            proof {
                lemma_object_view(*members);
            }
            event_from_members(members)
        },
        _ => Err(Cause::NotAnObject),
    }
}

/// An error among the first items is the error of all of them.
pub proof fn lemma_events_error(items: Seq<JsonView>, n: int)
    requires
        0 <= n <= items.len(),
        events_of_items(items.subrange(0, n)) is Err,
    ensures
        events_of_items(items) == events_of_items(items.subrange(0, n)),
    decreases items.len() - n,
{
    if n < items.len() {
        let next = items.subrange(0, n + 1);
        assert(next.drop_last() =~= items.subrange(0, n));
        lemma_events_error(items, n + 1);
    } else {
        assert(items.subrange(0, n) =~= items);
    }
}

/// Reads a batch of events from its JSON document, an array of event
/// documents.
pub fn batch_from_json(value: &JsonValue) -> (r: Result<Vec<Event>, Cause>)
    ensures
        batch_outcome(r) == batch_of_json(value@),
{
    match value {
        JsonValue::Array(items) => {
            proof {
                lemma_array_view(*items);
            }
            let ghost list = items_view(items@);
            let mut events: Vec<Event> = Vec::new();
            let mut i: usize = 0;
            assert(events_view(events@) =~= Seq::<EventView>::empty());
            assert(list.subrange(0, 0) =~= Seq::<JsonView>::empty());
            while i < items.len()
                invariant
                    i <= items@.len(),
                    list == items_view(items@),
                    value@ == JsonView::Array(list),
                    events_of_items(list.subrange(0, i as int)) == Ok::<Seq<EventView>, CauseView>(
                        events_view(events@),
                    ),
                decreases items@.len() - i,
            {
                let ghost next = list.subrange(0, i + 1);
                assert(next.drop_last() =~= list.subrange(0, i as int));
                assert(next.last() == list[i as int]);
                match event_from_json(&items[i]) {
                    Ok(event) => {
                        let ghost before = events_view(events@);
                        events.push(event);
                        assert(events_view(events@) =~= before.push(event@));
                    },
                    Err(cause) => {
                        proof {
                            assert(event_of_json(next.last()) == Err::<EventView, CauseView>(
                                cause@,
                            ));
                            assert(events_of_items(next) == Err::<Seq<EventView>, CauseView>(
                                cause@,
                            ));
                            lemma_events_error(list, i + 1);
                        }
                        return Err(cause);
                    },
                }
                i += 1;
            }
            assert(list.subrange(0, i as int) =~= list);
            Ok(events)
        },
        _ => Err(Cause::NotAnArray),
    }
}

/// A member that holds a string.
pub open spec fn text_member(name: Seq<char>, value: Seq<char>) -> (Seq<char>, JsonView) {
    (name, JsonView::String(value))
}

/// The members of the four required attributes.
pub open spec fn required_members(event: EventView) -> Members {
    seq![
        text_member("id"@, event.id),
        text_member("source"@, event.source),
        text_member("specversion"@, event.spec_version.token()),
        text_member("type"@, event.event_type),
    ]
}

/// The member of the subject, where the event has one.
pub open spec fn subject_members(event: EventView) -> Members {
    match event.subject {
        Some(subject) => seq![text_member("subject"@, subject)],
        None => Seq::empty(),
    }
}

/// The member of the time, where the event has one.
pub open spec fn time_members(event: EventView) -> Members {
    match event.time {
        Some(time) => seq![text_member("time"@, time.json_text())],
        None => Seq::empty(),
    }
}

/// The two members of the payload, where the event has one. The data is
/// written as the string that its bytes encode.
pub open spec fn payload_members(event: EventView) -> Members {
    match event.payload {
        Some(payload) => seq![
            text_member("datacontenttype"@, payload.content_type),
            text_member("data"@, decode_utf8(payload.data)),
        ],
        None => Seq::empty(),
    }
}

/// The members of the extension attributes, in their order.
pub open spec fn extension_members(pairs: Seq<(Seq<char>, Seq<char>)>) -> Members {
    Seq::new(pairs.len(), |i: int| text_member(pairs[i].0, pairs[i].1))
}

/// The members of the document of an event, with the extension
/// attributes in the given order.
pub open spec fn members_of(event: EventView, pairs: Seq<(Seq<char>, Seq<char>)>) -> Members {
    required_members(event) + subject_members(event) + time_members(event) + payload_members(
        event,
    ) + extension_members(pairs)
}

/// The document of an event. An event whose payload is not UTF-8 text has
/// none.
pub open spec fn json_of_event(event: EventView, pairs: Seq<(Seq<char>, Seq<char>)>) -> Result<
    JsonView,
    CauseView,
> {
    if event.payload is Some && !valid_utf8(event.payload->Some_0.data) {
        Err(CauseView::InvalidUtf8)
    } else {
        Ok(JsonView::Object(members_of(event, pairs)))
    }
}

/// The documents of a list of events; the first event that has none gives
/// the error.
pub open spec fn json_of_events(events: Seq<Event>) -> Result<Seq<JsonView>, CauseView>
    decreases events.len(),
{
    if events.len() == 0 {
        Ok(Seq::empty())
    } else {
        match json_of_events(events.drop_last()) {
            Err(cause) => Err(cause),
            Ok(items) => match json_of_event(events.last()@, events.last().extensions.pairs()) {
                Err(cause) => Err(cause),
                Ok(item) => Ok(items.push(item)),
            },
        }
    }
}

/// The document of a batch: the array of the documents of its events.
pub open spec fn json_of_batch(events: Seq<Event>) -> Result<JsonView, CauseView> {
    match json_of_events(events) {
        Err(cause) => Err(cause),
        Ok(items) => Ok(JsonView::Array(items)),
    }
}

/// What the result of writing a document holds.
pub open spec fn json_outcome(r: Result<JsonValue, Cause>) -> Result<JsonView, CauseView> {
    match r {
        Ok(value) => Ok(value@),
        Err(cause) => Err(cause@),
    }
}

fn push_text(members: &mut Vec<(String, JsonValue)>, name: &str, value: String)
    ensures
        members_view(final(members)@) == members_view(old(members)@).push(
            text_member(name@, value@),
        ),
{
    members.push((String::from_str(name), JsonValue::String(value)));
    assert(members_view(members@) =~= members_view(old(members)@).push(
        text_member(name@, value@),
    ));
}

/// Writes the document of an event: an object with the members `id`,
/// `source`, `specversion` and `type`, then `subject` and `time` where the
/// event has them, then `datacontenttype` and `data` where it has a
/// payload, then the extension attributes.
pub fn event_to_json(event: &Event) -> (r: Result<JsonValue, Cause>)
    ensures
        json_outcome(r) == json_of_event(event@, event.extensions.pairs()),
{
    let ghost view = event@;
    let ghost pairs = event.extensions.pairs();
    let mut members: Vec<(String, JsonValue)> = Vec::new();
    assert(members_view(members@) =~= Seq::empty());
    push_text(&mut members, "id", event.id.clone());
    push_text(&mut members, "source", event.source.clone());
    push_text(&mut members, "specversion", event.spec_version.to_string());
    push_text(&mut members, "type", event.event_type.clone());
    assert(members_view(members@) =~= required_members(view));
    match &event.subject {
        Some(subject) => {
            push_text(&mut members, "subject", subject.clone());
        },
        None => {},
    }
    assert(members_view(members@) =~= required_members(view) + subject_members(view));
    match &event.time {
        Some(time) => {
            push_text(&mut members, "time", time.to_json_text());
        },
        None => {},
    }
    assert(members_view(members@) =~= required_members(view) + subject_members(view)
        + time_members(view));
    match &event.payload {
        Some(payload) => {
            match string_from_utf8(payload.data.as_slice()) {
                Some(data) => {
                    push_text(&mut members, "datacontenttype", payload.content_type.clone());
                    push_text(&mut members, "data", data);
                },
                None => {
                    return Err(Cause::InvalidUtf8);
                },
            }
        },
        None => {},
    }
    let ghost fixed = required_members(view) + subject_members(view) + time_members(view)
        + payload_members(view);
    assert(members_view(members@) =~= fixed);
    let count = event.extensions.count();
    let mut i: usize = 0;
    while i < count
        invariant
            i <= count,
            count == pairs.len(),
            pairs == event.extensions.pairs(),
            members_view(members@) == fixed + extension_members(pairs).subrange(0, i as int),
        decreases count - i,
    {
        let (name, value) = event.extensions.entry(i);
        push_text(&mut members, name.as_str(), value.clone());
        i += 1;
        assert(members_view(members@) =~= fixed + extension_members(pairs).subrange(0, i as int));
    }
    assert(extension_members(pairs).subrange(0, i as int) =~= extension_members(pairs));
    proof {
        lemma_object_view(members);
    }
    Ok(JsonValue::Object(members))
}

/// An error among the first events is the error of all of them.
pub proof fn lemma_json_of_events_error(events: Seq<Event>, n: int)
    requires
        0 <= n <= events.len(),
        json_of_events(events.subrange(0, n)) is Err,
    ensures
        json_of_events(events) == json_of_events(events.subrange(0, n)),
    decreases events.len() - n,
{
    if n < events.len() {
        let next = events.subrange(0, n + 1);
        assert(next.drop_last() =~= events.subrange(0, n));
        lemma_json_of_events_error(events, n + 1);
    } else {
        assert(events.subrange(0, n) =~= events);
    }
}

/// Writes the document of a batch: the array of the documents of its
/// events.
pub fn batch_to_json(events: &Vec<Event>) -> (r: Result<JsonValue, Cause>)
    ensures
        json_outcome(r) == json_of_batch(events@),
{
    let mut items: Vec<JsonValue> = Vec::new();
    let mut i: usize = 0;
    assert(items_view(items@) =~= Seq::<JsonView>::empty());
    assert(events@.subrange(0, 0) =~= Seq::<Event>::empty());
    while i < events.len()
        invariant
            i <= events@.len(),
            json_of_events(events@.subrange(0, i as int)) == Ok::<Seq<JsonView>, CauseView>(
                items_view(items@),
            ),
        decreases events@.len() - i,
    {
        let ghost next = events@.subrange(0, i + 1);
        assert(next.drop_last() =~= events@.subrange(0, i as int));
        assert(next.last() == events@[i as int]);
        match event_to_json(&events[i]) {
            Ok(item) => {
                let ghost before = items_view(items@);
                items.push(item);
                assert(items_view(items@) =~= before.push(item@));
            },
            Err(cause) => {
                proof {
                    assert(json_of_events(next) == Err::<Seq<JsonView>, CauseView>(cause@));
                    lemma_json_of_events_error(events@, i + 1);
                }
                return Err(cause);
            },
        }
        i += 1;
    }
    assert(events@.subrange(0, i as int) =~= events@);
    proof {
        lemma_array_view(items);
    }
    Ok(JsonValue::Array(items))
}

} // verus!
