//! Making an event from the attributes that are given, with defaults for
//! those that are not.

use crate::event::{payload_view, text_view, Event, EventView};
use crate::extensions::Extensions;
use crate::payload::{Payload, PayloadView};
use crate::spec_version::SpecVersion;
use crate::timestamp::Timestamp;
use vstd::prelude::*;
use vstd::string::*;

verus! {

/// The type of an event that is given none.
pub const DEFAULT_TYPE: &'static str = "generated.cloudevents-sdk";

/// The source of an event that is given none, where the host has no name.
pub const DEFAULT_SOURCE: &'static str = "cloudevents.io";

/// `uuid::Uuid::new_v4`, written by its `Display` impl: a random
/// identifier in the hyphenated form of 36 characters.
#[verifier::external_body]
fn random_id() -> (r: String)
    ensures
        r@.len() == 36,
{
    uuid::Uuid::new_v4().to_string()
}

/// `hostname::get_hostname`: the name of the host, if the system gives
/// one.
#[verifier::external_body]
fn local_hostname() -> Option<String> {
    hostname::get_hostname()
}

/// The attributes that have been given for an event.
#[derive(Debug)]
pub struct EventBuilder {
    id: Option<String>,
    source: Option<String>,
    spec_version: Option<SpecVersion>,
    event_type: Option<String>,
    subject: Option<String>,
    time: Option<Timestamp>,
    payload: Option<Payload>,
    extensions: Option<Extensions>,
}

/// What a builder holds.
pub struct BuilderView {
    pub id: Option<Seq<char>>,
    pub source: Option<Seq<char>>,
    pub spec_version: Option<SpecVersion>,
    pub event_type: Option<Seq<char>>,
    pub subject: Option<Seq<char>>,
    pub time: Option<Timestamp>,
    pub payload: Option<PayloadView>,
    pub extensions: Option<Map<Seq<char>, Seq<char>>>,
}

/// What optional extension attributes hold.
pub open spec fn extensions_view(extensions: Option<Extensions>) -> Option<
    Map<Seq<char>, Seq<char>>,
> {
    match extensions {
        Some(extensions) => Some(extensions@),
        None => None,
    }
}

impl View for EventBuilder {
    type V = BuilderView;

    closed spec fn view(&self) -> BuilderView {
        BuilderView {
            id: text_view(self.id),
            source: text_view(self.source),
            spec_version: self.spec_version,
            event_type: text_view(self.event_type),
            subject: text_view(self.subject),
            time: self.time,
            payload: payload_view(self.payload),
            extensions: extensions_view(self.extensions),
        }
    }
}

/// The builder for which nothing has been given.
pub open spec fn nothing_given() -> BuilderView {
    BuilderView {
        id: None,
        source: None,
        spec_version: None,
        event_type: None,
        subject: None,
        time: None,
        payload: None,
        extensions: None,
    }
}

/// The first text, or the second where there is no first.
pub open spec fn text_or(given: Option<Seq<char>>, default: Seq<char>) -> Seq<char> {
    match given {
        Some(text) => text,
        None => default,
    }
}

/// The event of the given attributes. An id that is not given is the
/// fresh one; a source that is not given is the name of the host, or the
/// default source where the host has none; a version that is not given is
/// 1.0; a type that is not given is the default type.
pub open spec fn built(given: BuilderView, fresh_id: Seq<char>, host: Option<Seq<char>>) -> EventView {
    EventView {
        id: text_or(given.id, fresh_id),
        source: text_or(given.source, text_or(host, DEFAULT_SOURCE@)),
        spec_version: match given.spec_version {
            Some(version) => version,
            None => SpecVersion::V10,
        },
        event_type: text_or(given.event_type, DEFAULT_TYPE@),
        subject: given.subject,
        time: given.time,
        payload: given.payload,
        extensions: match given.extensions {
            Some(extensions) => extensions,
            None => Map::empty(),
        },
    }
}

fn given_or(given: Option<String>, default: String) -> (r: String)
    ensures
        r@ == text_or(text_view(given), default@),
{
    match given {
        Some(text) => text,
        None => default,
    }
}

impl EventBuilder {
    /// A builder for which nothing has been given.
    pub fn default() -> (r: EventBuilder)
        ensures
            r@ == nothing_given(),
    {
        EventBuilder {
            id: None,
            source: None,
            spec_version: None,
            event_type: None,
            subject: None,
            time: None,
            payload: None,
            extensions: None,
        }
    }

    /// Gives the id.
    pub fn id(self, id: &str) -> (r: EventBuilder)
        ensures
            r@ == (BuilderView { id: Some(id@), ..self@ }),
    {
        EventBuilder { id: Some(String::from_str(id)), ..self }
    }

    /// Gives the source.
    pub fn source(self, source: &str) -> (r: EventBuilder)
        ensures
            r@ == (BuilderView { source: Some(source@), ..self@ }),
    {
        EventBuilder { source: Some(String::from_str(source)), ..self }
    }

    /// Gives the version.
    pub fn spec_version(self, version: SpecVersion) -> (r: EventBuilder)
        ensures
            r@ == (BuilderView { spec_version: Some(version), ..self@ }),
    {
        EventBuilder { spec_version: Some(version), ..self }
    }

    /// Gives the type.
    pub fn event_type(self, event_type: &str) -> (r: EventBuilder)
        ensures
            r@ == (BuilderView { event_type: Some(event_type@), ..self@ }),
    {
        EventBuilder { event_type: Some(String::from_str(event_type)), ..self }
    }

    /// Gives the subject.
    pub fn subject(self, subject: &str) -> (r: EventBuilder)
        ensures
            r@ == (BuilderView { subject: Some(subject@), ..self@ }),
    {
        EventBuilder { subject: Some(String::from_str(subject)), ..self }
    }

    /// Gives the time.
    pub fn time(self, time: Timestamp) -> (r: EventBuilder)
        ensures
            r@ == (BuilderView { time: Some(time), ..self@ }),
    {
        EventBuilder { time: Some(time), ..self }
    }

    /// Gives the payload.
    pub fn payload(self, payload: Payload) -> (r: EventBuilder)
        ensures
            r@ == (BuilderView { payload: Some(payload@), ..self@ }),
    {
        EventBuilder { payload: Some(payload), ..self }
    }

    /// Gives the extension attributes.
    pub fn extensions(self, extensions: Extensions) -> (r: EventBuilder)
        ensures
            r@ == (BuilderView { extensions: Some(extensions@), ..self@ }),
    {
        EventBuilder { extensions: Some(extensions), ..self }
    }

    /// Makes the event of what has been given, with a fresh id and the
    /// name of the host for an id and a source that have not.
    pub fn build_with(self, fresh_id: String, host: Option<String>) -> (r: Event)
        ensures
            r@ == built(self@, fresh_id@, text_view(host)),
    {
        let default_source = given_or(host, String::from_str(DEFAULT_SOURCE));
        Event {
            id: given_or(self.id, fresh_id),
            source: given_or(self.source, default_source),
            spec_version: match self.spec_version {
                Some(version) => version,
                None => SpecVersion::V10,
            },
            event_type: given_or(self.event_type, String::from_str(DEFAULT_TYPE)),
            subject: self.subject,
            time: self.time,
            payload: self.payload,
            extensions: match self.extensions {
                Some(extensions) => extensions,
                None => Extensions::new(),
            },
        }
    }

    /// Makes the event of what has been given. An id that has not been
    /// given is a random identifier of 36 characters; a source that has
    /// not been given is the name of the host, if the system gives one.
    pub fn build(self) -> (r: Result<Event, String>)
        ensures
            r matches Ok(event) && exists|fresh_id: Seq<char>, host: Option<Seq<char>>|
                fresh_id.len() == 36 && event@ == #[trigger] built(self@, fresh_id, host),
    {
        let fresh_id = random_id();
        let host = local_hostname();
        let ghost witness = (fresh_id@, text_view(host));
        let event = self.build_with(fresh_id, host);
        assert(event@ == built(self@, witness.0, witness.1));
        Ok(event)
    }
}

impl Event {
    /// An event for which nothing is given: its id is a random identifier
    /// of 36 characters, its source the name of the host or the default
    /// source, its version 1.0 and its type the default type; it has no
    /// subject, no time, no payload and no extension attributes.
    pub fn new() -> (r: Event)
        ensures
            exists|fresh_id: Seq<char>, host: Option<Seq<char>>|
                fresh_id.len() == 36 && r@ == #[trigger] built(nothing_given(), fresh_id, host),
    {
        let fresh_id = random_id();
        let host = local_hostname();
        let ghost witness = (fresh_id@, text_view(host));
        let event = EventBuilder::default().build_with(fresh_id, host);
        assert(event@ == built(nothing_given(), witness.0, witness.1));
        event
    }
}

} // verus!
