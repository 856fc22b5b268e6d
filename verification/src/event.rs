//! The in-memory form of a CloudEvent.

use crate::extensions::Extensions;
use crate::payload::{Payload, PayloadView};
use crate::spec_version::SpecVersion;
use crate::timestamp::Timestamp;
use vstd::prelude::*;
use vstd::std_specs::cmp::PartialEqSpecImpl;

verus! {

/// A CloudEvent: its required and optional attributes, its payload, and
/// its extension attributes.
#[derive(Debug)]
pub struct Event {
    pub id: String,
    pub source: String,
    pub spec_version: SpecVersion,
    pub event_type: String,
    pub subject: Option<String>,
    pub time: Option<Timestamp>,
    pub payload: Option<Payload>,
    pub extensions: Extensions,
}

/// What an event holds.
pub struct EventView {
    pub id: Seq<char>,
    pub source: Seq<char>,
    pub spec_version: SpecVersion,
    pub event_type: Seq<char>,
    pub subject: Option<Seq<char>>,
    pub time: Option<Timestamp>,
    pub payload: Option<PayloadView>,
    pub extensions: Map<Seq<char>, Seq<char>>,
}

/// What an optional string holds.
pub open spec fn text_view(s: Option<String>) -> Option<Seq<char>> {
    match s {
        Some(s) => Some(s@),
        None => None,
    }
}

/// What an optional payload holds.
pub open spec fn payload_view(p: Option<Payload>) -> Option<PayloadView> {
    match p {
        Some(p) => Some(p@),
        None => None,
    }
}

impl View for Event {
    type V = EventView;

    open spec fn view(&self) -> EventView {
        EventView {
            id: self.id@,
            source: self.source@,
            spec_version: self.spec_version,
            event_type: self.event_type@,
            subject: text_view(self.subject),
            time: self.time,
            payload: payload_view(self.payload),
            extensions: self.extensions@,
        }
    }
}

fn clone_text(s: &Option<String>) -> (r: Option<String>)
    ensures
        text_view(r) == text_view(*s),
{
    match s {
        Some(s) => Some(s.clone()),
        None => None,
    }
}

fn clone_payload(p: &Option<Payload>) -> (r: Option<Payload>)
    ensures
        payload_view(r) == payload_view(*p),
{
    match p {
        Some(p) => Some(p.clone()),
        None => None,
    }
}

fn text_eq(a: &Option<String>, b: &Option<String>) -> (r: bool)
    ensures
        r == (text_view(*a) == text_view(*b)),
{
    match (a, b) {
        (Some(a), Some(b)) => *a == *b,
        (None, None) => true,
        _ => false,
    }
}

fn payload_eq(a: &Option<Payload>, b: &Option<Payload>) -> (r: bool)
    ensures
        r == (payload_view(*a) == payload_view(*b)),
{
    match (a, b) {
        (Some(a), Some(b)) => *a == *b,
        (None, None) => true,
        _ => false,
    }
}

fn time_eq(a: &Option<Timestamp>, b: &Option<Timestamp>) -> (r: bool)
    ensures
        r == (*a == *b),
{
    match (a, b) {
        (Some(a), Some(b)) => *a == *b,
        (None, None) => true,
        _ => false,
    }
}

impl Clone for Event {
    fn clone(&self) -> (r: Event)
        ensures
            r@ == self@,
            r.extensions.pairs() == self.extensions.pairs(),
    {
        Event {
            id: self.id.clone(),
            source: self.source.clone(),
            spec_version: self.spec_version,
            event_type: self.event_type.clone(),
            subject: clone_text(&self.subject),
            time: self.time,
            payload: clone_payload(&self.payload),
            extensions: self.extensions.clone(),
        }
    }
}

impl PartialEq for Event {
    fn eq(&self, other: &Event) -> (r: bool) {
        self.id == other.id && self.source == other.source && self.spec_version
            == other.spec_version && self.event_type == other.event_type && text_eq(
            &self.subject,
            &other.subject,
        ) && time_eq(&self.time, &other.time) && payload_eq(&self.payload, &other.payload)
            && self.extensions == other.extensions
    }
}

impl PartialEqSpecImpl for Event {
    open spec fn obeys_eq_spec() -> bool {
        true
    }

    open spec fn eq_spec(&self, other: &Event) -> bool {
        self@ == other@
    }
}

} // verus!
