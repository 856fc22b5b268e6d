use cloudevents::builder::{DEFAULT_SOURCE, DEFAULT_TYPE};
use cloudevents::{Event, EventBuilder, Extensions, Payload, SpecVersion, Timestamp};

#[test]
fn new_event_has_the_defaults() {
    let event = Event::new();
    assert_eq!(event.id.len(), 36);
    assert_eq!(event.id.matches('-').count(), 4);
    assert!(!event.source.is_empty());
    assert_eq!(event.spec_version, SpecVersion::V10);
    assert_eq!(event.event_type, "generated.cloudevents-sdk");
    assert_eq!(event.subject, None);
    assert_eq!(event.time, None);
    assert_eq!(event.payload, None);
    assert!(event.extensions.is_empty());
}

#[test]
fn new_events_have_fresh_ids() {
    assert_ne!(Event::new().id, Event::new().id);
}

#[test]
fn build_with_uses_the_defaults_that_it_is_handed() {
    let event = EventBuilder::default().build_with("fresh".to_string(), Some("host".to_string()));
    assert_eq!(event.id, "fresh");
    assert_eq!(event.source, "host");
    assert_eq!(event.event_type, DEFAULT_TYPE);
    let event = EventBuilder::default().build_with("fresh".to_string(), None);
    assert_eq!(event.source, DEFAULT_SOURCE);
    assert_eq!(event.source, "cloudevents.io");
}

#[test]
fn build_keeps_what_is_given() {
    let time = Timestamp::parse_from_rfc3339("2018-04-05T17:31:00Z").unwrap();
    let mut extensions = Extensions::new();
    extensions.insert("k".to_string(), "v".to_string());
    let payload = Payload { content_type: "text/plain".to_string(), data: b"x".to_vec() };
    let event = EventBuilder::default()
        .id("1")
        .source("s")
        .spec_version(SpecVersion::V02)
        .event_type("t")
        .subject("sub")
        .time(time)
        .payload(payload.clone())
        .extensions(extensions.clone())
        .build()
        .unwrap();
    assert_eq!(
        event,
        Event {
            id: "1".to_string(),
            source: "s".to_string(),
            spec_version: SpecVersion::V02,
            event_type: "t".to_string(),
            subject: Some("sub".to_string()),
            time: Some(time),
            payload: Some(payload),
            extensions,
        }
    );
}

#[test]
fn build_fills_only_what_is_missing() {
    let event = EventBuilder::default().id("given").build().unwrap();
    assert_eq!(event.id, "given");
    assert_eq!(event.spec_version, SpecVersion::V10);
    assert_eq!(event.event_type, DEFAULT_TYPE);
    let event = EventBuilder::default().source("given").id("a").id("b").build().unwrap();
    assert_eq!(event.source, "given");
    assert_eq!(event.id, "b");
}
