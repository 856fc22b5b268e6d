use cloudevents::codec::is_reserved_name;
use cloudevents::{
    batch_from_json, batch_to_json, event_from_json, event_to_json, Cause, Event, Extensions,
    JsonValue, Payload, SpecVersion, Timestamp,
};

fn text(name: &str, value: &str) -> (String, JsonValue) {
    (name.to_string(), JsonValue::String(value.to_string()))
}

fn required() -> Vec<(String, JsonValue)> {
    vec![text("id", "1"), text("source", "s"), text("specversion", "1.0"), text("type", "t")]
}

fn with(extra: Vec<(String, JsonValue)>) -> JsonValue {
    let mut members = required();
    members.extend(extra);
    JsonValue::Object(members)
}

fn without(name: &str) -> JsonValue {
    JsonValue::Object(required().into_iter().filter(|(n, _)| n != name).collect())
}

#[test]
fn minimal_document_is_an_event() {
    let event = event_from_json(&with(vec![])).unwrap();
    assert_eq!(
        event,
        Event {
            id: "1".to_string(),
            source: "s".to_string(),
            spec_version: SpecVersion::V10,
            event_type: "t".to_string(),
            subject: None,
            time: None,
            payload: None,
            extensions: Extensions::new(),
        }
    );
}

#[test]
fn value_that_is_no_object_is_rejected() {
    for value in [
        JsonValue::Null,
        JsonValue::Bool(true),
        JsonValue::Number("1".to_string()),
        JsonValue::String("event".to_string()),
        JsonValue::Array(vec![with(vec![])]),
    ] {
        assert!(matches!(event_from_json(&value), Err(Cause::NotAnObject)));
    }
}

#[test]
fn missing_required_attributes_are_named() {
    for name in ["id", "source", "specversion", "type"] {
        match event_from_json(&without(name)) {
            Err(Cause::MissingField(named)) => assert_eq!(named, name),
            other => panic!("unexpected: {:?}", other),
        }
    }
    match event_from_json(&JsonValue::Object(vec![])) {
        Err(error) => {
            assert!(matches!(&error, Cause::MissingField(named) if named == "id"));
            assert_eq!(error.to_string(), "missing field id");
        }
        other => panic!("unexpected: {:?}", other),
    }
}

#[test]
fn attributes_of_the_wrong_type_are_named() {
    for name in ["id", "source", "specversion", "type", "subject", "time"] {
        let mut members: Vec<(String, JsonValue)> =
            required().into_iter().filter(|(n, _)| n != name).collect();
        members.push((name.to_string(), JsonValue::Number("5".to_string())));
        match event_from_json(&JsonValue::Object(members)) {
            Err(error) => {
                assert!(matches!(&error, Cause::InvalidType(named) if named == name));
                assert_eq!(error.to_string(), format!("invalid type of field {}", name));
            }
            other => panic!("unexpected: {:?}", other),
        }
    }
    assert!(matches!(
        event_from_json(&with(vec![("id2".to_string(), JsonValue::Null)])),
        Err(Cause::InvalidType(named)) if named == "id2"
    ));
}

#[test]
fn null_subject_and_time_are_absent() {
    let event = event_from_json(&with(vec![
        ("subject".to_string(), JsonValue::Null),
        ("time".to_string(), JsonValue::Null),
    ]))
    .unwrap();
    assert_eq!(event.subject, None);
    assert_eq!(event.time, None);
    assert!(event.extensions.is_empty());
}

#[test]
fn unsupported_version_is_rejected() {
    let mut members = required();
    members[2] = text("specversion", "2.0");
    match event_from_json(&JsonValue::Object(members)) {
        Err(error) => {
            assert!(matches!(&error, Cause::UnsupportedVersion(token) if token == "2.0"));
            assert_eq!(error.to_string(), "Invalid specversion 2.0");
        }
        other => panic!("unexpected: {:?}", other),
    }
}

#[test]
fn time_that_is_no_timestamp_is_rejected() {
    match event_from_json(&with(vec![text("time", "noon")])) {
        Err(error) => {
            assert!(matches!(&error, Cause::InvalidTime(given) if given == "noon"));
            assert_eq!(error.to_string(), "invalid time noon");
        }
        other => panic!("unexpected: {:?}", other),
    }
    assert!(matches!(
        event_from_json(&with(vec![text("time", "+10000-01-01T00:00:00Z")])),
        Err(Cause::InvalidTime(_))
    ));
}

#[test]
fn payload_needs_both_members_as_strings() {
    let both = event_from_json(&with(vec![text("datacontenttype", "text/plain"), text("data", "h\u{e9}")]))
        .unwrap();
    assert_eq!(
        both.payload,
        Some(Payload { content_type: "text/plain".to_string(), data: vec![b'h', 0xc3, 0xa9] })
    );
    assert!(both.extensions.is_empty());
    for extra in [
        vec![text("data", "x")],
        vec![text("datacontenttype", "text/plain")],
        vec![text("datacontenttype", "text/plain"), ("data".to_string(), JsonValue::Bool(true))],
        vec![("datacontenttype".to_string(), JsonValue::Null), text("data", "x")],
    ] {
        let event = event_from_json(&with(extra)).unwrap();
        assert_eq!(event.payload, None);
        assert!(event.extensions.is_empty());
    }
}

#[test]
fn other_members_are_extensions() {
    let event = event_from_json(&with(vec![text("a", "1"), text("b", "2"), text("a", "3")])).unwrap();
    assert_eq!(event.extensions.count(), 2);
    assert_eq!(event.extensions.get("a"), Some(&"3".to_string()));
    assert_eq!(event.extensions.get("b"), Some(&"2".to_string()));
}

#[test]
fn first_of_two_members_of_an_attribute_is_read() {
    let event = event_from_json(&with(vec![text("id", "second")])).unwrap();
    assert_eq!(event.id, "1");
    assert!(event.extensions.is_empty());
}

#[test]
fn reserved_names_are_the_eight() {
    for name in ["id", "source", "specversion", "type", "subject", "time", "datacontenttype", "data"] {
        assert!(is_reserved_name(name));
    }
    for name in ["", "ID", "ids", "stuff", "ce-id", "dat", "types"] {
        assert!(!is_reserved_name(name));
    }
}

#[test]
fn document_has_the_members_in_order() {
    let mut extensions = Extensions::new();
    extensions.insert("z".to_string(), "26".to_string());
    extensions.insert("a".to_string(), "1".to_string());
    let event = Event {
        id: "1".to_string(),
        source: "s".to_string(),
        spec_version: SpecVersion::V03,
        event_type: "t".to_string(),
        subject: Some("sub".to_string()),
        time: Timestamp::new(0, 0, 3600),
        payload: Some(Payload { content_type: "text/plain".to_string(), data: b"hi".to_vec() }),
        extensions,
    };
    assert_eq!(
        event_to_json(&event).unwrap(),
        JsonValue::Object(vec![
            text("id", "1"),
            text("source", "s"),
            text("specversion", "0.3"),
            text("type", "t"),
            text("subject", "sub"),
            text("time", "1970-01-01T01:00:00+01:00"),
            text("datacontenttype", "text/plain"),
            text("data", "hi"),
            text("z", "26"),
            text("a", "1"),
        ])
    );
    assert_eq!(event_from_json(&event_to_json(&event).unwrap()).unwrap(), event);
}

#[test]
fn document_of_a_payload_that_is_no_text_fails() {
    let mut event = event_from_json(&with(vec![])).unwrap();
    event.payload = Some(Payload { content_type: "x".to_string(), data: vec![0xc3, 0x28] });
    assert!(matches!(event_to_json(&event), Err(Cause::InvalidUtf8)));
}

#[test]
fn batch_documents() {
    let events =
        batch_from_json(&JsonValue::Array(vec![with(vec![]), with(vec![text("k", "v")])])).unwrap();
    assert_eq!(events.len(), 2);
    assert_eq!(events[1].extensions.get("k"), Some(&"v".to_string()));
    assert_eq!(
        batch_to_json(&events).unwrap(),
        JsonValue::Array(vec![with(vec![]), with(vec![text("k", "v")])])
    );
    assert!(matches!(batch_from_json(&with(vec![])), Err(Cause::NotAnArray)));
    assert!(matches!(
        batch_from_json(&JsonValue::Array(vec![with(vec![]), without("type"), JsonValue::Null])),
        Err(Cause::MissingField(name)) if name == "type"
    ));
    assert_eq!(batch_to_json(&Vec::new()).unwrap(), JsonValue::Array(vec![]));
}

#[test]
fn json_values_are_cloned_in_depth() {
    let value = JsonValue::Object(vec![
        text("a", "1"),
        (
            "b".to_string(),
            JsonValue::Array(vec![
                JsonValue::Null,
                JsonValue::Bool(true),
                JsonValue::Number("2".to_string()),
                with(vec![text("k", "v")]),
            ]),
        ),
    ]);
    let copy = value.clone();
    assert_eq!(copy, value);
    assert_ne!(copy, JsonValue::Object(vec![text("a", "1")]));
}
