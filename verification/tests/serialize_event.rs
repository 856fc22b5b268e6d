use cloudevents::{event_from_json, Event, JsonValue, Payload, SpecVersion, Timestamp};

fn member(name: &str, value: &str) -> (String, JsonValue) {
    (name.to_string(), JsonValue::String(value.to_string()))
}

#[test]
fn event_test_serialize_no_payload_no_extensions() {
    let expected_id = "A234-1234-1234";
    let expected_spec_version = SpecVersion::V10;
    let expected_type = "com.github.pull.create";
    let expected_source = "https://github.com/cloudevents/spec/pull";
    let expected_subject = "123";
    let expected_time = Timestamp::parse_from_rfc3339("2018-04-05T17:31:00Z").unwrap();

    let j = JsonValue::Object(vec![
        member("id", expected_id),
        member("specversion", &expected_spec_version.to_string()),
        member("type", expected_type),
        member("source", expected_source),
        member("subject", expected_subject),
        member("time", &expected_time.to_rfc3339()),
    ]);

    let v: Event = event_from_json(&j).unwrap();

    assert_eq!(v.id, expected_id);
    assert_eq!(v.spec_version, expected_spec_version);
    assert_eq!(v.event_type, expected_type);
    assert_eq!(v.source, expected_source);
    assert_eq!(v.subject, Some(expected_subject.to_string()));
    assert_eq!(v.time, Some(expected_time));
    assert_eq!(v.payload, None);
    assert!(v.extensions.is_empty());
}

#[test]
fn event_test_serialize_no_payload_with_extensions() {
    let expected_id = "A234-1234-1234";
    let expected_spec_version = SpecVersion::V10;
    let expected_type = "com.github.pull.create";
    let expected_source = "https://github.com/cloudevents/spec/pull";
    let expected_subject = "123";
    let expected_time = Timestamp::parse_from_rfc3339("2018-04-05T17:31:00Z").unwrap();
    let expected_stuff = "aaa";

    let j = JsonValue::Object(vec![
        member("id", expected_id),
        member("specversion", &expected_spec_version.to_string()),
        member("type", expected_type),
        member("source", expected_source),
        member("subject", expected_subject),
        member("time", &expected_time.to_rfc3339()),
        member("stuff", expected_stuff),
    ]);

    let v: Event = event_from_json(&j).unwrap();

    assert_eq!(v.id, expected_id);
    assert_eq!(v.spec_version, expected_spec_version);
    assert_eq!(v.event_type, expected_type);
    assert_eq!(v.source, expected_source);
    assert_eq!(v.subject, Some(expected_subject.to_string()));
    assert_eq!(v.time, Some(expected_time));
    assert_eq!(v.payload, None);
    assert!(!v.extensions.is_empty());
    assert_eq!(v.extensions.get("stuff"), Some(&expected_stuff.to_string()));
}

#[test]
fn event_test_serialize_with_payload_with_extensions() {
    let expected_id = "A234-1234-1234";
    let expected_spec_version = SpecVersion::V10;
    let expected_type = "com.github.pull.create";
    let expected_source = "https://github.com/cloudevents/spec/pull";
    let expected_subject = "123";
    let expected_time = Timestamp::parse_from_rfc3339("2018-04-05T17:31:00Z").unwrap();
    let expected_stuff = "aaa";
    let expected_content_type = "application/json";
    let expected_data = "{\"hello\":\"world\"}";

    let j = JsonValue::Object(vec![
        member("id", expected_id),
        member("specversion", &expected_spec_version.to_string()),
        member("type", expected_type),
        member("source", expected_source),
        member("subject", expected_subject),
        member("time", &expected_time.to_rfc3339()),
        member("stuff", expected_stuff),
        member("datacontenttype", expected_content_type),
        member("data", expected_data),
    ]);

    let v: Event = event_from_json(&j).unwrap();

    assert_eq!(v.id, expected_id);
    assert_eq!(v.spec_version, expected_spec_version);
    assert_eq!(v.event_type, expected_type);
    assert_eq!(v.source, expected_source);
    assert_eq!(v.subject, Some(expected_subject.to_string()));
    assert_eq!(v.time, Some(expected_time));
    assert_eq!(
        v.payload,
        Some(Payload {
            content_type: expected_content_type.to_string(),
            data: expected_data.as_bytes().into()
        })
    );
    assert!(!v.extensions.is_empty());
    assert_eq!(v.extensions.get("stuff"), Some(&expected_stuff.to_string()));
}

#[test]
fn lib_test_serialize_no_payload_no_extensions() {
    let expected_id = "A234-1234-1234";
    let expected_spec_version = SpecVersion::V10;
    let expected_type = "com.github.pull.create";
    let expected_source = "https://github.com/cloudevents/spec/pull";
    let expected_subject = "123";
    let expected_time = Timestamp::parse_from_rfc3339("2018-04-05T17:31:00Z").unwrap();

    let j = JsonValue::Object(vec![
        member("id", expected_id),
        member("specversion", &expected_spec_version.to_string()),
        member("type", expected_type),
        member("source", expected_source),
        member("subject", expected_subject),
        member("time", &expected_time.to_rfc3339()),
    ]);

    let v: Event = event_from_json(&j).unwrap();

    assert_eq!(v.id, expected_id);
    assert_eq!(v.spec_version, expected_spec_version);
    assert_eq!(v.event_type, expected_type);
    assert_eq!(v.source, expected_source);
    assert_eq!(v.subject, Some(expected_subject.to_string()));
    assert_eq!(v.time, Some(expected_time));
    assert_eq!(v.payload, None);
    assert!(v.extensions.is_empty());
}

#[test]
fn lib_test_serialize_no_payload_with_extensions() {
    let expected_id = "A234-1234-1234";
    let expected_spec_version = SpecVersion::V10;
    let expected_type = "com.github.pull.create";
    let expected_source = "https://github.com/cloudevents/spec/pull";
    let expected_subject = "123";
    let expected_time = Timestamp::parse_from_rfc3339("2018-04-05T17:31:00Z").unwrap();
    let expected_stuff = "aaa";

    let j = JsonValue::Object(vec![
        member("id", expected_id),
        member("specversion", &expected_spec_version.to_string()),
        member("type", expected_type),
        member("source", expected_source),
        member("subject", expected_subject),
        member("time", &expected_time.to_rfc3339()),
        member("stuff", expected_stuff),
    ]);

    let v: Event = event_from_json(&j).unwrap();

    assert_eq!(v.id, expected_id);
    assert_eq!(v.spec_version, expected_spec_version);
    assert_eq!(v.event_type, expected_type);
    assert_eq!(v.source, expected_source);
    assert_eq!(v.subject, Some(expected_subject.to_string()));
    assert_eq!(v.time, Some(expected_time));
    assert_eq!(v.payload, None);
    assert!(!v.extensions.is_empty());
    assert_eq!(v.extensions.get("stuff"), Some(&expected_stuff.to_string()));
}

#[test]
fn lib_test_serialize_with_payload_with_extensions() {
    let expected_id = "A234-1234-1234";
    let expected_spec_version = SpecVersion::V10;
    let expected_type = "com.github.pull.create";
    let expected_source = "https://github.com/cloudevents/spec/pull";
    let expected_subject = "123";
    let expected_time = Timestamp::parse_from_rfc3339("2018-04-05T17:31:00Z").unwrap();
    let expected_stuff = "aaa";
    let expected_content_type = "application/json";
    let expected_data = "{\"hello\":\"world\"}";

    let j = JsonValue::Object(vec![
        member("id", expected_id),
        member("specversion", &expected_spec_version.to_string()),
        member("type", expected_type),
        member("source", expected_source),
        member("subject", expected_subject),
        member("time", &expected_time.to_rfc3339()),
        member("stuff", expected_stuff),
        member("datacontenttype", expected_content_type),
        member("data", expected_data),
    ]);

    let v: Event = event_from_json(&j).unwrap();

    assert_eq!(v.id, expected_id);
    assert_eq!(v.spec_version, expected_spec_version);
    assert_eq!(v.event_type, expected_type);
    assert_eq!(v.source, expected_source);
    assert_eq!(v.subject, Some(expected_subject.to_string()));
    assert_eq!(v.time, Some(expected_time));
    assert_eq!(
        v.payload,
        Some(Payload {
            content_type: expected_content_type.to_string(),
            data: expected_data.as_bytes().into()
        })
    );
    assert!(!v.extensions.is_empty());
    assert_eq!(v.extensions.get("stuff"), Some(&expected_stuff.to_string()));
}

#[test]
fn serialize_event_test_serialize_no_payload_no_extensions() {
    let expected_id = "A234-1234-1234";
    let expected_spec_version = SpecVersion::V10;
    let expected_type = "com.github.pull.create";
    let expected_source = "https://github.com/cloudevents/spec/pull";
    let expected_subject = "123";
    let expected_time = Timestamp::parse_from_rfc3339("2018-04-05T17:31:00Z").unwrap();

    let j = JsonValue::Object(vec![
        member("id", expected_id),
        member("specversion", &expected_spec_version.to_string()),
        member("type", expected_type),
        member("source", expected_source),
        member("subject", expected_subject),
        member("time", &expected_time.to_rfc3339()),
    ]);

    let v: Event = event_from_json(&j).unwrap();

    assert_eq!(v.id, expected_id);
    assert_eq!(v.spec_version, expected_spec_version);
    assert_eq!(v.event_type, expected_type);
    assert_eq!(v.source, expected_source);
    assert_eq!(v.subject, Some(expected_subject.to_string()));
    assert_eq!(v.time, Some(expected_time));
    assert_eq!(v.payload, None);
    assert!(v.extensions.is_empty());
}

#[test]
fn serialize_event_test_serialize_no_payload_with_extensions() {
    let expected_id = "A234-1234-1234";
    let expected_spec_version = SpecVersion::V10;
    let expected_type = "com.github.pull.create";
    let expected_source = "https://github.com/cloudevents/spec/pull";
    let expected_subject = "123";
    let expected_time = Timestamp::parse_from_rfc3339("2018-04-05T17:31:00Z").unwrap();
    let expected_stuff = "aaa";

    let j = JsonValue::Object(vec![
        member("id", expected_id),
        member("specversion", &expected_spec_version.to_string()),
        member("type", expected_type),
        member("source", expected_source),
        member("subject", expected_subject),
        member("time", &expected_time.to_rfc3339()),
        member("stuff", expected_stuff),
    ]);

    let v: Event = event_from_json(&j).unwrap();

    assert_eq!(v.id, expected_id);
    assert_eq!(v.spec_version, expected_spec_version);
    assert_eq!(v.event_type, expected_type);
    assert_eq!(v.source, expected_source);
    assert_eq!(v.subject, Some(expected_subject.to_string()));
    assert_eq!(v.time, Some(expected_time));
    assert_eq!(v.payload, None);
    assert!(!v.extensions.is_empty());
    assert_eq!(v.extensions.get("stuff"), Some(&expected_stuff.to_string()));
}

#[test]
fn serialize_event_test_serialize_with_payload_with_extensions() {
    let expected_id = "A234-1234-1234";
    let expected_spec_version = SpecVersion::V10;
    let expected_type = "com.github.pull.create";
    let expected_source = "https://github.com/cloudevents/spec/pull";
    let expected_subject = "123";
    let expected_time = Timestamp::parse_from_rfc3339("2018-04-05T17:31:00Z").unwrap();
    let expected_stuff = "aaa";
    let expected_content_type = "application/json";
    let expected_data = "{\"hello\":\"world\"}";

    let j = JsonValue::Object(vec![
        member("id", expected_id),
        member("specversion", &expected_spec_version.to_string()),
        member("type", expected_type),
        member("source", expected_source),
        member("subject", expected_subject),
        member("time", &expected_time.to_rfc3339()),
        member("stuff", expected_stuff),
        member("datacontenttype", expected_content_type),
        member("data", expected_data),
    ]);

    let v: Event = event_from_json(&j).unwrap();

    assert_eq!(v.id, expected_id);
    assert_eq!(v.spec_version, expected_spec_version);
    assert_eq!(v.event_type, expected_type);
    assert_eq!(v.source, expected_source);
    assert_eq!(v.subject, Some(expected_subject.to_string()));
    assert_eq!(v.time, Some(expected_time));
    assert_eq!(
        v.payload,
        Some(Payload {
            content_type: expected_content_type.to_string(),
            data: expected_data.as_bytes().into()
        })
    );
    assert!(!v.extensions.is_empty());
    assert_eq!(v.extensions.get("stuff"), Some(&expected_stuff.to_string()));
}
