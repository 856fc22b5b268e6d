use cloudevents::{
    Cause, CodecError, Event, Extensions, JsonValue, Payload, PayloadMapper, PayloadReader,
    PayloadWriter, SpecVersion,
};

fn event_with(payload: Option<Payload>) -> Event {
    let mut extensions = Extensions::new();
    extensions.insert("stuff".to_string(), "aaa".to_string());
    Event {
        id: "1".to_string(),
        source: "s".to_string(),
        spec_version: SpecVersion::V10,
        event_type: "t".to_string(),
        subject: None,
        time: None,
        payload,
        extensions,
    }
}

fn json_payload(text: &str) -> Option<Payload> {
    Some(Payload { content_type: "application/json".to_string(), data: text.as_bytes().to_vec() })
}

fn hello() -> JsonValue {
    JsonValue::Object(vec![("hello".to_string(), JsonValue::String("world".to_string()))])
}

#[test]
fn write_payload_stores_content_type_and_json_text() {
    let mut event = event_with(json_payload("old"));
    event.write_payload("application/json", hello()).unwrap();
    assert_eq!(event.payload, json_payload("{\"hello\":\"world\"}"));
    assert_eq!(event.id, "1");
    assert_eq!(event.extensions.get("stuff"), Some(&"aaa".to_string()));
}

#[test]
fn write_payload_writes_every_kind_of_value() {
    let value = JsonValue::Object(vec![
        ("n".to_string(), JsonValue::Null),
        ("b".to_string(), JsonValue::Bool(true)),
        ("i".to_string(), JsonValue::Number("-12".to_string())),
        ("f".to_string(), JsonValue::Number("1.5".to_string())),
        (
            "a".to_string(),
            JsonValue::Array(vec![JsonValue::String("x\"y".to_string()), JsonValue::Bool(false)]),
        ),
    ]);
    let mut event = event_with(None);
    event.write_payload("application/json", value).unwrap();
    assert_eq!(
        String::from_utf8(event.payload.unwrap().data).unwrap(),
        "{\"a\":[\"x\\\"y\",false],\"b\":true,\"f\":1.5,\"i\":-12,\"n\":null}"
    );
}

#[test]
fn read_payload_gives_the_value_of_the_data() {
    let event = event_with(json_payload(" { \"hello\" : \"world\" } "));
    assert_eq!(event.read_payload().unwrap().unwrap(), hello());
    let (content_type, value) = event.read_content_type_and_payload().unwrap().unwrap();
    assert_eq!(content_type, "application/json");
    assert_eq!(value, hello());
}

#[test]
fn read_payload_reads_numbers_and_nesting() {
    let event = event_with(json_payload("[1, -2, 2.50, 1e2, null, {\"k\": [true]}]"));
    assert_eq!(
        event.read_payload().unwrap().unwrap(),
        JsonValue::Array(vec![
            JsonValue::Number("1".to_string()),
            JsonValue::Number("-2".to_string()),
            JsonValue::Number("2.5".to_string()),
            JsonValue::Number("100.0".to_string()),
            JsonValue::Null,
            JsonValue::Object(vec![(
                "k".to_string(),
                JsonValue::Array(vec![JsonValue::Bool(true)])
            )]),
        ])
    );
}

#[test]
fn read_payload_without_payload_is_none() {
    assert!(event_with(None).read_payload().is_none());
    assert!(event_with(None).read_content_type_and_payload().is_none());
    let absent: Option<Event> = None;
    assert!(absent.read_payload().is_none());
}

#[test]
fn read_payload_of_an_optional_event() {
    let present = Some(event_with(json_payload("true")));
    assert_eq!(present.read_payload().unwrap().unwrap(), JsonValue::Bool(true));
}

#[test]
fn read_payload_that_is_no_json_is_an_error() {
    let event = event_with(json_payload("{oops"));
    match event.read_payload() {
        Some(Err(error)) => {
            assert!(matches!(error, CodecError::DeserializationError(Cause::Json(_))));
            assert!(!error.to_string().is_empty());
        }
        other => panic!("unexpected: {:?}", other),
    }
}

#[test]
fn map_payload_with_identity_leaves_the_event_equal() {
    let event = event_with(json_payload("{\"hello\":\"world\"}"));
    assert_eq!(event.map_payload(|value| value).unwrap(), event);
    let none = event_with(None);
    assert_eq!(none.map_payload(|value| value).unwrap(), none);
}

#[test]
fn map_payload_writes_what_the_function_makes_under_the_same_content_type() {
    let event = event_with(Some(Payload {
        content_type: "application/vnd.test+json".to_string(),
        data: b"[1,2]".to_vec(),
    }));
    let mapped = event
        .map_payload(|value| match value {
            JsonValue::Array(mut items) => {
                items.push(JsonValue::Number("3".to_string()));
                JsonValue::Array(items)
            }
            other => other,
        })
        .unwrap();
    assert_eq!(
        mapped.payload,
        Some(Payload {
            content_type: "application/vnd.test+json".to_string(),
            data: b"[1,2,3]".to_vec()
        })
    );
    assert_eq!(event.payload.unwrap().data, b"[1,2]".to_vec());
    assert_eq!(mapped.id, "1");
}

#[test]
fn map_payload_propagates_the_error_of_the_reading() {
    let event = event_with(json_payload("not json"));
    assert!(matches!(
        event.map_payload(|value| value),
        Err(CodecError::DeserializationError(Cause::Json(_)))
    ));
}

#[test]
fn clone_with_new_payload_leaves_the_event_untouched() {
    let event = event_with(None);
    let copy = event.clone_with_new_payload("application/json", hello()).unwrap();
    assert_eq!(event.payload, None);
    assert_eq!(copy.payload, json_payload("{\"hello\":\"world\"}"));
    assert_eq!(copy.extensions, event.extensions);
}
