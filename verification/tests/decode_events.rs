use metric_bridge::decode::{decode_event, decode_state_payload};
use metric_bridge::event::RawEvent;

fn raw(event_type: &str, data: &str) -> RawEvent {
    RawEvent {
        event_type: event_type.to_string(),
        data: data.to_string(),
    }
}

#[test]
fn full_payload_decodes_with_every_field() {
    let ev = decode_state_payload(
        r#"{"id":"sensor-temperature_outdoor","name":"Outdoor","icon":"mdi:thermometer","entity_category":1,"state":"21.5 C","value":21.5,"uom":"C"}"#,
    )
    .unwrap();
    assert_eq!(ev.id, "sensor-temperature_outdoor");
    assert_eq!(ev.name, Some("Outdoor".to_string()));
    assert_eq!(ev.icon, Some("mdi:thermometer".to_string()));
    assert_eq!(ev.entity_category, Some(1));
    assert_eq!(ev.state, "21.5 C");
    assert_eq!(ev.value, Some("21.5".to_string()));
    assert_eq!(ev.uom, Some("C".to_string()));
}

#[test]
fn minimal_payload_decodes_without_optional_fields() {
    let ev = decode_state_payload(r#"{"id":"sensor-pressure","state":"1013"}"#).unwrap();
    assert_eq!(ev.id, "sensor-pressure");
    assert_eq!(ev.value, None);
    assert_eq!(ev.name, None);
    assert_eq!(ev.entity_category, None);
}

#[test]
fn unknown_fields_are_ignored() {
    let ev = decode_state_payload(
        r#"{"id":"sensor-a","state":"1","value":1,"extra":"ignored","more":[1,2]}"#,
    )
    .unwrap();
    assert_eq!(ev.value, Some("1".to_string()));
}

#[test]
fn null_optional_fields_decode_as_absent() {
    let ev = decode_state_payload(
        r#"{"id":"sensor-a","state":"1","value":null,"name":null,"entity_category":null}"#,
    )
    .unwrap();
    assert_eq!(ev.value, None);
    assert_eq!(ev.name, None);
    assert_eq!(ev.entity_category, None);
}

#[test]
fn missing_id_discards_the_event() {
    assert!(decode_state_payload(r#"{"state":"21.5","value":21.5}"#).is_none());
}

#[test]
fn missing_state_discards_the_event() {
    assert!(decode_state_payload(r#"{"id":"sensor-a","value":21.5}"#).is_none());
}

#[test]
fn invalid_json_discards_the_event() {
    assert!(decode_state_payload("not json at all").is_none());
    assert!(decode_state_payload("").is_none());
    assert!(decode_state_payload(r#"[1,2,3]"#).is_none());
}

#[test]
fn wrong_typed_required_field_discards_the_event() {
    assert!(decode_state_payload(r#"{"id":7,"state":"1"}"#).is_none());
    assert!(decode_state_payload(r#"{"id":"sensor-a","state":1}"#).is_none());
}

#[test]
fn wrong_typed_optional_field_discards_the_event() {
    assert!(decode_state_payload(r#"{"id":"sensor-a","state":"1","name":7}"#).is_none());
    assert!(decode_state_payload(r#"{"id":"sensor-a","state":"1","value":"21.5"}"#).is_none());
    assert!(decode_state_payload(r#"{"id":"sensor-a","state":"1","uom":[]}"#).is_none());
}

#[test]
fn entity_category_must_fit_in_a_byte() {
    let ev = decode_state_payload(r#"{"id":"sensor-a","state":"1","entity_category":255}"#).unwrap();
    assert_eq!(ev.entity_category, Some(255));
    assert!(decode_state_payload(r#"{"id":"sensor-a","state":"1","entity_category":256}"#).is_none());
    assert!(decode_state_payload(r#"{"id":"sensor-a","state":"1","entity_category":-1}"#).is_none());
    assert!(decode_state_payload(r#"{"id":"sensor-a","state":"1","entity_category":1.5}"#).is_none());
}

#[test]
fn integer_readings_keep_integer_text() {
    let ev = decode_state_payload(r#"{"id":"sensor-a","state":"42","value":42.0}"#).unwrap();
    assert_eq!(ev.value, Some("42".to_string()));
    let ev = decode_state_payload(r#"{"id":"sensor-a","state":"7","value":7}"#).unwrap();
    assert_eq!(ev.value, Some("7".to_string()));
}

#[test]
fn non_state_labels_are_ignored() {
    let data = r#"{"id":"sensor-a","state":"1","value":1}"#;
    assert!(decode_event(&raw("log", data)).is_none());
    assert!(decode_event(&raw("ping", data)).is_none());
    assert!(decode_event(&raw("", data)).is_none());
}

#[test]
fn state_labelled_events_decode() {
    let ev = decode_event(&raw("state", r#"{"id":"sensor-a","state":"1","value":1}"#)).unwrap();
    assert_eq!(ev.id, "sensor-a");
}
