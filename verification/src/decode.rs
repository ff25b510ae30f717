//! The event decoder: filters raw events to those labelled `"state"` and
//! validates their JSON payload into a [`StateEvent`](crate::event::StateEvent).
//!
//! The payload is read by `serde_json` behind trusted wrappers. Each
//! wrapper is keyed on the payload text itself, and what it returns is a
//! function of that text alone, so its outcome carries a name (an
//! uninterpreted spec function) that the decoder's own contracts can
//! speak of: [`payload_ok`] says exactly which payloads decode, and
//! [`state_event_matches`] fixes every field of the result. Each probe
//! parses the payload afresh; events are small and infrequent, and the
//! payload-keyed form is what lets the contracts name the parse's
//! outcome. A decode failure never carries further than the one event:
//! the caller simply receives `None`.

use vstd::prelude::*;
use crate::event::{RawEvent, StateEvent};
use crate::text::str_eq;
use crate::transform::opt_string_view;

verus! {

/// Whether the payload parses as one JSON document.
pub uninterp spec fn parse_ok(payload: Seq<char>) -> bool;

/// Whether the parsed payload is an object with this key.
pub uninterp spec fn field_present(payload: Seq<char>, key: Seq<char>) -> bool;

/// Whether the parsed payload is an object holding JSON `null` at this
/// key.
pub uninterp spec fn field_null(payload: Seq<char>, key: Seq<char>) -> bool;

/// The text at this key, when the parsed payload is an object holding a
/// JSON string there; `None` otherwise.
pub uninterp spec fn field_string(payload: Seq<char>, key: Seq<char>) -> Option<Seq<char>>;

/// The integer at this key, when the parsed payload is an object holding
/// a non-negative integer JSON number there; `None` otherwise.
pub uninterp spec fn field_integer(payload: Seq<char>, key: Seq<char>) -> Option<u64>;

/// The decimal text of the number at this key, when the parsed payload
/// is an object holding a JSON number there; `None` otherwise.
pub uninterp spec fn field_number_text(payload: Seq<char>, key: Seq<char>) -> Option<Seq<char>>;

/// Relies on `serde_json::from_str::<serde_json::Value>`: whether the
/// payload parses as one JSON document.
#[verifier::external_body]
fn json_parse_ok(payload: &str) -> (r: bool)
    ensures
        r == parse_ok(payload@),
{
    serde_json::from_str::<serde_json::Value>(payload).is_ok()
}

/// Relies on `serde_json::from_str::<serde_json::Value>` and
/// `serde_json::Value::get`: whether the parsed payload has this key
/// (`get` answers `None` on a non-object and on an absent key).
#[verifier::external_body]
fn json_field_present(payload: &str, key: &str) -> (r: bool)
    ensures
        r == field_present(payload@, key@),
{
    let parsed: Option<serde_json::Value> = serde_json::from_str(payload).ok();
    match &parsed {
        Some(v) => v.get(key).is_some(),
        None => false,
    }
}

/// Relies on `serde_json::from_str::<serde_json::Value>`,
/// `serde_json::Value::get` and `serde_json::Value::is_null`: whether the
/// parsed payload holds JSON `null` at this key.
#[verifier::external_body]
fn json_field_null(payload: &str, key: &str) -> (r: bool)
    ensures
        r == field_null(payload@, key@),
{
    let parsed: Option<serde_json::Value> = serde_json::from_str(payload).ok();
    match &parsed {
        Some(v) => match v.get(key) {
            Some(f) => f.is_null(),
            None => false,
        },
        None => false,
    }
}

/// Relies on `serde_json::from_str::<serde_json::Value>`,
/// `serde_json::Value::get` and `serde_json::Value::as_str`: the string
/// the parsed payload holds at this key, if it holds one.
#[verifier::external_body]
fn json_field_string(payload: &str, key: &str) -> (r: Option<String>)
    ensures
        opt_string_view(r) == field_string(payload@, key@),
{
    let parsed: Option<serde_json::Value> = serde_json::from_str(payload).ok();
    let field = match &parsed {
        Some(v) => v.get(key),
        None => None,
    };
    match field {
        Some(f) => f.as_str().map(str::to_string),
        None => None,
    }
}

/// Relies on `serde_json::from_str::<serde_json::Value>`,
/// `serde_json::Value::get` and `serde_json::Value::as_u64`: the
/// non-negative integer the parsed payload holds at this key, if it
/// holds one.
#[verifier::external_body]
fn json_field_integer(payload: &str, key: &str) -> (r: Option<u64>)
    ensures
        r == field_integer(payload@, key@),
{
    let parsed: Option<serde_json::Value> = serde_json::from_str(payload).ok();
    match &parsed {
        Some(v) => match v.get(key) {
            Some(f) => f.as_u64(),
            None => None,
        },
        None => None,
    }
}

/// Relies on `serde_json::from_str::<serde_json::Value>`,
/// `serde_json::Value::get`, `serde_json::Value::as_f64` and the float's
/// `Display`: the decimal text of the number the parsed payload holds at
/// this key, if it holds one.
#[verifier::external_body]
fn json_field_number_text(payload: &str, key: &str) -> (r: Option<String>)
    ensures
        opt_string_view(r) == field_number_text(payload@, key@),
{
    let parsed: Option<serde_json::Value> = serde_json::from_str(payload).ok();
    let field = match &parsed {
        Some(v) => v.get(key),
        None => None,
    };
    match field {
        Some(f) => f.as_f64().map(|x| x.to_string()),
        None => None,
    }
}

/// An optional string field is acceptable when it is absent, null, or a
/// string.
pub open spec fn optional_string_ok(s: Seq<char>, key: Seq<char>) -> bool {
    !field_present(s, key) || field_null(s, key) || field_string(s, key) is Some
}

/// What an acceptable optional string field decodes to: absent and null
/// both read as `None`.
pub open spec fn optional_string_spec(s: Seq<char>, key: Seq<char>) -> Option<Seq<char>> {
    if !field_present(s, key) || field_null(s, key) {
        None
    } else {
        field_string(s, key)
    }
}

/// The category field is acceptable when it is absent, null, or an
/// integer that fits in a byte.
pub open spec fn category_ok(s: Seq<char>, key: Seq<char>) -> bool {
    !field_present(s, key) || field_null(s, key)
        || (field_integer(s, key) matches Some(n) && n <= 255)
}

/// What an acceptable category field decodes to.
pub open spec fn category_spec(s: Seq<char>, key: Seq<char>) -> Option<u8> {
    if !field_present(s, key) || field_null(s, key) {
        None
    } else {
        match field_integer(s, key) {
            Some(n) => Some(n as u8),
            None => None,
        }
    }
}

/// The reading field is acceptable when it is absent, null, or a
/// number.
pub open spec fn reading_ok(s: Seq<char>, key: Seq<char>) -> bool {
    !field_present(s, key) || field_null(s, key) || field_number_text(s, key) is Some
}

/// What an acceptable reading field decodes to: the number's decimal
/// text, or `None` when absent or null.
pub open spec fn reading_spec(s: Seq<char>, key: Seq<char>) -> Option<Seq<char>> {
    if !field_present(s, key) || field_null(s, key) {
        None
    } else {
        field_number_text(s, key)
    }
}

/// Exactly which payloads decode: a JSON document with string fields
/// `id` and `state`, and acceptable optional `name`, `icon`, `uom`,
/// `entity_category` and `value` fields.
pub open spec fn payload_ok(s: Seq<char>) -> bool {
    &&& parse_ok(s)
    &&& field_string(s, "id"@) is Some
    &&& field_string(s, "state"@) is Some
    &&& optional_string_ok(s, "name"@)
    &&& optional_string_ok(s, "icon"@)
    &&& optional_string_ok(s, "uom"@)
    &&& category_ok(s, "entity_category"@)
    &&& reading_ok(s, "value"@)
}

/// Every field of a decoded event, fixed from the payload.
pub open spec fn state_event_matches(ev: StateEvent, s: Seq<char>) -> bool {
    &&& field_string(s, "id"@) == Some(ev.id@)
    &&& field_string(s, "state"@) == Some(ev.state@)
    &&& opt_string_view(ev.name) == optional_string_spec(s, "name"@)
    &&& opt_string_view(ev.icon) == optional_string_spec(s, "icon"@)
    &&& ev.entity_category == category_spec(s, "entity_category"@)
    &&& opt_string_view(ev.value) == reading_spec(s, "value"@)
    &&& opt_string_view(ev.uom) == optional_string_spec(s, "uom"@)
}

/// Reads an optional string field: `Ok(None)` when the key is absent or
/// null, `Ok(Some(..))` when it holds a string, `Err(())` when it holds
/// anything else (the event is then discarded).
fn optional_string(payload: &str, key: &str) -> (r: Result<Option<String>, ()>)
    ensures
        r is Ok <==> optional_string_ok(payload@, key@),
        r matches Ok(o) ==> opt_string_view(o) == optional_string_spec(payload@, key@),
{
    if !json_field_present(payload, key) {
        return Ok(None);
    }
    if json_field_null(payload, key) {
        return Ok(None);
    }
    match json_field_string(payload, key) {
        Some(s) => Ok(Some(s)),
        None => Err(()),
    }
}

/// Reads the optional small-integer category field: `Ok(None)` when the
/// key is absent or null, `Ok(Some(..))` when it holds an integer that
/// fits in a byte, `Err(())` otherwise.
fn optional_category(payload: &str, key: &str) -> (r: Result<Option<u8>, ()>)
    ensures
        r is Ok <==> category_ok(payload@, key@),
        r matches Ok(o) ==> o == category_spec(payload@, key@),
{
    if !json_field_present(payload, key) {
        return Ok(None);
    }
    if json_field_null(payload, key) {
        return Ok(None);
    }
    match json_field_integer(payload, key) {
        Some(n) => {
            if n <= 255 {
                Ok(Some(n as u8))
            } else {
                Err(())
            }
        },
        None => Err(()),
    }
}

/// Reads the optional numeric reading: `Ok(None)` when the key is absent
/// or null, `Ok(Some(..))` with the number's decimal text when it holds a
/// JSON number, `Err(())` otherwise.
fn optional_reading(payload: &str, key: &str) -> (r: Result<Option<String>, ()>)
    ensures
        r is Ok <==> reading_ok(payload@, key@),
        r matches Ok(o) ==> opt_string_view(o) == reading_spec(payload@, key@),
{
    if !json_field_present(payload, key) {
        return Ok(None);
    }
    if json_field_null(payload, key) {
        return Ok(None);
    }
    match json_field_number_text(payload, key) {
        Some(t) => Ok(Some(t)),
        None => Err(()),
    }
}

/// Validates one payload into a `StateEvent`: the payload must be a JSON
/// object with string fields `id` and `state`; `name`, `icon`,
/// `entity_category` (a byte-sized integer), `value` (a number) and `uom`
/// are optional, and a field of the wrong type discards the whole event.
/// Unknown fields are ignored.
pub fn decode_state_payload(payload: &str) -> (r: Option<StateEvent>)
    ensures
        r is Some <==> payload_ok(payload@),
        r matches Some(ev) ==> state_event_matches(ev, payload@),
{
    if !json_parse_ok(payload) {
        return None;
    }
    let id = match json_field_string(payload, "id") {
        Some(s) => s,
        None => return None,
    };
    let state = match json_field_string(payload, "state") {
        Some(s) => s,
        None => return None,
    };
    let name = match optional_string(payload, "name") {
        Ok(o) => o,
        Err(_) => return None,
    };
    let icon = match optional_string(payload, "icon") {
        Ok(o) => o,
        Err(_) => return None,
    };
    let uom = match optional_string(payload, "uom") {
        Ok(o) => o,
        Err(_) => return None,
    };
    let entity_category = match optional_category(payload, "entity_category") {
        Ok(o) => o,
        Err(_) => return None,
    };
    let value = match optional_reading(payload, "value") {
        Ok(o) => o,
        Err(_) => return None,
    };
    Some(StateEvent { id, name, icon, entity_category, value, state, uom })
}

/// Decodes one raw event: only events whose type label is exactly
/// `"state"` are considered at all; any other label is ignored without
/// error. A `"state"` event decodes exactly when its payload is
/// acceptable, and every field of the result is fixed by the payload.
pub fn decode_event(raw: &RawEvent) -> (r: Option<StateEvent>)
    ensures
        raw.event_type@ != "state"@ ==> r is None,
        raw.event_type@ == "state"@ ==> (r is Some <==> payload_ok(raw.data@)),
        r matches Some(ev) ==> state_event_matches(ev, raw.data@),
{
    if str_eq(raw.event_type.as_str(), "state") {
        decode_state_payload(raw.data.as_str())
    } else {
        None
    }
}

} // verus!
