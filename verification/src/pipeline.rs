//! The per-event pipeline decision: from one raw event to the metric, if
//! any, that is owed to the collector. One unbounded loop around
//! [`process_event`] — pulling raw events from the stream and performing
//! the sends — is all that remains outside the verified core.

use vstd::prelude::*;
use crate::decode::{decode_event, field_string, payload_ok, reading_spec};
use crate::event::{MetricDatum, RawEvent, StateEvent};
use crate::text::{starts_with, strip_prefix_str};
use crate::transform::{full_metric_name, opt_string_view, transformed, with_prefix};

verus! {

/// The metric name owed to a state event whose raw identifier is `id`
/// (the `"sensor-"` category tag still attached), under the optional
/// configured prefix.
pub open spec fn state_metric_name(prefix: Option<Seq<char>>, id: Seq<char>) -> Seq<char> {
    with_prefix(prefix, transformed(id.subrange("sensor-"@.len() as int, id.len() as int)))
}

/// Decides what one decoded state event contributes: exactly one metric
/// when it carries a numeric reading and its identifier carries the
/// `"sensor-"` category tag, and nothing otherwise. An event without a
/// reading is valid but silent; an identifier without the tag is a shape
/// violation and the event is discarded.
pub fn process_state_event(prefix: &Option<String>, ev: &StateEvent) -> (r: Option<MetricDatum>)
    ensures
        r is Some <==> ev.value is Some && starts_with(ev.id@, "sensor-"@),
        ev.value is None ==> r is None,
        r matches Some(d) ==> d.name@ == state_metric_name(opt_string_view(*prefix), ev.id@)
            && d.value@ == (ev.value->0)@,
{
    match &ev.value {
        None => None,
        Some(v) => match strip_prefix_str(ev.id.as_str(), "sensor-") {
            None => None,
            Some(rest) => {
                let name = full_metric_name(prefix, rest);
                Some(MetricDatum { name, value: v.clone() })
            },
        },
    }
}

/// The whole per-event decision: decode the raw event, then decide the
/// metric. Exactly one metric comes out when the label is `"state"`, the
/// payload is acceptable, it carries a numeric reading, and its
/// identifier carries the `"sensor-"` tag; the metric's name and value
/// are fixed by the payload. An event with any other label, a malformed
/// payload, or no reading yields nothing, and the caller's loop simply
/// goes on to the next event.
pub fn process_event(prefix: &Option<String>, raw: &RawEvent) -> (r: Option<MetricDatum>)
    ensures
        r is Some <==> raw.event_type@ == "state"@ && payload_ok(raw.data@)
            && reading_spec(raw.data@, "value"@) is Some
            && starts_with(field_string(raw.data@, "id"@)->0, "sensor-"@),
        raw.event_type@ != "state"@ ==> r is None,
        raw.event_type@ == "state"@ && !payload_ok(raw.data@) ==> r is None,
        raw.event_type@ == "state"@ && reading_spec(raw.data@, "value"@) is None ==> r is None,
        r matches Some(d) ==> d.name@ == state_metric_name(
            opt_string_view(*prefix),
            field_string(raw.data@, "id"@)->0,
        ) && Some(d.value@) == reading_spec(raw.data@, "value"@),
{
    match decode_event(raw) {
        None => None,
        Some(ev) => process_state_event(prefix, &ev),
    }
}

} // verus!
