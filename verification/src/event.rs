//! The data that flows through the pipeline: raw events as the stream
//! transport delivers them, decoded state-change events, and the metric
//! data points handed to the collector connection.

use vstd::prelude::*;

verus! {

/// One event as delivered by the stream transport: a type label and an
/// opaque payload. It lives for a single iteration of the consumption
/// loop.
pub struct RawEvent {
    pub event_type: String,
    pub data: String,
}

/// A decoded state-change event. `id` and `state` are required; the other
/// fields are optional metadata. The numeric reading, when present, is
/// kept as its decimal text in `value`: that text is exactly what a
/// metric carries downstream, and the verified core never computes on the
/// number itself.
pub struct StateEvent {
    pub id: String,
    pub name: Option<String>,
    pub icon: Option<String>,
    pub entity_category: Option<u8>,
    pub value: Option<String>,
    pub state: String,
    pub uom: Option<String>,
}

/// One data point for the collector: a normalized, dot-delimited metric
/// name and the reading's decimal text.
pub struct MetricDatum {
    pub name: String,
    pub value: String,
}

} // verus!
