//! A verified core for a sensor-event-to-metrics bridge: decoding of
//! state-change events, normalization of sensor identifiers into dotted
//! metric names, and the per-event pipeline decision of which metric, if
//! any, to emit.

pub mod decode;
pub mod event;
pub mod pipeline;
pub mod text;
pub mod transform;
