//! Battery-powered environmental telemetry node: the verified core.
//!
//! The node wakes, decodes a temperature/humidity reading from a single-wire
//! sensor, brings up a wireless link, posts one telemetry payload and goes
//! back to a deep sleep. This crate holds the parts of that cycle that are
//! pure logic and proves them correct: the sensor frame decoder, the
//! connectivity state machine, the liveness watchdog, the duty-cycle
//! orchestrator and the telemetry request assembly. The hardware itself
//! (GPIO, radio driver, network stack, deep-sleep control) stays outside and
//! hands these functions plain values.

pub mod connectivity;
pub mod duty;
pub mod http;
pub mod indicator;
pub mod sensor;
pub mod watchdog;
