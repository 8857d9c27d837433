//! A verified model of a lightweight tracing facility.
//!
//! The crate has two halves.  `hitracechain` holds the distributed
//! trace-identifier value type (chain id, span id, parent span id, flag set),
//! the per-thread identifier slot with its begin/end/get/set/clear/span
//! lifecycle, and the fixed-width byte serialization used to carry an
//! identifier across a process boundary.  `hitrace_meter` holds the trace
//! event emitter: synchronous, asynchronous and counter events are framed as
//! text records and appended to a `TraceSink`, gated by an on/off switch and
//! a category tag mask, exactly as the records appear in the trace log.

pub mod decimal;
pub mod hitrace_meter;
pub mod hitracechain;
pub mod search;
