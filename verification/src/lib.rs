//! Server-Timing metrics for HTTP responses.
//!
//! A [`ServerTimingLayer`] names a metric. Wrapped around a handler it yields a
//! [`ServerTimingService`]; when the handler has produced a response, the time
//! it took is written into the response's `server-timing` header, in front of
//! whatever an inner layer already left there:
//!
//! ```text
//! server-timing: outer;dur=12.3, inner;desc="database";dur=8.1
//! ```
//!
//! The library decides what is written and when; it is proved against the
//! contracts stated with each function. Taking the time, rendering it as a
//! decimal and driving the handler are left to the caller.

pub mod entry;
pub mod http_model;
pub mod layer;
pub mod text;
pub mod timing;
pub mod wrapper;

pub use entry::{format_entry, merge};
pub use layer::{MetricDescriptor, ServerTimingLayer, ServerTimingService};
pub use timing::{read_existing, record, write_header, HeaderWriteRejected, SERVER_TIMING};
pub use wrapper::{step, TimingAction, TimingEvent, TimingState};
