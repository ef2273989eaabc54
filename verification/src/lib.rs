//! A verified distributed-trace propagation and batched span export core.
//!
//! The crate models the observability pipeline of a request-serving
//! process: a codec for the `traceparent` propagation header, a span
//! recorder, a correlation bridge that stamps log records with the
//! active trace and span identifiers, a bounded batch exporter with
//! retry and drop accounting, and a registry tying them together.

pub mod hex;
pub mod codec;
pub mod span;
pub mod exporter;
pub mod scope;
pub mod host;
pub mod registry;
