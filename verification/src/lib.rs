//! A verified model of a native-to-host binding layer.
//!
//! Native code exposes values, objects and asynchronous work to a managed,
//! garbage-collected scripting host through an opaque handle boundary.  The
//! host's heap, allocations and accounting are modeled as explicit state on
//! [`env::Env`], so the safety rules of the boundary — type-tagged
//! downcasts, one-shot finalization, exact external-memory accounting,
//! bounded thread-safe queues — are stated as contracts and proved.

pub mod bigint;
pub mod env;
pub mod runtime;
pub mod status;
pub mod task;
pub mod text;
pub mod tsfn;
pub mod value;
