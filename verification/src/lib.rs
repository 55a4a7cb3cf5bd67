//! Shuffle-read leaf operator for a distributed, pull-based query engine.
//!
//! The operator owns a fixed catalogue of partition locations, one per output
//! partition, together with the schema of the rows they hold. Asked to produce
//! partition `i`, it resolves `locations[i]`, describes the connection and
//! fetch that must be made against that worker, and wraps the batches the
//! worker returns into a finite, single-pass sequence. The network round trip
//! itself is performed by the enclosing engine; everything the operator
//! decides — which worker to contact, which partition identity to request,
//! how each failure maps into the plan's error channel — is stated in
//! contracts and proved.

pub mod errors;
pub mod location;
pub mod plan;
pub mod reader;
pub mod schema;
pub mod stream;
