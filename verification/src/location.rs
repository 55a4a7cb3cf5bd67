//! Where one shuffle partition lives: the worker that materialized it and the
//! identity of the partition within the distributed job. Locations are
//! produced by the scheduler when the plan is built and are read-only here.

use vstd::prelude::*;

verus! {

/// The network address of the worker process serving the partition.
#[derive(Clone, Debug)]
pub struct ExecutorMeta {
    pub host: String,
    pub port: u16,
}

/// The identity of one materialized shuffle partition: the job it belongs to,
/// the stage that produced it, and its index within that stage's output.
#[derive(Clone, Debug)]
pub struct PartitionId {
    pub job_uuid: String,
    pub stage_id: usize,
    pub partition_id: usize,
}

/// One entry of the operator's catalogue: which worker holds which partition.
#[derive(Clone, Debug)]
pub struct PartitionLocation {
    pub executor_meta: ExecutorMeta,
    pub partition_id: PartitionId,
}

} // verus!
