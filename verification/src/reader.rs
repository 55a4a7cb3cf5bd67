//! The shuffle-read leaf operator itself.
//!
//! `ShuffleReaderExec` owns the catalogue of partition locations and the
//! schema, and exposes the uniform plan-node contract. Producing a partition
//! is split around the process boundary: `fetch_request` performs every
//! decision made before the network is touched — the diagnostic trace, the
//! index check, resolving the location into a connection target and a fetch
//! identity — and `finish_execute` performs every decision made after it —
//! mapping a connection or fetch failure into the plan's error channel, or
//! wrapping the fetched batches into a `BatchSequence`. The enclosing engine
//! carries out the round trip the request describes and hands the outcome
//! back; no retry happens here, and a failed fetch fails the partition.

use crate::errors::ExecutionError;
use crate::location::PartitionLocation;
use crate::plan::{Partitioning, PlanNode};
use crate::schema::Schema;
use crate::stream::{BatchSequence, RecordBatch};
use vstd::prelude::*;
use vstd::string::*;

verus! {

/// The diagnostic sink the operator traces into: a capturing sink recording
/// the partition index of every `fetch_request` call, injected by the caller
/// so that tests can observe the trace. Recording never fails.
#[derive(Clone, Debug)]
pub struct DiagnosticSink {
    pub records: Vec<usize>,
}

impl DiagnosticSink {
    /// A sink with nothing recorded yet.
    pub fn new() -> (r: DiagnosticSink)
        ensures
            r.records@ == Seq::<usize>::empty(),
    {
        DiagnosticSink { records: Vec::new() }
    }

    /// Appends one trace record naming the partition being executed.
    pub fn record(&mut self, partition: usize)
        ensures
            final(self).records@ == old(self).records@.push(partition),
    {
        self.records.push(partition);
    }
}

/// The one network round trip `execute(i)` asks the engine to perform: a
/// connection to the named worker, then a fetch of the partition identified
/// by job, stage, and the executed partition index.
#[derive(Clone, Debug)]
pub struct FetchRequest {
    pub host: String,
    pub port: u16,
    pub job_uuid: String,
    pub stage_id: usize,
    pub partition: usize,
}

impl FetchRequest {
    /// The request contacts exactly the worker named by `loc` and asks for
    /// exactly the identity `(job, stage, partition)` — never any other.
    pub open spec fn resolves(self, loc: PartitionLocation, partition: usize) -> bool {
        &&& self.host@ == loc.executor_meta.host@
        &&& self.port == loc.executor_meta.port
        &&& self.job_uuid@ == loc.partition_id.job_uuid@
        &&& self.stage_id == loc.partition_id.stage_id
        &&& self.partition == partition
    }
}

/// What came back from the round trip a `FetchRequest` described: the worker
/// could not be reached, the fetch itself failed, or the partition's full
/// batch collection arrived.
#[derive(Clone, Debug)]
pub enum FetchOutcome {
    ConnectFailed { cause: String },
    FetchFailed { cause: String },
    Fetched { batches: Vec<RecordBatch> },
}

/// The result `with_new_children` always returns: an unsupported-operation
/// error with one fixed message and no wrapped cause, for every children
/// list. Grafting children onto this leaf is a planner bug.
pub open spec fn with_new_children_rejected(r: Result<PlanNode, ExecutionError>) -> bool {
    &&& r matches Err(e)
    &&& e matches ExecutionError::UnsupportedOperation { message, cause }
    &&& message@ == "ShuffleReaderExec does not support with_new_children"@
    &&& cause is None
}

/// Reads partitions that an upstream stage has already materialized on
/// remote workers: a leaf of the execution plan, immutable once built, whose
/// partition `i` is served by the worker named in `partition_location[i]`.
#[derive(Clone, Debug)]
pub struct ShuffleReaderExec {
    pub partition_location: Vec<PartitionLocation>,
    pub schema: Schema,
}

impl ShuffleReaderExec {
    /// The node's invariant: its schema declares at least one column. The
    /// location catalogue may be empty — the node then has no partition.
    pub open spec fn well_formed(self) -> bool {
        self.schema.well_formed()
    }

    /// Builds the operator. Construction performs no I/O and always
    /// succeeds; well-formed arguments — a non-empty schema — yield a
    /// well-formed node. The catalogue may be empty: the node then declares
    /// zero output partitions.
    pub fn try_new(partition_meta: Vec<PartitionLocation>, schema: Schema) -> (r: Result<
        ShuffleReaderExec,
        ExecutionError,
    >)
        ensures
            r matches Ok(node) && node == (ShuffleReaderExec {
                partition_location: partition_meta,
                schema,
            }),
            schema.well_formed() ==> (r matches Ok(node) && node.well_formed()),
    {
        Ok(ShuffleReaderExec { partition_location: partition_meta, schema })
    }

    /// The schema of every partition this operator yields: one fixed value,
    /// whatever the partition index and however often it is asked.
    pub fn schema(&self) -> (r: Schema)
        ensures
            r.fields@ == self.schema.fields@,
    {
        self.schema.duplicate()
    }

    /// The operator's partitioning: opaque, with exactly one part per
    /// catalogued location — callers may not assume hash or range semantics.
    pub fn output_partitioning(&self) -> (r: Partitioning)
        ensures
            r == Partitioning::UnknownPartitioning(self.partition_location@.len() as usize),
            r.spec_partition_count() == self.partition_location@.len(),
    {
        Partitioning::UnknownPartitioning(self.partition_location.len())
    }

    /// This operator is a leaf: it never has children.
    pub fn children(&self) -> (r: Vec<PlanNode>)
        ensures
            r@ == Seq::<PlanNode>::empty(),
    {
        Vec::new()
    }

    /// Refuses to graft children onto the leaf, identically for every
    /// children list.
    pub fn with_new_children(&self, _children: Vec<PlanNode>) -> (r: Result<
        PlanNode,
        ExecutionError,
    >)
        ensures
            with_new_children_rejected(r),
    {
        Err(
            ExecutionError::UnsupportedOperation {
                message: String::from_str("ShuffleReaderExec does not support with_new_children"),
                cause: None,
            },
        )
    }

    /// Everything `execute(partition)` decides before the network is
    /// touched. One trace record is emitted for every call. A partition
    /// index outside the catalogue fails with `IndexOutOfRange` — and, as no
    /// request is produced, no network call is ever made for it. A valid
    /// index resolves to the round trip against exactly the catalogued
    /// worker and exactly the identity `(job, stage, partition)`.
    pub fn fetch_request(&self, partition: usize, sink: &mut DiagnosticSink) -> (r: Result<
        FetchRequest,
        ExecutionError,
    >)
        ensures
            final(sink).records@ == old(sink).records@.push(partition),
            r is Ok <==> partition < self.partition_location@.len(),
            r matches Ok(req) ==> req.resolves(
                self.partition_location@[partition as int],
                partition,
            ),
            r matches Err(e) ==> e == (ExecutionError::IndexOutOfRange {
                requested: partition,
                available: self.partition_location@.len() as usize,
            }),
    {
        sink.record(partition);
        if partition < self.partition_location.len() {
            let loc = &self.partition_location[partition];
            Ok(
                FetchRequest {
                    host: loc.executor_meta.host.clone(),
                    port: loc.executor_meta.port,
                    job_uuid: loc.partition_id.job_uuid.clone(),
                    stage_id: loc.partition_id.stage_id,
                    partition,
                },
            )
        } else {
            Err(
                ExecutionError::IndexOutOfRange {
                    requested: partition,
                    available: self.partition_location.len(),
                },
            )
        }
    }

    /// Everything `execute` decides once the round trip has come back,
    /// whatever came back. A connection failure becomes a `Connect` error
    /// and a fetch failure a `Fetch` error — both remote-execution failures
    /// wrapping the underlying cause, with no retry and no sequence
    /// returned. Fetched batches are wrapped, together with `schema()` and
    /// no row cap, into a fresh unconsumed `BatchSequence`.
    pub fn finish_execute(&self, outcome: FetchOutcome) -> (r: Result<
        BatchSequence,
        ExecutionError,
    >)
        ensures
            r is Ok <==> outcome is Fetched,
            outcome matches FetchOutcome::ConnectFailed { cause } ==> ({
                &&& r matches Err(e)
                &&& e matches ExecutionError::Connect { message, cause: c }
                &&& message@ == "error connecting to shuffle executor"@
                &&& c == Some(cause)
                &&& e.spec_is_remote()
            }),
            outcome matches FetchOutcome::FetchFailed { cause } ==> ({
                &&& r matches Err(e)
                &&& e matches ExecutionError::Fetch { message, cause: c }
                &&& message@ == "error fetching shuffle partition"@
                &&& c == Some(cause)
                &&& e.spec_is_remote()
            }),
            outcome matches FetchOutcome::Fetched { batches } ==> ({
                &&& r matches Ok(s)
                &&& s.batches@ == batches@
                &&& s.schema.fields@ == self.schema.fields@
                &&& s.row_limit is None
                &&& s.cursor == 0
                &&& s.rows_yielded == 0
            }),
    {
        match outcome {
            FetchOutcome::ConnectFailed { cause } => Err(
                ExecutionError::Connect {
                    message: String::from_str("error connecting to shuffle executor"),
                    cause: Some(cause),
                },
            ),
            FetchOutcome::FetchFailed { cause } => Err(
                ExecutionError::Fetch {
                    message: String::from_str("error fetching shuffle partition"),
                    cause: Some(cause),
                },
            ),
            FetchOutcome::Fetched { batches } => Ok(
                BatchSequence::make_sequence(batches, self.schema.duplicate(), None),
            ),
        }
    }
}

/// For one location and one executed partition index there is exactly one
/// round trip: any two requests that resolve them name the same worker and
/// the same `(job, stage, partition)` identity — never any other.
pub proof fn lemma_fetch_request_determined(
    loc: PartitionLocation,
    partition: usize,
    q1: FetchRequest,
    q2: FetchRequest,
)
    requires
        q1.resolves(loc, partition),
        q2.resolves(loc, partition),
    ensures
        q1.host@ == q2.host@,
        q1.port == q2.port,
        q1.job_uuid@ == q2.job_uuid@,
        q1.stage_id == q2.stage_id,
        q1.partition == partition && q2.partition == partition,
{
}

/// The schema the operator reports is one fixed value: any two schemas that
/// satisfy the contract of `schema`, or that a sequence returned by
/// `finish_execute` carries — whatever the partition index — agree.
pub proof fn lemma_schema_uniform(node: ShuffleReaderExec, s1: Schema, s2: Schema)
    requires
        s1.fields@ == node.schema.fields@,
        s2.fields@ == node.schema.fields@,
    ensures
        s1.fields@ == s2.fields@,
{
}

/// `with_new_children` fails identically however it is called: any two of
/// its results — with no children, with one, with any list — are
/// unsupported-operation errors of the same kind rendering the same text.
pub proof fn lemma_with_new_children_uniform(
    r1: Result<PlanNode, ExecutionError>,
    r2: Result<PlanNode, ExecutionError>,
)
    requires
        with_new_children_rejected(r1),
        with_new_children_rejected(r2),
    ensures
        ({
            &&& r1 matches Err(e1)
            &&& r2 matches Err(e2)
            &&& e1 is UnsupportedOperation
            &&& e2 is UnsupportedOperation
            &&& e1.rendered() == e2.rendered()
        }),
{
}

} // verus!
