//! The plan-node boundary: the partitioning report and the closed set of
//! node variants the enclosing engine composes. Every variant answers the
//! same five questions — schema, partitioning, children, child replacement,
//! execution — so a parent operator needs no special case for this leaf.

use crate::errors::ExecutionError;
use crate::reader::{
    with_new_children_rejected, DiagnosticSink, FetchOutcome, FetchRequest, ShuffleReaderExec,
};
use crate::schema::{Field, Schema};
use crate::stream::BatchSequence;
use vstd::prelude::*;

verus! {

/// How an operator's output is partitioned. The shuffle reader reports an
/// opaque scheme: a part count and nothing more — callers must not assume
/// hash or range semantics.
#[derive(Clone, Copy, Debug, PartialEq, Eq, Structural)]
pub enum Partitioning {
    UnknownPartitioning(usize),
}

impl Partitioning {
    /// The number of output partitions this scheme declares.
    pub open spec fn spec_partition_count(self) -> usize {
        match self {
            Partitioning::UnknownPartitioning(n) => n,
        }
    }

    /// The number of output partitions this scheme declares.
    pub fn partition_count(&self) -> (r: usize)
        ensures
            r == self.spec_partition_count(),
    {
        match self {
            Partitioning::UnknownPartitioning(n) => *n,
        }
    }
}

/// The closed set of execution-plan nodes this crate builds. Dispatch over
/// node variants is a match on this enum; the shuffle reader is its leaf
/// variant, and each operation below forwards to the variant's own
/// implementation under the variant's contract.
#[derive(Clone, Debug)]
pub enum PlanNode {
    ShuffleReader(ShuffleReaderExec),
}

impl PlanNode {
    /// The columns of the node's output.
    pub open spec fn spec_schema(self) -> Seq<Field> {
        match self {
            PlanNode::ShuffleReader(node) => node.schema.fields@,
        }
    }

    /// How many output partitions the node declares.
    pub open spec fn spec_partition_count(self) -> nat {
        match self {
            PlanNode::ShuffleReader(node) => node.partition_location@.len(),
        }
    }

    /// The concrete operator behind this node.
    pub fn as_shuffle_reader(&self) -> (r: &ShuffleReaderExec)
        ensures
            *self matches PlanNode::ShuffleReader(node) && *r == node,
    {
        match self {
            PlanNode::ShuffleReader(node) => node,
        }
    }

    /// The node's output schema.
    pub fn schema(&self) -> (r: Schema)
        ensures
            r.fields@ == self.spec_schema(),
    {
        match self {
            PlanNode::ShuffleReader(node) => node.schema(),
        }
    }

    /// The node's partitioning report.
    pub fn output_partitioning(&self) -> (r: Partitioning)
        ensures
            r.spec_partition_count() == self.spec_partition_count(),
    {
        match self {
            PlanNode::ShuffleReader(node) => node.output_partitioning(),
        }
    }

    /// The node's children — none: the only variant is a leaf.
    pub fn children(&self) -> (r: Vec<PlanNode>)
        ensures
            r@ == Seq::<PlanNode>::empty(),
    {
        match self {
            PlanNode::ShuffleReader(node) => node.children(),
        }
    }

    /// Replaces the node's children. The shuffle reader refuses this for
    /// every children list.
    pub fn with_new_children(&self, children: Vec<PlanNode>) -> (r: Result<
        PlanNode,
        ExecutionError,
    >)
        ensures
            with_new_children_rejected(r),
    {
        match self {
            PlanNode::ShuffleReader(node) => node.with_new_children(children),
        }
    }

    /// The pre-network half of `execute`: see the leaf's `fetch_request`.
    pub fn fetch_request(&self, partition: usize, sink: &mut DiagnosticSink) -> (r: Result<
        FetchRequest,
        ExecutionError,
    >)
        ensures
            final(sink).records@ == old(sink).records@.push(partition),
            r is Ok <==> partition < self.spec_partition_count(),
            self matches PlanNode::ShuffleReader(node) ==> (r matches Ok(req) ==> req.resolves(
                node.partition_location@[partition as int],
                partition,
            )),
            r matches Err(e) ==> e == (ExecutionError::IndexOutOfRange {
                requested: partition,
                available: self.spec_partition_count() as usize,
            }),
    {
        match self {
            PlanNode::ShuffleReader(node) => node.fetch_request(partition, sink),
        }
    }

    /// The post-network half of `execute`: see the leaf's `finish_execute`.
    pub fn finish_execute(&self, outcome: FetchOutcome) -> (r: Result<
        BatchSequence,
        ExecutionError,
    >)
        ensures
            r is Ok <==> outcome is Fetched,
            r matches Err(e) ==> e.spec_is_remote(),
            outcome matches FetchOutcome::Fetched { batches } ==> ({
                &&& r matches Ok(s)
                &&& s.batches@ == batches@
                &&& s.schema.fields@ == self.spec_schema()
                &&& s.row_limit is None
                &&& s.cursor == 0
                &&& s.rows_yielded == 0
            }),
    {
        match self {
            PlanNode::ShuffleReader(node) => node.finish_execute(outcome),
        }
    }
}

} // verus!
