use shuffle_reader::errors::ExecutionError;
use shuffle_reader::location::{ExecutorMeta, PartitionId, PartitionLocation};
use shuffle_reader::plan::{Partitioning, PlanNode};
use shuffle_reader::reader::{DiagnosticSink, FetchOutcome, ShuffleReaderExec};
use shuffle_reader::schema::{DataType, Field, Schema};
use shuffle_reader::stream::RecordBatch;

fn location(host: &str, port: u16, job: &str, stage: usize, partition: usize) -> PartitionLocation {
    PartitionLocation {
        executor_meta: ExecutorMeta {
            host: String::from(host),
            port,
        },
        partition_id: PartitionId {
            job_uuid: String::from(job),
            stage_id: stage,
            partition_id: partition,
        },
    }
}

fn int32_schema(name: &str) -> Schema {
    Schema::new(vec![Field {
        name: String::from(name),
        data_type: DataType::Int32,
    }])
}

fn two_worker_node() -> ShuffleReaderExec {
    let locations = vec![
        location("w1", 7001, "J1", 2, 0),
        location("w2", 7002, "J1", 2, 1),
    ];
    ShuffleReaderExec::try_new(locations, int32_schema("a")).unwrap()
}

#[test]
fn construction_succeeds_without_io() {
    let node = two_worker_node();
    assert_eq!(node.partition_location.len(), 2);
    assert_eq!(node.schema.fields.len(), 1);
}

#[test]
fn construction_with_empty_locations_yields_zero_partitions() {
    let node = ShuffleReaderExec::try_new(vec![], int32_schema("a")).unwrap();
    let partitioning = node.output_partitioning();
    assert_eq!(partitioning.partition_count(), 0);
    assert_eq!(partitioning, Partitioning::UnknownPartitioning(0));
}

#[test]
fn partitioning_reports_one_part_per_location() {
    let node = two_worker_node();
    assert_eq!(node.output_partitioning(), Partitioning::UnknownPartitioning(2));
    assert_eq!(node.output_partitioning().partition_count(), 2);
}

#[test]
fn schema_is_identical_across_calls_and_partitions() {
    let node = two_worker_node();
    let s1 = node.schema();
    let s2 = node.schema();
    assert_eq!(s1.fields.len(), s2.fields.len());
    assert_eq!(s1.fields[0].name, s2.fields[0].name);
    assert_eq!(s1.fields[0].data_type, s2.fields[0].data_type);

    // The sequences produced for distinct partitions carry that same schema.
    let mut sink = DiagnosticSink::new();
    for partition in 0..2 {
        node.fetch_request(partition, &mut sink).unwrap();
        let seq = node
            .finish_execute(FetchOutcome::Fetched { batches: vec![] })
            .unwrap();
        assert_eq!(seq.schema.fields.len(), 1);
        assert_eq!(seq.schema.fields[0].name, "a");
        assert_eq!(seq.schema.fields[0].data_type, DataType::Int32);
    }
}

#[test]
fn children_is_always_empty() {
    let node = two_worker_node();
    assert!(node.children().is_empty());
}

#[test]
fn with_new_children_fails_identically_for_empty_and_nonempty() {
    let node = two_worker_node();
    let e1 = node.with_new_children(vec![]).unwrap_err();
    let child = PlanNode::ShuffleReader(two_worker_node());
    let e2 = node.with_new_children(vec![child]).unwrap_err();
    assert!(matches!(e1, ExecutionError::UnsupportedOperation { .. }));
    assert!(matches!(e2, ExecutionError::UnsupportedOperation { .. }));
    assert_eq!(e1.describe(), e2.describe());
    assert_eq!(
        e1.describe(),
        "ShuffleReaderExec does not support with_new_children"
    );
    assert!(!e1.is_remote_execution());
}

#[test]
fn fetch_request_contacts_exactly_the_catalogued_worker() {
    let node = two_worker_node();
    let mut sink = DiagnosticSink::new();

    let req0 = node.fetch_request(0, &mut sink).unwrap();
    assert_eq!(req0.host, "w1");
    assert_eq!(req0.port, 7001);
    assert_eq!(req0.job_uuid, "J1");
    assert_eq!(req0.stage_id, 2);
    assert_eq!(req0.partition, 0);

    let req1 = node.fetch_request(1, &mut sink).unwrap();
    assert_eq!(req1.host, "w2");
    assert_eq!(req1.port, 7002);
    assert_eq!(req1.job_uuid, "J1");
    assert_eq!(req1.stage_id, 2);
    assert_eq!(req1.partition, 1);

    assert_eq!(sink.records, vec![0, 1]);
}

#[test]
fn out_of_range_partition_fails_before_any_request_is_formed() {
    let node = two_worker_node();
    let mut sink = DiagnosticSink::new();
    let err = node.fetch_request(2, &mut sink).unwrap_err();
    match err {
        ExecutionError::IndexOutOfRange {
            requested,
            available,
        } => {
            assert_eq!(requested, 2);
            assert_eq!(available, 2);
        }
        other => panic!("expected IndexOutOfRange, got {:?}", other),
    }
    assert_eq!(err.describe(), "partition index out of range");
    assert!(!err.is_remote_execution());
    // The trace still records the attempted call.
    assert_eq!(sink.records, vec![2]);
}

#[test]
fn connect_failure_maps_to_remote_execution_error() {
    let node = two_worker_node();
    let err = node
        .finish_execute(FetchOutcome::ConnectFailed {
            cause: String::from("connection refused"),
        })
        .unwrap_err();
    assert!(err.is_remote_execution());
    match &err {
        ExecutionError::Connect { message, cause } => {
            assert_eq!(message, "error connecting to shuffle executor");
            assert_eq!(cause.as_deref(), Some("connection refused"));
        }
        other => panic!("expected Connect, got {:?}", other),
    }
    assert_eq!(
        err.describe(),
        "error connecting to shuffle executor: connection refused"
    );
}

#[test]
fn fetch_failure_maps_to_remote_execution_error() {
    let node = two_worker_node();
    let err = node
        .finish_execute(FetchOutcome::FetchFailed {
            cause: String::from("stage not found"),
        })
        .unwrap_err();
    assert!(err.is_remote_execution());
    match &err {
        ExecutionError::Fetch { message, cause } => {
            assert_eq!(message, "error fetching shuffle partition");
            assert_eq!(cause.as_deref(), Some("stage not found"));
        }
        other => panic!("expected Fetch, got {:?}", other),
    }
    assert_eq!(
        err.describe(),
        "error fetching shuffle partition: stage not found"
    );
}

#[test]
fn single_partition_scenario_yields_the_fetched_batch_then_terminates() {
    let locations = vec![location("w1", 7001, "J1", 2, 0)];
    let node = ShuffleReaderExec::try_new(locations, int32_schema("a")).unwrap();
    let mut sink = DiagnosticSink::new();

    let req = node.fetch_request(0, &mut sink).unwrap();
    assert_eq!(req.host, "w1");
    assert_eq!(req.port, 7001);
    assert_eq!(req.job_uuid, "J1");
    assert_eq!(req.stage_id, 2);
    assert_eq!(req.partition, 0);

    let batch = RecordBatch {
        num_rows: 3,
        num_columns: 1,
    };
    let mut seq = node
        .finish_execute(FetchOutcome::Fetched {
            batches: vec![batch],
        })
        .unwrap();
    assert_eq!(seq.row_limit, None);
    assert_eq!(seq.next(), Some(batch));
    assert_eq!(seq.next(), None);
    assert_eq!(seq.next(), None);
    assert_eq!(seq.position(), 1);
}

#[test]
fn distinct_partitions_complete_independently() {
    let node = two_worker_node();
    let mut sink = DiagnosticSink::new();

    // Partition 0 completes first and its result is kept.
    node.fetch_request(0, &mut sink).unwrap();
    let batch = RecordBatch {
        num_rows: 5,
        num_columns: 1,
    };
    let mut seq0 = node
        .finish_execute(FetchOutcome::Fetched {
            batches: vec![batch],
        })
        .unwrap();

    // Partition 1 then fails; the failure does not disturb partition 0's
    // already-returned sequence.
    node.fetch_request(1, &mut sink).unwrap();
    let err = node
        .finish_execute(FetchOutcome::ConnectFailed {
            cause: String::from("worker down"),
        })
        .unwrap_err();
    assert!(err.is_remote_execution());

    assert_eq!(seq0.next(), Some(batch));
    assert_eq!(seq0.next(), None);
    assert_eq!(sink.records, vec![0, 1]);
}

#[test]
fn plan_node_dispatch_matches_the_leaf() {
    let plan = PlanNode::ShuffleReader(two_worker_node());
    assert_eq!(plan.schema().fields[0].name, "a");
    assert_eq!(plan.output_partitioning().partition_count(), 2);
    assert!(plan.children().is_empty());
    let err = plan.with_new_children(vec![]).unwrap_err();
    assert!(matches!(err, ExecutionError::UnsupportedOperation { .. }));

    let mut sink = DiagnosticSink::new();
    let req = plan.fetch_request(1, &mut sink).unwrap();
    assert_eq!(req.host, "w2");
    let reader = plan.as_shuffle_reader();
    assert_eq!(reader.partition_location.len(), 2);
    let seq = plan
        .finish_execute(FetchOutcome::Fetched { batches: vec![] })
        .unwrap();
    assert_eq!(seq.batches.len(), 0);
}
