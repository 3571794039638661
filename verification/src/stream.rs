//! Batches that lie in memory, as a stream.

use datafusion::arrow::record_batch::RecordBatch;
use datafusion::physical_plan::common::SizedRecordBatchStream;
use datafusion::physical_plan::metrics::{ExecutionPlanMetricsSet, MemTrackingMetrics};
use std::sync::Arc;
use vstd::prelude::*;

verus! {

/// arrow's batch of rows, held column by column.
#[verifier::external_type_specification]
#[verifier::external_body]
pub struct ExRecordBatch(RecordBatch);

/// datafusion's stream over a list of batches.
#[verifier::external_type_specification]
#[verifier::external_body]
pub struct ExSizedRecordBatchStream(SizedRecordBatchStream);

/// The batches that a stream has yet to yield, in their order.
pub uninterp spec fn stream_batches(stream: SizedRecordBatchStream) -> Seq<Arc<RecordBatch>>;

/// Calls `SizedRecordBatchStream::new` of datafusion with the schema of
/// the first batch, the batches, and memory metrics that belong to no
/// plan. The stream yields the batches in their order and then ends.
/// There has to be a first batch.
#[verifier::external_body]
pub fn stream_from_batches(batches: Vec<Arc<RecordBatch>>) -> (stream: SizedRecordBatchStream)
    requires
        batches@.len() > 0,
    ensures
        stream_batches(stream) == batches@,
{
    let dummy_metrics = ExecutionPlanMetricsSet::new();
    let mem_metrics = MemTrackingMetrics::new(&dummy_metrics, 0);
    SizedRecordBatchStream::new(batches[0].schema(), batches, mem_metrics)
}

} // verus!
