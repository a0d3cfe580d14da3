//! End-to-end scans through the real engine: the plan node is executed and
//! every materialized row is checked.

use std::sync::Arc;

use arrow::array::Array;
use arrow::array::StringArray;
use arrow::array::UInt32Array;
use arrow::record_batch::RecordBatch;
use datafusion_execution::TaskContext;
use datafusion_physical_plan::ExecutionPlan;
use testing_dataset::InfoSchemaTestingDatasetProvider;

fn run_scan(projection: Option<Vec<usize>>) -> Vec<RecordBatch> {
    let provider = InfoSchemaTestingDatasetProvider::new();
    let plan = match provider.scan(&projection, &[], None) {
        Ok(p) => p,
        Err(e) => panic!("scan failed: {:?}", e),
    };
    let plan: Arc<dyn ExecutionPlan> = plan;
    let ctx = Arc::new(TaskContext::default());
    futures::executor::block_on(datafusion_physical_plan::collect(plan, ctx)).unwrap()
}

fn id_column(batch: &RecordBatch, index: usize) -> &UInt32Array {
    batch
        .column(index)
        .as_any()
        .downcast_ref::<UInt32Array>()
        .unwrap()
}

fn text_column(batch: &RecordBatch, index: usize) -> &StringArray {
    batch
        .column(index)
        .as_any()
        .downcast_ref::<StringArray>()
        .unwrap()
}

#[test]
fn full_scan_yields_3000_rows() {
    let batches = run_scan(None);
    let total: usize = batches.iter().map(|b| b.num_rows()).sum();
    assert_eq!(total, 3000);
}

#[test]
fn ids_are_contiguous_across_chunks() {
    let batches = run_scan(None);
    let mut expected: u32 = 0;
    for batch in &batches {
        let ids = id_column(batch, 0);
        for i in 0..ids.len() {
            assert_eq!(ids.value(i), expected);
            expected += 1;
        }
    }
    assert_eq!(expected, 3000);
}

#[test]
fn every_text_value_is_test() {
    let batches = run_scan(None);
    let mut seen: usize = 0;
    for batch in &batches {
        let texts = text_column(batch, 1);
        for i in 0..texts.len() {
            assert_eq!(texts.value(i), "test");
            seen += 1;
        }
    }
    assert_eq!(seen, 3000);
}

#[test]
fn chunks_have_fixed_boundaries() {
    let batches = run_scan(None);
    assert_eq!(batches.len(), 3);
    for (c, batch) in batches.iter().enumerate() {
        assert_eq!(batch.num_rows(), 1000);
        let ids = id_column(batch, 0);
        assert_eq!(ids.value(0), (c as u32) * 1000);
        assert_eq!(ids.value(999), (c as u32) * 1000 + 999);
    }
}

#[test]
fn chunks_carry_full_schema() {
    let provider = InfoSchemaTestingDatasetProvider::new();
    let expected = provider.schema();
    let batches = run_scan(None);
    assert_eq!(batches.len(), 3);
    for batch in &batches {
        assert_eq!(batch.schema().as_ref(), &expected);
    }
}

#[test]
fn projection_on_text_column_only() {
    let batches = run_scan(Some(vec![1]));
    let total: usize = batches.iter().map(|b| b.num_rows()).sum();
    assert_eq!(total, 3000);
    for batch in &batches {
        assert_eq!(batch.num_columns(), 1);
        let texts = text_column(batch, 0);
        for i in 0..texts.len() {
            assert_eq!(texts.value(i), "test");
        }
    }
}

#[test]
fn projection_can_reorder_columns() {
    let batches = run_scan(Some(vec![1, 0]));
    assert_eq!(batches.len(), 3);
    for batch in &batches {
        assert_eq!(batch.num_columns(), 2);
        let texts = text_column(batch, 0);
        let ids = id_column(batch, 1);
        assert_eq!(texts.value(0), "test");
        assert_eq!(ids.len(), 1000);
    }
}

#[test]
fn two_scans_give_identical_rows() {
    let first = run_scan(None);
    let second = run_scan(None);
    assert_eq!(first.len(), second.len());
    for (a, b) in first.iter().zip(second.iter()) {
        assert_eq!(a.num_rows(), b.num_rows());
        let ids_a = id_column(a, 0);
        let ids_b = id_column(b, 0);
        let texts_a = text_column(a, 1);
        let texts_b = text_column(b, 1);
        for i in 0..a.num_rows() {
            assert_eq!(ids_a.value(i), ids_b.value(i));
            assert_eq!(texts_a.value(i), texts_b.value(i));
        }
    }
}

#[test]
fn filters_and_limit_are_ignored() {
    let provider = InfoSchemaTestingDatasetProvider::new();
    let filters = vec![datafusion_expr::lit(true)];
    let plan = provider.scan(&None, &filters, Some(7)).unwrap();
    let plan: Arc<dyn ExecutionPlan> = plan;
    let ctx = Arc::new(TaskContext::default());
    let batches = futures::executor::block_on(datafusion_physical_plan::collect(plan, ctx)).unwrap();
    let total: usize = batches.iter().map(|b| b.num_rows()).sum();
    assert_eq!(total, 3000);
}
