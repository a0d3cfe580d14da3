//! The provider's declared contract: schema, table kind, pushdown
//! declarations and the scan error case.

use testing_dataset::ColumnType;
use testing_dataset::EngineError;
use testing_dataset::FilterPushdown;
use testing_dataset::InfoSchemaTestingDatasetProvider;
use testing_dataset::TableKind;

#[test]
fn schema_has_two_fixed_fields() {
    let provider = InfoSchemaTestingDatasetProvider::new();
    let schema = provider.schema();
    assert_eq!(schema.fields().len(), 2);
    assert_eq!(schema.field(0).name(), "id");
    assert_eq!(schema.field(0).data_type(), &arrow::datatypes::DataType::UInt32);
    assert!(!schema.field(0).is_nullable());
    assert_eq!(schema.field(1).name(), "random_str");
    assert_eq!(schema.field(1).data_type(), &arrow::datatypes::DataType::Utf8);
    assert!(!schema.field(1).is_nullable());
}

#[test]
fn schema_is_stable_across_calls() {
    let provider = InfoSchemaTestingDatasetProvider::new();
    let first = provider.schema();
    let second = provider.schema();
    assert_eq!(first, second);
}

#[test]
fn table_schema_matches_engine_schema() {
    let provider = InfoSchemaTestingDatasetProvider::new();
    let model = provider.table_schema();
    assert_eq!(model.fields.len(), 2);
    assert_eq!(model.fields[0].name, "id");
    assert_eq!(model.fields[0].data_type, ColumnType::UInt32);
    assert!(!model.fields[0].nullable);
    assert_eq!(model.fields[1].name, "random_str");
    assert_eq!(model.fields[1].data_type, ColumnType::Utf8);
    assert!(!model.fields[1].nullable);
}

#[test]
fn table_kind_is_base() {
    let provider = InfoSchemaTestingDatasetProvider::new();
    assert_eq!(provider.table_type(), TableKind::Base);
}

#[test]
fn pushdown_is_declined_for_any_predicate() {
    let provider = InfoSchemaTestingDatasetProvider::new();
    let literal = datafusion_expr::lit(42i64);
    assert_eq!(provider.supports_filter_pushdown(&literal), FilterPushdown::Unsupported);
    let column = datafusion_expr::col("id");
    assert_eq!(provider.supports_filter_pushdown(&column), FilterPushdown::Unsupported);
    let comparison = datafusion_expr::col("id").eq(datafusion_expr::lit(5i64));
    assert_eq!(provider.supports_filter_pushdown(&comparison), FilterPushdown::Unsupported);
}

#[test]
fn out_of_range_projection_fails_plan_assembly() {
    let provider = InfoSchemaTestingDatasetProvider::new();
    match provider.scan(&Some(vec![0, 7]), &[], None) {
        Err(EngineError::PlanAssembly(_)) => {}
        Err(EngineError::BatchAssembly(_)) => panic!("wrong error variant"),
        Ok(_) => panic!("scan accepted an out-of-range projection"),
    }
}

#[test]
fn in_range_projection_is_accepted() {
    let provider = InfoSchemaTestingDatasetProvider::new();
    assert!(provider.scan(&Some(vec![0]), &[], None).is_ok());
    assert!(provider.scan(&Some(vec![1]), &[], None).is_ok());
    assert!(provider.scan(&Some(vec![]), &[], None).is_ok());
}
