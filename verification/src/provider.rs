//! The dataset provider: the table-provider contract the engine consumes.

use vstd::prelude::*;

use crate::arrow_api::Chunk;
use crate::arrow_api::batch_ids;
use crate::arrow_api::batch_schema_fields;
use crate::arrow_api::batch_texts;
use crate::arrow_api::batch_try_new;
use crate::arrow_api::new_field;
use crate::arrow_api::new_schema;
use crate::arrow_api::schema_fields;
use crate::builder::InfoSchemaTestingDatasetProviderBuilder;
use crate::model::CHUNK_ROWS;
use crate::model::ColumnType;
use crate::model::FieldDef;
use crate::model::TableSchema;
use crate::model::dataset_ids;
use crate::model::dataset_schemas;
use crate::model::dataset_texts;
use crate::model::spec_schema_fields;
use crate::plan_api::memory_plan_try_new;
use crate::plan_api::plan_ids;
use crate::plan_api::plan_projection;
use crate::plan_api::plan_schemas;
use crate::plan_api::plan_texts;

verus! {

/// How a relation is exposed to the engine's catalog.
#[derive(Clone, Copy, PartialEq, Eq, Structural, Debug)]
pub enum TableKind {
    Base,
    View,
    Temporary,
}

/// Whether a data source can itself apply a filter predicate, sparing the
/// caller the work.
#[derive(Clone, Copy, PartialEq, Eq, Structural, Debug)]
pub enum FilterPushdown {
    Unsupported,
    Inexact,
    Exact,
}

/// Why a scan failed.
#[derive(Debug)]
pub enum EngineError {
    /// The columnar library refused to assemble a chunk from the column
    /// sequences: a builder invariant was violated.
    BatchAssembly(arrow::error::ArrowError),
    /// The engine refused to assemble the plan node: the caller's projection
    /// named a column index out of the schema's range.
    PlanAssembly(datafusion_common::DataFusionError),
}

/// A projection is in range when every index it names falls within the
/// schema's fields.
pub open spec fn spec_projection_ok(p: Option<Vec<usize>>) -> bool {
    p matches Some(s) ==> forall|i: int|
        0 <= i < s@.len() ==> s@[i] < spec_schema_fields().len()
}

/// The provider of the synthetic dataset.  Stateless: every scan constructs
/// fresh builders and chunks, so scans never interfere.
#[derive(Debug)]
pub struct InfoSchemaTestingDatasetProvider {}

impl InfoSchemaTestingDatasetProvider {
    pub fn new() -> (p: Self)
        ensures
            p == (InfoSchemaTestingDatasetProvider {  }),
    {
        Self {  }
    }

    /// The fixed two-field schema, as the engine's schema type: `id`
    /// (unsigned 32-bit, non-nullable) then `random_str` (text,
    /// non-nullable), identically on every call.
    pub fn schema(&self) -> (s: arrow::datatypes::Schema)
        ensures
            schema_fields(s) == spec_schema_fields(),
    {
        let f0 = new_field("id", ColumnType::UInt32, false);
        let f1 = new_field("random_str", ColumnType::Utf8, false);
        let mut fields: Vec<arrow::datatypes::Field> = Vec::new();
        fields.push(f0);
        fields.push(f1);
        let s = new_schema(fields);
        proof {
            assert(schema_fields(s) =~= spec_schema_fields());
        }
        s
    }

    /// The same fixed schema, as plain library values.
    pub fn table_schema(&self) -> (s: TableSchema)
        ensures
            s@ == spec_schema_fields(),
    {
        let mut fields: Vec<FieldDef> = Vec::new();
        fields.push(
            FieldDef { name: String::from_str("id"), data_type: ColumnType::UInt32, nullable: false },
        );
        fields.push(
            FieldDef {
                name: String::from_str("random_str"),
                data_type: ColumnType::Utf8,
                nullable: false,
            },
        );
        let s = TableSchema { fields };
        proof {
            assert(s@ =~= spec_schema_fields());
        }
        s
    }

    /// The dataset is an ordinary materialized relation, never a view.
    pub fn table_type(&self) -> (t: TableKind)
        ensures
            t == TableKind::Base,
    {
        TableKind::Base
    }

    /// Materializes the three chunks and packages them, the full schema and
    /// the caller's projection into the engine's in-memory leaf plan node.
    ///
    /// `filters` and `limit` are accepted but never applied: the dataset is
    /// always fully materialized, and the caller must re-apply both.  Every
    /// chunk carries the full, unprojected schema; the caller's projection is
    /// only recorded, for the node to apply at read time.  The one failure is
    /// a projection index out of the schema's range.
    pub fn scan(
        &self,
        projection: &Option<Vec<usize>>,
        _filters: &[datafusion_expr::Expr],
        _limit: Option<usize>,
    ) -> (r: Result<
        std::sync::Arc<datafusion_datasource::source::DataSourceExec>,
        EngineError,
    >)
        ensures
            r is Ok <==> spec_projection_ok(*projection),
            r matches Ok(plan) ==> plan_ids(*plan) == dataset_ids() && plan_texts(*plan)
                == dataset_texts() && plan_schemas(*plan) == dataset_schemas()
                && plan_projection(*plan) == projection.deep_view(),
            r matches Err(e) ==> e matches EngineError::PlanAssembly(_),
    {
        let p1 = InfoSchemaTestingDatasetProviderBuilder::new(0, CHUNK_ROWS);
        let p2 = InfoSchemaTestingDatasetProviderBuilder::new(CHUNK_ROWS, CHUNK_ROWS);
        let p3 = InfoSchemaTestingDatasetProviderBuilder::new(2 * CHUNK_ROWS, CHUNK_ROWS);
        let (ids1, texts1) = p1.finish();
        let batch1 = match batch_try_new(self.schema(), ids1, texts1) {
            Ok(b) => b,
            Err(e) => {
                return Err(EngineError::BatchAssembly(e));
            },
        };
        let (ids2, texts2) = p2.finish();
        let batch2 = match batch_try_new(self.schema(), ids2, texts2) {
            Ok(b) => b,
            Err(e) => {
                return Err(EngineError::BatchAssembly(e));
            },
        };
        let (ids3, texts3) = p3.finish();
        let batch3 = match batch_try_new(self.schema(), ids3, texts3) {
            Ok(b) => b,
            Err(e) => {
                return Err(EngineError::BatchAssembly(e));
            },
        };
        let ghost gb1 = batch1;
        let ghost gb2 = batch2;
        let ghost gb3 = batch3;
        let mut batches: Vec<Chunk> = Vec::new();
        batches.push(batch1);
        batches.push(batch2);
        batches.push(batch3);
        let ghost gbatches = batches@;
        let schema = self.schema();
        match memory_plan_try_new(batches, schema, projection) {
            Ok(plan) => {
                proof {
                    assert(gbatches =~= seq![gb1, gb2, gb3]);
                    assert(gbatches.map_values(|b: Chunk| batch_ids(b)) =~= dataset_ids());
                    assert(gbatches.map_values(|b: Chunk| batch_texts(b)) =~= dataset_texts());
                    assert(gbatches.map_values(|b: Chunk| batch_schema_fields(b))
                        =~= dataset_schemas());
                }
                Ok(plan)
            },
            Err(e) => Err(EngineError::PlanAssembly(e)),
        }
    }

    /// Declines pushdown of every filter: no predicate is ever applied here,
    /// so the caller must re-evaluate each one downstream.
    pub fn supports_filter_pushdown(&self, _filter: &datafusion_expr::Expr) -> (r: FilterPushdown)
        ensures
            r == FilterPushdown::Unsupported,
    {
        FilterPushdown::Unsupported
    }
}

} // verus!
