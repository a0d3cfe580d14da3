//! Trusted bindings to the query engine's plan layer.
//!
//! A scan hands its chunks to the engine's generic in-memory leaf plan node,
//! which applies the caller's projection at read time.  The node, the engine's
//! predicate-expression type and its error type are opaque here; what the node
//! holds is given uninterpreted names, and the one call that builds it stands
//! behind a wrapper whose contract states what the engine's source shows.

use vstd::prelude::*;

use crate::arrow_api::Chunk;
use crate::arrow_api::batch_ids;
use crate::arrow_api::batch_schema_fields;
use crate::arrow_api::batch_texts;
use crate::arrow_api::schema_fields;
use crate::model::ColumnType;

verus! {

#[verifier::external_type_specification]
#[verifier::external_body]
pub struct ExExpr(datafusion_expr::Expr);

#[verifier::external_type_specification]
#[verifier::external_body]
pub struct ExDataFusionError(datafusion_common::DataFusionError);

#[verifier::external_type_specification]
#[verifier::external_body]
pub struct ExDataSourceExec(datafusion_datasource::source::DataSourceExec);

/// The id column of each chunk the plan node holds, in chunk order.
pub uninterp spec fn plan_ids(p: datafusion_datasource::source::DataSourceExec) -> Seq<Seq<u32>>;

/// The text column of each chunk the plan node holds, in chunk order.
pub uninterp spec fn plan_texts(p: datafusion_datasource::source::DataSourceExec) -> Seq<
    Seq<Seq<char>>,
>;

/// The schema fields each chunk of the plan node carries, in chunk order.
pub uninterp spec fn plan_schemas(p: datafusion_datasource::source::DataSourceExec) -> Seq<
    Seq<(Seq<char>, ColumnType, bool)>,
>;

/// The column projection the plan node will apply at read time.
pub uninterp spec fn plan_projection(p: datafusion_datasource::source::DataSourceExec) -> Option<
    Seq<usize>,
>;

/// Relies on `MemorySourceConfig::try_new_exec`: it fails exactly when the
/// projection names a column index out of the schema's range, and on success
/// the returned node holds the given chunks unchanged, in order, with the
/// projection recorded for read time.
#[verifier::external_body]
pub(crate) fn memory_plan_try_new(
    batches: Vec<Chunk>,
    schema: arrow::datatypes::Schema,
    projection: &Option<Vec<usize>>,
) -> (r: Result<
    std::sync::Arc<datafusion_datasource::source::DataSourceExec>,
    datafusion_common::DataFusionError,
>)
    ensures
        r is Ok <==> (projection matches Some(p) ==> forall|i: int|
            0 <= i < p@.len() ==> p@[i] < schema_fields(schema).len()),
        r matches Ok(p) ==> plan_ids(*p) == batches@.map_values(|b: Chunk| batch_ids(b))
            && plan_texts(*p) == batches@.map_values(|b: Chunk| batch_texts(b))
            && plan_schemas(*p) == batches@.map_values(|b: Chunk| batch_schema_fields(b))
            && plan_projection(*p) == projection.deep_view(),
{
    datafusion_datasource::memory::MemorySourceConfig::try_new_exec(
        &[batches.into_iter().map(|c| c.inner).collect()],
        std::sync::Arc::new(schema),
        projection.clone(),
    )
}

} // verus!
