//! The library's general guarantees over the dataset model, stated and
//! proved once.  `scan`'s contract ties every plan node it returns to
//! `dataset_ids`, `dataset_texts` and `dataset_schemas`, so each guarantee
//! below holds of every scan's result.

use vstd::prelude::*;

use crate::model::CHUNK_COUNT;
use crate::model::CHUNK_ROWS;
use crate::model::TOTAL_ROWS;
use crate::model::const_texts;
use crate::model::dataset_ids;
use crate::model::dataset_schemas;
use crate::model::dataset_texts;
use crate::model::id_range;
use crate::model::spec_schema_fields;
use crate::arrow_api::schema_fields;
use crate::plan_api::plan_ids;
use crate::plan_api::plan_projection;
use crate::plan_api::plan_schemas;
use crate::plan_api::plan_texts;

verus! {

/// A full scan yields exactly 3000 rows over all chunks combined, in either
/// column.
pub proof fn lemma_row_count()
    ensures
        dataset_ids().flatten().len() == TOTAL_ROWS,
        dataset_texts().flatten().len() == TOTAL_ROWS,
{
    reveal_with_fuel(Seq::<Seq<u32>>::flatten, 5);
    reveal_with_fuel(Seq::<Seq<Seq<char>>>::flatten, 5);
    assert(dataset_ids().drop_first() =~= seq![
        id_range(CHUNK_ROWS as int, CHUNK_ROWS as int),
        id_range(2 * CHUNK_ROWS as int, CHUNK_ROWS as int),
    ]);
    assert(dataset_ids().drop_first().drop_first() =~= seq![
        id_range(2 * CHUNK_ROWS as int, CHUNK_ROWS as int),
    ]);
    assert(dataset_ids().drop_first().drop_first().drop_first() =~= Seq::<Seq<u32>>::empty());
    assert(dataset_texts().drop_first() =~= seq![
        const_texts(CHUNK_ROWS as int),
        const_texts(CHUNK_ROWS as int),
    ]);
    assert(dataset_texts().drop_first().drop_first() =~= seq![const_texts(CHUNK_ROWS as int)]);
    assert(dataset_texts().drop_first().drop_first().drop_first() =~= Seq::<
        Seq<Seq<char>>,
    >::empty());
}

/// Concatenating the id column across chunks in chunk order yields exactly
/// the sequence 0, 1, ..., 2999: no gaps and no repeats.
pub proof fn lemma_id_contiguity()
    ensures
        dataset_ids().flatten() == Seq::new(TOTAL_ROWS as nat, |i: int| i as u32),
{
    reveal_with_fuel(Seq::<Seq<u32>>::flatten, 5);
    lemma_row_count();
    let flat = dataset_ids().flatten();
    assert forall|i: int| 0 <= i < TOTAL_ROWS implies flat[i] == i as u32 by {
        assert(dataset_ids().drop_first() =~= seq![
            id_range(CHUNK_ROWS as int, CHUNK_ROWS as int),
            id_range(2 * CHUNK_ROWS as int, CHUNK_ROWS as int),
        ]);
        assert(dataset_ids().drop_first().drop_first() =~= seq![
            id_range(2 * CHUNK_ROWS as int, CHUNK_ROWS as int),
        ]);
        assert(dataset_ids().drop_first().drop_first().drop_first() =~= Seq::<Seq<u32>>::empty());
    }
    assert(flat =~= Seq::new(TOTAL_ROWS as nat, |i: int| i as u32));
}

/// Every `random_str` value of the dataset equals `"test"`.
pub proof fn lemma_constant_text()
    ensures
        forall|c: int, i: int|
            0 <= c < dataset_texts().len() && 0 <= i < dataset_texts()[c].len()
                ==> #[trigger] dataset_texts()[c][i] == "test"@,
{
}

/// Every chunk of a scan carries the full, unprojected two-field schema:
/// the same fields, in the same order, that the provider declares.
pub proof fn lemma_chunk_schema_invariant()
    ensures
        dataset_schemas().len() == CHUNK_COUNT,
        forall|c: int| 0 <= c < CHUNK_COUNT ==> #[trigger] dataset_schemas()[c]
            == spec_schema_fields(),
{
}

/// The schema is stable: any two values meeting `schema`'s contract carry
/// the same two fields, in the same order, with the same types.
pub proof fn lemma_schema_stable(s1: arrow::datatypes::Schema, s2: arrow::datatypes::Schema)
    requires
        schema_fields(s1) == spec_schema_fields(),
        schema_fields(s2) == spec_schema_fields(),
    ensures
        schema_fields(s1) == schema_fields(s2),
{
}

/// Scanning is idempotent: any two plan nodes meeting `scan`'s contract for
/// the same projection hold row-for-row identical chunks and the same
/// recorded projection.
pub proof fn lemma_scan_idempotent(
    r1: datafusion_datasource::source::DataSourceExec,
    r2: datafusion_datasource::source::DataSourceExec,
    projection: Option<Seq<usize>>,
)
    requires
        plan_ids(r1) == dataset_ids(),
        plan_texts(r1) == dataset_texts(),
        plan_schemas(r1) == dataset_schemas(),
        plan_projection(r1) == projection,
        plan_ids(r2) == dataset_ids(),
        plan_texts(r2) == dataset_texts(),
        plan_schemas(r2) == dataset_schemas(),
        plan_projection(r2) == projection,
    ensures
        plan_ids(r1) == plan_ids(r2),
        plan_texts(r1) == plan_texts(r2),
        plan_schemas(r1) == plan_schemas(r2),
        plan_projection(r1) == plan_projection(r2),
{
}

/// Chunk boundaries: there are exactly three chunks of exactly 1000 rows,
/// and chunk `c` holds exactly the ids `[c * 1000, (c + 1) * 1000)`.
pub proof fn lemma_chunk_boundaries()
    ensures
        dataset_ids().len() == CHUNK_COUNT,
        forall|c: int| 0 <= c < CHUNK_COUNT ==> #[trigger] dataset_ids()[c].len() == CHUNK_ROWS,
        forall|c: int, i: int|
            0 <= c < CHUNK_COUNT && 0 <= i < CHUNK_ROWS ==> #[trigger] dataset_ids()[c][i] == (c
                * CHUNK_ROWS + i) as u32,
{
    assert forall|c: int, i: int|
        0 <= c < CHUNK_COUNT && 0 <= i < CHUNK_ROWS implies #[trigger] dataset_ids()[c][i] == (c
        * CHUNK_ROWS + i) as u32 by {
        if c == 0 {
            assert(dataset_ids()[0] == id_range(0, CHUNK_ROWS as int));
        } else if c == 1 {
            assert(dataset_ids()[1] == id_range(CHUNK_ROWS as int, CHUNK_ROWS as int));
        } else {
            assert(dataset_ids()[2] == id_range(2 * CHUNK_ROWS as int, CHUNK_ROWS as int));
        }
    }
}

} // verus!
