//! Trusted bindings to the arrow columnar library.
//!
//! The library materializes its chunks through arrow's column builders and
//! assembles them into arrow record batches.  Verus cannot read arrow, so the
//! types are declared opaque, what they hold is given uninterpreted names, and
//! each call the logic makes stands behind a small wrapper whose contract
//! states over those names what arrow's source shows.

use vstd::prelude::*;
use vstd::utf8::encode_utf8;

use crate::model::ColumnType;
use crate::model::spec_schema_fields;

verus! {

#[verifier::external_type_specification]
#[verifier::external_body]
pub struct ExField(arrow::datatypes::Field);

#[verifier::external_type_specification]
#[verifier::external_body]
pub struct ExSchema(arrow::datatypes::Schema);

#[verifier::external_type_specification]
#[verifier::external_body]
pub struct ExArrowError(arrow::error::ArrowError);

/// One materialized chunk: an arrow record batch, held opaquely.
///
/// Verus refuses a declaration of `RecordBatch` itself (its impls reach the
/// undeclared `Array` trait), so the batch lives in a hidden field instead.
#[verifier::external_body]
pub struct Chunk {
    pub(crate) inner: arrow::record_batch::RecordBatch,
}

/// A builder for the dataset's id column, holding arrow's `UInt32Builder`.
///
/// Verus refuses declarations of arrow's generic builder and array types
/// (their bounds name undeclared arrow traits), so each is held opaquely in
/// a hidden field instead.
#[verifier::external_body]
pub struct IdBuilder {
    inner: arrow::array::UInt32Builder,
}

/// A builder for the dataset's text column, holding arrow's `StringBuilder`.
#[verifier::external_body]
pub struct TextBuilder {
    inner: arrow::array::StringBuilder,
}

/// A finished id column: an arrow `UInt32Array`, held opaquely.
#[verifier::external_body]
pub struct IdColumn {
    inner: arrow::array::UInt32Array,
}

/// A finished text column: an arrow `StringArray`, held opaquely.
#[verifier::external_body]
pub struct TextColumn {
    inner: arrow::array::StringArray,
}

/// The values an id column builder holds so far, in append order.
pub uninterp spec fn id_builder_data(b: IdBuilder) -> Seq<u32>;

/// The values a text column builder holds so far, in append order.
pub uninterp spec fn text_builder_data(b: TextBuilder) -> Seq<Seq<char>>;

/// The total UTF-8 byte length of the values a text column builder holds so
/// far.
pub uninterp spec fn text_builder_bytes(b: TextBuilder) -> int;

/// The values a finished id column holds, in order.
pub uninterp spec fn id_array_data(a: IdColumn) -> Seq<u32>;

/// The values a finished text column holds, in order.
pub uninterp spec fn text_array_data(a: TextColumn) -> Seq<Seq<char>>;

/// The name, logical type and nullability of an arrow field.
pub uninterp spec fn field_model(f: arrow::datatypes::Field) -> (Seq<char>, ColumnType, bool);

/// The fields of an arrow schema, in order.
pub uninterp spec fn schema_fields(s: arrow::datatypes::Schema) -> Seq<(Seq<char>, ColumnType, bool)>;

/// The id column (column 0) of a chunk.
pub uninterp spec fn batch_ids(b: Chunk) -> Seq<u32>;

/// The text column (column 1) of a chunk.
pub uninterp spec fn batch_texts(b: Chunk) -> Seq<Seq<char>>;

/// The fields of the schema a chunk carries, in order.
pub uninterp spec fn batch_schema_fields(b: Chunk) -> Seq<(Seq<char>, ColumnType, bool)>;

/// Relies on `UInt32Builder::with_capacity`: a fresh builder holds no values.
#[verifier::external_body]
pub(crate) fn new_id_builder(capacity: usize) -> (b: IdBuilder)
    ensures
        id_builder_data(b) == Seq::<u32>::empty(),
{
    IdBuilder { inner: arrow::array::UInt32Builder::with_capacity(capacity) }
}

/// Relies on `StringBuilder::with_capacity`: a fresh builder holds no values.
#[verifier::external_body]
pub(crate) fn new_text_builder(capacity: usize) -> (b: TextBuilder)
    ensures
        text_builder_data(b) == Seq::<Seq<char>>::empty(),
        text_builder_bytes(b) == 0,
{
    TextBuilder { inner: arrow::array::StringBuilder::with_capacity(capacity, 0) }
}

/// Relies on `PrimitiveBuilder::append_value`: it appends one non-null value
/// at the end and cannot fail.
#[verifier::external_body]
pub(crate) fn id_builder_append(b: &mut IdBuilder, v: u32)
    ensures
        id_builder_data(*final(b)) == id_builder_data(*old(b)).push(v),
{
    b.inner.append_value(v)
}

/// Relies on `GenericByteBuilder::append_value`: it appends one non-null
/// value at the end.  It panics once the accumulated value bytes would
/// exceed the offset type's maximum (`i32::MAX` for `StringBuilder`), so the
/// bound below keeps every admitted call within that range.
#[verifier::external_body]
pub(crate) fn text_builder_append(b: &mut TextBuilder, v: &str)
    requires
        text_builder_bytes(*old(b)) + encode_utf8(v@).len() <= 0x7fff_ffff,
    ensures
        text_builder_data(*final(b)) == text_builder_data(*old(b)).push(v@),
        text_builder_bytes(*final(b)) == text_builder_bytes(*old(b)) + encode_utf8(v@).len(),
{
    b.inner.append_value(v)
}

/// Relies on `PrimitiveBuilder::finish`: it yields an array of exactly the
/// appended values, in order, and resets the builder to empty.
#[verifier::external_body]
pub(crate) fn id_builder_finish(b: &mut IdBuilder) -> (a: IdColumn)
    ensures
        id_array_data(a) == id_builder_data(*old(b)),
        id_builder_data(*final(b)) == Seq::<u32>::empty(),
{
    IdColumn { inner: b.inner.finish() }
}

/// Relies on `GenericByteBuilder::finish`: it yields an array of exactly the
/// appended values, in order, and resets the builder to empty.
#[verifier::external_body]
pub(crate) fn text_builder_finish(b: &mut TextBuilder) -> (a: TextColumn)
    ensures
        text_array_data(a) == text_builder_data(*old(b)),
        text_builder_data(*final(b)) == Seq::<Seq<char>>::empty(),
        text_builder_bytes(*final(b)) == 0,
{
    TextColumn { inner: b.inner.finish() }
}

/// Relies on `Field::new`: it stores exactly the given name, logical type and
/// nullability.
#[verifier::external_body]
pub(crate) fn new_field(name: &str, data_type: ColumnType, nullable: bool) -> (f: arrow::datatypes::Field)
    ensures
        field_model(f) == (name@, data_type, nullable),
{
    let dt = match data_type {
        ColumnType::UInt32 => arrow::datatypes::DataType::UInt32,
        ColumnType::Utf8 => arrow::datatypes::DataType::Utf8,
    };
    arrow::datatypes::Field::new(name, dt, nullable)
}

/// Relies on `Schema::new`: it stores exactly the given fields, in order.
#[verifier::external_body]
pub(crate) fn new_schema(fields: Vec<arrow::datatypes::Field>) -> (s: arrow::datatypes::Schema)
    ensures
        schema_fields(s) == fields@.map_values(|f: arrow::datatypes::Field| field_model(f)),
{
    arrow::datatypes::Schema::new(fields)
}

/// Relies on `RecordBatch::try_new`: on success the batch holds the given
/// columns unchanged and carries the given schema; it succeeds when the
/// schema's field count, field types and nullability agree with the columns
/// and the columns agree in length.
/// Both column types here carry no nulls, because every value of them this
/// crate can make comes out of the append-only builder wrappers above.
#[verifier::external_body]
pub(crate) fn batch_try_new(
    schema: arrow::datatypes::Schema,
    ids: IdColumn,
    texts: TextColumn,
) -> (r: Result<Chunk, arrow::error::ArrowError>)
    ensures
        r matches Ok(b) ==> batch_ids(b) == id_array_data(ids) && batch_texts(b)
            == text_array_data(texts) && batch_schema_fields(b) == schema_fields(schema),
        (schema_fields(schema) == spec_schema_fields() && id_array_data(ids).len()
            == text_array_data(texts).len()) ==> r is Ok,
{
    match arrow::record_batch::RecordBatch::try_new(
        std::sync::Arc::new(schema),
        vec![std::sync::Arc::new(ids.inner), std::sync::Arc::new(texts.inner)],
    ) {
        Ok(inner) => Ok(Chunk { inner }),
        Err(e) => Err(e),
    }
}

} // verus!
