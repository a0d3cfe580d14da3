//! The mathematical model of the dataset: its schema and its fixed contents.

use vstd::prelude::*;

verus! {

/// Rows per chunk; a fixed design constant, not caller-configurable.
pub const CHUNK_ROWS: usize = 1000;

/// Number of chunks a scan materializes.
pub const CHUNK_COUNT: usize = 3;

/// Total rows over all chunks of one scan.
pub const TOTAL_ROWS: usize = CHUNK_COUNT * CHUNK_ROWS;

/// Logical type of a column in the dataset's schema.
#[derive(Clone, Copy, PartialEq, Eq, Structural, Debug)]
pub enum ColumnType {
    UInt32,
    Utf8,
}

/// One named, typed column of the table's schema.
#[derive(Debug)]
pub struct FieldDef {
    pub name: String,
    pub data_type: ColumnType,
    pub nullable: bool,
}

impl View for FieldDef {
    type V = (Seq<char>, ColumnType, bool);

    open spec fn view(&self) -> (Seq<char>, ColumnType, bool) {
        (self.name@, self.data_type, self.nullable)
    }
}

/// An ordered sequence of named, typed columns.
#[derive(Debug)]
pub struct TableSchema {
    pub fields: Vec<FieldDef>,
}

impl View for TableSchema {
    type V = Seq<(Seq<char>, ColumnType, bool)>;

    open spec fn view(&self) -> Seq<(Seq<char>, ColumnType, bool)> {
        self.fields@.map_values(|f: FieldDef| f@)
    }
}

/// The fixed two-field schema of the dataset: `id` (unsigned 32-bit,
/// non-nullable) followed by `random_str` (text, non-nullable).
pub open spec fn spec_schema_fields() -> Seq<(Seq<char>, ColumnType, bool)> {
    seq![
        ("id"@, ColumnType::UInt32, false),
        ("random_str"@, ColumnType::Utf8, false),
    ]
}

/// The schema each chunk of one scan carries: the full two-field schema,
/// identically for every chunk.
pub open spec fn dataset_schemas() -> Seq<Seq<(Seq<char>, ColumnType, bool)>> {
    seq![spec_schema_fields(), spec_schema_fields(), spec_schema_fields()]
}

/// The contiguous ascending run of `count` identifiers starting at `start`.
pub open spec fn id_range(start: int, count: int) -> Seq<u32> {
    Seq::new(count as nat, |i: int| (start + i) as u32)
}

/// `count` copies of the constant placeholder text.
pub open spec fn const_texts(count: int) -> Seq<Seq<char>> {
    Seq::new(count as nat, |i: int| "test"@)
}

/// The `id` column of each chunk of one scan, in chunk order.
pub open spec fn dataset_ids() -> Seq<Seq<u32>> {
    seq![
        id_range(0, CHUNK_ROWS as int),
        id_range(CHUNK_ROWS as int, CHUNK_ROWS as int),
        id_range(2 * CHUNK_ROWS as int, CHUNK_ROWS as int),
    ]
}

/// The `random_str` column of each chunk of one scan, in chunk order.
pub open spec fn dataset_texts() -> Seq<Seq<Seq<char>>> {
    seq![
        const_texts(CHUNK_ROWS as int),
        const_texts(CHUNK_ROWS as int),
        const_texts(CHUNK_ROWS as int),
    ]
}

} // verus!
