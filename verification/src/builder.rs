//! The chunk builder: materializes one contiguous range of synthetic rows as
//! a pair of column sequences.

use vstd::prelude::*;
use vstd::utf8::encode_utf8;
use vstd::utf8::is_ascii_chars;
use vstd::utf8::is_ascii_chars_encode_utf8;

use crate::arrow_api::IdBuilder;
use crate::arrow_api::IdColumn;
use crate::arrow_api::TextBuilder;
use crate::arrow_api::TextColumn;
use crate::arrow_api::id_array_data;
use crate::arrow_api::id_builder_append;
use crate::arrow_api::id_builder_data;
use crate::arrow_api::id_builder_finish;
use crate::arrow_api::new_id_builder;
use crate::arrow_api::new_text_builder;
use crate::arrow_api::text_array_data;
use crate::arrow_api::text_builder_append;
use crate::arrow_api::text_builder_bytes;
use crate::arrow_api::text_builder_data;
use crate::arrow_api::text_builder_finish;
use crate::model::const_texts;
use crate::model::id_range;

verus! {

/// Accumulates one chunk of synthetic rows: the ids `start..start + capacity`
/// paired with the constant text `"test"`, appended in matching order across
/// both columns.
///
/// A builder is consumed exactly once, by `finish`; ownership enforces the
/// single use.
pub struct InfoSchemaTestingDatasetProviderBuilder {
    start: usize,
    capacity: usize,
    id: IdBuilder,
    random_str: TextBuilder,
}

impl InfoSchemaTestingDatasetProviderBuilder {
    /// The chunk's starting identifier.
    pub closed spec fn spec_start(&self) -> int {
        self.start as int
    }

    /// The chunk's row count.
    pub closed spec fn spec_capacity(&self) -> int {
        self.capacity as int
    }

    /// A builder is well formed while its ids fit in 32 bits, its text
    /// column's eventual byte length stays within the column's offset range,
    /// and no row has been appended yet.
    pub closed spec fn wf(&self) -> bool {
        &&& self.start + self.capacity <= 0x1_0000_0000
        &&& 4 * self.capacity <= 0x7fff_ffff
        &&& id_builder_data(self.id) == Seq::<u32>::empty()
        &&& text_builder_data(self.random_str) == Seq::<Seq<char>>::empty()
        &&& text_builder_bytes(self.random_str) == 0
    }

    /// Makes a builder for the `capacity` rows starting at id `start`, with
    /// column storage preallocated for `capacity` rows.  The first bound
    /// keeps every id of the chunk within 32 bits; the second keeps the text
    /// column's bytes (four per row) within the column's offset range.
    pub fn new(start: usize, capacity: usize) -> (b: Self)
        requires
            start + capacity <= 0x1_0000_0000,
            4 * capacity <= 0x7fff_ffff,
        ensures
            b.wf(),
            b.spec_start() == start,
            b.spec_capacity() == capacity,
    {
        Self {
            start,
            capacity,
            id: new_id_builder(capacity),
            random_str: new_text_builder(capacity),
        }
    }

    /// Appends every row of the chunk and yields the two finished column
    /// sequences in schema field order: the id column is exactly the range
    /// `start..start + capacity` and every text value is `"test"`.
    pub fn finish(self) -> (r: (IdColumn, TextColumn))
        requires
            self.wf(),
        ensures
            id_array_data(r.0) == id_range(self.spec_start(), self.spec_capacity()),
            text_array_data(r.1) == const_texts(self.spec_capacity()),
    {
        let InfoSchemaTestingDatasetProviderBuilder { start, capacity, id, random_str } = self;
        let mut id = id;
        let mut random_str = random_str;
        let mut i: usize = 0;
        while i < capacity
            invariant
                i <= capacity,
                start + capacity <= 0x1_0000_0000,
                4 * capacity <= 0x7fff_ffff,
                id_builder_data(id) == id_range(start as int, i as int),
                text_builder_data(random_str) == const_texts(i as int),
                text_builder_bytes(random_str) == 4 * i,
            decreases capacity - i,
        {
            let v: u32 = (start + i) as u32;
            id_builder_append(&mut id, v);
            proof {
                reveal_strlit("test");
                assert(is_ascii_chars("test"@));
                is_ascii_chars_encode_utf8("test"@);
                assert(encode_utf8("test"@).len() == 4);
            }
            text_builder_append(&mut random_str, "test");
            i = i + 1;
            proof {
                assert(id_builder_data(id) =~= id_range(start as int, i as int));
                assert(text_builder_data(random_str) =~= const_texts(i as int));
            }
        }
        let ids = id_builder_finish(&mut id);
        let texts = text_builder_finish(&mut random_str);
        (ids, texts)
    }
}

} // verus!
