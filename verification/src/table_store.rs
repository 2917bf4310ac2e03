//! In-memory implementation of the `TableStore` trait.
//!
//! The registry is seeded once with a fixed list of table ids and is
//! read-only for the lifetime of the process: no table add or remove
//! operation exists at this layer.

use vstd::prelude::*;

use crate::data_model::TableStore;
use crate::error::RestaurantError;

verus! {

/// How many tables the predefined registry holds.
pub const PREDEFINED_TABLE_COUNT: u32 = 100;

/// The predefined registry: table ids 1 through `PREDEFINED_TABLE_COUNT`,
/// in ascending order.
pub open spec fn table_seed() -> Seq<u32> {
    Seq::new(PREDEFINED_TABLE_COUNT as nat, |i: int| (i + 1) as u32)
}

/// In-memory table registry.
pub struct InMemoryTableStore {
    tables: Vec<u32>,
}

impl InMemoryTableStore {
    /// Creates a registry holding the predefined table ids.
    pub fn new() -> (s: Self)
        ensures
            s.registry() == table_seed(),
    {
        let mut tables: Vec<u32> = Vec::new();
        let mut id: u32 = 1;
        while id <= PREDEFINED_TABLE_COUNT
            invariant
                1 <= id <= PREDEFINED_TABLE_COUNT + 1,
                tables@.len() == id - 1,
                forall|j: int| 0 <= j < tables@.len() ==> tables@[j] == j + 1,
            decreases PREDEFINED_TABLE_COUNT + 1 - id,
        {
            tables.push(id);
            id += 1;
        }
        proof {
            assert(tables@ =~= table_seed());
        }
        InMemoryTableStore { tables }
    }
}

impl Default for InMemoryTableStore {
    /// The predefined registry, as `new` builds it.
    fn default() -> (s: Self)
        ensures
            s.registry() == table_seed(),
    {
        Self::new()
    }
}

impl TableStore for InMemoryTableStore {
    closed spec fn registry(&self) -> Seq<u32> {
        self.tables@
    }

    fn get_all_tables(&self) -> (r: Result<Vec<u32>, RestaurantError>) {
        let out = self.tables.clone();
        proof {
            assert(out@ =~= self.tables@);
        }
        Ok(out)
    }
}

} // verus!
