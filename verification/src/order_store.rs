//! In-memory implementation of the `OrderStore` trait.
//!
//! The store maintains, per table, the ordered list of menu item ids
//! currently placed. Duplicates are allowed: each occurrence is a distinct
//! entry removable independently, and removal targets the first matching
//! occurrence. A table's entry is created on its first `add_item` and is
//! never pruned, so an entry emptied by removals still exists.

use vstd::prelude::*;

use std::collections::HashMap;

use crate::data_model::OrderStore;
use crate::domain_spec::{
    first_index_of, lemma_first_index_at, lemma_first_index_of, place_item, remove_first_item,
    take_item,
};
use crate::error::RestaurantError;

verus! {

broadcast use vstd::std_specs::hash::group_hash_axioms;

/// Index of the first occurrence of `item_id` in `items`, if any.
fn position_of(items: &Vec<u32>, item_id: u32) -> (r: Option<usize>)
    ensures
        r is Some <==> items@.contains(item_id),
        r matches Some(p) ==> p < items@.len() && p as int == first_index_of(items@, item_id),
{
    let mut pos: usize = 0;
    while pos < items.len()
        invariant
            pos <= items@.len(),
            forall|j: int| 0 <= j < pos ==> items@[j] != item_id,
        decreases items@.len() - pos,
    {
        if items[pos] == item_id {
            proof {
                assert(items@.contains(item_id)) by {
                    assert(items@[pos as int] == item_id);
                }
                lemma_first_index_at(items@, item_id, pos as int);
            }
            return Some(pos);
        }
        pos += 1;
    }
    proof {
        assert(!items@.contains(item_id)) by {
            assert(forall|j: int| 0 <= j < items@.len() ==> items@[j] != item_id);
        }
    }
    None
}

/// In-memory order ledger, keyed by table id.
pub struct InMemoryOrderStore {
    orders: HashMap<u32, Vec<u32>>,
}

impl InMemoryOrderStore {
    /// Creates a store with an empty ledger.
    pub fn new() -> (s: Self)
        ensures
            s.ledger() == Map::<u32, Seq<u32>>::empty(),
    {
        let s = InMemoryOrderStore { orders: HashMap::new() };
        proof {
            assert(s.ledger() =~= Map::<u32, Seq<u32>>::empty());
        }
        s
    }
}

impl Default for InMemoryOrderStore {
    /// An empty ledger, as `new` builds it.
    fn default() -> (s: Self)
        ensures
            s.ledger() == Map::<u32, Seq<u32>>::empty(),
    {
        Self::new()
    }
}

impl OrderStore for InMemoryOrderStore {
    closed spec fn ledger(&self) -> Map<u32, Seq<u32>> {
        Map::new(|t: u32| self.orders@.contains_key(t), |t: u32| self.orders@[t]@)
    }

    fn add_item(&mut self, table_id: u32, item_id: u32) -> (r: Result<(), RestaurantError>) {
        let ghost l0 = self.ledger();
        let mut items: Vec<u32> = match self.orders.remove(&table_id) {
            Some(v) => v,
            None => Vec::new(),
        };
        items.push(item_id);
        self.orders.insert(table_id, items);
        proof {
            assert(self.ledger() =~= place_item(l0, table_id, item_id));
        }
        Ok(())
    }

    fn remove_item(&mut self, table_id: u32, item_id: u32) -> (r: Result<(), RestaurantError>) {
        let ghost l0 = self.ledger();
        match self.orders.remove(&table_id) {
            None => {
                proof {
                    assert(self.ledger() =~= l0);
                }
                Err(RestaurantError::NoMenusForTable(table_id))
            },
            Some(mut items) => {
                let ghost entry0 = items@;
                match position_of(&items, item_id) {
                    Some(pos) => {
                        proof {
                            lemma_first_index_of(entry0, item_id);
                        }
                        items.remove(pos);
                        self.orders.insert(table_id, items);
                        proof {
                            assert(entry0.remove(pos as int) == remove_first_item(
                                entry0,
                                item_id,
                            ));
                            assert(self.ledger() =~= take_item(l0, table_id, item_id));
                        }
                        Ok(())
                    },
                    None => {
                        self.orders.insert(table_id, items);
                        proof {
                            assert(self.ledger() =~= l0);
                        }
                        Err(RestaurantError::NoMenuForTable(table_id, item_id))
                    },
                }
            },
        }
    }

    fn get_item_ids(&self, table_id: u32) -> (r: Result<Vec<u32>, RestaurantError>) {
        match self.orders.get(&table_id) {
            Some(items) => {
                let out = items.clone();
                proof {
                    assert(out@ =~= items@);
                }
                Ok(out)
            },
            None => Err(RestaurantError::NoMenusForTable(table_id)),
        }
    }

    fn get_item_id(&self, table_id: u32, item_id: u32) -> (r: Result<u32, RestaurantError>) {
        match self.orders.get(&table_id) {
            Some(items) => match position_of(items, item_id) {
                Some(_) => Ok(item_id),
                None => Err(RestaurantError::NoMenuForTable(table_id, item_id)),
            },
            None => Err(RestaurantError::NoMenuForTable(table_id, item_id)),
        }
    }
}

} // verus!
