//! `SimpleRestaurant` is an implementation of the `Restaurant` trait. It
//! composes a `MenuStore`, an `OrderStore`, and a `TableStore` into the
//! public domain operations, enforcing the cross-store invariants: a table
//! must be registered before it can hold an order, and a menu item must be
//! in the catalog before it can be ordered.

use vstd::prelude::*;

use crate::data_model::{MenuItem, MenuStore, OrderStore, Restaurant, TableStore};
use crate::domain_spec::{
    has_menu, lemma_menu_index_at, menu_index_of, project_order,
};
use crate::error::RestaurantError;

verus! {

/// Whether `ids` holds the id `x`.
fn contains_id(ids: &Vec<u32>, x: u32) -> (b: bool)
    ensures
        b == ids@.contains(x),
{
    let mut k: usize = 0;
    while k < ids.len()
        invariant
            k <= ids@.len(),
            forall|j: int| 0 <= j < k ==> ids@[j] != x,
        decreases ids@.len() - k,
    {
        if ids[k] == x {
            proof {
                assert(ids@.contains(x)) by {
                    assert(ids@[k as int] == x);
                }
            }
            return true;
        }
        k += 1;
    }
    proof {
        assert(!ids@.contains(x)) by {
            assert(forall|j: int| 0 <= j < ids@.len() ==> ids@[j] != x);
        }
    }
    false
}

/// Index of the first catalog entry with the given id, if any.
fn index_of_menu(menus: &Vec<MenuItem>, item_id: u32) -> (r: Option<usize>)
    ensures
        r is Some <==> has_menu(menus@, item_id),
        r matches Some(p) ==> p < menus@.len() && p as int == menu_index_of(menus@, item_id),
{
    let mut k: usize = 0;
    while k < menus.len()
        invariant
            k <= menus@.len(),
            forall|j: int| 0 <= j < k ==> menus@[j].id != item_id,
        decreases menus@.len() - k,
    {
        if menus[k].id == item_id {
            proof {
                lemma_menu_index_at(menus@, item_id, k as int);
                assert(has_menu(menus@, item_id)) by {
                    assert(menus@[k as int].id == item_id);
                }
            }
            return Some(k);
        }
        k += 1;
    }
    proof {
        if has_menu(menus@, item_id) {
            let j = choose|j: int| 0 <= j < menus@.len() && menus@[j].id == item_id;
            assert(menus@[j].id != item_id);
        }
    }
    None
}

/// The facade over the three stores. It is stateless itself: all state
/// lives in the stores it owns.
pub struct SimpleRestaurant<M: MenuStore, O: OrderStore, T: TableStore> {
    pub menu_store: M,
    pub order_store: O,
    pub table_store: T,
}

impl<M: MenuStore, O: OrderStore, T: TableStore> SimpleRestaurant<M, O, T> {
    /// Wires the three store handles into a facade.
    pub fn new(menu_store: M, order_store: O, table_store: T) -> (s: Self)
        ensures
            s.catalog() == menu_store.catalog(),
            s.ledger() == order_store.ledger(),
            s.registry() == table_store.registry(),
    {
        SimpleRestaurant { menu_store, order_store, table_store }
    }
}

impl<M: MenuStore, O: OrderStore, T: TableStore> Restaurant for SimpleRestaurant<M, O, T> {
    open spec fn catalog(&self) -> Seq<MenuItem> {
        self.menu_store.catalog()
    }

    open spec fn registry(&self) -> Seq<u32> {
        self.table_store.registry()
    }

    open spec fn ledger(&self) -> Map<u32, Seq<u32>> {
        self.order_store.ledger()
    }

    fn get_all_menus(&self) -> (r: Result<Vec<MenuItem>, RestaurantError>) {
        self.menu_store.get_all_menus()
    }

    fn get_all_tables(&self) -> (r: Result<Vec<u32>, RestaurantError>) {
        self.table_store.get_all_tables()
    }

    fn add_item(&mut self, table_id: u32, item_id: u32) -> (r: Result<(), RestaurantError>) {
        let tables = match self.table_store.get_all_tables() {
            Ok(v) => v,
            Err(e) => return Err(e),
        };
        if !contains_id(&tables, table_id) {
            return Err(RestaurantError::TableNotFound(table_id));
        }
        let menus = match self.menu_store.get_all_menus() {
            Ok(v) => v,
            Err(e) => return Err(e),
        };
        if index_of_menu(&menus, item_id).is_none() {
            return Err(RestaurantError::MenuNotFound(item_id));
        }
        match self.order_store.add_item(table_id, item_id) {
            Ok(()) => Ok(()),
            Err(e) => Err(e),
        }
    }

    fn remove_item(&mut self, table_id: u32, item_id: u32) -> (r: Result<(), RestaurantError>) {
        let tables = match self.table_store.get_all_tables() {
            Ok(v) => v,
            Err(e) => return Err(e),
        };
        if !contains_id(&tables, table_id) {
            return Err(RestaurantError::TableNotFound(table_id));
        }
        self.order_store.remove_item(table_id, item_id)
    }

    fn get_items(&self, table_id: u32) -> (r: Result<Vec<MenuItem>, RestaurantError>) {
        let tables = match self.table_store.get_all_tables() {
            Ok(v) => v,
            Err(e) => return Err(e),
        };
        if !contains_id(&tables, table_id) {
            return Err(RestaurantError::TableNotFound(table_id));
        }
        let item_ids = match self.order_store.get_item_ids(table_id) {
            Ok(v) => v,
            Err(e) => return Err(e),
        };
        let menus = match self.menu_store.get_all_menus() {
            Ok(v) => v,
            Err(e) => return Err(e),
        };
        let mut items: Vec<MenuItem> = Vec::new();
        let mut k: usize = 0;
        while k < item_ids.len()
            invariant
                k <= item_ids@.len(),
                items@ == project_order(menus@, item_ids@.take(k as int)),
            decreases item_ids@.len() - k,
        {
            proof {
                assert(item_ids@.take(k as int + 1).drop_last() =~= item_ids@.take(k as int));
                assert(item_ids@.take(k as int + 1).last() == item_ids@[k as int]);
            }
            match index_of_menu(&menus, item_ids[k]) {
                Some(p) => {
                    items.push(menus[p].clone());
                    proof {
                        assert(items@ =~= project_order(menus@, item_ids@.take(k as int + 1)));
                    }
                },
                None => {
                    proof {
                        assert(items@ =~= project_order(menus@, item_ids@.take(k as int + 1)));
                    }
                },
            }
            k += 1;
        }
        proof {
            assert(item_ids@.take(item_ids@.len() as int) =~= item_ids@);
        }
        Ok(items)
    }

    fn get_item(&self, table_id: u32, item_id: u32) -> (r: Result<MenuItem, RestaurantError>) {
        let tables = match self.table_store.get_all_tables() {
            Ok(v) => v,
            Err(e) => return Err(e),
        };
        if !contains_id(&tables, table_id) {
            return Err(RestaurantError::TableNotFound(table_id));
        }
        match self.order_store.get_item_id(table_id, item_id) {
            Ok(_) => (),
            Err(e) => return Err(e),
        };
        let menus = match self.menu_store.get_all_menus() {
            Ok(v) => v,
            Err(e) => return Err(e),
        };
        match index_of_menu(&menus, item_id) {
            Some(p) => Ok(menus[p].clone()),
            None => Err(RestaurantError::MenuNotFound(item_id)),
        }
    }
}

} // verus!
