//! The data model: the `MenuItem` record and the store and facade traits,
//! each with the contract every implementation must meet.

use vstd::prelude::*;

use crate::domain_spec::{
    add_item_outcome, get_item_outcome, get_items_outcome, ledger_items_outcome,
    ledger_probe_outcome, ledger_remove_outcome, place_item, remove_item_outcome, take_item,
};
use crate::error::RestaurantError;

verus! {

/// A single dish on the menu: a unique id, a display name, and the cooking
/// time in minutes.
#[derive(Debug)]
pub struct MenuItem {
    /// Unique identifier of the menu item.
    pub id: u32,
    /// Name of the menu item.
    pub name: String,
    /// The cooking time required for this menu item (in minutes).
    pub cooking_time: u64,
}

impl Clone for MenuItem {
    /// A clone is indistinguishable from the original.
    fn clone(&self) -> (r: Self)
        ensures
            r == *self,
    {
        MenuItem { id: self.id, name: self.name.clone(), cooking_time: self.cooking_time }
    }
}

impl PartialEq for MenuItem {
    fn eq(&self, other: &Self) -> (r: bool) {
        self.id == other.id && self.name == other.name && self.cooking_time == other.cooking_time
    }
}

impl vstd::std_specs::cmp::PartialEqSpecImpl for MenuItem {
    open spec fn obeys_eq_spec() -> bool {
        true
    }

    open spec fn eq_spec(&self, other: &Self) -> bool {
        self.id == other.id && self.name@ == other.name@ && self.cooking_time
            == other.cooking_time
    }
}

/// Read access to the menu catalog.
pub trait MenuStore: Sized {
    /// The catalog contents, in seed order.
    spec fn catalog(&self) -> Seq<MenuItem>;

    /// Retrieves all menu items from the store, in seed order.
    fn get_all_menus(&self) -> (r: Result<Vec<MenuItem>, RestaurantError>)
        ensures
            r matches Ok(v) && v@ == self.catalog(),
    ;
}

/// Read access to the table registry.
pub trait TableStore: Sized {
    /// The registered table ids, in seed order.
    spec fn registry(&self) -> Seq<u32>;

    /// Retrieves all table ids from the store, in seed order.
    fn get_all_tables(&self) -> (r: Result<Vec<u32>, RestaurantError>)
        ensures
            r matches Ok(v) && v@ == self.registry(),
    ;
}

/// The per-table order ledger. The ledger checks no foreign keys: it accepts
/// operations for any table id, and cross-store validation is the facade's
/// responsibility.
pub trait OrderStore: Sized {
    /// The ledger contents: table id to the sequence of ordered item ids.
    spec fn ledger(&self) -> Map<u32, Seq<u32>>;

    /// Appends `item_id` to the table's order, creating the entry if absent.
    fn add_item(&mut self, table_id: u32, item_id: u32) -> (r: Result<(), RestaurantError>)
        ensures
            r is Ok,
            final (self).ledger() == place_item(old(self).ledger(), table_id, item_id),
    ;

    /// Removes the first occurrence of `item_id` from the table's order.
    /// A table without an entry and a table whose entry lacks the item are
    /// reported as distinct errors.
    fn remove_item(&mut self, table_id: u32, item_id: u32) -> (r: Result<(), RestaurantError>)
        ensures
            r == ledger_remove_outcome(old(self).ledger(), table_id, item_id),
            final (self).ledger() == take_item(old(self).ledger(), table_id, item_id),
    ;

    /// Returns the table's full order sequence.
    fn get_item_ids(&self, table_id: u32) -> (r: Result<Vec<u32>, RestaurantError>)
        ensures
            ({
                let expected = ledger_items_outcome(self.ledger(), table_id);
                &&& r is Ok <==> expected is Ok
                &&& r matches Ok(v) ==> v@ == expected->Ok_0
                &&& r matches Err(e) ==> e == expected->Err_0
            }),
    ;

    /// Probes the table's order for at least one occurrence of `item_id`.
    /// A pure existence check with no side effect.
    fn get_item_id(&self, table_id: u32, item_id: u32) -> (r: Result<u32, RestaurantError>)
        ensures
            r == ledger_probe_outcome(self.ledger(), table_id, item_id),
    ;
}

/// The composed restaurant interface: the public domain operations over the
/// three stores, with cross-store validation. Table existence is always
/// checked before anything else, so that a doubly invalid request reports
/// the table error.
pub trait Restaurant: Sized {
    /// The menu catalog the facade consults.
    spec fn catalog(&self) -> Seq<MenuItem>;

    /// The table registry the facade consults.
    spec fn registry(&self) -> Seq<u32>;

    /// The order ledger the facade reads and mutates.
    spec fn ledger(&self) -> Map<u32, Seq<u32>>;

    /// Retrieves all menu items.
    fn get_all_menus(&self) -> (r: Result<Vec<MenuItem>, RestaurantError>)
        ensures
            r matches Ok(v) && v@ == self.catalog(),
    ;

    /// Retrieves all table ids.
    fn get_all_tables(&self) -> (r: Result<Vec<u32>, RestaurantError>)
        ensures
            r matches Ok(v) && v@ == self.registry(),
    ;

    /// Adds a menu item to a table's order, after checking that the table is
    /// registered and the item is in the catalog.
    fn add_item(&mut self, table_id: u32, item_id: u32) -> (r: Result<(), RestaurantError>)
        ensures
            final (self).catalog() == old(self).catalog(),
            final (self).registry() == old(self).registry(),
            r == add_item_outcome(old(self).registry(), old(self).catalog(), table_id, item_id),
            final (self).ledger() == (if r is Ok {
                place_item(old(self).ledger(), table_id, item_id)
            } else {
                old(self).ledger()
            }),
    ;

    /// Removes one occurrence of a menu item from a table's order, after
    /// checking that the table is registered. The catalog is not consulted:
    /// the order record is authoritative for what was ordered.
    fn remove_item(&mut self, table_id: u32, item_id: u32) -> (r: Result<(), RestaurantError>)
        ensures
            final (self).catalog() == old(self).catalog(),
            final (self).registry() == old(self).registry(),
            r == remove_item_outcome(old(self).registry(), old(self).ledger(), table_id, item_id),
            final (self).ledger() == (if r is Ok {
                take_item(old(self).ledger(), table_id, item_id)
            } else {
                old(self).ledger()
            }),
    ;

    /// Lists the menu items ordered at a table, projecting each ordered id
    /// through the catalog and silently dropping ids the catalog no longer
    /// holds.
    fn get_items(&self, table_id: u32) -> (r: Result<Vec<MenuItem>, RestaurantError>)
        ensures
            ({
                let expected = get_items_outcome(
                    self.registry(),
                    self.catalog(),
                    self.ledger(),
                    table_id,
                );
                &&& r is Ok <==> expected is Ok
                &&& r matches Ok(v) ==> v@ == expected->Ok_0
                &&& r matches Err(e) ==> e == expected->Err_0
            }),
    ;

    /// Retrieves one menu item ordered at a table: the table must be
    /// registered, the ledger must hold an occurrence, and the catalog must
    /// still list the item.
    fn get_item(&self, table_id: u32, item_id: u32) -> (r: Result<MenuItem, RestaurantError>)
        ensures
            r == get_item_outcome(self.registry(), self.catalog(), self.ledger(), table_id, item_id),
    ;
}

} // verus!
