use vstd::prelude::*;

verus! {

/// Errors that can arise in the restaurant system.
///
/// The taxonomy is closed: validation failures name the offending table or
/// menu identifiers, while the internal-failure variants (`LockError`,
/// `MenusRetrieveError`, `TablesRetrieveError`) are reserved for store
/// implementations whose synchronization can fail. The in-memory stores of
/// this crate never produce them, and their contracts say so.
#[derive(Debug, PartialEq)]
pub enum RestaurantError {
    /// A lock could not be acquired while mutating a store.
    LockError(String),
    /// The referenced table is absent from the table registry.
    TableNotFound(u32),
    /// The referenced menu item is absent from the menu catalog.
    MenuNotFound(u32),
    /// The table has an order, but no occurrence of this menu item.
    NoMenuForTable(u32, u32),
    /// The table has no order at all.
    NoMenusForTable(u32),
    /// The menu catalog could not be read.
    MenusRetrieveError,
    /// The table registry could not be read.
    TablesRetrieveError,
}

} // verus!
