//! Laws of the domain layer, stated over the spec-level model that the
//! stores' and the facade's contracts use, and proved once for all inputs.

use vstd::prelude::*;

use crate::data_model::MenuItem;
use crate::domain_spec::{
    add_item_outcome, get_item_outcome, get_items_outcome, has_menu, item_count,
    lemma_item_count_contains, lemma_item_count_push, lemma_remove_first_item_count, menu_for,
    order_of, place_item, remove_item_outcome, take_item,
};
use crate::error::RestaurantError;
use crate::table_store::{table_seed, PREDEFINED_TABLE_COUNT};

verus! {

/// For every table id not in the registry, `add_item`, `remove_item`,
/// `get_items` and `get_item` all fail with `TableNotFound` naming that id,
/// whatever the catalog and the ledger hold. The facade contracts add that a
/// failed operation leaves the ledger untouched.
pub proof fn unregistered_table_is_rejected(
    tables: Seq<u32>,
    menus: Seq<MenuItem>,
    orders: Map<u32, Seq<u32>>,
    table_id: u32,
    item_id: u32,
)
    requires
        !tables.contains(table_id),
    ensures
        add_item_outcome(tables, menus, table_id, item_id) == Err::<(), RestaurantError>(
            RestaurantError::TableNotFound(table_id),
        ),
        remove_item_outcome(tables, orders, table_id, item_id) == Err::<(), RestaurantError>(
            RestaurantError::TableNotFound(table_id),
        ),
        get_items_outcome(tables, menus, orders, table_id) == Err::<Seq<MenuItem>, RestaurantError>(
            RestaurantError::TableNotFound(table_id),
        ),
        get_item_outcome(tables, menus, orders, table_id, item_id) == Err::<
            MenuItem,
            RestaurantError,
        >(RestaurantError::TableNotFound(table_id)),
{
}

/// For every registered table and cataloged menu item, `add_item` succeeds,
/// and `get_item` on the resulting ledger returns that item.
pub proof fn added_item_is_retrievable(
    tables: Seq<u32>,
    menus: Seq<MenuItem>,
    orders: Map<u32, Seq<u32>>,
    table_id: u32,
    item_id: u32,
)
    requires
        tables.contains(table_id),
        has_menu(menus, item_id),
    ensures
        add_item_outcome(tables, menus, table_id, item_id) == Ok::<(), RestaurantError>(()),
        get_item_outcome(tables, menus, place_item(orders, table_id, item_id), table_id, item_id)
            == Ok::<MenuItem, RestaurantError>(menu_for(menus, item_id)),
{
    let placed = place_item(orders, table_id, item_id);
    let entry = placed[table_id];
    assert(entry == order_of(orders, table_id).push(item_id));
    assert(entry.contains(item_id)) by {
        assert(entry[entry.len() - 1] == item_id);
    }
}

/// `remove_item` on a registered table that has never had an item added
/// fails with `NoMenusForTable`.
pub proof fn remove_without_order_fails(
    tables: Seq<u32>,
    orders: Map<u32, Seq<u32>>,
    table_id: u32,
    item_id: u32,
)
    requires
        tables.contains(table_id),
        !orders.dom().contains(table_id),
    ensures
        remove_item_outcome(tables, orders, table_id, item_id) == Err::<(), RestaurantError>(
            RestaurantError::NoMenusForTable(table_id),
        ),
{
}

/// `remove_item` on a registered table whose order lacks this item — prior
/// adds of other items notwithstanding — fails with `NoMenuForTable`.
pub proof fn remove_missing_item_fails(
    tables: Seq<u32>,
    orders: Map<u32, Seq<u32>>,
    table_id: u32,
    item_id: u32,
)
    requires
        tables.contains(table_id),
        orders.dom().contains(table_id),
        !orders[table_id].contains(item_id),
    ensures
        remove_item_outcome(tables, orders, table_id, item_id) == Err::<(), RestaurantError>(
            RestaurantError::NoMenuForTable(table_id, item_id),
        ),
{
}

/// Duplicate occurrences are independent entries, not a set: adding the same
/// pair twice and removing it once raises the occurrence count by exactly
/// one — in particular, a table that had no such occurrence is left with
/// exactly one.
pub proof fn duplicate_add_survives_one_removal(
    orders: Map<u32, Seq<u32>>,
    table_id: u32,
    item_id: u32,
)
    ensures
        ({
            let after = take_item(
                place_item(place_item(orders, table_id, item_id), table_id, item_id),
                table_id,
                item_id,
            );
            item_count(order_of(after, table_id), item_id) == item_count(
                order_of(orders, table_id),
                item_id,
            ) + 1
        }),
        !order_of(orders, table_id).contains(item_id) ==> ({
            let after = take_item(
                place_item(place_item(orders, table_id, item_id), table_id, item_id),
                table_id,
                item_id,
            );
            item_count(order_of(after, table_id), item_id) == 1
        }),
{
    let before = order_of(orders, table_id);
    let once = before.push(item_id);
    let twice = once.push(item_id);
    lemma_item_count_push(before, item_id, item_id);
    lemma_item_count_push(once, item_id, item_id);
    assert(order_of(place_item(orders, table_id, item_id), table_id) == once);
    assert(order_of(
        place_item(place_item(orders, table_id, item_id), table_id, item_id),
        table_id,
    ) == twice);
    lemma_item_count_contains(twice, item_id);
    lemma_remove_first_item_count(twice, item_id);
    lemma_item_count_contains(before, item_id);
}

/// The predefined registry holds exactly the configured number of tables.
/// Together with the facade contracts — `add_item` and `remove_item`
/// preserve the registry, and `get_all_tables` returns exactly the registry
/// — the table listing keeps this length regardless of order activity.
pub proof fn table_listing_length_is_fixed()
    ensures
        table_seed().len() == PREDEFINED_TABLE_COUNT,
{
}

} // verus!
