//! Mathematical model of the domain layer.
//!
//! The ledger is modelled as a `Map` from table id to the sequence of menu
//! item ids currently placed at that table (duplicates allowed, insertion
//! order kept). The catalog is a sequence of `MenuItem`s and the registry a
//! sequence of table ids. Every public operation of the stores and of the
//! facade is described here as a function of these models, and the
//! executable code's contracts are stated in terms of these functions.

use vstd::prelude::*;

use crate::data_model::MenuItem;
use crate::error::RestaurantError;

verus! {

/// The order sequence of a table, empty when the table has no entry.
pub open spec fn order_of(orders: Map<u32, Seq<u32>>, table_id: u32) -> Seq<u32> {
    if orders.dom().contains(table_id) {
        orders[table_id]
    } else {
        Seq::empty()
    }
}

/// The ledger after appending one occurrence of `item_id` to the order of
/// `table_id`, creating the table's entry if it was absent.
pub open spec fn place_item(orders: Map<u32, Seq<u32>>, table_id: u32, item_id: u32) -> Map<
    u32,
    Seq<u32>,
> {
    orders.insert(table_id, order_of(orders, table_id).push(item_id))
}

/// Number of occurrences of `item_id` in an order sequence.
pub open spec fn item_count(s: Seq<u32>, item_id: u32) -> nat
    decreases s.len(),
{
    if s.len() == 0 {
        0
    } else {
        (if s.last() == item_id {
            1nat
        } else {
            0nat
        }) + item_count(s.drop_last(), item_id)
    }
}

/// Index of the first occurrence of `item_id` in `s`, or `-1` if absent.
pub open spec fn first_index_of(s: Seq<u32>, item_id: u32) -> int
    decreases s.len(),
{
    if s.len() == 0 {
        -1
    } else if s.first() == item_id {
        0
    } else if first_index_of(s.drop_first(), item_id) < 0 {
        -1
    } else {
        1 + first_index_of(s.drop_first(), item_id)
    }
}

/// `s` with its first occurrence of `item_id` removed; `s` itself when
/// `item_id` does not occur.
pub open spec fn remove_first_item(s: Seq<u32>, item_id: u32) -> Seq<u32> {
    if s.contains(item_id) {
        s.remove(first_index_of(s, item_id))
    } else {
        s
    }
}

/// The ledger after removing the first occurrence of `item_id` from the
/// order of `table_id`; unchanged when the entry or the occurrence is
/// missing.
pub open spec fn take_item(orders: Map<u32, Seq<u32>>, table_id: u32, item_id: u32) -> Map<
    u32,
    Seq<u32>,
> {
    if orders.dom().contains(table_id) && orders[table_id].contains(item_id) {
        orders.insert(table_id, remove_first_item(orders[table_id], item_id))
    } else {
        orders
    }
}

/// Outcome of removing an item directly at the ledger: the entry must exist
/// and must hold at least one occurrence of the item.
pub open spec fn ledger_remove_outcome(
    orders: Map<u32, Seq<u32>>,
    table_id: u32,
    item_id: u32,
) -> Result<(), RestaurantError> {
    if !orders.dom().contains(table_id) {
        Err(RestaurantError::NoMenusForTable(table_id))
    } else if !orders[table_id].contains(item_id) {
        Err(RestaurantError::NoMenuForTable(table_id, item_id))
    } else {
        Ok(())
    }
}

/// Outcome of reading a table's full order at the ledger.
pub open spec fn ledger_items_outcome(orders: Map<u32, Seq<u32>>, table_id: u32) -> Result<
    Seq<u32>,
    RestaurantError,
> {
    if orders.dom().contains(table_id) {
        Ok(orders[table_id])
    } else {
        Err(RestaurantError::NoMenusForTable(table_id))
    }
}

/// Outcome of probing the ledger for one occurrence of `item_id` at
/// `table_id`. A missing entry and a missing occurrence report the same
/// error: the probe asks about the occurrence, not about the entry.
pub open spec fn ledger_probe_outcome(
    orders: Map<u32, Seq<u32>>,
    table_id: u32,
    item_id: u32,
) -> Result<u32, RestaurantError> {
    if orders.dom().contains(table_id) && orders[table_id].contains(item_id) {
        Ok(item_id)
    } else {
        Err(RestaurantError::NoMenuForTable(table_id, item_id))
    }
}

/// Whether the catalog holds a menu item with the given id.
pub open spec fn has_menu(menus: Seq<MenuItem>, item_id: u32) -> bool {
    exists|j: int| 0 <= j < menus.len() && menus[j].id == item_id
}

/// Index of the first catalog entry with the given id, or `-1` if none.
pub open spec fn menu_index_of(menus: Seq<MenuItem>, item_id: u32) -> int
    decreases menus.len(),
{
    if menus.len() == 0 {
        -1
    } else if menus.first().id == item_id {
        0
    } else if menu_index_of(menus.drop_first(), item_id) < 0 {
        -1
    } else {
        1 + menu_index_of(menus.drop_first(), item_id)
    }
}

/// The first catalog entry with the given id.
pub open spec fn menu_for(menus: Seq<MenuItem>, item_id: u32) -> MenuItem {
    menus[menu_index_of(menus, item_id)]
}

/// An order sequence projected through the catalog: each ordered id becomes
/// the first catalog entry with that id, and ids no longer present in the
/// catalog are silently dropped.
pub open spec fn project_order(menus: Seq<MenuItem>, ids: Seq<u32>) -> Seq<MenuItem>
    decreases ids.len(),
{
    if ids.len() == 0 {
        Seq::empty()
    } else {
        project_order(menus, ids.drop_last()) + (if has_menu(menus, ids.last()) {
            seq![menu_for(menus, ids.last())]
        } else {
            Seq::empty()
        })
    }
}

/// Outcome of the facade's `add_item`: the table must be registered, then
/// the menu item must exist in the catalog.
pub open spec fn add_item_outcome(
    tables: Seq<u32>,
    menus: Seq<MenuItem>,
    table_id: u32,
    item_id: u32,
) -> Result<(), RestaurantError> {
    if !tables.contains(table_id) {
        Err(RestaurantError::TableNotFound(table_id))
    } else if !has_menu(menus, item_id) {
        Err(RestaurantError::MenuNotFound(item_id))
    } else {
        Ok(())
    }
}

/// Outcome of the facade's `remove_item`: the table must be registered,
/// then the ledger decides. The catalog is deliberately not consulted.
pub open spec fn remove_item_outcome(
    tables: Seq<u32>,
    orders: Map<u32, Seq<u32>>,
    table_id: u32,
    item_id: u32,
) -> Result<(), RestaurantError> {
    if !tables.contains(table_id) {
        Err(RestaurantError::TableNotFound(table_id))
    } else {
        ledger_remove_outcome(orders, table_id, item_id)
    }
}

/// Outcome of the facade's `get_items`: the table must be registered and
/// must have a ledger entry; the entry is then projected through the
/// catalog.
pub open spec fn get_items_outcome(
    tables: Seq<u32>,
    menus: Seq<MenuItem>,
    orders: Map<u32, Seq<u32>>,
    table_id: u32,
) -> Result<Seq<MenuItem>, RestaurantError> {
    if !tables.contains(table_id) {
        Err(RestaurantError::TableNotFound(table_id))
    } else if !orders.dom().contains(table_id) {
        Err(RestaurantError::NoMenusForTable(table_id))
    } else {
        Ok(project_order(menus, orders[table_id]))
    }
}

/// Outcome of the facade's `get_item`: the table must be registered, the
/// ledger must hold an occurrence, and the catalog must still list the item.
/// A ledger miss and a catalog miss produce distinct errors.
pub open spec fn get_item_outcome(
    tables: Seq<u32>,
    menus: Seq<MenuItem>,
    orders: Map<u32, Seq<u32>>,
    table_id: u32,
    item_id: u32,
) -> Result<MenuItem, RestaurantError> {
    if !tables.contains(table_id) {
        Err(RestaurantError::TableNotFound(table_id))
    } else if !(orders.dom().contains(table_id) && orders[table_id].contains(item_id)) {
        Err(RestaurantError::NoMenuForTable(table_id, item_id))
    } else if !has_menu(menus, item_id) {
        Err(RestaurantError::MenuNotFound(item_id))
    } else {
        Ok(menu_for(menus, item_id))
    }
}

/// `first_index_of` finds the first occurrence: it is nonnegative exactly
/// when the item occurs, it points at the item, and nothing before it
/// matches.
pub proof fn lemma_first_index_of(s: Seq<u32>, item_id: u32)
    ensures
        s.contains(item_id) <==> first_index_of(s, item_id) >= 0,
        s.contains(item_id) ==> {
            &&& 0 <= first_index_of(s, item_id) < s.len()
            &&& s[first_index_of(s, item_id)] == item_id
            &&& forall|j: int| 0 <= j < first_index_of(s, item_id) ==> s[j] != item_id
        },
    decreases s.len(),
{
    if s.len() == 0 {
        assert(!s.contains(item_id));
    } else if s.first() == item_id {
        assert(s[0] == item_id);
        assert(s.contains(item_id));
    } else {
        let rest = s.drop_first();
        lemma_first_index_of(rest, item_id);
        assert forall|j: int| 0 <= j < rest.len() implies rest[j] == s[j + 1] by {}
        if rest.contains(item_id) {
            let k = choose|k: int| 0 <= k < rest.len() && rest[k] == item_id;
            assert(s[k + 1] == item_id);
            assert(s.contains(item_id));
            let fi = first_index_of(rest, item_id);
            assert(first_index_of(s, item_id) == 1 + fi);
            assert(s[1 + fi] == rest[fi]);
            assert forall|j: int| 0 <= j < 1 + fi implies s[j] != item_id by {
                if j > 0 {
                    assert(s[j] == rest[j - 1]);
                }
            }
        } else {
            if s.contains(item_id) {
                let k = choose|k: int| 0 <= k < s.len() && s[k] == item_id;
                assert(k != 0);
                assert(rest[k - 1] == item_id);
                assert(rest.contains(item_id));
            }
        }
    }
}

/// A position that holds the item, with no match before it, is exactly
/// `first_index_of`.
pub proof fn lemma_first_index_at(s: Seq<u32>, item_id: u32, pos: int)
    requires
        0 <= pos < s.len(),
        s[pos] == item_id,
        forall|j: int| 0 <= j < pos ==> s[j] != item_id,
    ensures
        first_index_of(s, item_id) == pos,
    decreases s.len(),
{
    assert(s.contains(item_id));
    if pos == 0 {
    } else {
        let rest = s.drop_first();
        assert forall|j: int| 0 <= j < pos - 1 implies rest[j] != item_id by {
            assert(rest[j] == s[j + 1]);
        }
        assert(rest[pos - 1] == item_id);
        lemma_first_index_at(rest, item_id, pos - 1);
    }
}

/// A catalog position whose entry has the given id, with no earlier match,
/// is exactly `menu_index_of`.
pub proof fn lemma_menu_index_at(menus: Seq<MenuItem>, item_id: u32, pos: int)
    requires
        0 <= pos < menus.len(),
        menus[pos].id == item_id,
        forall|j: int| 0 <= j < pos ==> menus[j].id != item_id,
    ensures
        menu_index_of(menus, item_id) == pos,
    decreases menus.len(),
{
    assert(has_menu(menus, item_id));
    if pos == 0 {
    } else {
        let rest = menus.drop_first();
        assert forall|j: int| 0 <= j < pos - 1 implies rest[j].id != item_id by {
            assert(rest[j] == menus[j + 1]);
        }
        assert(rest[pos - 1] == menus[pos]);
        lemma_menu_index_at(rest, item_id, pos - 1);
        assert(has_menu(rest, item_id)) by {
            assert(rest[pos - 1].id == item_id);
        }
    }
}

/// An item occurs exactly when its count is positive.
pub proof fn lemma_item_count_contains(s: Seq<u32>, item_id: u32)
    ensures
        s.contains(item_id) <==> item_count(s, item_id) > 0,
    decreases s.len(),
{
    if s.len() == 0 {
        assert(!s.contains(item_id));
    } else {
        let head = s.drop_last();
        lemma_item_count_contains(head, item_id);
        if s.last() == item_id {
            assert(s.contains(item_id));
        } else {
            if head.contains(item_id) {
                let k = choose|k: int| 0 <= k < head.len() && head[k] == item_id;
                assert(s[k] == item_id);
                assert(s.contains(item_id));
            }
            if s.contains(item_id) {
                let k = choose|k: int| 0 <= k < s.len() && s[k] == item_id;
                assert(k < s.len() - 1);
                assert(head[k] == item_id);
                assert(head.contains(item_id));
            }
        }
    }
}

/// Appending one occurrence raises the count of that item by one and leaves
/// every other count unchanged.
pub proof fn lemma_item_count_push(s: Seq<u32>, pushed: u32, item_id: u32)
    ensures
        item_count(s.push(pushed), item_id) == item_count(s, item_id) + (if pushed == item_id {
            1int
        } else {
            0int
        }),
{
    assert(s.push(pushed).drop_last() =~= s);
    assert(s.push(pushed).last() == pushed);
}

/// Removing one position splits the count: the removed occurrence is gone,
/// everything else stays.
pub proof fn lemma_item_count_remove(s: Seq<u32>, pos: int, item_id: u32)
    requires
        0 <= pos < s.len(),
    ensures
        item_count(s.remove(pos), item_id) == item_count(s, item_id) - (if s[pos] == item_id {
            1int
        } else {
            0int
        }),
    decreases s.len(),
{
    if pos == s.len() - 1 {
        assert(s.remove(pos) =~= s.drop_last());
    } else {
        let head = s.drop_last();
        lemma_item_count_remove(head, pos, item_id);
        assert(s.remove(pos).drop_last() =~= head.remove(pos));
        assert(s.remove(pos).last() == s.last());
    }
}

/// Removing the first occurrence lowers the item's own count by exactly one.
pub proof fn lemma_remove_first_item_count(s: Seq<u32>, item_id: u32)
    requires
        s.contains(item_id),
    ensures
        item_count(remove_first_item(s, item_id), item_id) == item_count(s, item_id) - 1,
{
    lemma_first_index_of(s, item_id);
    lemma_item_count_remove(s, first_index_of(s, item_id), item_id);
}

} // verus!
