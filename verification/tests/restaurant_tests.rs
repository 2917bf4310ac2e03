use restaurant_menu_app::data_model::{MenuItem, OrderStore, Restaurant};
use restaurant_menu_app::error::RestaurantError;
use restaurant_menu_app::menu_store::InMemoryMenuStore;
use restaurant_menu_app::order_store::InMemoryOrderStore;
use restaurant_menu_app::restaurant::SimpleRestaurant;
use restaurant_menu_app::table_store::InMemoryTableStore;

fn burger_menu() -> InMemoryMenuStore {
    InMemoryMenuStore::new(vec![MenuItem {
        id: 1,
        name: "Burger".to_string(),
        cooking_time: 10,
    }])
}

#[test]
fn restaurant_test_add_item_success() {
    let table_id = 1;
    let item_id = 1;

    let mut restaurant =
        SimpleRestaurant::new(burger_menu(), InMemoryOrderStore::new(), InMemoryTableStore::new());

    let result = restaurant.add_item(table_id, item_id);
    assert!(result.is_ok());
}

#[test]
fn test_add_item_failure() {
    let table_id = 1;
    let item_id = 1;

    // An empty catalog: the menu item cannot be found.
    let mut restaurant = SimpleRestaurant::new(
        InMemoryMenuStore::new(vec![]),
        InMemoryOrderStore::new(),
        InMemoryTableStore::new(),
    );

    let result = restaurant.add_item(table_id, item_id);
    assert!(result.is_err());
    assert_eq!(result.unwrap_err(), RestaurantError::MenuNotFound(item_id));
}

#[test]
fn restaurant_test_remove_item_success() {
    let table_id = 1;
    let item_id = 1;

    let mut restaurant =
        SimpleRestaurant::new(burger_menu(), InMemoryOrderStore::new(), InMemoryTableStore::new());

    restaurant.add_item(table_id, item_id).unwrap();
    let result = restaurant.remove_item(table_id, item_id);
    assert!(result.is_ok());
}

#[test]
fn test_remove_item_failure() {
    let table_id = 1;
    let item_id = 1;

    // Nothing was ever ordered at the table: the ledger's error propagates
    // through the facade unchanged.
    let mut restaurant =
        SimpleRestaurant::new(burger_menu(), InMemoryOrderStore::new(), InMemoryTableStore::new());

    let result = restaurant.remove_item(table_id, item_id);
    assert!(result.is_err());
    assert_eq!(result.unwrap_err(), RestaurantError::NoMenusForTable(table_id));
}

#[test]
fn restaurant_test_get_items_success() {
    let table_id = 1;
    let item_id = 1;

    let mut restaurant =
        SimpleRestaurant::new(burger_menu(), InMemoryOrderStore::new(), InMemoryTableStore::new());

    restaurant.add_item(table_id, item_id).unwrap();
    let result = restaurant.get_items(table_id).unwrap();
    assert_eq!(result.len(), 1);
    assert_eq!(result[0].name, "Burger");
}

#[test]
fn test_get_items_failure() {
    let table_id = 1;

    // Nothing was ever ordered at the table: the ledger's error propagates
    // through the facade unchanged.
    let restaurant =
        SimpleRestaurant::new(burger_menu(), InMemoryOrderStore::new(), InMemoryTableStore::new());

    let result = restaurant.get_items(table_id);
    assert!(result.is_err());
    assert_eq!(result.unwrap_err(), RestaurantError::NoMenusForTable(table_id));
}

#[test]
fn restaurant_test_get_item_success() {
    let table_id = 1;
    let item_id = 1;

    let mut restaurant =
        SimpleRestaurant::new(burger_menu(), InMemoryOrderStore::new(), InMemoryTableStore::new());

    restaurant.add_item(table_id, item_id).unwrap();
    let result = restaurant.get_item(table_id, item_id).unwrap();
    assert_eq!(result.name, "Burger");
}

#[test]
fn test_get_item_failure() {
    let table_id = 1;
    let item_id = 1;

    // The table never ordered the item: the ledger probe's error propagates
    // through the facade unchanged.
    let restaurant =
        SimpleRestaurant::new(burger_menu(), InMemoryOrderStore::new(), InMemoryTableStore::new());

    let result = restaurant.get_item(table_id, item_id);
    assert!(result.is_err());
    assert_eq!(result.unwrap_err(), RestaurantError::NoMenuForTable(table_id, item_id));
}

#[test]
fn test_get_item_menu_since_removed() {
    // The ledger holds an occurrence of an id the catalog does not list:
    // `get_item` reports the catalog miss, distinct from the ledger miss.
    let mut orders = InMemoryOrderStore::new();
    orders.add_item(1, 99).unwrap();
    let restaurant = SimpleRestaurant::new(burger_menu(), orders, InMemoryTableStore::new());

    let result = restaurant.get_item(1, 99);
    assert_eq!(result.unwrap_err(), RestaurantError::MenuNotFound(99));
}

#[test]
fn test_get_items_drops_uncataloged_ids() {
    // The defensive join: an ordered id the catalog no longer lists is
    // silently dropped from the listing instead of failing it.
    let mut orders = InMemoryOrderStore::new();
    orders.add_item(1, 99).unwrap();
    orders.add_item(1, 1).unwrap();
    let restaurant = SimpleRestaurant::new(burger_menu(), orders, InMemoryTableStore::new());

    let items = restaurant.get_items(1).unwrap();
    assert_eq!(items.len(), 1);
    assert_eq!(items[0].name, "Burger");
}
