use restaurant_menu_app::data_model::OrderStore;
use restaurant_menu_app::error::RestaurantError;
use restaurant_menu_app::order_store::InMemoryOrderStore;

#[test]
fn in_memory_order_store_test_add_item_success() {
    let mut store = InMemoryOrderStore::new();
    let table_id = 1;
    let item_id = 42;

    let result = store.add_item(table_id, item_id);
    assert!(result.is_ok());
    let item_ids = store.get_item_ids(table_id).unwrap();
    assert_eq!(item_ids.len(), 1);
    assert_eq!(item_ids[0], item_id);
}

#[test]
fn in_memory_order_store_test_remove_item_success() {
    let mut store = InMemoryOrderStore::new();
    let table_id = 1;
    let item_id = 42;

    store.add_item(table_id, item_id).unwrap();
    let result = store.remove_item(table_id, item_id);
    assert!(result.is_ok());
    let item_ids = store.get_item_ids(table_id).unwrap();
    assert!(item_ids.is_empty());
}

#[test]
fn test_remove_item_not_found() {
    let mut store = InMemoryOrderStore::new();
    let table_id = 1;
    let item_id = 42;

    store.add_item(table_id, item_id).unwrap();
    let result = store.remove_item(table_id, 99);
    assert!(matches!(result, Err(RestaurantError::NoMenuForTable(1, 99))));
}

#[test]
fn in_memory_order_store_test_remove_item_table_not_found() {
    let mut store = InMemoryOrderStore::new();
    let result = store.remove_item(99, 1);
    assert!(matches!(result, Err(RestaurantError::NoMenusForTable(99))));
}

#[test]
fn test_get_item_ids_success() {
    let mut store = InMemoryOrderStore::new();
    let table_id = 1;
    let item_id1 = 42;
    let item_id2 = 43;

    store.add_item(table_id, item_id1).unwrap();
    store.add_item(table_id, item_id2).unwrap();
    let item_ids = store.get_item_ids(table_id).unwrap();
    assert_eq!(item_ids.len(), 2);
    assert_eq!(item_ids, vec![item_id1, item_id2]);
}

#[test]
fn test_get_item_ids_table_not_found() {
    let store = InMemoryOrderStore::new();
    let result = store.get_item_ids(99);
    assert!(matches!(result, Err(RestaurantError::NoMenusForTable(99))));
}

#[test]
fn test_get_item_id_success() {
    let mut store = InMemoryOrderStore::new();
    let table_id = 1;
    let item_id = 42;

    store.add_item(table_id, item_id).unwrap();
    let retrieved_item_id = store.get_item_id(table_id, item_id).unwrap();
    assert_eq!(retrieved_item_id, item_id);
}

#[test]
fn test_get_item_id_not_found() {
    let store = InMemoryOrderStore::new();
    let table_id = 1;

    let result = store.get_item_id(table_id, 99);
    assert!(matches!(result, Err(RestaurantError::NoMenuForTable(1, 99))));
}

#[test]
fn test_remove_targets_first_occurrence_only() {
    let mut store = InMemoryOrderStore::new();
    store.add_item(7, 3).unwrap();
    store.add_item(7, 5).unwrap();
    store.add_item(7, 3).unwrap();

    store.remove_item(7, 3).unwrap();
    let item_ids = store.get_item_ids(7).unwrap();
    assert_eq!(item_ids, vec![5, 3]);
}
