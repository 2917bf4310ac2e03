use restaurant_menu_app::data_model::TableStore;
use restaurant_menu_app::table_store::InMemoryTableStore;

#[test]
fn test_get_all_tables_success() {
    let store = InMemoryTableStore::new();
    let tables = store.get_all_tables().unwrap();

    assert_eq!(tables.len(), 100);
    assert_eq!(tables[0], 1);
    assert_eq!(tables[99], 100);
}
