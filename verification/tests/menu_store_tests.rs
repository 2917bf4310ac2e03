use restaurant_menu_app::data_model::{MenuItem, MenuStore};
use restaurant_menu_app::menu_store::InMemoryMenuStore;

#[test]
fn test_get_all_menus_success() {
    let store = InMemoryMenuStore::with_predefined_recipes();
    let menus = store.get_all_menus().unwrap();

    assert_eq!(menus.len(), 20);
    assert!(menus.iter().any(|item| item.name == "Burger"));
    assert!(menus.iter().any(|item| item.name == "Sushi"));
}

#[test]
fn test_get_all_menus_custom_items_success() {
    let custom_items = vec![
        MenuItem { id: 1, name: "Custom Item 1".to_string(), cooking_time: 5 },
        MenuItem { id: 2, name: "Custom Item 2".to_string(), cooking_time: 10 },
    ];
    let store = InMemoryMenuStore::new(custom_items.clone());
    let menus = store.get_all_menus().unwrap();

    assert_eq!(menus.len(), 2);
    assert_eq!(menus, custom_items);
}

#[test]
fn test_predefined_recipe_times() {
    let store = InMemoryMenuStore::with_predefined_recipes();
    let menus = store.get_all_menus().unwrap();

    assert_eq!(menus[0].name, "Salad");
    assert_eq!(menus[0].cooking_time, 1);
    assert_eq!(menus[5].id, 6);
    assert_eq!(menus[5].name, "Burger");
    assert_eq!(menus[5].cooking_time, 10);
    assert_eq!(menus[18].name, "Waffles");
    assert_eq!(menus[18].cooking_time, 5);
    assert_eq!(menus[19].id, 20);
    assert_eq!(menus[19].name, "Salmon");
    assert_eq!(menus[19].cooking_time, 13);
}
