//! In-memory implementation of the `MenuStore` trait.
//!
//! The catalog is seeded once — either with a caller-provided list or with
//! the predefined recipes — and is read-only for the lifetime of the
//! process. The returned order is the seed order, not sorted by id.

use vstd::prelude::*;

use crate::data_model::{MenuItem, MenuStore};
use crate::error::RestaurantError;

verus! {

/// How many recipes the predefined catalog holds.
pub const PREDEFINED_RECIPE_COUNT: u32 = 20;

/// Name of the predefined recipe at position `j` of the seed.
pub open spec fn recipe_seed_name(j: int) -> Seq<char> {
    if j == 0 {
        "Salad"@
    } else if j == 1 {
        "Soup"@
    } else if j == 2 {
        "Sandwich"@
    } else if j == 3 {
        "Pasta"@
    } else if j == 4 {
        "Steak"@
    } else if j == 5 {
        "Burger"@
    } else if j == 6 {
        "Pizza"@
    } else if j == 7 {
        "Tacos"@
    } else if j == 8 {
        "Fries"@
    } else if j == 9 {
        "Stir Fry"@
    } else if j == 10 {
        "Omelette"@
    } else if j == 11 {
        "Pancakes"@
    } else if j == 12 {
        "Sushi"@
    } else if j == 13 {
        "Curry"@
    } else if j == 14 {
        "Fish & Chips"@
    } else if j == 15 {
        "Fried Rice"@
    } else if j == 16 {
        "Ramen"@
    } else if j == 17 {
        "Burrito"@
    } else if j == 18 {
        "Waffles"@
    } else {
        "Salmon"@
    }
}

/// Cooking time, in minutes, of the predefined recipe at position `j`.
pub open spec fn recipe_seed_time(j: int) -> u64 {
    if j == 0 {
        1
    } else if j == 1 {
        5
    } else if j == 2 {
        7
    } else if j == 3 {
        12
    } else if j == 4 {
        15
    } else if j == 5 {
        10
    } else if j == 6 {
        14
    } else if j == 7 {
        8
    } else if j == 8 {
        3
    } else if j == 9 {
        10
    } else if j == 10 {
        4
    } else if j == 11 {
        6
    } else if j == 12 {
        12
    } else if j == 13 {
        15
    } else if j == 14 {
        13
    } else if j == 15 {
        9
    } else if j == 16 {
        14
    } else if j == 17 {
        8
    } else if j == 18 {
        5
    } else {
        13
    }
}

/// The catalog entry at position `j` matches the predefined seed: id `j + 1`
/// and the seeded name and cooking time.
pub open spec fn matches_recipe_seed(menus: Seq<MenuItem>, j: int) -> bool {
    &&& menus[j].id == j + 1
    &&& menus[j].name@ == recipe_seed_name(j)
    &&& menus[j].cooking_time == recipe_seed_time(j)
}

/// In-memory menu catalog.
pub struct InMemoryMenuStore {
    menus: Vec<MenuItem>,
}

impl InMemoryMenuStore {
    /// Creates a catalog holding exactly the provided menu items, in order.
    pub fn new(menus: Vec<MenuItem>) -> (s: Self)
        ensures
            s.catalog() == menus@,
    {
        InMemoryMenuStore { menus }
    }

    /// Creates a catalog holding the predefined recipes, with ids 1 through
    /// `PREDEFINED_RECIPE_COUNT` and cooking times between 1 and 15 minutes.
    pub fn with_predefined_recipes() -> (s: Self)
        ensures
            s.catalog().len() == PREDEFINED_RECIPE_COUNT,
            forall|j: int|
                0 <= j < PREDEFINED_RECIPE_COUNT ==> #[trigger] matches_recipe_seed(
                    s.catalog(),
                    j,
                ),
    {
        let mut menus: Vec<MenuItem> = Vec::new();
        menus.push(MenuItem { id: 1, name: "Salad".to_owned(), cooking_time: 1 });
        menus.push(MenuItem { id: 2, name: "Soup".to_owned(), cooking_time: 5 });
        menus.push(MenuItem { id: 3, name: "Sandwich".to_owned(), cooking_time: 7 });
        menus.push(MenuItem { id: 4, name: "Pasta".to_owned(), cooking_time: 12 });
        menus.push(MenuItem { id: 5, name: "Steak".to_owned(), cooking_time: 15 });
        menus.push(MenuItem { id: 6, name: "Burger".to_owned(), cooking_time: 10 });
        menus.push(MenuItem { id: 7, name: "Pizza".to_owned(), cooking_time: 14 });
        menus.push(MenuItem { id: 8, name: "Tacos".to_owned(), cooking_time: 8 });
        menus.push(MenuItem { id: 9, name: "Fries".to_owned(), cooking_time: 3 });
        menus.push(MenuItem { id: 10, name: "Stir Fry".to_owned(), cooking_time: 10 });
        menus.push(MenuItem { id: 11, name: "Omelette".to_owned(), cooking_time: 4 });
        menus.push(MenuItem { id: 12, name: "Pancakes".to_owned(), cooking_time: 6 });
        menus.push(MenuItem { id: 13, name: "Sushi".to_owned(), cooking_time: 12 });
        menus.push(MenuItem { id: 14, name: "Curry".to_owned(), cooking_time: 15 });
        menus.push(MenuItem { id: 15, name: "Fish & Chips".to_owned(), cooking_time: 13 });
        menus.push(MenuItem { id: 16, name: "Fried Rice".to_owned(), cooking_time: 9 });
        menus.push(MenuItem { id: 17, name: "Ramen".to_owned(), cooking_time: 14 });
        menus.push(MenuItem { id: 18, name: "Burrito".to_owned(), cooking_time: 8 });
        menus.push(MenuItem { id: 19, name: "Waffles".to_owned(), cooking_time: 5 });
        menus.push(MenuItem { id: 20, name: "Salmon".to_owned(), cooking_time: 13 });
        Self::new(menus)
    }
}

impl Default for InMemoryMenuStore {
    /// The predefined catalog, as `with_predefined_recipes` builds it.
    fn default() -> (s: Self)
        ensures
            s.catalog().len() == PREDEFINED_RECIPE_COUNT,
            forall|j: int|
                0 <= j < PREDEFINED_RECIPE_COUNT ==> #[trigger] matches_recipe_seed(
                    s.catalog(),
                    j,
                ),
    {
        Self::with_predefined_recipes()
    }
}

impl MenuStore for InMemoryMenuStore {
    closed spec fn catalog(&self) -> Seq<MenuItem> {
        self.menus@
    }

    fn get_all_menus(&self) -> (r: Result<Vec<MenuItem>, RestaurantError>) {
        let out = self.menus.clone();
        proof {
            assert(out@ =~= self.menus@);
        }
        Ok(out)
    }
}

} // verus!
