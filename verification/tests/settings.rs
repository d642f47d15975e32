//! The schema's names and lists, the pool's settings, and decimal numbers.

use nutriplan_db_sqlite::controller::database::ingredient::{Ingredient, NewIngredient};
use nutriplan_db_sqlite::controller::database::meal_ingredient::{
    MealIngredient, NewMealIngredient,
};
use nutriplan_db_sqlite::controller::database::recipe::{NewRecipe, Recipe};
use nutriplan_db_sqlite::controller::database::recipe_ingredient::{
    NewRecipeIngredient, RecipeIngredient,
};
use nutriplan_db_sqlite::controller::database::{
    pool_settings, ConnectionOptions, BUSY_TIMEOUT_MILLIS, MAX_POOL_SIZE,
};
use nutriplan_db_sqlite::digits::decimal_text;
use nutriplan_db_sqlite::schema::{Column, Dependent, ForeignKey, Table};

const TABLES: [Table; 6] = [
    Table::Ingredients,
    Table::IngredientMacros,
    Table::Meals,
    Table::MealIngredients,
    Table::Recipes,
    Table::RecipeIngredients,
];

#[test]
fn tables_and_columns_have_their_names() {
    let names: Vec<&str> = TABLES.iter().map(|table| table.name()).collect();
    assert_eq!(
        names,
        vec![
            "ingredients",
            "ingredient_macros",
            "meals",
            "meal_ingredients",
            "recipes",
            "recipe_ingredients",
        ]
    );
    assert_eq!(Column::Id.name(), "id");
    assert_eq!(Column::IngredientId.name(), "ingredient_id");
    assert_eq!(Column::MealId.name(), "meal_id");
    assert_eq!(Column::RecipeId.name(), "recipe_id");
}

#[test]
fn every_foreign_key_has_its_column_and_its_parent() {
    assert_eq!(ForeignKey::IngredientId.column(), Column::IngredientId);
    assert_eq!(ForeignKey::MealId.column(), Column::MealId);
    assert_eq!(ForeignKey::RecipeId.column(), Column::RecipeId);
    assert_eq!(ForeignKey::IngredientId.parent(), Table::Ingredients);
    assert_eq!(ForeignKey::MealId.parent(), Table::Meals);
    assert_eq!(ForeignKey::RecipeId.parent(), Table::Recipes);
}

#[test]
fn dependent_tables_list_their_foreign_keys() {
    assert_eq!(Table::Ingredients.foreign_key_list(), vec![]);
    assert_eq!(Table::Meals.foreign_key_list(), vec![]);
    assert_eq!(Table::Recipes.foreign_key_list(), vec![]);
    assert_eq!(
        Table::IngredientMacros.foreign_key_list(),
        vec![ForeignKey::IngredientId]
    );
    assert_eq!(
        Table::MealIngredients.foreign_key_list(),
        vec![ForeignKey::MealId, ForeignKey::IngredientId]
    );
    assert_eq!(
        Table::RecipeIngredients.foreign_key_list(),
        vec![ForeignKey::RecipeId, ForeignKey::IngredientId]
    );
}

#[test]
fn parent_tables_list_their_dependents() {
    assert_eq!(
        Table::Ingredients.dependent_list(),
        vec![
            Dependent { table: Table::IngredientMacros, key: ForeignKey::IngredientId },
            Dependent { table: Table::MealIngredients, key: ForeignKey::IngredientId },
            Dependent { table: Table::RecipeIngredients, key: ForeignKey::IngredientId },
        ]
    );
    assert_eq!(
        Table::Meals.dependent_list(),
        vec![Dependent { table: Table::MealIngredients, key: ForeignKey::MealId }]
    );
    assert_eq!(
        Table::Recipes.dependent_list(),
        vec![Dependent { table: Table::RecipeIngredients, key: ForeignKey::RecipeId }]
    );
    assert_eq!(Table::IngredientMacros.dependent_list(), vec![]);
    assert_eq!(Table::MealIngredients.dependent_list(), vec![]);
    assert_eq!(Table::RecipeIngredients.dependent_list(), vec![]);
}

#[test]
fn every_foreign_key_is_listed_as_a_dependent_of_its_parent() {
    let mut keys = 0;
    for table in TABLES {
        for key in table.foreign_key_list() {
            let place = Dependent { table, key };
            assert!(key.parent().dependent_list().contains(&place));
            keys += 1;
        }
    }
    let mut places = 0;
    for parent in TABLES {
        for place in parent.dependent_list() {
            assert_eq!(place.key.parent(), parent);
            assert!(place.table.foreign_key_list().contains(&place.key));
            places += 1;
        }
    }
    assert_eq!(keys, 5);
    assert_eq!(places, 5);
}

#[test]
fn the_pool_has_its_settings() {
    let settings = pool_settings();
    assert_eq!(settings.max_size, 16);
    assert_eq!(MAX_POOL_SIZE, 16);
    assert_eq!(BUSY_TIMEOUT_MILLIS, 30000);
    assert_eq!(
        settings.options,
        ConnectionOptions {
            enable_wal: true,
            enable_foreign_keys: true,
            busy_timeout: Some(30000),
        }
    );
    assert_eq!(
        settings.options.pragmas(),
        vec![
            "PRAGMA journal_mode = WAL; PRAGMA synchronous = NORMAL;",
            "PRAGMA foreign_keys = ON;",
            "PRAGMA busy_timeout = 30000",
        ]
    );
}

#[test]
fn a_connection_gets_only_the_pragmas_it_asks_for() {
    let mut options =
        ConnectionOptions { enable_wal: false, enable_foreign_keys: false, busy_timeout: None };
    assert_eq!(options.pragmas(), Vec::<String>::new());
    options.enable_foreign_keys = true;
    assert_eq!(options.pragmas(), vec!["PRAGMA foreign_keys = ON;"]);
    options.busy_timeout = Some(0);
    assert_eq!(options.pragmas(), vec!["PRAGMA foreign_keys = ON;", "PRAGMA busy_timeout = 0"]);
    options.enable_foreign_keys = false;
    options.enable_wal = true;
    options.busy_timeout = Some(u64::MAX);
    assert_eq!(
        options.pragmas(),
        vec![
            "PRAGMA journal_mode = WAL; PRAGMA synchronous = NORMAL;",
            "PRAGMA busy_timeout = 18446744073709551615",
        ]
    );
}

#[test]
fn numbers_are_written_in_decimal() {
    assert_eq!(decimal_text(0), "0");
    assert_eq!(decimal_text(7), "7");
    assert_eq!(decimal_text(10), "10");
    assert_eq!(decimal_text(1234567890), "1234567890");
    assert_eq!(decimal_text(30000), "30000");
    assert_eq!(decimal_text(u64::MAX), u64::MAX.to_string());
}

#[test]
fn items_are_made_of_their_fields() {
    assert_eq!(NewIngredient::new("test"), NewIngredient { name: String::from("test") });
    assert_eq!(
        Ingredient::new(1, "updated"),
        Ingredient { id: Some(1), name: String::from("updated") }
    );
    assert_eq!(
        NewRecipe::new("testitem", "testdescription"),
        NewRecipe {
            name: String::from("testitem"),
            description: String::from("testdescription"),
        }
    );
    assert_eq!(
        Recipe::new(1, "updatedname", "updateddescription"),
        Recipe {
            id: Some(1),
            name: String::from("updatedname"),
            description: String::from("updateddescription"),
        }
    );
    assert_eq!(
        NewMealIngredient::new(1, 2, 123),
        NewMealIngredient { meal_id: 1, ingredient_id: 2, mass: 123 }
    );
    assert_eq!(
        MealIngredient::new(1, 2, 3, 456),
        MealIngredient { id: Some(1), meal_id: 2, ingredient_id: 3, mass: 456 }
    );
    assert_eq!(
        NewRecipeIngredient::new(1, 2, 123),
        NewRecipeIngredient { recipe_id: 1, ingredient_id: 2, mass: 123 }
    );
    assert_eq!(
        RecipeIngredient::new(1, 2, 3, 456),
        RecipeIngredient { id: Some(1), recipe_id: 2, ingredient_id: 3, mass: 456 }
    );
}
