//! The decisions of an operation, step by step, with the replies given by
//! hand.

use nutriplan_db_sqlite::controller::database::ingredient::{CRUDIngredient, NewIngredient};
use nutriplan_db_sqlite::controller::database::ingredient_macro::{
    CRUDIngredientMacro, NewIngredientMacro,
};
use nutriplan_db_sqlite::controller::database::meal::CRUDMeal;
use nutriplan_db_sqlite::controller::database::meal_ingredient::{
    CRUDMealIngredient, MealIngredient, NewMealIngredient,
};
use nutriplan_db_sqlite::controller::database::recipe::CRUDRecipe;
use nutriplan_db_sqlite::controller::database::recipe_ingredient::{
    CRUDRecipeIngredient, NewRecipeIngredient,
};
use nutriplan_db_sqlite::operation::Operation;
use nutriplan_db_sqlite::protocol::{
    first_row, rows_reply, write_reply, Action, References, Reply, Statement, StoreError,
};
use nutriplan_db_sqlite::schema::{Column, ForeignKey, Table};

/// Runs an operation with the given replies and lists what it asked for.
fn trace(mut op: Operation, replies: &[Reply]) -> (Vec<Statement>, Option<bool>) {
    let mut asked = Vec::new();
    let mut given = replies.iter();
    loop {
        match op.next() {
            Action::Finish(result) => return (asked, Some(result)),
            Action::Execute(statement) => {
                asked.push(statement);
                match given.next() {
                    Some(reply) => op.advance(*reply),
                    None => return (asked, None),
                }
            }
        }
    }
}

fn select(table: Table, id: i32) -> Statement {
    Statement::Select { table, id }
}

fn delete(table: Table, column: Column, value: i32) -> Statement {
    Statement::Delete { table, column, value }
}

#[test]
fn create_of_a_parent_is_one_insert() {
    let op = CRUDIngredient::create(&NewIngredient::new("test"));
    let (asked, result) = trace(op, &[Reply::Written]);
    assert_eq!(asked, vec![Statement::Insert { table: Table::Ingredients }]);
    assert_eq!(result, Some(true));
}

#[test]
fn create_reports_a_failed_insert() {
    let op = CRUDIngredient::create(&NewIngredient::new("test"));
    let (asked, result) = trace(op, &[Reply::Failed]);
    assert_eq!(asked, vec![Statement::Insert { table: Table::Ingredients }]);
    assert_eq!(result, Some(false));
}

#[test]
fn create_of_a_macro_looks_its_ingredient_up() {
    let item = NewIngredientMacro {
        ingredient_id: 5,
        proteins: 1u8,
        carbs: 2u8,
        fats: 3u8,
        alcohols: 4u8,
        calories: 40u8,
    };
    let (asked, result) =
        trace(CRUDIngredientMacro::create(&item), &[Reply::Rows(1), Reply::Written]);
    assert_eq!(
        asked,
        vec![select(Table::Ingredients, 5), Statement::Insert { table: Table::IngredientMacros }]
    );
    assert_eq!(result, Some(true));
}

#[test]
fn create_of_a_macro_stops_at_a_missing_ingredient() {
    let item = NewIngredientMacro {
        ingredient_id: 5,
        proteins: 1u8,
        carbs: 2u8,
        fats: 3u8,
        alcohols: 4u8,
        calories: 40u8,
    };
    let (asked, result) = trace(CRUDIngredientMacro::create(&item), &[Reply::Rows(0)]);
    assert_eq!(asked, vec![select(Table::Ingredients, 5)]);
    assert_eq!(result, Some(false));
}

#[test]
fn create_of_a_meal_ingredient_looks_both_parents_up() {
    let item = NewMealIngredient::new(7, 8, 100);
    let (asked, result) = trace(
        CRUDMealIngredient::create(&item),
        &[Reply::Rows(1), Reply::Rows(1), Reply::Written],
    );
    assert_eq!(
        asked,
        vec![
            select(Table::Meals, 7),
            select(Table::Ingredients, 8),
            Statement::Insert { table: Table::MealIngredients },
        ]
    );
    assert_eq!(result, Some(true));
}

#[test]
fn create_of_a_meal_ingredient_looks_the_ingredient_up_after_a_missing_meal() {
    let item = NewMealIngredient::new(7, 8, 100);
    let (asked, result) =
        trace(CRUDMealIngredient::create(&item), &[Reply::Rows(0), Reply::Rows(1)]);
    assert_eq!(asked, vec![select(Table::Meals, 7), select(Table::Ingredients, 8)]);
    assert_eq!(result, Some(false));
}

#[test]
fn create_of_a_recipe_ingredient_stops_at_a_missing_ingredient() {
    let item = NewRecipeIngredient::new(7, 8, 100);
    let (asked, result) =
        trace(CRUDRecipeIngredient::create(&item), &[Reply::Rows(1), Reply::Rows(0)]);
    assert_eq!(asked, vec![select(Table::Recipes, 7), select(Table::Ingredients, 8)]);
    assert_eq!(result, Some(false));
}

#[test]
fn a_failed_lookup_counts_as_a_missing_parent() {
    let item = NewRecipeIngredient::new(7, 8, 100);
    let (asked, result) =
        trace(CRUDRecipeIngredient::create(&item), &[Reply::Failed, Reply::Rows(1)]);
    assert_eq!(asked.len(), 2);
    assert_eq!(result, Some(false));
}

#[test]
fn a_write_reply_to_a_lookup_finds_nothing() {
    let item = NewRecipeIngredient::new(7, 8, 100);
    let (asked, result) =
        trace(CRUDRecipeIngredient::create(&item), &[Reply::Written, Reply::Rows(1)]);
    assert_eq!(asked.len(), 2);
    assert_eq!(result, Some(false));
}

#[test]
fn read_and_check_are_one_lookup() {
    let (asked, result) = trace(CRUDMeal::read(4), &[Reply::Rows(1)]);
    assert_eq!(asked, vec![select(Table::Meals, 4)]);
    assert_eq!(result, Some(true));
    let (asked, result) = trace(CRUDMeal::check(4), &[Reply::Rows(0)]);
    assert_eq!(asked, vec![select(Table::Meals, 4)]);
    assert_eq!(result, Some(false));
    let (_, result) = trace(CRUDMeal::check(4), &[Reply::Failed]);
    assert_eq!(result, Some(false));
    let (_, result) = trace(CRUDMeal::check(4), &[Reply::Rows(2)]);
    assert_eq!(result, Some(true));
}

#[test]
fn update_is_one_write_without_lookups() {
    let item = MealIngredient::new(1, 2, 3, 456);
    let (asked, result) = trace(CRUDMealIngredient::update(1, &item), &[Reply::Written]);
    assert_eq!(asked, vec![Statement::Update { table: Table::MealIngredients, id: 1 }]);
    assert_eq!(result, Some(true));
    let (_, result) = trace(CRUDMealIngredient::update(1, &item), &[Reply::Failed]);
    assert_eq!(result, Some(false));
}

#[test]
fn update_item_takes_the_id_of_the_item() {
    let item = MealIngredient::new(9, 2, 3, 456);
    let (asked, result) = trace(CRUDMealIngredient::update_item(&item), &[Reply::Written]);
    assert_eq!(asked, vec![Statement::Update { table: Table::MealIngredients, id: 9 }]);
    assert_eq!(result, Some(true));
    let item = MealIngredient { id: None, meal_id: 2, ingredient_id: 3, mass: 456 };
    let (asked, result) = trace(CRUDMealIngredient::update_item(&item), &[]);
    assert_eq!(asked, vec![]);
    assert_eq!(result, Some(false));
}

#[test]
fn delete_of_an_ingredient_clears_three_tables_first() {
    let replies = [Reply::Written; 4];
    let (asked, result) = trace(CRUDIngredient::delete(6), &replies);
    assert_eq!(
        asked,
        vec![
            delete(Table::IngredientMacros, Column::IngredientId, 6),
            delete(Table::MealIngredients, Column::IngredientId, 6),
            delete(Table::RecipeIngredients, Column::IngredientId, 6),
            delete(Table::Ingredients, Column::Id, 6),
        ]
    );
    assert_eq!(result, Some(true));
}

#[test]
fn delete_of_a_meal_and_of_a_recipe_clears_their_ingredients_first() {
    let (asked, result) = trace(CRUDMeal::delete(6), &[Reply::Written, Reply::Written]);
    assert_eq!(
        asked,
        vec![
            delete(Table::MealIngredients, Column::MealId, 6),
            delete(Table::Meals, Column::Id, 6),
        ]
    );
    assert_eq!(result, Some(true));
    let (asked, result) = trace(CRUDRecipe::delete(6), &[Reply::Written, Reply::Written]);
    assert_eq!(
        asked,
        vec![
            delete(Table::RecipeIngredients, Column::RecipeId, 6),
            delete(Table::Recipes, Column::Id, 6),
        ]
    );
    assert_eq!(result, Some(true));
}

#[test]
fn delete_of_a_dependent_is_one_delete() {
    let (asked, result) = trace(CRUDIngredientMacro::delete(6), &[Reply::Written]);
    assert_eq!(asked, vec![delete(Table::IngredientMacros, Column::Id, 6)]);
    assert_eq!(result, Some(true));
}

#[test]
fn delete_goes_on_after_a_failed_cascade_and_reports_the_last_statement() {
    let replies = [Reply::Failed, Reply::Failed, Reply::Failed, Reply::Written];
    let (asked, result) = trace(CRUDIngredient::delete(6), &replies);
    assert_eq!(asked.len(), 4);
    assert_eq!(result, Some(true));
    let replies = [Reply::Written, Reply::Written, Reply::Written, Reply::Failed];
    let (asked, result) = trace(CRUDIngredient::delete(6), &replies);
    assert_eq!(asked.len(), 4);
    assert_eq!(result, Some(false));
}

#[test]
fn delete_by_parent_is_one_delete_on_the_foreign_key() {
    let (asked, result) = trace(CRUDMealIngredient::delete_by_meal_id(3), &[Reply::Written]);
    assert_eq!(asked, vec![delete(Table::MealIngredients, Column::MealId, 3)]);
    assert_eq!(result, Some(true));
    let (asked, _) = trace(CRUDMealIngredient::delete_by_ingredient_id(3), &[Reply::Written]);
    assert_eq!(asked, vec![delete(Table::MealIngredients, Column::IngredientId, 3)]);
    let (asked, _) = trace(CRUDRecipeIngredient::delete_by_recipe_id(3), &[Reply::Written]);
    assert_eq!(asked, vec![delete(Table::RecipeIngredients, Column::RecipeId, 3)]);
    let (asked, _) = trace(CRUDRecipeIngredient::delete_by_ingredient_id(3), &[Reply::Written]);
    assert_eq!(asked, vec![delete(Table::RecipeIngredients, Column::IngredientId, 3)]);
    let (asked, result) = trace(CRUDIngredientMacro::delete_by_ingredient_id(3), &[Reply::Failed]);
    assert_eq!(asked, vec![delete(Table::IngredientMacros, Column::IngredientId, 3)]);
    assert_eq!(result, Some(false));
}

#[test]
fn an_operation_that_is_over_ignores_replies() {
    let mut op = CRUDMeal::check(1);
    op.advance(Reply::Rows(1));
    assert_eq!(op.next(), Action::Finish(true));
    op.advance(Reply::Failed);
    op.advance(Reply::Rows(0));
    assert_eq!(op.next(), Action::Finish(true));

    let mut op = Operation::refused();
    assert_eq!(op.next(), Action::Finish(false));
    op.advance(Reply::Written);
    assert_eq!(op.next(), Action::Finish(false));
}

#[test]
fn next_does_not_move_the_operation() {
    let op = CRUDMeal::delete(1);
    assert_eq!(op.next(), op.next());
    assert_eq!(op.next(), Action::Execute(delete(Table::MealIngredients, Column::MealId, 1)));
}

#[test]
fn operations_are_built_from_the_schema() {
    let references = References { ingredient_id: 1, meal_id: 2, recipe_id: 3 };
    let (asked, _) = trace(Operation::create(Table::RecipeIngredients, references), &[]);
    assert_eq!(asked, vec![select(Table::Recipes, 3)]);
    let (asked, _) = trace(Operation::create(Table::Meals, references), &[]);
    assert_eq!(asked, vec![Statement::Insert { table: Table::Meals }]);
    let (asked, _) = trace(Operation::update(Table::Recipes, 4), &[]);
    assert_eq!(asked, vec![Statement::Update { table: Table::Recipes, id: 4 }]);
    let (asked, _) = trace(Operation::read(Table::Recipes, 4), &[]);
    assert_eq!(asked, vec![select(Table::Recipes, 4)]);
    let (asked, _) = trace(Operation::delete(Table::Recipes, 4), &[]);
    assert_eq!(asked, vec![delete(Table::RecipeIngredients, Column::RecipeId, 4)]);
    let (asked, _) = trace(Operation::delete_where(Table::Recipes, Column::Id, 4), &[]);
    assert_eq!(asked, vec![delete(Table::Recipes, Column::Id, 4)]);
}

#[test]
fn references_are_read_by_key() {
    let references = References { ingredient_id: 1, meal_id: 2, recipe_id: 3 };
    assert_eq!(references.of(ForeignKey::IngredientId), 1);
    assert_eq!(references.of(ForeignKey::MealId), 2);
    assert_eq!(references.of(ForeignKey::RecipeId), 3);
    assert_eq!(References::none(), References { ingredient_id: 0, meal_id: 0, recipe_id: 0 });
}

#[test]
fn first_row_picks_the_first_of_the_rows_loaded() {
    assert_eq!(first_row(Ok(vec![7, 8, 9])), Some(7));
    assert_eq!(first_row(Ok(vec!["only"])), Some("only"));
    assert_eq!(first_row::<i32>(Ok(vec![])), None);
    assert_eq!(first_row::<i32>(Err(StoreError)), None);
}

#[test]
fn replies_say_how_a_statement_ended() {
    assert_eq!(rows_reply(&Ok(vec![7, 8, 9])), Reply::Rows(3));
    assert_eq!(rows_reply::<i32>(&Ok(vec![])), Reply::Rows(0));
    assert_eq!(rows_reply::<i32>(&Err(StoreError)), Reply::Failed);
    assert_eq!(write_reply(&Ok(0)), Reply::Written);
    assert_eq!(write_reply(&Ok(5)), Reply::Written);
    assert_eq!(write_reply(&Err(StoreError)), Reply::Failed);
}

#[test]
fn replies_are_read_as_found_and_succeeded() {
    assert!(Reply::Rows(1).found());
    assert!(Reply::Rows(3).found());
    assert!(!Reply::Rows(0).found());
    assert!(!Reply::Written.found());
    assert!(!Reply::Failed.found());
    assert!(Reply::Rows(0).succeeded());
    assert!(Reply::Written.succeeded());
    assert!(!Reply::Failed.succeeded());
    assert!(select(Table::Meals, 1).is_lookup());
    assert!(!delete(Table::Meals, Column::Id, 1).is_lookup());
    assert!(!Statement::Insert { table: Table::Meals }.is_lookup());
    assert!(!Statement::Update { table: Table::Meals, id: 1 }.is_lookup());
}
