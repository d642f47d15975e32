//! The ingredients of a recipe: which ingredient, and how much of it.

use crate::operation::{
    create_operation, delete_operation, delete_where_operation, read_operation,
    update_operation, Operation, OperationView,
};
use crate::protocol::References;
use crate::schema::{Column, Table};
use vstd::prelude::*;

verus! {

/// An ingredient of a recipe that the store has not seen yet.
#[derive(Clone, Copy, Debug, PartialEq, Eq)]
pub struct NewRecipeIngredient {
    pub recipe_id: i32,
    pub ingredient_id: i32,
    pub mass: i32,
}

impl NewRecipeIngredient {
    pub fn new(recipe_id: i32, ingredient_id: i32, mass: i32) -> (item: NewRecipeIngredient)
        ensures
            item == (NewRecipeIngredient { recipe_id, ingredient_id, mass }),
    {
        NewRecipeIngredient { recipe_id, ingredient_id, mass }
    }

    /// The row points to its recipe and to its ingredient.
    pub open spec fn references(&self) -> References {
        References { ingredient_id: self.ingredient_id, meal_id: 0, recipe_id: self.recipe_id }
    }
}

/// An ingredient of a recipe as the store holds it.
#[derive(Clone, Copy, Debug, PartialEq, Eq)]
pub struct RecipeIngredient {
    pub id: Option<i32>,
    pub recipe_id: i32,
    pub ingredient_id: i32,
    pub mass: i32,
}

impl RecipeIngredient {
    pub fn new(id: i32, recipe_id: i32, ingredient_id: i32, mass: i32) -> (item: RecipeIngredient)
        ensures
            item == (RecipeIngredient { id: Some(id), recipe_id, ingredient_id, mass }),
    {
        RecipeIngredient { id: Some(id), recipe_id, ingredient_id, mass }
    }

    /// The row points to its recipe and to its ingredient.
    pub open spec fn references(&self) -> References {
        References { ingredient_id: self.ingredient_id, meal_id: 0, recipe_id: self.recipe_id }
    }
}

/// The controller of the recipe ingredients.
pub struct CRUDRecipeIngredient {}

impl CRUDRecipeIngredient {
    /// Creating a row: its recipe and its ingredient must both be there. Both
    /// are looked up, the recipe first.
    pub fn create(new_item: &NewRecipeIngredient) -> (op: Operation)
        ensures
            op@ == create_operation(Table::RecipeIngredients, new_item.references()),
    {
        Operation::create(
            Table::RecipeIngredients,
            References {
                ingredient_id: new_item.ingredient_id,
                meal_id: 0,
                recipe_id: new_item.recipe_id,
            },
        )
    }

    /// Reading the row `item_id`.
    pub fn read(item_id: i32) -> (op: Operation)
        ensures
            op@ == read_operation(Table::RecipeIngredients, item_id),
    {
        Operation::read(Table::RecipeIngredients, item_id)
    }

    /// Replacing the row `item_id` with `item`. The recipe and the ingredient
    /// that `item` points to are not looked up.
    pub fn update(item_id: i32, item: &RecipeIngredient) -> (op: Operation)
        ensures
            op@ == update_operation(Table::RecipeIngredients, item_id),
    {
        Operation::update(Table::RecipeIngredients, item_id)
    }

    /// Replacing the row that `item` names by its own id. An item without
    /// an id names no row: the operation is refused.
    pub fn update_item(item: &RecipeIngredient) -> (op: Operation)
        ensures
            op@ == match item.id {
                Some(id) => update_operation(Table::RecipeIngredients, id),
                None => OperationView::refused(),
            },
    {
        match item.id {
            Some(id) => Self::update(id, item),
            None => Operation::refused(),
        }
    }

    /// Deleting the row `item_id`. Nothing points to it.
    pub fn delete(item_id: i32) -> (op: Operation)
        ensures
            op@ == delete_operation(Table::RecipeIngredients, item_id),
    {
        Operation::delete(Table::RecipeIngredients, item_id)
    }

    /// Deleting every row that uses the ingredient `iid`.
    pub fn delete_by_ingredient_id(iid: i32) -> (op: Operation)
        ensures
            op@ == delete_where_operation(Table::RecipeIngredients, Column::IngredientId, iid),
    {
        Operation::delete_where(Table::RecipeIngredients, Column::IngredientId, iid)
    }

    /// Deleting every row of the recipe `rid`.
    pub fn delete_by_recipe_id(rid: i32) -> (op: Operation)
        ensures
            op@ == delete_where_operation(Table::RecipeIngredients, Column::RecipeId, rid),
    {
        Operation::delete_where(Table::RecipeIngredients, Column::RecipeId, rid)
    }

    /// Checking whether the row `item_id` is there.
    pub fn check(item_id: i32) -> (op: Operation)
        ensures
            op@ == read_operation(Table::RecipeIngredients, item_id),
    {
        Self::read(item_id)
    }
}

} // verus!
