//! The ingredients of a meal: which ingredient, and how much of it.

use crate::operation::{
    create_operation, delete_operation, delete_where_operation, read_operation,
    update_operation, Operation, OperationView,
};
use crate::protocol::References;
use crate::schema::{Column, Table};
use vstd::prelude::*;

verus! {

/// An ingredient of a meal that the store has not seen yet.
#[derive(Clone, Copy, Debug, PartialEq, Eq)]
pub struct NewMealIngredient {
    pub meal_id: i32,
    pub ingredient_id: i32,
    pub mass: i32,
}

impl NewMealIngredient {
    pub fn new(meal_id: i32, ingredient_id: i32, mass: i32) -> (item: NewMealIngredient)
        ensures
            item == (NewMealIngredient { meal_id, ingredient_id, mass }),
    {
        NewMealIngredient { meal_id, ingredient_id, mass }
    }

    /// The row points to its meal and to its ingredient.
    pub open spec fn references(&self) -> References {
        References { ingredient_id: self.ingredient_id, meal_id: self.meal_id, recipe_id: 0 }
    }
}

/// An ingredient of a meal as the store holds it.
#[derive(Clone, Copy, Debug, PartialEq, Eq)]
pub struct MealIngredient {
    pub id: Option<i32>,
    pub meal_id: i32,
    pub ingredient_id: i32,
    pub mass: i32,
}

impl MealIngredient {
    pub fn new(id: i32, meal_id: i32, ingredient_id: i32, mass: i32) -> (item: MealIngredient)
        ensures
            item == (MealIngredient { id: Some(id), meal_id, ingredient_id, mass }),
    {
        MealIngredient { id: Some(id), meal_id, ingredient_id, mass }
    }

    /// The row points to its meal and to its ingredient.
    pub open spec fn references(&self) -> References {
        References { ingredient_id: self.ingredient_id, meal_id: self.meal_id, recipe_id: 0 }
    }
}

/// The controller of the meal ingredients.
pub struct CRUDMealIngredient {}

impl CRUDMealIngredient {
    /// Creating a row: its meal and its ingredient must both be there. Both
    /// are looked up, the meal first.
    pub fn create(new_item: &NewMealIngredient) -> (op: Operation)
        ensures
            op@ == create_operation(Table::MealIngredients, new_item.references()),
    {
        Operation::create(
            Table::MealIngredients,
            References {
                ingredient_id: new_item.ingredient_id,
                meal_id: new_item.meal_id,
                recipe_id: 0,
            },
        )
    }

    /// Reading the row `item_id`.
    pub fn read(item_id: i32) -> (op: Operation)
        ensures
            op@ == read_operation(Table::MealIngredients, item_id),
    {
        Operation::read(Table::MealIngredients, item_id)
    }

    /// Replacing the row `item_id` with `item`. The meal and the ingredient
    /// that `item` points to are not looked up.
    pub fn update(item_id: i32, item: &MealIngredient) -> (op: Operation)
        ensures
            op@ == update_operation(Table::MealIngredients, item_id),
    {
        Operation::update(Table::MealIngredients, item_id)
    }

    /// Replacing the row that `item` names by its own id. An item without
    /// an id names no row: the operation is refused.
    pub fn update_item(item: &MealIngredient) -> (op: Operation)
        ensures
            op@ == match item.id {
                Some(id) => update_operation(Table::MealIngredients, id),
                None => OperationView::refused(),
            },
    {
        match item.id {
            Some(id) => Self::update(id, item),
            None => Operation::refused(),
        }
    }

    /// Deleting the row `item_id`. Nothing points to it.
    pub fn delete(item_id: i32) -> (op: Operation)
        ensures
            op@ == delete_operation(Table::MealIngredients, item_id),
    {
        Operation::delete(Table::MealIngredients, item_id)
    }

    /// Deleting every row that uses the ingredient `iid`.
    pub fn delete_by_ingredient_id(iid: i32) -> (op: Operation)
        ensures
            op@ == delete_where_operation(Table::MealIngredients, Column::IngredientId, iid),
    {
        Operation::delete_where(Table::MealIngredients, Column::IngredientId, iid)
    }

    /// Deleting every row of the meal `mid`.
    pub fn delete_by_meal_id(mid: i32) -> (op: Operation)
        ensures
            op@ == delete_where_operation(Table::MealIngredients, Column::MealId, mid),
    {
        Operation::delete_where(Table::MealIngredients, Column::MealId, mid)
    }

    /// Checking whether the row `item_id` is there.
    pub fn check(item_id: i32) -> (op: Operation)
        ensures
            op@ == read_operation(Table::MealIngredients, item_id),
    {
        Self::read(item_id)
    }
}

} // verus!
