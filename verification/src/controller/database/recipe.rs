//! Recipes: a name and a description.

use crate::operation::{
    create_operation, delete_operation, read_operation, update_operation, Operation,
    OperationView,
};
use crate::protocol::References;
use crate::schema::Table;
use vstd::prelude::*;

verus! {

/// A recipe that the store has not seen yet.
#[derive(Debug, PartialEq, Eq)]
pub struct NewRecipe {
    pub name: String,
    pub description: String,
}

impl NewRecipe {
    pub fn new(name: &str, description: &str) -> (item: NewRecipe)
        ensures
            item.name@ == name@,
            item.description@ == description@,
    {
        NewRecipe { name: name.to_owned(), description: description.to_owned() }
    }

    /// A recipe points to no parent.
    pub open spec fn references(&self) -> References {
        References { ingredient_id: 0, meal_id: 0, recipe_id: 0 }
    }
}

/// A recipe as the store holds it.
#[derive(Debug, PartialEq, Eq)]
pub struct Recipe {
    pub id: Option<i32>,
    pub name: String,
    pub description: String,
}

impl Recipe {
    pub fn new(id: i32, name: &str, description: &str) -> (item: Recipe)
        ensures
            item.id == Some(id),
            item.name@ == name@,
            item.description@ == description@,
    {
        Recipe { id: Some(id), name: name.to_owned(), description: description.to_owned() }
    }

    /// A recipe points to no parent.
    pub open spec fn references(&self) -> References {
        References { ingredient_id: 0, meal_id: 0, recipe_id: 0 }
    }
}

/// The controller of the recipes.
pub struct CRUDRecipe {}

impl CRUDRecipe {
    /// Creating a recipe: nothing to look up, one insert.
    pub fn create(new_item: &NewRecipe) -> (op: Operation)
        ensures
            op@ == create_operation(Table::Recipes, new_item.references()),
    {
        Operation::create(Table::Recipes, References::none())
    }

    /// Reading the recipe `item_id`.
    pub fn read(item_id: i32) -> (op: Operation)
        ensures
            op@ == read_operation(Table::Recipes, item_id),
    {
        Operation::read(Table::Recipes, item_id)
    }

    /// Replacing the recipe `item_id` with `item`.
    pub fn update(item_id: i32, item: &Recipe) -> (op: Operation)
        ensures
            op@ == update_operation(Table::Recipes, item_id),
    {
        Operation::update(Table::Recipes, item_id)
    }

    /// Replacing the recipe that `item` names by its own id. An item
    /// without an id names no row: the operation is refused.
    pub fn update_item(item: &Recipe) -> (op: Operation)
        ensures
            op@ == match item.id {
                Some(id) => update_operation(Table::Recipes, id),
                None => OperationView::refused(),
            },
    {
        match item.id {
            Some(id) => Self::update(id, item),
            None => Operation::refused(),
        }
    }

    /// Deleting the recipe `item_id`, after its ingredients.
    pub fn delete(item_id: i32) -> (op: Operation)
        ensures
            op@ == delete_operation(Table::Recipes, item_id),
    {
        Operation::delete(Table::Recipes, item_id)
    }

    /// Checking whether the recipe `item_id` is there.
    pub fn check(item_id: i32) -> (op: Operation)
        ensures
            op@ == read_operation(Table::Recipes, item_id),
    {
        Self::read(item_id)
    }
}

} // verus!
