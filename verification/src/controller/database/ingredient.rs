//! Ingredients: the rows that macros, meals and recipes point to.

use crate::operation::{
    create_operation, delete_operation, read_operation, update_operation, Operation,
    OperationView,
};
use crate::protocol::References;
use crate::schema::Table;
use vstd::prelude::*;

verus! {

/// An ingredient that the store has not seen yet.
#[derive(Debug, PartialEq, Eq)]
pub struct NewIngredient {
    pub name: String,
}

impl NewIngredient {
    pub fn new(name: &str) -> (item: NewIngredient)
        ensures
            item.name@ == name@,
    {
        NewIngredient { name: name.to_owned() }
    }

    /// An ingredient points to no parent.
    pub open spec fn references(&self) -> References {
        References { ingredient_id: 0, meal_id: 0, recipe_id: 0 }
    }
}

/// An ingredient as the store holds it.
#[derive(Debug, PartialEq, Eq)]
pub struct Ingredient {
    pub id: Option<i32>,
    pub name: String,
}

impl Ingredient {
    pub fn new(id: i32, name: &str) -> (item: Ingredient)
        ensures
            item.id == Some(id),
            item.name@ == name@,
    {
        Ingredient { id: Some(id), name: name.to_owned() }
    }

    /// An ingredient points to no parent.
    pub open spec fn references(&self) -> References {
        References { ingredient_id: 0, meal_id: 0, recipe_id: 0 }
    }
}

/// The controller of the ingredients.
pub struct CRUDIngredient {}

impl CRUDIngredient {
    /// Creating an ingredient: nothing to look up, one insert.
    pub fn create(new_item: &NewIngredient) -> (op: Operation)
        ensures
            op@ == create_operation(Table::Ingredients, new_item.references()),
    {
        Operation::create(Table::Ingredients, References::none())
    }

    /// Reading the ingredient `item_id`.
    pub fn read(item_id: i32) -> (op: Operation)
        ensures
            op@ == read_operation(Table::Ingredients, item_id),
    {
        Operation::read(Table::Ingredients, item_id)
    }

    /// Replacing the ingredient `item_id` with `item`.
    pub fn update(item_id: i32, item: &Ingredient) -> (op: Operation)
        ensures
            op@ == update_operation(Table::Ingredients, item_id),
    {
        Operation::update(Table::Ingredients, item_id)
    }

    /// Replacing the ingredient that `item` names by its own id. An item
    /// without an id names no row: the operation is refused.
    pub fn update_item(item: &Ingredient) -> (op: Operation)
        ensures
            op@ == match item.id {
                Some(id) => update_operation(Table::Ingredients, id),
                None => OperationView::refused(),
            },
    {
        match item.id {
            Some(id) => Self::update(id, item),
            None => Operation::refused(),
        }
    }

    /// Deleting the ingredient `item_id`, after its macros and its uses in
    /// meals and recipes.
    pub fn delete(item_id: i32) -> (op: Operation)
        ensures
            op@ == delete_operation(Table::Ingredients, item_id),
    {
        Operation::delete(Table::Ingredients, item_id)
    }

    /// Checking whether the ingredient `item_id` is there.
    pub fn check(item_id: i32) -> (op: Operation)
        ensures
            op@ == read_operation(Table::Ingredients, item_id),
    {
        Self::read(item_id)
    }
}

} // verus!
