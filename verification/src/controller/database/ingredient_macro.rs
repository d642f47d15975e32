//! The macros of an ingredient: how much protein, carbohydrate, fat and
//! alcohol it holds, and the calories that follow from them.
//!
//! The amounts are measured values that this crate stores and hands back
//! untouched; `A` is their type. The integrity rules read only the
//! ingredient that a record points to.

use crate::operation::{
    create_operation, delete_operation, delete_where_operation, read_operation,
    update_operation, Operation, OperationView,
};
use crate::protocol::References;
use crate::schema::{Column, Table};
use vstd::prelude::*;

verus! {

/// The macros of an ingredient that the store has not seen yet.
#[derive(Debug, PartialEq)]
pub struct NewIngredientMacro<A> {
    pub ingredient_id: i32,
    pub proteins: A,
    pub carbs: A,
    pub fats: A,
    pub alcohols: A,
    pub calories: A,
}

impl<A> NewIngredientMacro<A> {
    /// The record points to its ingredient.
    pub open spec fn references(&self) -> References {
        References { ingredient_id: self.ingredient_id, meal_id: 0, recipe_id: 0 }
    }
}

/// The macros of an ingredient as the store holds them.
#[derive(Debug, PartialEq)]
pub struct IngredientMacro<A> {
    pub id: Option<i32>,
    pub ingredient_id: i32,
    pub proteins: A,
    pub carbs: A,
    pub fats: A,
    pub alcohols: A,
    pub calories: A,
}

impl<A> IngredientMacro<A> {
    /// The record points to its ingredient.
    pub open spec fn references(&self) -> References {
        References { ingredient_id: self.ingredient_id, meal_id: 0, recipe_id: 0 }
    }
}

/// The controller of the ingredient macros.
pub struct CRUDIngredientMacro {}

impl CRUDIngredientMacro {
    /// Creating a record: its ingredient must be there.
    pub fn create<A>(new_item: &NewIngredientMacro<A>) -> (op: Operation)
        ensures
            op@ == create_operation(Table::IngredientMacros, new_item.references()),
    {
        Operation::create(
            Table::IngredientMacros,
            References { ingredient_id: new_item.ingredient_id, meal_id: 0, recipe_id: 0 },
        )
    }

    /// Reading the record `item_id`.
    pub fn read(item_id: i32) -> (op: Operation)
        ensures
            op@ == read_operation(Table::IngredientMacros, item_id),
    {
        Operation::read(Table::IngredientMacros, item_id)
    }

    /// Replacing the record `item_id` with `item`. The ingredient that
    /// `item` points to is not looked up.
    pub fn update<A>(item_id: i32, item: &IngredientMacro<A>) -> (op: Operation)
        ensures
            op@ == update_operation(Table::IngredientMacros, item_id),
    {
        Operation::update(Table::IngredientMacros, item_id)
    }

    /// Replacing the record that `item` names by its own id. An item
    /// without an id names no row: the operation is refused.
    pub fn update_item<A>(item: &IngredientMacro<A>) -> (op: Operation)
        ensures
            op@ == match item.id {
                Some(id) => update_operation(Table::IngredientMacros, id),
                None => OperationView::refused(),
            },
    {
        match item.id {
            Some(id) => Self::update(id, item),
            None => Operation::refused(),
        }
    }

    /// Deleting the record `item_id`. Nothing points to a record.
    pub fn delete(item_id: i32) -> (op: Operation)
        ensures
            op@ == delete_operation(Table::IngredientMacros, item_id),
    {
        Operation::delete(Table::IngredientMacros, item_id)
    }

    /// Deleting every record of the ingredient `item_id`.
    pub fn delete_by_ingredient_id(item_id: i32) -> (op: Operation)
        ensures
            op@ == delete_where_operation(
                Table::IngredientMacros,
                Column::IngredientId,
                item_id,
            ),
    {
        Operation::delete_where(Table::IngredientMacros, Column::IngredientId, item_id)
    }

    /// Checking whether the record `item_id` is there.
    pub fn check(item_id: i32) -> (op: Operation)
        ensures
            op@ == read_operation(Table::IngredientMacros, item_id),
    {
        Self::read(item_id)
    }
}

} // verus!
