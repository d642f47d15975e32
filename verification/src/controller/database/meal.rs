//! Meals: a name, a day and a time of day.

use crate::calendar::{date_text, time_text, MealDate, MealTime};
use crate::operation::{
    create_operation, delete_operation, read_operation, update_operation, Operation,
    OperationView,
};
use crate::protocol::References;
use crate::schema::Table;
use vstd::prelude::*;

verus! {

/// A meal that the store has not seen yet.
#[derive(Debug, PartialEq, Eq)]
pub struct NewMeal {
    pub name: String,
    pub date: String,
    pub time: String,
}

impl NewMeal {
    /// A meal of the given name, with its day and time written as the store
    /// holds them.
    pub fn new(name: &str, date: &MealDate, time: &MealTime) -> (item: NewMeal)
        ensures
            item.name@ == name@,
            item.date@ == date_text(date.year() as int, date.month() as int, date.day() as int),
            item.time@ == time_text(
                time.hour() as int,
                time.minute() as int,
                time.second() as int,
            ),
    {
        NewMeal { name: name.to_owned(), date: date.text(), time: time.text() }
    }

    /// A meal points to no parent.
    pub open spec fn references(&self) -> References {
        References { ingredient_id: 0, meal_id: 0, recipe_id: 0 }
    }
}

/// A meal as the store holds it.
#[derive(Debug, PartialEq, Eq)]
pub struct Meal {
    pub id: Option<i32>,
    pub name: String,
    pub date: String,
    pub time: String,
}

impl Meal {
    /// The meal `id` of the given name, with its day and time written as
    /// the store holds them.
    pub fn new(id: i32, name: &str, date: &MealDate, time: &MealTime) -> (item: Meal)
        ensures
            item.id == Some(id),
            item.name@ == name@,
            item.date@ == date_text(date.year() as int, date.month() as int, date.day() as int),
            item.time@ == time_text(
                time.hour() as int,
                time.minute() as int,
                time.second() as int,
            ),
    {
        Meal { id: Some(id), name: name.to_owned(), date: date.text(), time: time.text() }
    }

    /// A meal points to no parent.
    pub open spec fn references(&self) -> References {
        References { ingredient_id: 0, meal_id: 0, recipe_id: 0 }
    }
}

/// The controller of the meals.
pub struct CRUDMeal {}

impl CRUDMeal {
    /// Creating a meal: nothing to look up, one insert.
    pub fn create(new_item: &NewMeal) -> (op: Operation)
        ensures
            op@ == create_operation(Table::Meals, new_item.references()),
    {
        Operation::create(Table::Meals, References::none())
    }

    /// Reading the meal `item_id`.
    pub fn read(item_id: i32) -> (op: Operation)
        ensures
            op@ == read_operation(Table::Meals, item_id),
    {
        Operation::read(Table::Meals, item_id)
    }

    /// Replacing the meal `item_id` with `item`.
    pub fn update(item_id: i32, item: &Meal) -> (op: Operation)
        ensures
            op@ == update_operation(Table::Meals, item_id),
    {
        Operation::update(Table::Meals, item_id)
    }

    /// Replacing the meal that `item` names by its own id. An item without
    /// an id names no row: the operation is refused.
    pub fn update_item(item: &Meal) -> (op: Operation)
        ensures
            op@ == match item.id {
                Some(id) => update_operation(Table::Meals, id),
                None => OperationView::refused(),
            },
    {
        match item.id {
            Some(id) => Self::update(id, item),
            None => Operation::refused(),
        }
    }

    /// Deleting the meal `item_id`, after its ingredients.
    pub fn delete(item_id: i32) -> (op: Operation)
        ensures
            op@ == delete_operation(Table::Meals, item_id),
    {
        Operation::delete(Table::Meals, item_id)
    }

    /// Checking whether the meal `item_id` is there.
    pub fn check(item_id: i32) -> (op: Operation)
        ensures
            op@ == read_operation(Table::Meals, item_id),
    {
        Self::read(item_id)
    }
}

} // verus!
