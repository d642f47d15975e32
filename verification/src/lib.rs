//! Referential data access for a small nutrition store.
//!
//! Six kinds of record (ingredients, their macros, meals, recipes, and the
//! ingredients of meals and of recipes) live in a relational store that does not
//! enforce references between them. This crate decides what has to be asked of
//! the store so that a dependent row is never created without its parents and
//! never outlives them, and proves that those decisions keep the promise.

pub mod schema;
pub mod protocol;
pub mod operation;
pub mod model;
pub mod integrity;
pub mod controller;
pub mod digits;
pub mod calendar;
pub mod cli;
