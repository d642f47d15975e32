//! The controllers: one per kind of record, all with the same five
//! operations.

pub mod database;
