//! What passes between an operation and the store: the statement that the
//! operation wants run, and the reply that tells it how the statement ended.

use crate::schema::{Column, ForeignKey, Table};
use vstd::prelude::*;

verus! {

/// The parents that a row points to, one value for each foreign key. A
/// table reads only the keys it has; the others are ignored.
#[derive(Clone, Copy, Debug, PartialEq, Eq, Structural)]
pub struct References {
    pub ingredient_id: i32,
    pub meal_id: i32,
    pub recipe_id: i32,
}

impl References {
    /// The value held for a foreign key.
    #[verifier::when_used_as_spec(spec_of)]
    pub fn of(self, key: ForeignKey) -> (value: i32)
        ensures
            value == self.spec_of(key),
    {
        match key {
            ForeignKey::IngredientId => self.ingredient_id,
            ForeignKey::MealId => self.meal_id,
            ForeignKey::RecipeId => self.recipe_id,
        }
    }

    /// The value held for a foreign key.
    pub open spec fn spec_of(self, key: ForeignKey) -> i32 {
        match key {
            ForeignKey::IngredientId => self.ingredient_id,
            ForeignKey::MealId => self.meal_id,
            ForeignKey::RecipeId => self.recipe_id,
        }
    }

    /// The references of a row that points to no parent.
    pub fn none() -> (refs: References)
        ensures
            refs == (References { ingredient_id: 0, meal_id: 0, recipe_id: 0 }),
    {
        References { ingredient_id: 0, meal_id: 0, recipe_id: 0 }
    }
}

/// One request to the store.
///
/// `Insert` and `Update` write the item that the caller holds for the
/// operation; the statement names only where it goes.
#[derive(Clone, Copy, Debug, PartialEq, Eq, Structural)]
pub enum Statement {
    /// Load the rows of `table` whose primary key is `id`.
    Select { table: Table, id: i32 },
    /// Add the caller's item to `table` under an id that the store assigns.
    Insert { table: Table },
    /// Replace every column but the primary key of the row `id` of `table`
    /// with the caller's item.
    Update { table: Table, id: i32 },
    /// Remove every row of `table` whose `column` holds `value`.
    Delete { table: Table, column: Column, value: i32 },
}

impl Statement {
    /// Whether the statement only reads.
    #[verifier::when_used_as_spec(spec_is_lookup)]
    pub fn is_lookup(self) -> (lookup: bool)
        ensures
            lookup == self.spec_is_lookup(),
    {
        match self {
            Statement::Select { .. } => true,
            _ => false,
        }
    }

    /// Whether the statement only reads.
    pub open spec fn spec_is_lookup(self) -> bool {
        self is Select
    }
}

/// How a statement ended.
#[derive(Clone, Copy, Debug, PartialEq, Eq, Structural)]
pub enum Reply {
    /// A lookup ran and loaded this many rows.
    Rows(usize),
    /// A write ran. It is no error for it to have touched no row.
    Written,
    /// The store reported an error.
    Failed,
}

impl Reply {
    /// Whether the reply shows that the row looked for is there: a lookup
    /// that loaded at least one row.
    #[verifier::when_used_as_spec(spec_found)]
    pub fn found(self) -> (found: bool)
        ensures
            found == self.spec_found(),
    {
        match self {
            Reply::Rows(n) => n > 0,
            _ => false,
        }
    }

    /// Whether the reply shows that the row looked for is there.
    pub open spec fn spec_found(self) -> bool {
        self matches Reply::Rows(n) && n > 0
    }

    /// Whether the statement ran without an error.
    #[verifier::when_used_as_spec(spec_succeeded)]
    pub fn succeeded(self) -> (ok: bool)
        ensures
            ok == self.spec_succeeded(),
    {
        match self {
            Reply::Failed => false,
            _ => true,
        }
    }

    /// Whether the statement ran without an error.
    pub open spec fn spec_succeeded(self) -> bool {
        !(self is Failed)
    }
}

/// What the caller of an operation does next.
#[derive(Clone, Copy, Debug, PartialEq, Eq, Structural)]
pub enum Action {
    /// Run the statement and hand the reply to the operation.
    Execute(Statement),
    /// Stop: the operation is over, with this result.
    Finish(bool),
}

/// The store could not run a statement.
#[derive(Clone, Copy, Debug, PartialEq, Eq, Structural)]
pub struct StoreError;

/// The row that a lookup by primary key yields: the first row loaded, or
/// nothing where no row matched or the store failed.
pub open spec fn first_of<T>(loaded: Result<Seq<T>, StoreError>) -> Option<T> {
    match loaded {
        Ok(rows) => if rows.len() > 0 {
            Some(rows[0])
        } else {
            None
        },
        Err(_) => None,
    }
}

/// The reply that stands for the rows a lookup loaded.
pub open spec fn reply_of<T>(loaded: Result<Seq<T>, StoreError>) -> Reply {
    match loaded {
        Ok(rows) => Reply::Rows(rows.len() as usize),
        Err(_) => Reply::Failed,
    }
}

/// What a lookup loaded, as contracts see it.
pub open spec fn loaded_rows<T>(loaded: Result<Vec<T>, StoreError>) -> Result<
    Seq<T>,
    StoreError,
> {
    match loaded {
        Ok(rows) => Ok(rows@),
        Err(e) => Err(e),
    }
}

/// Picks the row that a lookup by primary key yields from what the store
/// loaded: the first row, or `None` where no row matched or the store failed.
pub fn first_row<T>(loaded: Result<Vec<T>, StoreError>) -> (row: Option<T>)
    ensures
        row == first_of(loaded_rows(loaded)),
{
    match loaded {
        Ok(mut rows) => {
            if rows.len() == 0 {
                None
            } else {
                Some(rows.remove(0))
            }
        },
        Err(_) => None,
    }
}

/// Turns what a lookup loaded into the reply for the operation that asked.
pub fn rows_reply<T>(loaded: &Result<Vec<T>, StoreError>) -> (reply: Reply)
    ensures
        reply == reply_of(loaded_rows(*loaded)),
{
    match loaded {
        Ok(rows) => Reply::Rows(rows.len()),
        Err(_) => Reply::Failed,
    }
}

/// Turns the end of a write into the reply for the operation that asked.
/// The number of rows written does not matter.
pub fn write_reply(done: &Result<usize, StoreError>) -> (reply: Reply)
    ensures
        reply == (match *done {
            Ok(_) => Reply::Written,
            Err(_) => Reply::Failed,
        }),
{
    match done {
        Ok(_) => Reply::Written,
        Err(_) => Reply::Failed,
    }
}

/// A lookup yields a row exactly when its reply says that the row was found.
pub proof fn lemma_first_row_agrees_with_reply<T>(loaded: Result<Seq<T>, StoreError>)
    requires
        loaded matches Ok(rows) ==> rows.len() <= usize::MAX,
    ensures
        first_of(loaded) is Some <==> reply_of(loaded).found(),
{
}

} // verus!
