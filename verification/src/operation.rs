//! An operation on the store, as a sequence of decisions.
//!
//! An operation does no work on the store itself. It says which statement to
//! run next, takes the reply, and says in the end whether it succeeded. Its
//! caller owns the connection and runs the loop:
//!
//! 1. ask `next`;
//! 2. on `Action::Execute`, run the statement, hand the reply to `advance`,
//!    and go back to 1;
//! 3. on `Action::Finish`, stop with the result.
//!
//! The statements of an operation are its lookups followed by its writes. All
//! lookups are run; the writes are run only if every lookup found its row, and
//! then all of them are run, whether or not an earlier one failed. The result
//! is `true` when every lookup found its row and the last write, if there is
//! one, ran without an error.

use crate::protocol::{Action, References, Reply, Statement};
use crate::schema::{Column, Dependent, ForeignKey, Table};
use vstd::prelude::*;

verus! {

/// The state of an operation, as contracts see it.
pub struct OperationView {
    /// The statements of the operation, in the order in which they are run.
    pub steps: Seq<Statement>,
    /// How many statements have been run.
    pub cursor: nat,
    /// Whether every lookup run so far found its row.
    pub admitted: bool,
    /// Whether the last write run so far ended without an error.
    pub succeeded: bool,
}

impl OperationView {
    /// An operation that has run nothing yet.
    pub open spec fn start(steps: Seq<Statement>) -> OperationView {
        OperationView { steps, cursor: 0, admitted: true, succeeded: true }
    }

    /// An operation that is over before it began, with the result `false`.
    pub open spec fn refused() -> OperationView {
        OperationView { steps: seq![], cursor: 0, admitted: false, succeeded: true }
    }

    /// What the caller does next.
    pub open spec fn next(self) -> Action {
        if self.cursor >= self.steps.len() {
            Action::Finish(self.admitted && self.succeeded)
        } else if !self.steps[self.cursor as int].is_lookup() && !self.admitted {
            Action::Finish(false)
        } else {
            Action::Execute(self.steps[self.cursor as int])
        }
    }

    /// The state after the reply to the statement that `next` asked for. An
    /// operation that is over stays as it is.
    pub open spec fn advance(self, reply: Reply) -> OperationView {
        match self.next() {
            Action::Finish(_) => self,
            Action::Execute(statement) => if statement.is_lookup() {
                OperationView {
                    cursor: self.cursor + 1,
                    admitted: self.admitted && reply.found(),
                    ..self
                }
            } else {
                OperationView { cursor: self.cursor + 1, succeeded: reply.succeeded(), ..self }
            },
        }
    }

    /// How many statements are still to be run at most.
    pub open spec fn remaining(self) -> nat {
        if self.cursor >= self.steps.len() {
            0
        } else {
            (self.steps.len() - self.cursor) as nat
        }
    }
}

/// The lookups that guard the creation of a row: one for each foreign key, for
/// the parent that the row points to.
pub open spec fn parent_lookups(keys: Seq<ForeignKey>, references: References) -> Seq<
    Statement,
> {
    Seq::new(
        keys.len(),
        |i: int| Statement::Select { table: keys[i].parent(), id: references.of(keys[i]) },
    )
}

/// The deletes that clear the rows pointing to the row `id`: one for each
/// place that references its table.
pub open spec fn dependent_deletes(places: Seq<Dependent>, id: i32) -> Seq<Statement> {
    Seq::new(
        places.len(),
        |i: int|
            Statement::Delete { table: places[i].table, column: places[i].key.column(), value: id },
    )
}

/// Creating a row of `table` that points to `references`: look up every
/// parent, then insert.
pub open spec fn create_operation(table: Table, references: References) -> OperationView {
    OperationView::start(
        parent_lookups(table.foreign_keys(), references).push(Statement::Insert { table }),
    )
}

/// Reading the row `id` of `table`: one lookup.
pub open spec fn read_operation(table: Table, id: i32) -> OperationView {
    OperationView::start(seq![Statement::Select { table, id }])
}

/// Updating the row `id` of `table`: one write. The item's references are not
/// looked up.
pub open spec fn update_operation(table: Table, id: i32) -> OperationView {
    OperationView::start(seq![Statement::Update { table, id }])
}

/// Deleting the row `id` of `table`: clear every place that references the
/// table of rows pointing to `id`, then delete the row itself.
pub open spec fn delete_operation(table: Table, id: i32) -> OperationView {
    OperationView::start(
        dependent_deletes(table.dependents(), id).push(
            Statement::Delete { table, column: Column::Id, value: id },
        ),
    )
}

/// Deleting the rows of `table` whose `column` holds `value`: one write.
pub open spec fn delete_where_operation(table: Table, column: Column, value: i32)
    -> OperationView {
    OperationView::start(seq![Statement::Delete { table, column, value }])
}

/// An operation on the store: which statement comes next, and how it ends.
#[derive(Debug)]
pub struct Operation {
    steps: Vec<Statement>,
    cursor: usize,
    admitted: bool,
    succeeded: bool,
}

impl View for Operation {
    type V = OperationView;

    closed spec fn view(&self) -> OperationView {
        OperationView {
            steps: self.steps@,
            cursor: self.cursor as nat,
            admitted: self.admitted,
            succeeded: self.succeeded,
        }
    }
}

impl Operation {
    fn start(steps: Vec<Statement>) -> (op: Operation)
        ensures
            op@ == OperationView::start(steps@),
    {
        Operation { steps, cursor: 0, admitted: true, succeeded: true }
    }

    /// An operation that is over before it began, with the result `false`.
    /// It stands for a request that cannot be put to the store at all.
    pub fn refused() -> (op: Operation)
        ensures
            op@ == OperationView::refused(),
    {
        let op = Operation { steps: Vec::new(), cursor: 0, admitted: false, succeeded: true };
        assert(op@.steps =~= seq![]);
        op
    }

    /// Creating a row of `table` that points to `references`.
    pub fn create(table: Table, references: References) -> (op: Operation)
        ensures
            op@ == create_operation(table, references),
    {
        let keys = table.foreign_key_list();
        let mut steps: Vec<Statement> = Vec::new();
        let mut i: usize = 0;
        while i < keys.len()
            invariant
                i <= keys.len(),
                steps@ == parent_lookups(keys@.take(i as int), references),
            decreases keys.len() - i,
        {
            let key = keys[i];
            steps.push(Statement::Select { table: key.parent(), id: references.of(key) });
            i += 1;
            assert(steps@ =~= parent_lookups(keys@.take(i as int), references));
        }
        assert(keys@.take(i as int) =~= keys@);
        steps.push(Statement::Insert { table });
        Operation::start(steps)
    }

    /// Reading the row `id` of `table`. The result says whether it is there.
    pub fn read(table: Table, id: i32) -> (op: Operation)
        ensures
            op@ == read_operation(table, id),
    {
        let mut steps: Vec<Statement> = Vec::new();
        steps.push(Statement::Select { table, id });
        assert(steps@ =~= seq![Statement::Select { table, id }]);
        Operation::start(steps)
    }

    /// Updating the row `id` of `table`.
    pub fn update(table: Table, id: i32) -> (op: Operation)
        ensures
            op@ == update_operation(table, id),
    {
        let mut steps: Vec<Statement> = Vec::new();
        steps.push(Statement::Update { table, id });
        assert(steps@ =~= seq![Statement::Update { table, id }]);
        Operation::start(steps)
    }

    /// Deleting the row `id` of `table`, after the rows that point to it.
    pub fn delete(table: Table, id: i32) -> (op: Operation)
        ensures
            op@ == delete_operation(table, id),
    {
        let places = table.dependent_list();
        let mut steps: Vec<Statement> = Vec::new();
        let mut i: usize = 0;
        while i < places.len()
            invariant
                i <= places.len(),
                steps@ == dependent_deletes(places@.take(i as int), id),
            decreases places.len() - i,
        {
            let place = places[i];
            steps.push(
                Statement::Delete { table: place.table, column: place.key.column(), value: id },
            );
            i += 1;
            assert(steps@ =~= dependent_deletes(places@.take(i as int), id));
        }
        assert(places@.take(i as int) =~= places@);
        steps.push(Statement::Delete { table, column: Column::Id, value: id });
        Operation::start(steps)
    }

    /// Deleting the rows of `table` whose `column` holds `value`.
    pub fn delete_where(table: Table, column: Column, value: i32) -> (op: Operation)
        ensures
            op@ == delete_where_operation(table, column, value),
    {
        let mut steps: Vec<Statement> = Vec::new();
        steps.push(Statement::Delete { table, column, value });
        assert(steps@ =~= seq![Statement::Delete { table, column, value }]);
        Operation::start(steps)
    }

    /// What the caller does next: run a statement, or stop with the result.
    pub fn next(&self) -> (action: Action)
        ensures
            action == self@.next(),
    {
        if self.cursor >= self.steps.len() {
            Action::Finish(self.admitted && self.succeeded)
        } else {
            let statement = self.steps[self.cursor];
            if !statement.is_lookup() && !self.admitted {
                Action::Finish(false)
            } else {
                Action::Execute(statement)
            }
        }
    }

    /// Takes the reply to the statement that `next` asked for. On an
    /// operation that is over it changes nothing.
    pub fn advance(&mut self, reply: Reply)
        ensures
            final(self)@ == old(self)@.advance(reply),
    {
        if self.cursor < self.steps.len() {
            let statement = self.steps[self.cursor];
            if statement.is_lookup() {
                self.admitted = self.admitted && reply.found();
                self.cursor = self.cursor + 1;
            } else if self.admitted {
                self.succeeded = reply.succeeded();
                self.cursor = self.cursor + 1;
            }
        }
    }
}

} // verus!
