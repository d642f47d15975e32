//! The store, as the contracts of this crate see it.
//!
//! A store is a set of rows, each found by its table and primary key. It
//! answers one statement at a time, and it enforces nothing but the
//! uniqueness of primary keys: it neither rejects a row whose parent is
//! missing nor removes the dependents of a row that is deleted.
//!
//! `run` is the loop that a caller drives an operation with, played against
//! this store. What the crate proves of its operations is stated of `run`.

use crate::operation::OperationView;
use crate::protocol::{Action, References, Reply, Statement};
use crate::schema::{Column, ForeignKey, Table};
use vstd::prelude::*;

verus! {

/// What a row holds besides its primary key: the parents it points to, and
/// the rest of its columns, of which the integrity rules read nothing.
pub struct Record<P> {
    pub references: References,
    pub payload: P,
}

impl<P> Record<P> {
    /// The value of a key column in this record, stored under `id`.
    pub open spec fn key(self, id: i32, column: Column) -> i32 {
        match column.foreign_key() {
            Some(key) => self.references.of(key),
            None => id,
        }
    }
}

/// A row as a lookup loads it.
pub struct Row<P> {
    pub id: i32,
    pub record: Record<P>,
}

/// The rows of the six tables.
#[verifier::ext_equal]
pub struct Store<P> {
    pub rows: Map<(Table, i32), Record<P>>,
}

impl<P> Store<P> {
    /// Whether `table` has a row with the primary key `id`.
    pub open spec fn contains(self, table: Table, id: i32) -> bool {
        self.rows.dom().contains((table, id))
    }

    /// Whether the row `id` of `table` is there and holds `value` in
    /// `column`.
    pub open spec fn holds(self, table: Table, id: i32, column: Column, value: i32) -> bool {
        self.contains(table, id) && table.has_column(column) && self.rows[(table, id)].key(
            id,
            column,
        ) == value
    }

    /// Whether the row `id` of `table` is there and points to the row
    /// `parent_id` of `parent` through the foreign key `key`.
    pub open spec fn points_through(
        self,
        table: Table,
        id: i32,
        key: ForeignKey,
        parent: Table,
        parent_id: i32,
    ) -> bool {
        key.parent() == parent && self.holds(table, id, key.column(), parent_id)
    }

    /// Whether the row `id` of `table` is there and points to the row
    /// `parent_id` of `parent` through one of its foreign keys.
    pub open spec fn points_to(self, table: Table, id: i32, parent: Table, parent_id: i32)
        -> bool {
        exists|key: ForeignKey| #[trigger] self.points_through(table, id, key, parent, parent_id)
    }

    /// Whether any row points to the row `parent_id` of `parent`.
    pub open spec fn referenced(self, parent: Table, parent_id: i32) -> bool {
        exists|table: Table, id: i32| #[trigger] self.points_to(table, id, parent, parent_id)
    }

    /// Referential integrity: every row that points to a parent finds it.
    pub open spec fn intact(self) -> bool {
        forall|table: Table, id: i32, parent: Table, parent_id: i32| #[trigger]
            self.points_to(table, id, parent, parent_id) ==> self.contains(parent, parent_id)
    }

    /// The rows that a lookup of `id` in `table` loads: the row, if it is
    /// there.
    pub open spec fn select(self, table: Table, id: i32) -> Seq<Row<P>> {
        if self.contains(table, id) {
            seq![Row { id, record: self.rows[(table, id)] }]
        } else {
            seq![]
        }
    }

    /// The store with `record` as the row `id` of `table`.
    pub open spec fn with_row(self, table: Table, id: i32, record: Record<P>) -> Store<P> {
        Store { rows: self.rows.insert((table, id), record) }
    }

    /// The store without the rows of `table` that hold `value` in `column`.
    pub open spec fn without_matching(self, table: Table, column: Column, value: i32) -> Store<
        P,
    > {
        Store {
            rows: self.rows.remove_keys(
                Set::new(|k: (Table, i32)| k.0 == table && self.holds(table, k.1, column, value)),
            ),
        }
    }

    /// Whether a statement, run on this store, removes the row `id` of
    /// `table`.
    pub open spec fn removes(self, statement: Statement, table: Table, id: i32) -> bool {
        statement matches Statement::Delete { table: t, column, value } && t == table
            && self.holds(table, id, column, value)
    }

    /// Whether a statement, run on this store, removes no row.
    pub open spec fn spared_by(self, statement: Statement) -> bool {
        forall|table: Table, id: i32| !self.removes(statement, table, id)
    }

    /// The store without the rows that one of `steps` removes; the steps at
    /// the positions in `failing` remove nothing.
    pub open spec fn without_removed(self, steps: Seq<Statement>, failing: Set<nat>) -> Store<
        P,
    > {
        Store {
            rows: self.rows.remove_keys(
                Set::new(
                    |k: (Table, i32)|
                        exists|i: int|
                            0 <= i < steps.len() && !failing.contains(i as nat) && self.removes(
                                #[trigger] steps[i],
                                k.0,
                                k.1,
                            ),
                ),
            ),
        }
    }

    /// The store without the row `id` of `table` and without every row that
    /// points to it.
    pub open spec fn without_family(self, table: Table, id: i32) -> Store<P> {
        Store {
            rows: self.rows.remove_keys(
                Set::new(
                    |k: (Table, i32)|
                        k == (table, id) || self.points_to(k.0, k.1, table, id),
                ),
            ),
        }
    }

    /// How the store runs a statement when nothing goes wrong: the store
    /// afterwards, and its reply. `item` is what an insert or update writes,
    /// and `assigned` the primary key that the store gives to an inserted row.
    ///
    /// An insert under a primary key that is taken fails, and so does a
    /// delete by a column that the table lacks. An update or delete that
    /// matches no row is no failure.
    pub open spec fn execute(self, statement: Statement, item: Record<P>, assigned: i32) -> (
        Store<P>,
        Reply,
    ) {
        match statement {
            Statement::Select { table, id } => (
                self,
                Reply::Rows(self.select(table, id).len() as usize),
            ),
            Statement::Insert { table } => if self.contains(table, assigned) {
                (self, Reply::Failed)
            } else {
                (self.with_row(table, assigned, item), Reply::Written)
            },
            Statement::Update { table, id } => if self.contains(table, id) {
                (self.with_row(table, id, item), Reply::Written)
            } else {
                (self, Reply::Written)
            },
            Statement::Delete { table, column, value } => if table.has_column(column) {
                (self.without_matching(table, column, value), Reply::Written)
            } else {
                (self, Reply::Failed)
            },
        }
    }
}

/// What an operation meets when it is run: the item that its writes carry,
/// the primary key that the store assigns on insert, and the statements, by
/// their position in the operation, on which the store fails.
pub struct Environment<P> {
    pub item: Record<P>,
    pub assigned: i32,
    pub failing: Set<nat>,
}

/// How the store answers the statement at `position` of an operation: it
/// fails without a change where the environment says so, and runs the
/// statement otherwise.
pub open spec fn answer<P>(
    store: Store<P>,
    statement: Statement,
    position: nat,
    env: Environment<P>,
) -> (Store<P>, Reply) {
    if env.failing.contains(position) {
        (store, Reply::Failed)
    } else {
        store.execute(statement, env.item, env.assigned)
    }
}

/// Runs an operation to its end against a store: the store afterwards, and
/// the operation's result.
pub open spec fn run<P>(op: OperationView, store: Store<P>, env: Environment<P>) -> (
    Store<P>,
    bool,
)
    decreases op.remaining(),
{
    match op.next() {
        Action::Finish(result) => (store, result),
        Action::Execute(statement) => {
            let (after, reply) = answer(store, statement, op.cursor, env);
            run(op.advance(reply), after, env)
        },
    }
}

} // verus!
