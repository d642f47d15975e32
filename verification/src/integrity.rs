//! What the operations of this crate guarantee, proved of every store and of
//! every way in which the store may fail.

use crate::model::{answer, run, Environment, Row, Store};
use crate::operation::{
    create_operation, delete_operation, delete_where_operation, read_operation,
    update_operation, OperationView,
};
use crate::protocol::{first_of, Action, References, Statement, StoreError};
use crate::schema::{lemma_foreign_keys_cover, Column, ForeignKey, Table};
use vstd::prelude::*;

verus! {

/// Once a lookup has missed its row, the operation writes nothing and ends
/// with `false`, whatever the store still answers.
pub proof fn lemma_missed_lookup_stops_writes<P>(
    op: OperationView,
    store: Store<P>,
    env: Environment<P>,
)
    requires
        !op.admitted,
    ensures
        run(op, store, env) == (store, false),
    decreases op.remaining(),
{
    match op.next() {
        Action::Finish(_) => {},
        Action::Execute(statement) => {
            let (after, reply) = answer(store, statement, op.cursor, env);
            lemma_missed_lookup_stops_writes(op.advance(reply), after, env);
        },
    }
}

/// Whether the store lets a row of `table` that points to `references` be
/// created: every parent is there, no statement of the operation fails, and
/// the primary key that the store assigns is free.
pub open spec fn admits_create<P>(
    store: Store<P>,
    table: Table,
    references: References,
    env: Environment<P>,
) -> bool {
    let keys = table.foreign_keys();
    &&& forall|i: int|
        0 <= i < keys.len() ==> !env.failing.contains(i as nat) && store.contains(
            (#[trigger] keys[i]).parent(),
            references.of(keys[i]),
        )
    &&& !env.failing.contains(keys.len())
    &&& !store.contains(table, env.assigned)
}

/// What creating a row does: where the store admits it, the item becomes
/// the row under the assigned primary key and the result is `true`; in every
/// other case the store is left as it was and the result is `false`.
pub proof fn lemma_create<P>(
    table: Table,
    references: References,
    store: Store<P>,
    env: Environment<P>,
)
    ensures
        run(create_operation(table, references), store, env) == if admits_create(
            store,
            table,
            references,
            env,
        ) {
            (store.with_row(table, env.assigned, env.item), true)
        } else {
            (store, false)
        },
{
    let keys = table.foreign_keys();
    let op = create_operation(table, references);
    reveal_with_fuel(run, 4);
    if keys.len() == 0 {
        assert(op.steps[0] == Statement::Insert { table });
    } else if keys.len() == 1 {
        assert(op.steps[0] == Statement::Select {
            table: keys[0].parent(),
            id: references.of(keys[0]),
        });
        assert(op.steps[1] == Statement::Insert { table });
    } else {
        assert(keys.len() == 2);
        assert(op.steps[0] == Statement::Select {
            table: keys[0].parent(),
            id: references.of(keys[0]),
        });
        assert(op.steps[1] == Statement::Select {
            table: keys[1].parent(),
            id: references.of(keys[1]),
        });
        assert(op.steps[2] == Statement::Insert { table });
    }
}

/// A create that names a missing parent is rejected: the result is `false`
/// and no table has changed, whatever else the store does.
pub proof fn lemma_create_needs_parents<P>(
    table: Table,
    references: References,
    key: ForeignKey,
    store: Store<P>,
    env: Environment<P>,
)
    requires
        table.has_key(key),
        !store.contains(key.parent(), references.of(key)),
    ensures
        run(create_operation(table, references), store, env) == (store, false),
{
    lemma_create(table, references, store, env);
    lemma_foreign_keys_cover(table, key);
    let keys = table.foreign_keys();
    let i = choose|i: int| 0 <= i < keys.len() && keys[i] == key;
    assert(keys[i].parent() == key.parent());
}

/// Reading changes nothing, and its result says whether the row is there;
/// a lookup on which the store fails counts as a row that is missing.
pub proof fn lemma_read<P>(table: Table, id: i32, store: Store<P>, env: Environment<P>)
    ensures
        run(read_operation(table, id), store, env) == (
            store,
            store.contains(table, id) && !env.failing.contains(0),
        ),
{
    reveal_with_fuel(run, 2);
}

/// Updating replaces the record of the row, if the row is there and the
/// store does not fail, and touches no other row; the result says only
/// whether the store failed. The new references are not looked up.
pub proof fn lemma_update<P>(table: Table, id: i32, store: Store<P>, env: Environment<P>)
    ensures
        run(update_operation(table, id), store, env) == (
            if store.contains(table, id) && !env.failing.contains(0) {
                store.with_row(table, id, env.item)
            } else {
                store
            },
            !env.failing.contains(0),
        ),
{
    reveal_with_fuel(run, 2);
}

/// Deleting by a column removes the rows that hold the value and no other;
/// the result says only whether the store failed, as it does on its own
/// account where the table lacks the column.
pub proof fn lemma_delete_where<P>(
    table: Table,
    column: Column,
    value: i32,
    store: Store<P>,
    env: Environment<P>,
)
    ensures
        run(delete_where_operation(table, column, value), store, env) == if table.has_column(
            column,
        ) && !env.failing.contains(0) {
            (store.without_matching(table, column, value), true)
        } else {
            (store, false)
        },
{
    reveal_with_fuel(run, 2);
}

/// The position of the last statement of a delete: the one that removes the
/// row itself.
pub open spec fn final_delete(table: Table) -> nat {
    table.dependents().len()
}

/// What deleting a row does: each statement on which the store does not
/// fail removes the rows that it matches, nothing else changes, and the
/// result says how the last statement ended, the removal of the row itself.
/// A failure while clearing the dependents neither stops the operation nor
/// shows in the result.
pub proof fn lemma_delete<P>(table: Table, id: i32, store: Store<P>, env: Environment<P>)
    ensures
        run(delete_operation(table, id), store, env) == (
            store.without_removed(delete_operation(table, id).steps, env.failing),
            !env.failing.contains(final_delete(table)),
        ),
{
    let op = delete_operation(table, id);
    let places = table.dependents();
    reveal_with_fuel(run, 5);
    assert(op.steps[places.len() as int] == Statement::Delete {
        table,
        column: Column::Id,
        value: id,
    });
    assert(forall|i: int| 0 <= i < places.len() ==> op.steps[i] == Statement::Delete {
        table: places[i].table,
        column: places[i].key.column(),
        value: id,
    });
    let after = run(op, store, env).0;
    let expected = store.without_removed(op.steps, env.failing);
    assert forall|k: (Table, i32)|
        after.rows.dom().contains(k) == expected.rows.dom().contains(k) by {
        if store.rows.dom().contains(k) && !after.rows.dom().contains(k) {
            if !env.failing.contains(0) && store.removes(op.steps[0], k.0, k.1) {
            } else if op.steps.len() > 1 && !env.failing.contains(1) && store.removes(
                op.steps[1],
                k.0,
                k.1,
            ) {
            } else if op.steps.len() > 2 && !env.failing.contains(2) && store.removes(
                op.steps[2],
                k.0,
                k.1,
            ) {
            } else {
                assert(op.steps.len() > 3 && !env.failing.contains(3) && store.removes(
                    op.steps[3],
                    k.0,
                    k.1,
                ));
            }
        }
    }
    assert(after.rows =~= expected.rows);
}

/// A delete reports how its last statement ended.
pub proof fn lemma_delete_reports_final_statement<P>(
    table: Table,
    id: i32,
    store: Store<P>,
    env: Environment<P>,
)
    ensures
        run(delete_operation(table, id), store, env).1 == !env.failing.contains(
            final_delete(table),
        ),
{
    lemma_delete(table, id, store, env);
}

/// Whether the store fails on no statement of the operation that would
/// have removed a row.
pub open spec fn no_removal_fails<P>(op: OperationView, store: Store<P>, env: Environment<P>)
    -> bool {
    forall|i: int|
        0 <= i < op.steps.len() && env.failing.contains(i as nat) ==> store.spared_by(
            #[trigger] op.steps[i],
        )
}

/// Whether the operation removes nothing: each of its statements fails or
/// matches no row.
pub open spec fn nothing_to_remove<P>(op: OperationView, store: Store<P>, env: Environment<P>)
    -> bool {
    forall|i: int|
        0 <= i < op.steps.len() && !env.failing.contains(i as nat) ==> store.spared_by(
            #[trigger] op.steps[i],
        )
}

/// A row points to a parent through one of the three foreign keys.
pub proof fn lemma_points_to_by_key<P>(
    store: Store<P>,
    table: Table,
    id: i32,
    parent: Table,
    parent_id: i32,
)
    ensures
        store.points_to(table, id, parent, parent_id) <==> {
            ||| store.points_through(table, id, ForeignKey::IngredientId, parent, parent_id)
            ||| store.points_through(table, id, ForeignKey::MealId, parent, parent_id)
            ||| store.points_through(table, id, ForeignKey::RecipeId, parent, parent_id)
        },
{
}

/// Cascade on delete: unless the store fails on a statement that had a
/// row to remove, a delete removes the row and every row that points to it,
/// and keeps every other row as it was.
pub proof fn lemma_delete_removes_family<P>(
    table: Table,
    id: i32,
    store: Store<P>,
    env: Environment<P>,
)
    requires
        no_removal_fails(delete_operation(table, id), store, env),
    ensures
        run(delete_operation(table, id), store, env).0 == store.without_family(table, id),
{
    lemma_delete(table, id, store, env);
    let op = delete_operation(table, id);
    let places = table.dependents();
    assert(op.steps[places.len() as int] == Statement::Delete {
        table,
        column: Column::Id,
        value: id,
    });
    assert(forall|i: int| 0 <= i < places.len() ==> op.steps[i] == Statement::Delete {
        table: places[i].table,
        column: places[i].key.column(),
        value: id,
    });
    let after = store.without_removed(op.steps, env.failing);
    let family = store.without_family(table, id);
    assert forall|k: (Table, i32)|
        after.rows.dom().contains(k) == family.rows.dom().contains(k) by {
        lemma_points_to_by_key(store, k.0, k.1, table, id);
        if store.rows.dom().contains(k) && !family.rows.dom().contains(k) {
            // The row belongs to the family: one of the statements matches
            // it, and that statement did not fail.
            if store.removes(op.steps[0], k.0, k.1) {
                assert(!store.spared_by(op.steps[0]));
            } else if op.steps.len() > 1 && store.removes(op.steps[1], k.0, k.1) {
                assert(!store.spared_by(op.steps[1]));
            } else if op.steps.len() > 2 && store.removes(op.steps[2], k.0, k.1) {
                assert(!store.spared_by(op.steps[2]));
            } else {
                assert(op.steps.len() > 3 && store.removes(op.steps[3], k.0, k.1));
                assert(!store.spared_by(op.steps[3]));
            }
        }
    }
    assert(after.rows =~= family.rows);
}

/// After a cascade, neither the row nor any row that pointed to it is
/// left, and every row that is left is as it was.
pub proof fn lemma_family_gone<P>(table: Table, id: i32, store: Store<P>)
    ensures
        !store.without_family(table, id).contains(table, id),
        !store.without_family(table, id).referenced(table, id),
        forall|t: Table, i: i32| #[trigger]
            store.without_family(table, id).contains(t, i) ==> store.contains(t, i)
                && store.without_family(table, id).rows[(t, i)] == store.rows[(t, i)],
        forall|t: Table, i: i32|
            store.contains(t, i) && (t, i) != (table, id) && !store.points_to(t, i, table, id)
                ==> #[trigger] store.without_family(table, id).contains(t, i),
{
    let after = store.without_family(table, id);
    assert forall|t: Table, i: i32| !#[trigger] after.points_to(t, i, table, id) by {
        if after.points_to(t, i, table, id) {
            let key = choose|key: ForeignKey| #[trigger]
                after.points_through(t, i, key, table, id);
            assert(store.points_through(t, i, key, table, id));
        }
    }
}

/// Whatever fails on the way, a delete never adds or changes a row, and
/// where its last statement does not fail the row itself is gone.
pub proof fn lemma_delete_only_removes<P>(
    table: Table,
    id: i32,
    store: Store<P>,
    env: Environment<P>,
)
    ensures
        forall|t: Table, i: i32| #[trigger]
            run(delete_operation(table, id), store, env).0.contains(t, i) ==> store.contains(t, i)
                && run(delete_operation(table, id), store, env).0.rows[(t, i)] == store.rows[(
                t,
                i,
            )],
        !env.failing.contains(final_delete(table)) ==> !run(
            delete_operation(table, id),
            store,
            env,
        ).0.contains(table, id),
{
    lemma_delete(table, id, store, env);
    let op = delete_operation(table, id);
    let last = final_delete(table) as int;
    assert(op.steps[last] == Statement::Delete { table, column: Column::Id, value: id });
    if !env.failing.contains(final_delete(table)) && store.contains(table, id) {
        assert(store.removes(op.steps[last], table, id));
    }
}

/// A delete that has nothing to remove leaves every table as it was.
pub proof fn lemma_idle_delete_changes_nothing<P>(
    table: Table,
    id: i32,
    store: Store<P>,
    env: Environment<P>,
)
    requires
        nothing_to_remove(delete_operation(table, id), store, env),
    ensures
        run(delete_operation(table, id), store, env) == (
            store,
            !env.failing.contains(final_delete(table)),
        ),
{
    lemma_delete(table, id, store, env);
    let op = delete_operation(table, id);
    let after = store.without_removed(op.steps, env.failing);
    assert forall|k: (Table, i32)| store.rows.dom().contains(k) implies after.rows.dom().contains(
        k,
    ) by {
        if !after.rows.dom().contains(k) {
            let i = choose|i: int|
                0 <= i < op.steps.len() && !env.failing.contains(i as nat) && store.removes(
                    #[trigger] op.steps[i],
                    k.0,
                    k.1,
                );
            assert(!store.spared_by(op.steps[i]));
        }
    }
    assert(after.rows =~= store.rows);
}

/// Deleting what is not there: a row that is missing, and that nothing
/// points to, leaves a delete nothing to remove, so that every table stays
/// as it was, whether or not the store fails.
pub proof fn lemma_delete_of_absent_changes_nothing<P>(
    table: Table,
    id: i32,
    store: Store<P>,
    env: Environment<P>,
)
    requires
        !store.contains(table, id),
        !store.referenced(table, id),
    ensures
        nothing_to_remove(delete_operation(table, id), store, env),
        run(delete_operation(table, id), store, env) == (
            store,
            !env.failing.contains(final_delete(table)),
        ),
{
    lemma_absent_row_leaves_nothing_to_remove(table, id, store, env);
    lemma_idle_delete_changes_nothing(table, id, store, env);
}

proof fn lemma_absent_row_leaves_nothing_to_remove<P>(
    table: Table,
    id: i32,
    store: Store<P>,
    env: Environment<P>,
)
    requires
        !store.contains(table, id),
        !store.referenced(table, id),
    ensures
        nothing_to_remove(delete_operation(table, id), store, env),
{
    let op = delete_operation(table, id);
    let places = table.dependents();
    assert(op.steps[places.len() as int] == Statement::Delete {
        table,
        column: Column::Id,
        value: id,
    });
    assert(forall|i: int| 0 <= i < places.len() ==> op.steps[i] == Statement::Delete {
        table: places[i].table,
        column: places[i].key.column(),
        value: id,
    });
    assert forall|i: int| 0 <= i < op.steps.len() implies store.spared_by(
        #[trigger] op.steps[i],
    ) by {
        assert forall|t: Table, row: i32| !store.removes(op.steps[i], t, row) by {
            lemma_points_to_by_key(store, t, row, table, id);
            assert(!store.points_to(t, row, table, id));
        }
    }
}

/// In a store with referential integrity, nothing points to a row that is
/// not there.
pub proof fn lemma_absent_row_is_unreferenced<P>(table: Table, id: i32, store: Store<P>)
    requires
        store.intact(),
        !store.contains(table, id),
    ensures
        !store.referenced(table, id),
{
}

/// Round trip: after a create that ended with `true`, a lookup of the
/// assigned primary key loads the item as it was given, and no other row
/// has changed.
pub proof fn lemma_created_row_reads_back<P>(
    table: Table,
    references: References,
    store: Store<P>,
    env: Environment<P>,
)
    requires
        run(create_operation(table, references), store, env).1,
    ensures
        ({
            let after = run(create_operation(table, references), store, env).0;
            &&& after == store.with_row(table, env.assigned, env.item)
            &&& !store.contains(table, env.assigned)
            &&& first_of(Ok::<_, StoreError>(after.select(table, env.assigned)))
                == Some(Row { id: env.assigned, record: env.item })
        }),
{
    lemma_create(table, references, store, env);
}

/// Existence after create: once a create has ended with `true`, the row
/// is there, and a read of the assigned primary key on which the store does
/// not fail ends with `true`.
pub proof fn lemma_row_exists_after_create<P>(
    table: Table,
    references: References,
    store: Store<P>,
    env: Environment<P>,
    later: Environment<P>,
)
    requires
        run(create_operation(table, references), store, env).1,
        !later.failing.contains(0),
    ensures
        ({
            let after = run(create_operation(table, references), store, env).0;
            &&& after.contains(table, env.assigned)
            &&& run(read_operation(table, env.assigned), after, later) == (after, true)
        }),
{
    lemma_create(table, references, store, env);
    let after = run(create_operation(table, references), store, env).0;
    lemma_read(table, env.assigned, after, later);
}

/// Existence after delete: once a delete has ended with `true`, the row
/// is gone, and every read of its primary key ends with `false`.
pub proof fn lemma_row_gone_after_delete<P>(
    table: Table,
    id: i32,
    store: Store<P>,
    env: Environment<P>,
    later: Environment<P>,
)
    requires
        run(delete_operation(table, id), store, env).1,
    ensures
        ({
            let after = run(delete_operation(table, id), store, env).0;
            &&& !after.contains(table, id)
            &&& run(read_operation(table, id), after, later) == (after, false)
        }),
{
    lemma_delete_reports_final_statement(table, id, store, env);
    lemma_delete_only_removes(table, id, store, env);
    let after = run(delete_operation(table, id), store, env).0;
    lemma_read(table, id, after, later);
}

/// Creating keeps referential integrity: whatever the store does, a create
/// whose item points where its lookups looked leaves no row without its
/// parent.
pub proof fn lemma_create_keeps_integrity<P>(table: Table, store: Store<P>, env: Environment<P>)
    requires
        store.intact(),
    ensures
        run(create_operation(table, env.item.references), store, env).0.intact(),
{
    let references = env.item.references;
    lemma_create(table, references, store, env);
    let after = run(create_operation(table, references), store, env).0;
    if admits_create(store, table, references, env) {
        assert forall|t: Table, i: i32, parent: Table, parent_id: i32| #[trigger]
            after.points_to(t, i, parent, parent_id) implies after.contains(parent, parent_id) by {
            let key = choose|key: ForeignKey| #[trigger]
                after.points_through(t, i, key, parent, parent_id);
            if (t, i) == (table, env.assigned) {
                lemma_foreign_keys_cover(table, key);
                let keys = table.foreign_keys();
                let j = choose|j: int| 0 <= j < keys.len() && keys[j] == key;
                assert(keys[j].parent() == parent);
            } else {
                assert(store.points_through(t, i, key, parent, parent_id));
                assert(store.points_to(t, i, parent, parent_id));
            }
        }
    }
}

/// Deleting keeps referential integrity, unless the store fails on a
/// statement that had a row to remove: the rows that pointed to the deleted
/// row leave with it.
pub proof fn lemma_delete_keeps_integrity<P>(
    table: Table,
    id: i32,
    store: Store<P>,
    env: Environment<P>,
)
    requires
        store.intact(),
        no_removal_fails(delete_operation(table, id), store, env),
    ensures
        run(delete_operation(table, id), store, env).0.intact(),
{
    lemma_delete_removes_family(table, id, store, env);
    let after = store.without_family(table, id);
    assert forall|t: Table, i: i32, parent: Table, parent_id: i32| #[trigger]
        after.points_to(t, i, parent, parent_id) implies after.contains(parent, parent_id) by {
        let key = choose|key: ForeignKey| #[trigger]
            after.points_through(t, i, key, parent, parent_id);
        assert(store.points_through(t, i, key, parent, parent_id));
        assert(store.points_to(t, i, parent, parent_id));
        // The parent is neither the deleted row, or the row would have left
        // with it, nor a dependent of it: a parent table has no foreign key.
        assert((parent, parent_id) != (table, id));
        assert(!store.points_to(parent, parent_id, table, id)) by {
            lemma_points_to_by_key(store, parent, parent_id, table, id);
        }
    }
}

/// Existence changes only through create and delete: a read or an update
/// neither adds a row nor removes one.
pub proof fn lemma_read_and_update_keep_existence<P>(
    table: Table,
    id: i32,
    store: Store<P>,
    env: Environment<P>,
)
    ensures
        run(read_operation(table, id), store, env).0 == store,
        forall|t: Table, i: i32|
            run(update_operation(table, id), store, env).0.contains(t, i) == store.contains(t, i),
{
    lemma_read(table, id, store, env);
    lemma_update(table, id, store, env);
}

/// A check says what a read would load: where the store does not fail, its
/// result is `true` exactly when the lookup yields a row.
pub proof fn lemma_check_agrees_with_read<P>(
    table: Table,
    id: i32,
    store: Store<P>,
    env: Environment<P>,
)
    requires
        !env.failing.contains(0),
    ensures
        run(read_operation(table, id), store, env).1 == (first_of(
            Ok::<_, StoreError>(store.select(table, id)),
        ) is Some),
{
    lemma_read(table, id, store, env);
}

/// Deleting an ingredient leaves no macro, no meal ingredient and no
/// recipe ingredient of it, and not the ingredient itself, unless the store
/// fails on a statement that had a row to remove.
pub proof fn lemma_ingredient_delete_leaves_no_dependents<P>(
    id: i32,
    store: Store<P>,
    env: Environment<P>,
)
    requires
        no_removal_fails(delete_operation(Table::Ingredients, id), store, env),
    ensures
        ({
            let after = run(delete_operation(Table::Ingredients, id), store, env).0;
            &&& !after.contains(Table::Ingredients, id)
            &&& forall|row: i32| #[trigger]
                after.contains(Table::IngredientMacros, row) ==> after.rows[(
                    Table::IngredientMacros,
                    row,
                )].references.ingredient_id != id
            &&& forall|row: i32| #[trigger]
                after.contains(Table::MealIngredients, row) ==> after.rows[(
                    Table::MealIngredients,
                    row,
                )].references.ingredient_id != id
            &&& forall|row: i32| #[trigger]
                after.contains(Table::RecipeIngredients, row) ==> after.rows[(
                    Table::RecipeIngredients,
                    row,
                )].references.ingredient_id != id
        }),
{
    lemma_delete_removes_family(Table::Ingredients, id, store, env);
    lemma_family_gone(Table::Ingredients, id, store);
    let after = store.without_family(Table::Ingredients, id);
    assert forall|table: Table, row: i32|
        table.has_key(ForeignKey::IngredientId) && #[trigger] after.contains(
            table,
            row,
        ) implies after.rows[(table, row)].references.ingredient_id != id by {
        if after.rows[(table, row)].references.ingredient_id == id {
            assert(after.points_through(
                table,
                row,
                ForeignKey::IngredientId,
                Table::Ingredients,
                id,
            ));
            assert(after.points_to(table, row, Table::Ingredients, id));
        }
    }
}

/// Whether the table of a statement has the column that the statement
/// names.
pub open spec fn fits_schema(statement: Statement) -> bool {
    statement matches Statement::Delete { table, column, .. } ==> table.has_column(column)
}

/// No operation of a controller asks for a column that its table lacks.
pub proof fn lemma_operations_fit_schema(table: Table, references: References, id: i32)
    ensures
        forall|i: int|
            0 <= i < create_operation(table, references).steps.len() ==> fits_schema(
                #[trigger] create_operation(table, references).steps[i],
            ),
        forall|i: int|
            0 <= i < delete_operation(table, id).steps.len() ==> fits_schema(
                #[trigger] delete_operation(table, id).steps[i],
            ),
        fits_schema(read_operation(table, id).steps[0]),
        fits_schema(update_operation(table, id).steps[0]),
{
}

} // verus!
