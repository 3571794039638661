//! Laws of the registry: what holds of its operations taken together.

use crate::database::{carried_out, settled, ColumnChange, DatabaseView};
use crate::engine::StorageEngine;
use crate::error::{EngineError, MetadataError, MetadataErrorView};
use crate::model::{
    bootstrapped, column_change_follows, created_database, created_table, dropped_database,
    dropped_table, table_lookup, CatalogView, DEFAULT_DATABASE,
};
use crate::reference::ResolvedTableReferenceView;
use crate::schema::{
    distinct_column_names, has_column, lemma_column_index, DatabaseSchemaView, TableColumnView,
    TableSchemaView,
};
use vstd::prelude::*;

verus! {

/// A column change that failed, for whatever reason, left the registry
/// as it was: what the storage engine rejects is not kept in memory.
pub proof fn lemma_failed_change_keeps_registry<E: StorageEngine>(
    before: CatalogView,
    after: CatalogView,
    r: Result<(), MetadataError>,
    engine: &E,
    n: ResolvedTableReferenceView,
    change: ColumnChange,
)
    requires
        column_change_follows(before, after, r, engine, n, change),
        r is Err,
    ensures
        after == before,
{
    if before.dom().contains(n.schema) {
        assert(after[n.schema] == before[n.schema]);
        assert(after =~= before);
    }
}

/// A column change that the storage engine rejected left the database as
/// it was, and the caller learns that the change failed.
pub proof fn lemma_rejected_change_keeps_database(
    before: DatabaseView,
    after: DatabaseView,
    r: Result<(), MetadataError>,
    table: Seq<char>,
    change: ColumnChange,
    answer: Result<(), EngineError>,
)
    requires
        settled(before, after, r, table, change, answer),
        answer is Err,
    ensures
        after == before,
        r is Err,
{
}

/// A column change that nothing stands against and that the storage
/// engine is not asked about, or agrees to whenever it is asked, is made.
pub proof fn lemma_agreed_change_is_made<E: StorageEngine>(
    before: DatabaseView,
    after: DatabaseView,
    r: Result<(), MetadataError>,
    engine: &E,
    table: Seq<char>,
    change: ColumnChange,
)
    requires
        carried_out(before, after, r, engine, table, change),
        before.refusal(table, change) is None,
        forall|answer: Result<(), EngineError>|
            #[trigger] before.engine_answer(engine, table, change, answer) ==> answer is Ok,
    ensures
        r is Ok,
        after == before.changed(table, change),
{
}

/// After a database was created it is registered, and after it was
/// dropped it is not: whatever the registry held before, and whether or
/// not the creation met a database of that name.
pub proof fn lemma_database_round_trip(c: CatalogView, name: Seq<char>, schema: DatabaseSchemaView)
    ensures
        ({
            let created = match created_database(c, name, schema) {
                Ok(c1) => c1,
                Err(_) => c,
            };
            &&& created.dom().contains(name)
            &&& dropped_database(created, name) matches Ok(c2) && !c2.dom().contains(name)
        }),
{
}

/// A table that was created in a registered database is found with the
/// schema it was created with; once dropped, it is reported as a table
/// that does not exist.
pub proof fn lemma_table_round_trip(
    c: CatalogView,
    n: ResolvedTableReferenceView,
    schema: TableSchemaView,
)
    requires
        c.dom().contains(n.schema),
    ensures
        created_table(c, n, schema) matches Ok(c1) && (table_lookup(c1, n) matches Ok(found)
            && found == schema) && (dropped_table(c1, n) matches Ok(c2) && (table_lookup(c2, n)
            matches Err(e) && e == (MetadataErrorView::TableNotExists { table_name: n.table }))),
{
}

/// Dropping a database drops its tables with it: afterwards a reference
/// into that database finds no database.
pub proof fn lemma_dropped_database_takes_tables(c: CatalogView, n: ResolvedTableReferenceView)
    requires
        c.dom().contains(n.schema),
    ensures
        dropped_database(c, n.schema) matches Ok(c1) && (table_lookup(c1, n) matches Err(e) && e
            == (MetadataErrorView::DatabaseNotExists { database_name: n.schema })),
{
}

/// A column that was added stands last in its table, behind the columns
/// that were there, and every other table is as it was.
pub proof fn lemma_added_column_is_last(d: DatabaseView, table: Seq<char>, column: TableColumnView)
    requires
        d.add_column_refusal(table, column) is None,
    ensures
        d.after_add_column(table, column).columns(table) == d.columns(table).push(column),
        has_column(d.after_add_column(table, column).columns(table), column.name),
        forall|other: Seq<char>|
            other != table ==> d.after_add_column(table, column).tables.dom().contains(other)
                == d.tables.dom().contains(other) && d.after_add_column(table, column).tables[other]
                == d.tables[other],
{
    let columns = d.after_add_column(table, column).columns(table);
    assert(columns[d.columns(table).len() as int] == column);
}

/// Dropping the column that was added last gives the database back as it
/// was before the addition.
pub proof fn lemma_add_then_drop(d: DatabaseView, table: Seq<char>, column: TableColumnView)
    requires
        distinct_column_names(d.columns(table)),
        d.add_column_refusal(table, column) is None,
    ensures
        d.after_add_column(table, column).after_drop_column(table, column.name) == d,
{
    let before = d.columns(table);
    let added = d.after_add_column(table, column);
    assert(added.columns(table) == before.push(column));
    assert forall|i: int, j: int| 0 <= i < j < before.push(column).len() implies before.push(
        column,
    )[i].name != before.push(column)[j].name by {
        if j == before.len() {
            assert(before[i].name != column.name);
        }
    }
    lemma_column_index(before.push(column), column.name, before.len() as int);
    assert(before.push(column).remove(before.len() as int) =~= before);
    assert(d.tables[table].with_columns(before) == d.tables[table]);
    assert(added.after_drop_column(table, column.name).tables =~= d.tables);
}

/// Starting twice is starting once: the second start finds the default
/// database and leaves the registry as the first start left it.
pub proof fn lemma_bootstrap_idempotent(c: CatalogView)
    ensures
        bootstrapped(c).dom().contains(DEFAULT_DATABASE@),
        bootstrapped(bootstrapped(c)) == bootstrapped(c),
{
}

} // verus!
