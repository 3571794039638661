//! The registry of databases as contracts see it, and what each operation
//! of the facade makes of it.

use crate::database::{carried_out, fails_with, ColumnChange, DatabaseView};
use crate::engine::StorageEngine;
use crate::error::{MetadataError, MetadataErrorView};
use crate::reference::ResolvedTableReferenceView;
use crate::schema::{default_database_schema, DatabaseSchemaView, TableSchema, TableSchemaView};
use vstd::prelude::*;

verus! {

/// The name of the one catalog.
pub const DEFAULT_CATALOG: &'static str = "default_catalog";

/// The name of the database that exists from the start.
pub const DEFAULT_DATABASE: &'static str = "public";

/// The registry of databases as contracts see it.
pub type CatalogView = Map<Seq<char>, DatabaseView>;

/// A database called `name`, described by `schema`, without tables.
pub open spec fn empty_database(name: Seq<char>, schema: DatabaseSchemaView) -> DatabaseView {
    DatabaseView { name, schema, tables: Map::empty() }
}

/// The registry after the start: the default database is there, and a
/// registry that had it already is as it was.
pub open spec fn bootstrapped(c: CatalogView) -> CatalogView {
    if c.dom().contains(DEFAULT_DATABASE@) {
        c
    } else {
        c.insert(
            DEFAULT_DATABASE@,
            empty_database(DEFAULT_DATABASE@, default_database_schema(DEFAULT_DATABASE@)),
        )
    }
}

/// What looking up the table `n` in the registry `c` gives. The catalog
/// that `n` names plays no part in it.
pub open spec fn table_lookup(c: CatalogView, n: ResolvedTableReferenceView) -> Result<
    TableSchemaView,
    MetadataErrorView,
> {
    if !c.dom().contains(n.schema) {
        Err(MetadataErrorView::DatabaseNotExists { database_name: n.schema })
    } else if !c[n.schema].tables.dom().contains(n.table) {
        Err(MetadataErrorView::TableNotExists { table_name: n.table })
    } else {
        Ok(c[n.schema].tables[n.table])
    }
}

/// What creating the database `name` with the descriptor `schema` makes
/// of the registry `c`.
pub open spec fn created_database(
    c: CatalogView,
    name: Seq<char>,
    schema: DatabaseSchemaView,
) -> Result<CatalogView, MetadataErrorView> {
    if c.dom().contains(name) {
        Err(MetadataErrorView::DatabaseAlreadyExists { database_name: name })
    } else {
        Ok(c.insert(name, empty_database(name, schema)))
    }
}

/// What dropping the database `name` makes of the registry `c`.
pub open spec fn dropped_database(c: CatalogView, name: Seq<char>) -> Result<
    CatalogView,
    MetadataErrorView,
> {
    if c.dom().contains(name) {
        Ok(c.remove(name))
    } else {
        Err(MetadataErrorView::DatabaseNotExists { database_name: name })
    }
}

/// What registering `schema` as the table `n` makes of the registry `c`.
/// A table of that name is overwritten.
pub open spec fn created_table(
    c: CatalogView,
    n: ResolvedTableReferenceView,
    schema: TableSchemaView,
) -> Result<CatalogView, MetadataErrorView> {
    if c.dom().contains(n.schema) {
        Ok(c.insert(n.schema, c[n.schema].with_table(n.table, schema)))
    } else {
        Err(MetadataErrorView::DatabaseNotExists { database_name: n.schema })
    }
}

/// What dropping the table `n` makes of the registry `c`.
pub open spec fn dropped_table(c: CatalogView, n: ResolvedTableReferenceView) -> Result<
    CatalogView,
    MetadataErrorView,
> {
    if !c.dom().contains(n.schema) {
        Err(MetadataErrorView::DatabaseNotExists { database_name: n.schema })
    } else if !c[n.schema].tables.dom().contains(n.table) {
        Err(MetadataErrorView::TableNotExists { table_name: n.table })
    } else {
        Ok(c.insert(n.schema, c[n.schema].without_table(n.table)))
    }
}

/// Whether an operation that returned `r` and turned the registry
/// `before` into `after` did what `expected` says: reach the given
/// registry, or fail with the given error and change nothing.
pub open spec fn follows(
    before: CatalogView,
    after: CatalogView,
    r: Result<(), MetadataError>,
    expected: Result<CatalogView, MetadataErrorView>,
) -> bool {
    match expected {
        Ok(c) => r is Ok && after == c,
        Err(e) => fails_with(r, e) && after == before,
    }
}

/// The view of the outcome of a lookup.
pub open spec fn lookup_view(r: Result<TableSchema, MetadataError>) -> Result<
    TableSchemaView,
    MetadataErrorView,
> {
    match r {
        Ok(schema) => Ok(schema@),
        Err(e) => Err(e@),
    }
}

/// Whether the change `change` of the columns of the table `n`, which
/// returned `r` and turned the registry `before` into `after`, did what
/// is owed: fail for want of the database, or be carried out in that
/// database with `engine` and leave every other database alone.
pub open spec fn column_change_follows<E: StorageEngine>(
    before: CatalogView,
    after: CatalogView,
    r: Result<(), MetadataError>,
    engine: &E,
    n: ResolvedTableReferenceView,
    change: ColumnChange,
) -> bool {
    if !before.dom().contains(n.schema) {
        fails_with(r, MetadataErrorView::DatabaseNotExists { database_name: n.schema }) && after
            == before
    } else {
        &&& after.dom().contains(n.schema)
        &&& after == before.insert(n.schema, after[n.schema])
        &&& carried_out(before[n.schema], after[n.schema], r, engine, n.table, change)
    }
}

} // verus!
