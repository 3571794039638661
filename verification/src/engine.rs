//! What the metadata layer asks of the storage engine.

use crate::error::EngineError;
use crate::schema::{DatabaseSchema, DatabaseSchemaView, TableColumn, TableColumnView};
use vstd::prelude::*;

verus! {

/// The storage engine that persists databases and native tables. The
/// metadata layer assumes nothing about what an engine answers: it hands
/// each request on and follows the answer. Its contracts speak of an
/// answer through the predicates below, so what is proved of a given
/// engine's answers carries over to the operations that ask it.
pub trait StorageEngine {
    /// The descriptor of the database `name`, if the engine holds one.
    fn get_db_schema(&self, name: &str) -> Option<DatabaseSchema>;

    /// Replaces the descriptor of the database that `schema` names.
    fn alter_database(&self, schema: &DatabaseSchema) -> Result<(), EngineError>;

    /// Adds `column` to the table `table` of the database `database`.
    fn add_table_column(&self, database: &str, table: &str, column: &TableColumn) -> Result<
        (),
        EngineError,
    >;

    /// Puts `new_column` in place of the column `column_name` of the table.
    fn change_table_column(
        &self,
        database: &str,
        table: &str,
        column_name: &str,
        new_column: &TableColumn,
    ) -> Result<(), EngineError>;

    /// Removes the column `column_name` from the table.
    fn drop_table_column(&self, database: &str, table: &str, column_name: &str) -> Result<
        (),
        EngineError,
    >;
}

/// Whether `answer` is something that `engine` may say when it is asked
/// for the descriptor of the database `name`.
pub open spec fn engine_found<E: StorageEngine>(
    engine: &E,
    name: Seq<char>,
    answer: Option<DatabaseSchema>,
) -> bool {
    exists|n: &str| n@ == name && #[trigger] call_ensures(E::get_db_schema, (engine, n), answer)
}

/// Whether `answer` is something that `engine` may say when it is asked
/// to replace a database's descriptor by `schema`.
pub open spec fn engine_altered_database<E: StorageEngine>(
    engine: &E,
    schema: DatabaseSchemaView,
    answer: Result<(), EngineError>,
) -> bool {
    exists|s: &DatabaseSchema|
        s@ == schema && #[trigger] call_ensures(E::alter_database, (engine, s), answer)
}

/// Whether `answer` is something that `engine` may say when it is asked
/// to add `column` to the table `table` of the database `database`.
pub open spec fn engine_added_column<E: StorageEngine>(
    engine: &E,
    database: Seq<char>,
    table: Seq<char>,
    column: TableColumnView,
    answer: Result<(), EngineError>,
) -> bool {
    exists|d: &str, t: &str, c: &TableColumn|
        d@ == database && t@ == table && c@ == column && #[trigger] call_ensures(
            E::add_table_column,
            (engine, d, t, c),
            answer,
        )
}

/// Whether `answer` is something that `engine` may say when it is asked
/// to put `new_column` in place of the column `column_name` of the table
/// `table` of the database `database`.
pub open spec fn engine_changed_column<E: StorageEngine>(
    engine: &E,
    database: Seq<char>,
    table: Seq<char>,
    column_name: Seq<char>,
    new_column: TableColumnView,
    answer: Result<(), EngineError>,
) -> bool {
    exists|d: &str, t: &str, n: &str, c: &TableColumn|
        d@ == database && t@ == table && n@ == column_name && c@ == new_column
            && #[trigger] call_ensures(E::change_table_column, (engine, d, t, n, c), answer)
}

/// Whether `answer` is something that `engine` may say when it is asked
/// to remove the column `column_name` from the table `table` of the
/// database `database`.
pub open spec fn engine_dropped_column<E: StorageEngine>(
    engine: &E,
    database: Seq<char>,
    table: Seq<char>,
    column_name: Seq<char>,
    answer: Result<(), EngineError>,
) -> bool {
    exists|d: &str, t: &str, n: &str|
        d@ == database && t@ == table && n@ == column_name && #[trigger] call_ensures(
            E::drop_table_column,
            (engine, d, t, n),
            answer,
        )
}

} // verus!
