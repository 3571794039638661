//! A database: its descriptor and the schemas of its tables.

use crate::engine::{
    engine_added_column, engine_changed_column, engine_dropped_column, StorageEngine,
};
use crate::error::{ColumnDropRefusal, EngineError, MetadataError, MetadataErrorView};
use crate::name_map::{lists_names, NameMap};
use crate::schema::{
    column_index, has_column, is_only_field, DatabaseSchema, DatabaseSchemaView, TableColumn,
    TableColumnView, TableSchema, TableSchemaView,
};
use vstd::prelude::*;

verus! {

/// A database of the catalog. It is the authority on which tables exist.
pub struct Database {
    name: String,
    schema: DatabaseSchema,
    tables: NameMap<TableSchema>,
}

/// A change of the columns of a table, as contracts see it.
pub enum ColumnChange {
    /// `column` is added behind the other columns.
    Add { column: TableColumnView },
    /// `new_column` takes the place of the column `column_name`.
    Alter { column_name: Seq<char>, new_column: TableColumnView },
    /// The column `column_name` is dropped.
    Drop { column_name: Seq<char> },
}

/// What a `Database` stands for in contracts.
pub struct DatabaseView {
    pub name: Seq<char>,
    pub schema: DatabaseSchemaView,
    pub tables: Map<Seq<char>, TableSchemaView>,
}

impl DatabaseView {
    /// The database with `schema` stored under the table name `table`.
    pub open spec fn with_table(self, table: Seq<char>, schema: TableSchemaView) -> DatabaseView {
        DatabaseView { tables: self.tables.insert(table, schema), ..self }
    }

    /// The database without the table `table`.
    pub open spec fn without_table(self, table: Seq<char>) -> DatabaseView {
        DatabaseView { tables: self.tables.remove(table), ..self }
    }

    /// The database with `columns` as the columns of its table `table`.
    pub open spec fn with_columns(
        self,
        table: Seq<char>,
        columns: Seq<TableColumnView>,
    ) -> DatabaseView {
        self.with_table(table, self.tables[table].with_columns(columns))
    }

    /// The columns of the table `table`.
    pub open spec fn columns(self, table: Seq<char>) -> Seq<TableColumnView> {
        self.tables[table].columns()
    }

    /// The error that adding `column` to `table` meets before the storage
    /// engine is asked, if there is one.
    pub open spec fn add_column_refusal(
        self,
        table: Seq<char>,
        column: TableColumnView,
    ) -> Option<MetadataErrorView> {
        if !self.tables.dom().contains(table) {
            Some(MetadataErrorView::TableNotExists { table_name: table })
        } else if has_column(self.columns(table), column.name) {
            Some(MetadataErrorView::ColumnAlreadyExists { table, column: column.name })
        } else {
            None
        }
    }

    /// The database after `column` was added to `table`.
    pub open spec fn after_add_column(
        self,
        table: Seq<char>,
        column: TableColumnView,
    ) -> DatabaseView {
        self.with_columns(table, self.columns(table).push(column))
    }

    /// The error that putting `new_column` in place of the column
    /// `column_name` of `table` meets before the storage engine is asked,
    /// if there is one. A new name that another column bears is refused.
    pub open spec fn alter_column_refusal(
        self,
        table: Seq<char>,
        column_name: Seq<char>,
        new_column: TableColumnView,
    ) -> Option<MetadataErrorView> {
        if !self.tables.dom().contains(table) {
            Some(MetadataErrorView::TableNotExists { table_name: table })
        } else if !has_column(self.columns(table), column_name) {
            Some(MetadataErrorView::ColumnNotExists { table, column: column_name })
        } else if new_column.name != column_name && has_column(
            self.columns(table),
            new_column.name,
        ) {
            Some(MetadataErrorView::ColumnAlreadyExists { table, column: new_column.name })
        } else {
            None
        }
    }

    /// The database after `new_column` took the place of the column
    /// `column_name` of `table`.
    pub open spec fn after_alter_column(
        self,
        table: Seq<char>,
        column_name: Seq<char>,
        new_column: TableColumnView,
    ) -> DatabaseView {
        self.with_columns(
            table,
            self.columns(table).update(column_index(self.columns(table), column_name), new_column),
        )
    }

    /// The error that dropping the column `column_name` of `table` meets
    /// before the storage engine is asked, if there is one. The time
    /// column and the only field column that is left stay.
    pub open spec fn drop_column_refusal(
        self,
        table: Seq<char>,
        column_name: Seq<char>,
    ) -> Option<MetadataErrorView> {
        let columns = self.columns(table);
        let i = column_index(columns, column_name);
        if !self.tables.dom().contains(table) {
            Some(MetadataErrorView::TableNotExists { table_name: table })
        } else if !has_column(columns, column_name) {
            Some(MetadataErrorView::ColumnNotExists { table, column: column_name })
        } else if columns[i].column_type is Time {
            Some(
                MetadataErrorView::InvalidColumnDrop { reason: ColumnDropRefusal::TimeColumn },
            )
        } else if is_only_field(columns, i) {
            Some(
                MetadataErrorView::InvalidColumnDrop {
                    reason: ColumnDropRefusal::LastFieldColumn,
                },
            )
        } else {
            None
        }
    }

    /// The database after the column `column_name` of `table` was dropped.
    pub open spec fn after_drop_column(
        self,
        table: Seq<char>,
        column_name: Seq<char>,
    ) -> DatabaseView {
        self.with_columns(
            table,
            self.columns(table).remove(column_index(self.columns(table), column_name)),
        )
    }

    /// The error that the change `change` of `table` meets before the
    /// storage engine is asked, if there is one.
    pub open spec fn refusal(self, table: Seq<char>, change: ColumnChange) -> Option<
        MetadataErrorView,
    > {
        match change {
            ColumnChange::Add { column } => self.add_column_refusal(table, column),
            ColumnChange::Alter { column_name, new_column } => self.alter_column_refusal(
                table,
                column_name,
                new_column,
            ),
            ColumnChange::Drop { column_name } => self.drop_column_refusal(table, column_name),
        }
    }

    /// The database after the change `change` of `table`.
    pub open spec fn changed(self, table: Seq<char>, change: ColumnChange) -> DatabaseView {
        match change {
            ColumnChange::Add { column } => self.after_add_column(table, column),
            ColumnChange::Alter { column_name, new_column } => self.after_alter_column(
                table,
                column_name,
                new_column,
            ),
            ColumnChange::Drop { column_name } => self.after_drop_column(table, column_name),
        }
    }

    /// Whether the storage engine is asked about the change `change` of
    /// `table`: only where nothing stands against the change, and only
    /// for a table that the engine holds.
    pub open spec fn asks_engine(self, table: Seq<char>, change: ColumnChange) -> bool {
        self.refusal(table, change) is None && self.tables[table] is TsKvTableSchema
    }

    /// Whether `answer` stands for what `engine` says to the change
    /// `change` of `table`. Where the engine is asked, it is something
    /// that the engine may say to that change of that table of this
    /// database. Where it is not asked, it is agreement.
    pub open spec fn engine_answer<E: StorageEngine>(
        self,
        engine: &E,
        table: Seq<char>,
        change: ColumnChange,
        answer: Result<(), EngineError>,
    ) -> bool {
        if self.asks_engine(table, change) {
            match change {
                ColumnChange::Add { column } => engine_added_column(
                    engine,
                    self.name,
                    table,
                    column,
                    answer,
                ),
                ColumnChange::Alter { column_name, new_column } => engine_changed_column(
                    engine,
                    self.name,
                    table,
                    column_name,
                    new_column,
                    answer,
                ),
                ColumnChange::Drop { column_name } => engine_dropped_column(
                    engine,
                    self.name,
                    table,
                    column_name,
                    answer,
                ),
            }
        } else {
            answer is Ok
        }
    }
}

/// The view of an error that may be absent.
pub open spec fn refusal_view(e: Option<MetadataError>) -> Option<MetadataErrorView> {
    match e {
        Some(e) => Some(e@),
        None => None,
    }
}

/// Whether `r` is the error `e`.
pub open spec fn fails_with<T>(r: Result<T, MetadataError>, e: MetadataErrorView) -> bool {
    r matches Err(x) && x@ == e
}

/// What the change `change` of `table` returns and leaves behind once
/// the storage engine has answered `answer`: the error that stands
/// against the change where there is one, else the engine's objection
/// with nothing changed, else the changed database.
pub open spec fn settled(
    before: DatabaseView,
    after: DatabaseView,
    r: Result<(), MetadataError>,
    table: Seq<char>,
    change: ColumnChange,
    answer: Result<(), EngineError>,
) -> bool {
    match before.refusal(table, change) {
        Some(e) => fails_with(r, e) && after == before,
        None => match answer {
            Ok(()) => r is Ok && after == before.changed(table, change),
            Err(e) => fails_with(r, MetadataErrorView::External { message: e.message@ }) && after
                == before,
        },
    }
}

/// What the change `change` of `table` returns and leaves behind when it
/// asks the storage engine itself: there is an answer of `engine` to the
/// change, in the sense of `engine_answer`, by which it was settled.
pub open spec fn carried_out<E: StorageEngine>(
    before: DatabaseView,
    after: DatabaseView,
    r: Result<(), MetadataError>,
    engine: &E,
    table: Seq<char>,
    change: ColumnChange,
) -> bool {
    exists|answer: Result<(), EngineError>|
        {
            &&& #[trigger] before.engine_answer(engine, table, change, answer)
            &&& settled(before, after, r, table, change, answer)
        }
}

impl View for Database {
    type V = DatabaseView;

    closed spec fn view(&self) -> DatabaseView {
        DatabaseView { name: self.name@, schema: self.schema@, tables: self.tables@ }
    }
}

impl Database {
    /// A database called `name`, described by `schema`, without tables.
    pub fn new(name: &str, schema: DatabaseSchema) -> (d: Self)
        ensures
            d@ == (DatabaseView { name: name@, schema: schema@, tables: Map::empty() }),
    {
        Database { name: name.to_owned(), schema, tables: NameMap::new() }
    }

    /// The name of the database.
    pub fn name(&self) -> (n: &str)
        ensures
            n@ == self@.name,
    {
        self.name.as_str()
    }

    /// The descriptor of the database.
    pub fn schema(&self) -> (s: &DatabaseSchema)
        ensures
            s@ == self@.schema,
    {
        &self.schema
    }

    /// Stores `schema` under the table name `name`, in place of the schema
    /// that was stored under it, if there was one.
    pub fn register_table(&mut self, name: String, schema: TableSchema)
        ensures
            final(self)@ == old(self)@.with_table(name@, schema@),
    {
        self.tables.insert(name, schema);
    }

    /// Removes the table `name` and returns its schema.
    pub fn deregister_table(&mut self, name: &str) -> (r: Result<TableSchema, MetadataError>)
        ensures
            match r {
                Ok(schema) => old(self)@.tables.dom().contains(name@) && schema@ == old(
                    self,
                )@.tables[name@] && final(self)@ == old(self)@.without_table(name@),
                Err(e) => !old(self)@.tables.dom().contains(name@) && e@ == (
                MetadataErrorView::TableNotExists { table_name: name@ }) && final(self)@ == old(
                    self,
                )@,
            },
    {
        match self.tables.remove(name) {
            Some(schema) => Ok(schema),
            None => {
                assert(self.tables@ =~= old(self).tables@);
                Err(MetadataError::TableNotExists { table_name: name.to_owned() })
            },
        }
    }

    /// The schema of the table `name`, if the database has that table.
    pub fn get_table(&self, name: &str) -> (r: Option<&TableSchema>)
        ensures
            match r {
                Some(schema) => self@.tables.dom().contains(name@) && schema@
                    == self@.tables[name@],
                None => !self@.tables.dom().contains(name@),
            },
    {
        self.tables.get(name)
    }

    /// The names of the tables, each once, in no particular order.
    pub fn table_names(&self) -> (names: Vec<String>)
        ensures
            lists_names(names@, self@.tables.dom()),
    {
        self.tables.names()
    }

    fn replace_columns(&mut self, table: &str, columns: crate::schema::Columns)
        requires
            old(self)@.tables.dom().contains(table@),
        ensures
            final(self)@ == old(self)@.with_columns(table@, columns@),
    {
        match self.tables.remove(table) {
            Some(schema) => {
                let changed = schema.with_columns(columns);
                self.tables.insert(table.to_owned(), changed);
                assert(self.tables@ =~= old(self).tables@.insert(
                    table@,
                    old(self).tables@[table@].with_columns(columns@),
                ));
            },
            None => {},
        }
    }

    fn add_column_refusal(&self, table: &str, column: &TableColumn) -> (r: Option<MetadataError>)
        ensures
            refusal_view(r) == self@.add_column_refusal(table@, column@),
    {
        match self.tables.get(table) {
            None => Some(MetadataError::TableNotExists { table_name: table.to_owned() }),
            Some(schema) => {
                if schema.columns().contains(column.name.as_str()) {
                    Some(
                        MetadataError::ColumnAlreadyExists {
                            table: table.to_owned(),
                            column: column.name.clone(),
                        },
                    )
                } else {
                    None
                }
            },
        }
    }

    fn alter_column_refusal(&self, table: &str, column_name: &str, new_column: &TableColumn) -> (r:
        Option<MetadataError>)
        ensures
            refusal_view(r) == self@.alter_column_refusal(table@, column_name@, new_column@),
    {
        match self.tables.get(table) {
            None => Some(MetadataError::TableNotExists { table_name: table.to_owned() }),
            Some(schema) => {
                let columns = schema.columns();
                if !columns.contains(column_name) {
                    Some(
                        MetadataError::ColumnNotExists {
                            table: table.to_owned(),
                            column: column_name.to_owned(),
                        },
                    )
                } else if !new_column.name.as_str().eq(column_name) && columns.contains(
                    new_column.name.as_str(),
                ) {
                    Some(
                        MetadataError::ColumnAlreadyExists {
                            table: table.to_owned(),
                            column: new_column.name.clone(),
                        },
                    )
                } else {
                    None
                }
            },
        }
    }

    fn drop_column_refusal(&self, table: &str, column_name: &str) -> (r: Option<MetadataError>)
        ensures
            refusal_view(r) == self@.drop_column_refusal(table@, column_name@),
    {
        match self.tables.get(table) {
            None => Some(MetadataError::TableNotExists { table_name: table.to_owned() }),
            Some(schema) => {
                let columns = schema.columns();
                match columns.position(column_name) {
                    None => Some(
                        MetadataError::ColumnNotExists {
                            table: table.to_owned(),
                            column: column_name.to_owned(),
                        },
                    ),
                    Some(i) => {
                        if columns.get(i).column_type.is_time() {
                            Some(
                                MetadataError::InvalidColumnDrop {
                                    reason: ColumnDropRefusal::TimeColumn,
                                },
                            )
                        } else if columns.is_only_field(i) {
                            Some(
                                MetadataError::InvalidColumnDrop {
                                    reason: ColumnDropRefusal::LastFieldColumn,
                                },
                            )
                        } else {
                            None
                        }
                    },
                }
            },
        }
    }

    fn holds_natively(&self, table: &str) -> (r: bool)
        requires
            self@.tables.dom().contains(table@),
        ensures
            r == (self@.tables[table@] is TsKvTableSchema),
    {
        match self.tables.get(table) {
            Some(schema) => schema.is_native(),
            None => false,
        }
    }

    /// Ends the addition of `column` to `table`, given what the storage
    /// engine answered to it. An addition that the engine rejected leaves
    /// the database as it was.
    pub fn settle_add_column(
        &mut self,
        table: &str,
        column: TableColumn,
        answer: Result<(), EngineError>,
    ) -> (r: Result<(), MetadataError>)
        ensures
            settled(
                old(self)@,
                final(self)@,
                r,
                table@,
                (ColumnChange::Add { column: column@ }),
                answer,
            ),
    {
        if let Some(e) = self.add_column_refusal(table, &column) {
            return Err(e);
        }
        if let Err(e) = answer {
            return Err(MetadataError::from_engine(e));
        }
        let mut columns = match self.tables.get(table) {
            Some(schema) => schema.columns().clone(),
            None => crate::schema::Columns::new(),
        };
        columns.append(column);
        self.replace_columns(table, columns);
        Ok(())
    }

    /// Adds `column` to `table`. For a table that the storage engine
    /// holds the engine is asked first, and the database changes only if
    /// it agrees.
    pub fn table_add_column<E: StorageEngine>(
        &mut self,
        engine: &E,
        table: &str,
        column: TableColumn,
    ) -> (r: Result<(), MetadataError>)
        ensures
            carried_out(
                old(self)@,
                final(self)@,
                r,
                engine,
                table@,
                (ColumnChange::Add { column: column@ }),
            ),
    {
        let ghost change = ColumnChange::Add { column: column@ };
        if let Some(e) = self.add_column_refusal(table, &column) {
            assert(self@.engine_answer(engine, table@, change, Ok(())));
            return Err(e);
        }
        let answer = if self.holds_natively(table) {
            engine.add_table_column(self.name.as_str(), table, &column)
        } else {
            Ok(())
        };
        assert(self@.engine_answer(engine, table@, change, answer));
        self.settle_add_column(table, column, answer)
    }

    /// Ends the replacement of the column `column_name` of `table` by
    /// `new_column`, given what the storage engine answered to it. A
    /// replacement that the engine rejected leaves the database as it was.
    pub fn settle_alter_column(
        &mut self,
        table: &str,
        column_name: &str,
        new_column: TableColumn,
        answer: Result<(), EngineError>,
    ) -> (r: Result<(), MetadataError>)
        ensures
            settled(
                old(self)@,
                final(self)@,
                r,
                table@,
                (ColumnChange::Alter { column_name: column_name@, new_column: new_column@ }),
                answer,
            ),
    {
        if let Some(e) = self.alter_column_refusal(table, column_name, &new_column) {
            return Err(e);
        }
        if let Err(e) = answer {
            return Err(MetadataError::from_engine(e));
        }
        let mut columns = match self.tables.get(table) {
            Some(schema) => schema.columns().clone(),
            None => crate::schema::Columns::new(),
        };
        match columns.position(column_name) {
            Some(i) => {
                assert forall|j: int| 0 <= j < columns@.len() && j != i implies (
                #[trigger] columns@[j]).name != new_column.name@ by {
                    if new_column.name@ != column_name@ {
                        assert(!has_column(columns@, new_column.name@));
                    }
                }
                columns.replace(i, new_column);
            },
            None => {},
        }
        self.replace_columns(table, columns);
        Ok(())
    }

    /// Puts `new_column` in place of the column `column_name` of `table`.
    /// For a table that the storage engine holds the engine is asked
    /// first, and the database changes only if it agrees: whether a change
    /// of type is admissible is the engine's to say.
    pub fn table_alter_column<E: StorageEngine>(
        &mut self,
        engine: &E,
        table: &str,
        column_name: &str,
        new_column: TableColumn,
    ) -> (r: Result<(), MetadataError>)
        ensures
            carried_out(
                old(self)@,
                final(self)@,
                r,
                engine,
                table@,
                (ColumnChange::Alter { column_name: column_name@, new_column: new_column@ }),
            ),
    {
        let ghost change = ColumnChange::Alter {
            column_name: column_name@,
            new_column: new_column@,
        };
        if let Some(e) = self.alter_column_refusal(table, column_name, &new_column) {
            assert(self@.engine_answer(engine, table@, change, Ok(())));
            return Err(e);
        }
        let answer = if self.holds_natively(table) {
            engine.change_table_column(self.name.as_str(), table, column_name, &new_column)
        } else {
            Ok(())
        };
        assert(self@.engine_answer(engine, table@, change, answer));
        self.settle_alter_column(table, column_name, new_column, answer)
    }

    /// Ends the removal of the column `column_name` of `table`, given what
    /// the storage engine answered to it. A removal that the engine
    /// rejected leaves the database as it was.
    pub fn settle_drop_column(
        &mut self,
        table: &str,
        column_name: &str,
        answer: Result<(), EngineError>,
    ) -> (r: Result<(), MetadataError>)
        ensures
            settled(
                old(self)@,
                final(self)@,
                r,
                table@,
                (ColumnChange::Drop { column_name: column_name@ }),
                answer,
            ),
    {
        if let Some(e) = self.drop_column_refusal(table, column_name) {
            return Err(e);
        }
        if let Err(e) = answer {
            return Err(MetadataError::from_engine(e));
        }
        let mut columns = match self.tables.get(table) {
            Some(schema) => schema.columns().clone(),
            None => crate::schema::Columns::new(),
        };
        match columns.position(column_name) {
            Some(i) => {
                let _ = columns.remove(i);
            },
            None => {},
        }
        self.replace_columns(table, columns);
        Ok(())
    }

    /// Drops the column `column_name` of `table`. For a table that the
    /// storage engine holds the engine is asked first, and the database
    /// changes only if it agrees.
    pub fn table_drop_column<E: StorageEngine>(
        &mut self,
        engine: &E,
        table: &str,
        column_name: &str,
    ) -> (r: Result<(), MetadataError>)
        ensures
            carried_out(
                old(self)@,
                final(self)@,
                r,
                engine,
                table@,
                (ColumnChange::Drop { column_name: column_name@ }),
            ),
    {
        let ghost change = ColumnChange::Drop { column_name: column_name@ };
        if let Some(e) = self.drop_column_refusal(table, column_name) {
            assert(self@.engine_answer(engine, table@, change, Ok(())));
            return Err(e);
        }
        let answer = if self.holds_natively(table) {
            engine.drop_table_column(self.name.as_str(), table, column_name)
        } else {
            Ok(())
        };
        assert(self@.engine_answer(engine, table@, change, answer));
        self.settle_drop_column(table, column_name, answer)
    }
}

} // verus!
