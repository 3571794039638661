//! The entry point to the metadata: a naming context over the registry of
//! databases, the storage engine and the registry of functions.

use crate::catalog::UserCatalog;
use crate::database::{fails_with, ColumnChange, Database};
use crate::engine::{engine_altered_database, engine_found, StorageEngine};
use crate::error::{EngineError, MetadataError, MetadataErrorView};
use crate::model::{
    bootstrapped, column_change_follows, created_database, created_table, dropped_database,
    dropped_table, follows, lookup_view, table_lookup, DEFAULT_CATALOG, DEFAULT_DATABASE,
};
use crate::name_map::lists_names;
use crate::reference::{parsed_reference, TableReference};
use crate::schema::{DatabaseSchema, TableColumn, TableSchema};
use vstd::prelude::*;

verus! {

/// Metadata served by a remote catalog. It carries no state of its own.
pub struct RemoteCatalogMeta {}

/// What a facade stands for in contracts: its naming context.
pub struct ContextView {
    pub catalog_name: Seq<char>,
    pub database_name: Seq<char>,
}

/// The facade of the metadata. It holds the naming context against which
/// references are resolved, and handles of the storage engine and of the
/// registry of functions. The registry of databases is handed to each
/// operation, so every facade made from another one works on the same
/// registry.
pub struct LocalCatalogMeta<E, F> {
    catalog_name: String,
    database_name: String,
    engine: E,
    func_manager: F,
}

impl<E, F> View for LocalCatalogMeta<E, F> {
    type V = ContextView;

    closed spec fn view(&self) -> ContextView {
        ContextView { catalog_name: self.catalog_name@, database_name: self.database_name@ }
    }
}

/// Whether `r` is what the lookup of the descriptor of the database
/// `name` gives once the storage engine has answered `answer`: the
/// descriptor that the engine holds, or `DatabaseNotExists`.
pub open spec fn database_follows(
    name: Seq<char>,
    answer: Option<DatabaseSchema>,
    r: Result<DatabaseSchema, MetadataError>,
) -> bool {
    match answer {
        Some(schema) => r matches Ok(found) && found == schema,
        None => fails_with(r, MetadataErrorView::DatabaseNotExists { database_name: name }),
    }
}

/// Whether `r` is what a change of a database's descriptor gives once the
/// storage engine has answered `answer`: success, or what the engine
/// objected as `External`.
pub open spec fn alteration_follows(
    answer: Result<(), EngineError>,
    r: Result<(), MetadataError>,
) -> bool {
    match answer {
        Ok(()) => r is Ok,
        Err(e) => fails_with(r, MetadataErrorView::External { message: e.message@ }),
    }
}

/// Ends a lookup of a database's descriptor, given what the storage
/// engine answered.
pub fn found_database(name: &str, answer: Option<DatabaseSchema>) -> (r: Result<
    DatabaseSchema,
    MetadataError,
>)
    ensures
        database_follows(name@, answer, r),
{
    match answer {
        Some(schema) => Ok(schema),
        None => Err(MetadataError::DatabaseNotExists { database_name: name.to_owned() }),
    }
}

/// Ends a change of a database's descriptor, given what the storage
/// engine answered.
pub fn altered_database(answer: Result<(), EngineError>) -> (r: Result<(), MetadataError>)
    ensures
        alteration_follows(answer, r),
{
    match answer {
        Ok(()) => Ok(()),
        Err(e) => Err(MetadataError::from_engine(e)),
    }
}

impl<E, F> LocalCatalogMeta<E, F> {
    /// The handle of the storage engine that the facade holds.
    pub closed spec fn engine_handle(&self) -> E {
        self.engine
    }

    /// The handle of the registry of functions that the facade holds.
    pub closed spec fn function_handle(&self) -> F {
        self.func_manager
    }
}

impl<E: StorageEngine + Clone, F: Clone> LocalCatalogMeta<E, F> {
    /// A facade in the default context over the registry `catalog`, in
    /// which it makes sure that the default database exists. A registry
    /// that holds that database already is left as it is, so a start
    /// after a start succeeds as well.
    pub fn new_with_default(engine: E, func_manager: F, catalog: &mut UserCatalog) -> (r: Result<
        Self,
        MetadataError,
    >)
        ensures
            r matches Ok(meta) && meta@ == (ContextView {
                catalog_name: DEFAULT_CATALOG@,
                database_name: DEFAULT_DATABASE@,
            }) && meta.engine_handle() == engine && meta.function_handle() == func_manager,
            final(catalog)@ == bootstrapped(old(catalog)@),
    {
        let meta = LocalCatalogMeta {
            catalog_name: DEFAULT_CATALOG.to_owned(),
            database_name: DEFAULT_DATABASE.to_owned(),
            engine,
            func_manager,
        };
        if let Err(e) = meta.create_database(
            catalog,
            meta.database_name.as_str(),
            DatabaseSchema::new(meta.database_name.as_str()),
        ) {
            match e {
                MetadataError::DatabaseAlreadyExists { .. } => {},
                _ => {
                    return Err(e);
                },
            }
        }
        Ok(meta)
    }

    /// A facade that works on the same registry, with clones of the
    /// handles of the engine and of the functions, and with `catalog_name`
    /// as its current catalog.
    pub fn with_catalog(&self, catalog_name: &str) -> (meta: Self)
        ensures
            meta@ == (ContextView { catalog_name: catalog_name@, ..self@ }),
            cloned(self.engine_handle(), meta.engine_handle()),
            cloned(self.function_handle(), meta.function_handle()),
    {
        LocalCatalogMeta {
            catalog_name: catalog_name.to_owned(),
            database_name: self.database_name.clone(),
            engine: self.engine.clone(),
            func_manager: self.func_manager.clone(),
        }
    }

    /// A facade that works on the same registry, with clones of the
    /// handles of the engine and of the functions, and with `database` as
    /// its current database.
    pub fn with_database(&self, database: &str) -> (meta: Self)
        ensures
            meta@ == (ContextView { database_name: database@, ..self@ }),
            cloned(self.engine_handle(), meta.engine_handle()),
            cloned(self.function_handle(), meta.function_handle()),
    {
        LocalCatalogMeta {
            catalog_name: self.catalog_name.clone(),
            database_name: database.to_owned(),
            engine: self.engine.clone(),
            func_manager: self.func_manager.clone(),
        }
    }

    /// The current catalog.
    pub fn catalog_name(&self) -> (name: &str)
        ensures
            name@ == self@.catalog_name,
    {
        self.catalog_name.as_str()
    }

    /// The current database.
    pub fn schema_name(&self) -> (name: &str)
        ensures
            name@ == self@.database_name,
    {
        self.database_name.as_str()
    }

    /// The storage engine.
    pub fn engine(&self) -> (engine: &E)
        ensures
            *engine == self.engine_handle(),
    {
        &self.engine
    }

    /// The registry of functions.
    pub fn function(&self) -> (functions: &F)
        ensures
            *functions == self.function_handle(),
    {
        &self.func_manager
    }

    /// The schema of the table that `table` names in the current context.
    pub fn table(&self, catalog: &UserCatalog, table: &TableReference) -> (r: Result<
        TableSchema,
        MetadataError,
    >)
        ensures
            lookup_view(r) == table_lookup(
                catalog@,
                table@.resolve(self@.catalog_name, self@.database_name),
            ),
    {
        let name = table.resolve(self.catalog_name.as_str(), self.database_name.as_str());
        match catalog.get_database(name.schema.as_str()) {
            None => Err(MetadataError::DatabaseNotExists { database_name: name.schema }),
            Some(database) => match database.get_table(name.table.as_str()) {
                None => Err(MetadataError::TableNotExists { table_name: name.table }),
                Some(schema) => Ok(schema.clone()),
            },
        }
    }

    /// The descriptor that the storage engine holds of the database
    /// `name`. An engine that holds none gives `DatabaseNotExists`.
    pub fn database(&self, name: &str) -> (r: Result<DatabaseSchema, MetadataError>)
        ensures
            exists|answer: Option<DatabaseSchema>|
                #[trigger] engine_found(&self.engine_handle(), name@, answer) && database_follows(
                    name@,
                    answer,
                    r,
                ),
    {
        let answer = self.engine.get_db_schema(name);
        assert(engine_found(&self.engine_handle(), name@, answer));
        found_database(name, answer)
    }

    /// Drops the table that `name` names in the current context.
    pub fn drop_table(&self, catalog: &mut UserCatalog, name: &str) -> (r: Result<
        (),
        MetadataError,
    >)
        ensures
            follows(
                old(catalog)@,
                final(catalog)@,
                r,
                dropped_table(
                    old(catalog)@,
                    parsed_reference(name@).resolve(self@.catalog_name, self@.database_name),
                ),
            ),
    {
        let table = TableReference::parse(name);
        let name = table.resolve(self.catalog_name.as_str(), self.database_name.as_str());
        match catalog.deregister_database(name.schema.as_str()) {
            Err(e) => Err(e),
            Ok(mut database) => {
                let dropped = database.deregister_table(name.table.as_str());
                catalog.put_database(name.schema.as_str(), database);
                assert(dropped is Err ==> catalog@ =~= old(catalog)@);
                assert(dropped is Ok ==> catalog@ =~= old(catalog)@.insert(
                    name.schema@,
                    old(catalog)@[name.schema@].without_table(name.table@),
                ));
                match dropped {
                    Ok(_) => Ok(()),
                    Err(e) => Err(e),
                }
            },
        }
    }

    /// Drops the database `name` with all its tables.
    pub fn drop_database(&self, catalog: &mut UserCatalog, name: &str) -> (r: Result<
        (),
        MetadataError,
    >)
        ensures
            follows(old(catalog)@, final(catalog)@, r, dropped_database(old(catalog)@, name@)),
    {
        match catalog.deregister_database(name) {
            Ok(_) => Ok(()),
            Err(e) => Err(e),
        }
    }

    /// Registers `table_schema` as the table that `name` names in the
    /// current context. A table of that name is overwritten.
    pub fn create_table(
        &self,
        catalog: &mut UserCatalog,
        name: &str,
        table_schema: TableSchema,
    ) -> (r: Result<(), MetadataError>)
        ensures
            follows(
                old(catalog)@,
                final(catalog)@,
                r,
                created_table(
                    old(catalog)@,
                    parsed_reference(name@).resolve(self@.catalog_name, self@.database_name),
                    table_schema@,
                ),
            ),
    {
        let table = TableReference::parse(name);
        let table_ref = table.resolve(self.catalog_name.as_str(), self.database_name.as_str());
        match catalog.deregister_database(table_ref.schema.as_str()) {
            Err(e) => Err(e),
            Ok(mut database) => {
                database.register_table(table_ref.table, table_schema);
                catalog.put_database(table_ref.schema.as_str(), database);
                assert(catalog@ =~= old(catalog)@.insert(
                    table_ref.schema@,
                    old(catalog)@[table_ref.schema@].with_table(table_ref.table@, table_schema@),
                ));
                Ok(())
            },
        }
    }

    /// Registers a database called `name`, described by `database`,
    /// without tables.
    pub fn create_database(
        &self,
        catalog: &mut UserCatalog,
        name: &str,
        database: DatabaseSchema,
    ) -> (r: Result<(), MetadataError>)
        ensures
            follows(
                old(catalog)@,
                final(catalog)@,
                r,
                created_database(old(catalog)@, name@, database@),
            ),
    {
        let user_schema = Database::new(name, database);
        catalog.register_database(name, user_schema)
    }

    /// The names of the registered databases, each once, in no particular
    /// order.
    pub fn database_names(&self, catalog: &UserCatalog) -> (r: Result<Vec<String>, MetadataError>)
        ensures
            r matches Ok(names) && lists_names(names@, catalog@.dom()),
    {
        Ok(catalog.database_names())
    }

    /// The names of the tables of the database `name`, or of the current
    /// database where `name` is `None`: each once, in no particular order.
    pub fn show_tables(&self, catalog: &UserCatalog, name: &Option<String>) -> (r: Result<
        Vec<String>,
        MetadataError,
    >)
        ensures
            ({
                let database = match name {
                    Some(v) => v@,
                    None => self@.database_name,
                };
                match r {
                    Ok(names) => catalog@.dom().contains(database) && lists_names(
                        names@,
                        catalog@[database].tables.dom(),
                    ),
                    Err(e) => !catalog@.dom().contains(database) && e@ == (
                    MetadataErrorView::DatabaseNotExists { database_name: database }),
                }
            }),
    {
        let database_name = match name {
            None => self.database_name.as_str(),
            Some(v) => v.as_str(),
        };
        match catalog.get_database(database_name) {
            None => Err(
                MetadataError::DatabaseNotExists { database_name: database_name.to_owned() },
            ),
            Some(database) => Ok(database.table_names()),
        }
    }

    /// Has the storage engine replace the descriptor of the database that
    /// `database` names. What the engine objects comes back as `External`.
    pub fn alter_database(&self, database: DatabaseSchema) -> (r: Result<(), MetadataError>)
        ensures
            exists|answer: Result<(), EngineError>|
                #[trigger] engine_altered_database(&self.engine_handle(), database@, answer)
                    && alteration_follows(answer, r),
    {
        let answer = self.engine.alter_database(&database);
        assert(engine_altered_database(&self.engine_handle(), database@, answer));
        altered_database(answer)
    }

    /// Adds `column` to the table that `table_name` names in the current
    /// context.
    pub fn alter_table_add_column(
        &self,
        catalog: &mut UserCatalog,
        table_name: &str,
        column: TableColumn,
    ) -> (r: Result<(), MetadataError>)
        ensures
            ({
                let n = parsed_reference(table_name@).resolve(
                    self@.catalog_name,
                    self@.database_name,
                );
                column_change_follows(
                    old(catalog)@,
                    final(catalog)@,
                    r,
                    &self.engine_handle(),
                    n,
                    (ColumnChange::Add { column: column@ }),
                )
            }),
    {
        let table_ref = TableReference::parse(table_name).resolve(
            self.catalog_name.as_str(),
            self.database_name.as_str(),
        );
        match catalog.deregister_database(table_ref.schema.as_str()) {
            Err(e) => Err(e),
            Ok(mut database) => {
                let r = database.table_add_column(&self.engine, table_ref.table.as_str(), column);
                catalog.put_database(table_ref.schema.as_str(), database);
                assert(catalog@ =~= old(catalog)@.insert(table_ref.schema@, database@));
                r
            },
        }
    }

    /// Puts `new_column` in place of the column `column_name` of the
    /// table that `table_name` names in the current context.
    pub fn alter_table_alter_column(
        &self,
        catalog: &mut UserCatalog,
        table_name: &str,
        column_name: &str,
        new_column: TableColumn,
    ) -> (r: Result<(), MetadataError>)
        ensures
            ({
                let n = parsed_reference(table_name@).resolve(
                    self@.catalog_name,
                    self@.database_name,
                );
                column_change_follows(
                    old(catalog)@,
                    final(catalog)@,
                    r,
                    &self.engine_handle(),
                    n,
                    (ColumnChange::Alter { column_name: column_name@, new_column: new_column@ }),
                )
            }),
    {
        let table_ref = TableReference::parse(table_name).resolve(
            self.catalog_name.as_str(),
            self.database_name.as_str(),
        );
        match catalog.deregister_database(table_ref.schema.as_str()) {
            Err(e) => Err(e),
            Ok(mut database) => {
                let r = database.table_alter_column(
                    &self.engine,
                    table_ref.table.as_str(),
                    column_name,
                    new_column,
                );
                catalog.put_database(table_ref.schema.as_str(), database);
                assert(catalog@ =~= old(catalog)@.insert(table_ref.schema@, database@));
                r
            },
        }
    }

    /// Drops the column `column_name` of the table that `table_name`
    /// names in the current context.
    pub fn alter_table_drop_column(
        &self,
        catalog: &mut UserCatalog,
        table_name: &str,
        column_name: &str,
    ) -> (r: Result<(), MetadataError>)
        ensures
            ({
                let n = parsed_reference(table_name@).resolve(
                    self@.catalog_name,
                    self@.database_name,
                );
                column_change_follows(
                    old(catalog)@,
                    final(catalog)@,
                    r,
                    &self.engine_handle(),
                    n,
                    (ColumnChange::Drop { column_name: column_name@ }),
                )
            }),
    {
        let table_ref = TableReference::parse(table_name).resolve(
            self.catalog_name.as_str(),
            self.database_name.as_str(),
        );
        match catalog.deregister_database(table_ref.schema.as_str()) {
            Err(e) => Err(e),
            Ok(mut database) => {
                let r = database.table_drop_column(
                    &self.engine,
                    table_ref.table.as_str(),
                    column_name,
                );
                catalog.put_database(table_ref.schema.as_str(), database);
                assert(catalog@ =~= old(catalog)@.insert(table_ref.schema@, database@));
                r
            },
        }
    }
}

} // verus!
