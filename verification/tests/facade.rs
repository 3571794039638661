use query::catalog::UserCatalog;
use query::engine::StorageEngine;
use query::error::{ColumnDropRefusal, EngineError, MetadataError};
use query::functions::FunctionRegistry;
use query::meta::{altered_database, found_database, LocalCatalogMeta, RemoteCatalogMeta};
use query::model::{DEFAULT_CATALOG, DEFAULT_DATABASE};
use query::provider::{MetadataProvider, ProviderError, TableSource};
use query::reference::TableReference;
use query::schema::{
    ColumnType, Columns, DatabaseSchema, ExternalTableSchema, FileCompressionType, FileType,
    TableColumn, TableSchema, TskvTableSchema, ValueType,
};
use std::cell::RefCell;
use std::rc::Rc;

#[derive(Clone)]
struct MockEngine {
    reject: bool,
    known: Vec<String>,
    log: Rc<RefCell<Vec<String>>>,
}

impl MockEngine {
    fn new() -> Self {
        MockEngine { reject: false, known: vec![], log: Rc::new(RefCell::new(vec![])) }
    }

    fn rejecting() -> Self {
        MockEngine { reject: true, known: vec![], log: Rc::new(RefCell::new(vec![])) }
    }

    fn answer(&self, request: String) -> Result<(), EngineError> {
        self.log.borrow_mut().push(request);
        if self.reject {
            Err(EngineError { message: "engine says no".to_string() })
        } else {
            Ok(())
        }
    }
}

impl StorageEngine for MockEngine {
    fn get_db_schema(&self, name: &str) -> Option<DatabaseSchema> {
        if self.known.iter().any(|k| k == name) {
            Some(DatabaseSchema::new(name))
        } else {
            None
        }
    }

    fn alter_database(&self, schema: &DatabaseSchema) -> Result<(), EngineError> {
        self.answer(format!("alter_database {}", schema.name))
    }

    fn add_table_column(
        &self,
        database: &str,
        table: &str,
        column: &TableColumn,
    ) -> Result<(), EngineError> {
        self.answer(format!("add {}.{} {}", database, table, column.name))
    }

    fn change_table_column(
        &self,
        database: &str,
        table: &str,
        column_name: &str,
        new_column: &TableColumn,
    ) -> Result<(), EngineError> {
        self.answer(format!("change {}.{} {} {}", database, table, column_name, new_column.name))
    }

    fn drop_table_column(
        &self,
        database: &str,
        table: &str,
        column_name: &str,
    ) -> Result<(), EngineError> {
        self.answer(format!("drop {}.{} {}", database, table, column_name))
    }
}

#[derive(Clone)]
struct Functions;

impl FunctionRegistry for Functions {
    type Scalar = String;
    type Aggregate = String;
    type Error = String;

    fn udf(&self, name: &str) -> Result<String, String> {
        if name == "abs" {
            Ok("scalar abs".to_string())
        } else {
            Err(format!("no scalar function {}", name))
        }
    }

    fn udaf(&self, name: &str) -> Result<String, String> {
        if name == "sum" {
            Ok("aggregate sum".to_string())
        } else {
            Err(format!("no aggregate function {}", name))
        }
    }
}

type Meta = LocalCatalogMeta<MockEngine, Functions>;

fn start(engine: MockEngine) -> (Meta, UserCatalog) {
    let mut catalog = UserCatalog::new();
    let meta = LocalCatalogMeta::new_with_default(engine, Functions, &mut catalog).unwrap();
    (meta, catalog)
}

fn event_columns() -> Columns {
    Columns::from_vec(vec![
        TableColumn::new("time", ColumnType::Time),
        TableColumn::new("host", ColumnType::Tag),
        TableColumn::new("level", ColumnType::Field(ValueType::String)),
        TableColumn::new("msg", ColumnType::Field(ValueType::String)),
    ])
    .unwrap()
}

fn native(db: &str, name: &str) -> TableSchema {
    TableSchema::TsKvTableSchema(TskvTableSchema::new(db, name, event_columns()))
}

fn external(location: &str, file_type: FileType, compression: FileCompressionType) -> TableSchema {
    TableSchema::ExternalTableSchema(ExternalTableSchema {
        db: "public".to_string(),
        name: "files".to_string(),
        location: location.to_string(),
        file_type,
        file_compression_type: compression,
        has_header: true,
        delimiter: b',',
        target_partitions: 1,
        columns: Columns::from_vec(vec![
            TableColumn::new("a", ColumnType::Field(ValueType::Integer)),
            TableColumn::new("b", ColumnType::Field(ValueType::String)),
        ])
        .unwrap(),
    })
}

fn sorted(mut names: Vec<String>) -> Vec<String> {
    names.sort();
    names
}

fn column_names(schema: &TableSchema) -> Vec<String> {
    let columns = schema.columns();
    let mut names = vec![];
    for i in 0..columns.len() {
        names.push(columns.get(i).name.clone());
    }
    names
}

#[test]
fn default_bootstrap() {
    let (meta, catalog) = start(MockEngine::new());
    assert_eq!(DEFAULT_DATABASE, "public");
    assert_eq!(DEFAULT_CATALOG, "default_catalog");
    assert_eq!(meta.database_names(&catalog).unwrap(), vec!["public".to_string()]);
    assert_eq!(meta.schema_name(), "public");
    assert_eq!(meta.catalog_name(), "default_catalog");
    assert_eq!(meta.show_tables(&catalog, &None).unwrap(), Vec::<String>::new());
    let database = catalog.get_database("public").unwrap();
    assert_eq!(database.name(), "public");
    assert_eq!(database.schema(), &DatabaseSchema::new("public"));
}

#[test]
fn bootstrap_twice_succeeds_and_keeps_the_registry() {
    let (meta, mut catalog) = start(MockEngine::new());
    meta.create_table(&mut catalog, "t", native("public", "t")).unwrap();
    let again = LocalCatalogMeta::new_with_default(MockEngine::new(), Functions, &mut catalog);
    assert!(again.is_ok());
    let again = again.unwrap();
    assert_eq!(again.database_names(&catalog).unwrap(), vec!["public".to_string()]);
    assert_eq!(again.show_tables(&catalog, &None).unwrap(), vec!["t".to_string()]);
}

#[test]
fn create_and_query_native_table() {
    let (meta, mut catalog) = start(MockEngine::new());
    meta.create_database(&mut catalog, "logs", DatabaseSchema::new("logs")).unwrap();
    meta.create_table(&mut catalog, "logs.evt", native("logs", "evt")).unwrap();
    let found = meta.table(&catalog, &TableReference::parse("logs.evt")).unwrap();
    assert_eq!(found, native("logs", "evt"));
    assert_eq!(column_names(&found), vec!["time", "host", "level", "msg"]);
    let provider = MetadataProvider::new(meta);
    match provider.get_table_provider(&catalog, &TableReference::parse("logs.evt")) {
        Ok(TableSource::Cluster { schema }) => {
            assert_eq!(TableSchema::TsKvTableSchema(schema), native("logs", "evt"))
        }
        other => panic!("expected a table of the engine, got {:?}", other),
    }
}

#[test]
fn external_table_registration() {
    let (meta, mut catalog) = start(MockEngine::new());
    let schema =
        external("file:///tmp/x.parquet", FileType::Parquet, FileCompressionType::Uncompressed);
    meta.create_table(&mut catalog, "files", schema.clone()).unwrap();
    let provider = MetadataProvider::new(meta);
    match provider.get_table_provider(&catalog, &TableReference::bare("files")) {
        Ok(TableSource::Listing { url, file_extension, schema: found }) => {
            assert_eq!(url.scheme(), "file");
            assert_eq!(file_extension, ".parquet");
            assert_eq!(TableSchema::ExternalTableSchema(found), schema);
        }
        other => panic!("expected a listing, got {:?}", other),
    }
}

#[test]
fn malformed_location_is_a_planner_error() {
    let (meta, mut catalog) = start(MockEngine::new());
    let schema = external("http://[::1", FileType::Parquet, FileCompressionType::Uncompressed);
    meta.create_table(&mut catalog, "files", schema).unwrap();
    let provider = MetadataProvider::new(meta);
    let r = provider.get_table_provider(&catalog, &TableReference::bare("files"));
    assert!(matches!(r, Err(ProviderError::Outside(_))));
}

#[test]
fn missing_path_is_a_planner_error() {
    let (meta, mut catalog) = start(MockEngine::new());
    let schema = external(
        "no/such/directory/anywhere.csv",
        FileType::Csv,
        FileCompressionType::Uncompressed,
    );
    meta.create_table(&mut catalog, "files", schema).unwrap();
    let provider = MetadataProvider::new(meta);
    let r = provider.get_table_provider(&catalog, &TableReference::bare("files"));
    assert!(matches!(r, Err(ProviderError::Outside(_))));
}

#[test]
fn listing_extension_joins_type_and_compression() {
    let cases = [
        (FileType::Csv, FileCompressionType::Gzip, ".csv.gz"),
        (FileType::Csv, FileCompressionType::Uncompressed, ".csv"),
        (FileType::Json, FileCompressionType::Bzip2, ".json.bz2"),
        (FileType::Json, FileCompressionType::Xz, ".json.xz"),
        (FileType::Avro, FileCompressionType::Uncompressed, ".avro"),
        (FileType::Parquet, FileCompressionType::Uncompressed, ".parquet"),
    ];
    for (file_type, compression, expected) in cases {
        let (meta, mut catalog) = start(MockEngine::new());
        meta.create_table(&mut catalog, "files", external("file:///data/", file_type, compression))
            .unwrap();
        let provider = MetadataProvider::new(meta);
        match provider.get_table_provider(&catalog, &TableReference::bare("files")) {
            Ok(TableSource::Listing { file_extension, .. }) => assert_eq!(file_extension, expected),
            other => panic!("expected a listing, got {:?}", other),
        }
    }
}

#[test]
fn compressed_parquet_and_avro_are_planner_errors() {
    for file_type in [FileType::Parquet, FileType::Avro] {
        for compression in
            [FileCompressionType::Gzip, FileCompressionType::Bzip2, FileCompressionType::Xz]
        {
            let (meta, mut catalog) = start(MockEngine::new());
            meta.create_table(
                &mut catalog,
                "files",
                external("file:///data/", file_type, compression),
            )
            .unwrap();
            let provider = MetadataProvider::new(meta);
            let r = provider.get_table_provider(&catalog, &TableReference::bare("files"));
            assert!(matches!(r, Err(ProviderError::Outside(_))));
        }
    }
}

#[test]
fn alter_add_and_drop_column() {
    let engine = MockEngine::new();
    let log = engine.log.clone();
    let (meta, mut catalog) = start(engine);
    meta.create_database(&mut catalog, "logs", DatabaseSchema::new("logs")).unwrap();
    meta.create_table(&mut catalog, "logs.evt", native("logs", "evt")).unwrap();
    let region = TableColumn::new("region", ColumnType::Field(ValueType::String));
    meta.alter_table_add_column(&mut catalog, "logs.evt", region.clone()).unwrap();
    let found = meta.table(&catalog, &TableReference::parse("logs.evt")).unwrap();
    assert_eq!(column_names(&found), vec!["time", "host", "level", "msg", "region"]);
    assert_eq!(found.columns().get(4), &region);
    assert_eq!(
        meta.alter_table_drop_column(&mut catalog, "logs.evt", "time"),
        Err(MetadataError::InvalidColumnDrop { reason: ColumnDropRefusal::TimeColumn })
    );
    assert_eq!(meta.alter_table_drop_column(&mut catalog, "logs.evt", "region"), Ok(()));
    let found = meta.table(&catalog, &TableReference::parse("logs.evt")).unwrap();
    assert_eq!(found, native("logs", "evt"));
    assert_eq!(
        *log.borrow(),
        vec!["add logs.evt region".to_string(), "drop logs.evt region".to_string()]
    );
}

#[test]
fn alter_column_replaces_the_descriptor() {
    let engine = MockEngine::new();
    let log = engine.log.clone();
    let (meta, mut catalog) = start(engine);
    meta.create_table(&mut catalog, "evt", native("public", "evt")).unwrap();
    let wider = TableColumn::new("severity", ColumnType::Field(ValueType::Integer));
    assert_eq!(meta.alter_table_alter_column(&mut catalog, "evt", "level", wider.clone()), Ok(()));
    let found = meta.table(&catalog, &TableReference::bare("evt")).unwrap();
    assert_eq!(column_names(&found), vec!["time", "host", "severity", "msg"]);
    assert_eq!(found.columns().get(2), &wider);
    assert_eq!(*log.borrow(), vec!["change public.evt level severity".to_string()]);
    assert_eq!(
        meta.alter_table_alter_column(&mut catalog, "evt", "level", wider.clone()),
        Err(MetadataError::ColumnNotExists {
            table: "evt".to_string(),
            column: "level".to_string()
        })
    );
    assert_eq!(
        meta.alter_table_alter_column(
            &mut catalog,
            "evt",
            "msg",
            TableColumn::new("host", ColumnType::Tag)
        ),
        Err(MetadataError::ColumnAlreadyExists {
            table: "evt".to_string(),
            column: "host".to_string()
        })
    );
    assert_eq!(
        meta.alter_table_alter_column(&mut catalog, "nope", "msg", wider),
        Err(MetadataError::TableNotExists { table_name: "nope".to_string() })
    );
}

#[test]
fn rejected_alteration_leaves_the_schema_unchanged() {
    let (meta, mut catalog) = start(MockEngine::rejecting());
    meta.create_table(&mut catalog, "evt", native("public", "evt")).unwrap();
    let before = meta.table(&catalog, &TableReference::bare("evt")).unwrap();
    let refused = Err(MetadataError::External { message: "engine says no".to_string() });
    assert_eq!(
        meta.alter_table_add_column(
            &mut catalog,
            "evt",
            TableColumn::new("region", ColumnType::Tag)
        ),
        refused
    );
    assert_eq!(meta.table(&catalog, &TableReference::bare("evt")).unwrap(), before);
    assert_eq!(
        meta.alter_table_alter_column(
            &mut catalog,
            "evt",
            "level",
            TableColumn::new("level", ColumnType::Field(ValueType::Float))
        ),
        refused
    );
    assert_eq!(meta.table(&catalog, &TableReference::bare("evt")).unwrap(), before);
    assert_eq!(meta.alter_table_drop_column(&mut catalog, "evt", "msg"), refused);
    assert_eq!(meta.table(&catalog, &TableReference::bare("evt")).unwrap(), before);
    assert_eq!(meta.show_tables(&catalog, &None).unwrap(), vec!["evt".to_string()]);
}

#[test]
fn external_tables_change_without_the_engine() {
    let engine = MockEngine::rejecting();
    let log = engine.log.clone();
    let (meta, mut catalog) = start(engine);
    let schema = external("file:///data/", FileType::Csv, FileCompressionType::Uncompressed);
    meta.create_table(&mut catalog, "files", schema).unwrap();
    assert_eq!(
        meta.alter_table_add_column(
            &mut catalog,
            "files",
            TableColumn::new("c", ColumnType::Field(ValueType::Boolean))
        ),
        Ok(())
    );
    assert_eq!(meta.alter_table_drop_column(&mut catalog, "files", "a"), Ok(()));
    let found = meta.table(&catalog, &TableReference::bare("files")).unwrap();
    assert_eq!(column_names(&found), vec!["b", "c"]);
    assert!(log.borrow().is_empty());
}

#[test]
fn the_last_field_column_stays() {
    let (meta, mut catalog) = start(MockEngine::new());
    let columns = Columns::from_vec(vec![
        TableColumn::new("time", ColumnType::Time),
        TableColumn::new("host", ColumnType::Tag),
        TableColumn::new("value", ColumnType::Field(ValueType::Float)),
    ])
    .unwrap();
    let schema = TableSchema::TsKvTableSchema(TskvTableSchema::new("public", "m", columns));
    meta.create_table(&mut catalog, "m", schema.clone()).unwrap();
    assert_eq!(
        meta.alter_table_drop_column(&mut catalog, "m", "value"),
        Err(MetadataError::InvalidColumnDrop { reason: ColumnDropRefusal::LastFieldColumn })
    );
    assert_eq!(meta.table(&catalog, &TableReference::bare("m")).unwrap(), schema);
    assert_eq!(meta.alter_table_drop_column(&mut catalog, "m", "host"), Ok(()));
    assert_eq!(
        meta.alter_table_drop_column(&mut catalog, "m", "host"),
        Err(MetadataError::ColumnNotExists { table: "m".to_string(), column: "host".to_string() })
    );
}

#[test]
fn add_column_errors() {
    let (meta, mut catalog) = start(MockEngine::new());
    meta.create_table(&mut catalog, "evt", native("public", "evt")).unwrap();
    assert_eq!(
        meta.alter_table_add_column(&mut catalog, "evt", TableColumn::new("host", ColumnType::Tag)),
        Err(MetadataError::ColumnAlreadyExists {
            table: "evt".to_string(),
            column: "host".to_string()
        })
    );
    assert_eq!(
        meta.alter_table_add_column(&mut catalog, "nope", TableColumn::new("x", ColumnType::Tag)),
        Err(MetadataError::TableNotExists { table_name: "nope".to_string() })
    );
    assert_eq!(
        meta.alter_table_add_column(
            &mut catalog,
            "gone.evt",
            TableColumn::new("x", ColumnType::Tag)
        ),
        Err(MetadataError::DatabaseNotExists { database_name: "gone".to_string() })
    );
    assert_eq!(
        meta.alter_table_drop_column(&mut catalog, "gone.evt", "x"),
        Err(MetadataError::DatabaseNotExists { database_name: "gone".to_string() })
    );
    assert_eq!(
        meta.alter_table_alter_column(
            &mut catalog,
            "gone.evt",
            "x",
            TableColumn::new("x", ColumnType::Tag)
        ),
        Err(MetadataError::DatabaseNotExists { database_name: "gone".to_string() })
    );
    assert_eq!(
        meta.alter_table_drop_column(&mut catalog, "nope", "x"),
        Err(MetadataError::TableNotExists { table_name: "nope".to_string() })
    );
}

#[test]
fn context_isolation() {
    let (meta, mut catalog) = start(MockEngine::new());
    meta.create_database(&mut catalog, "logs", DatabaseSchema::new("logs")).unwrap();
    meta.create_table(&mut catalog, "logs.evt", native("logs", "evt")).unwrap();
    let m2 = meta.with_database("logs");
    assert_eq!(m2.show_tables(&catalog, &None).unwrap(), vec!["evt".to_string()]);
    assert_eq!(m2.schema_name(), "logs");
    assert_eq!(meta.schema_name(), "public");
    assert_eq!(meta.show_tables(&catalog, &None).unwrap(), Vec::<String>::new());
    m2.create_table(&mut catalog, "audit", native("logs", "audit")).unwrap();
    assert_eq!(
        sorted(meta.show_tables(&catalog, &Some("logs".to_string())).unwrap()),
        vec!["audit".to_string(), "evt".to_string()]
    );
    assert_eq!(
        meta.table(&catalog, &TableReference::bare("audit")),
        Err(MetadataError::TableNotExists { table_name: "audit".to_string() })
    );
    assert_eq!(m2.table(&catalog, &TableReference::bare("audit")), Ok(native("logs", "audit")));
}

#[test]
fn context_shadowing() {
    let (meta, _catalog) = start(MockEngine::new());
    let m2 = meta.with_database("x");
    assert_eq!(m2.schema_name(), "x");
    assert_eq!(m2.catalog_name(), "default_catalog");
    let m3 = m2.with_catalog("y");
    assert_eq!(m3.catalog_name(), "y");
    assert_eq!(m3.schema_name(), "x");
    assert_eq!(meta.catalog_name(), "default_catalog");
    assert_eq!(meta.schema_name(), "public");
}

#[test]
fn missing_table_surfaces_resolved_name() {
    let (meta, catalog) = start(MockEngine::new());
    let provider = MetadataProvider::new(meta);
    match provider.get_table_provider(&catalog, &TableReference::parse("unknown")) {
        Err(ProviderError::Plan { message }) => {
            assert!(message.contains("default_catalog"));
            assert!(message.contains("public"));
            assert!(message.contains("unknown"));
            assert_eq!(
                message,
                "failed to resolve user:default_catalog  db: public, table: unknown"
            );
        }
        other => panic!("expected a plan error, got {:?}", other),
    }
    let elsewhere = MetadataProvider::new(provider.meta().with_database("logs"));
    match elsewhere.get_table_provider(&catalog, &TableReference::parse("c.d.t")) {
        Err(ProviderError::Plan { message }) => {
            assert_eq!(message, "failed to resolve user:c  db: d, table: t")
        }
        other => panic!("expected a plan error, got {:?}", other),
    }
    match elsewhere.get_table_provider(&catalog, &TableReference::parse("t")) {
        Err(ProviderError::Plan { message }) => {
            assert_eq!(message, "failed to resolve user:default_catalog  db: logs, table: t")
        }
        other => panic!("expected a plan error, got {:?}", other),
    }
}

#[test]
fn database_round_trip() {
    let (meta, mut catalog) = start(MockEngine::new());
    assert_eq!(meta.create_database(&mut catalog, "d", DatabaseSchema::new("d")), Ok(()));
    assert!(meta.database_names(&catalog).unwrap().contains(&"d".to_string()));
    assert_eq!(
        sorted(meta.database_names(&catalog).unwrap()),
        vec!["d".to_string(), "public".to_string()]
    );
    assert_eq!(
        meta.create_database(&mut catalog, "d", DatabaseSchema::new("d")),
        Err(MetadataError::DatabaseAlreadyExists { database_name: "d".to_string() })
    );
    meta.create_table(&mut catalog, "d.t", native("d", "t")).unwrap();
    assert_eq!(meta.drop_database(&mut catalog, "d"), Ok(()));
    assert!(!meta.database_names(&catalog).unwrap().contains(&"d".to_string()));
    assert_eq!(
        meta.drop_database(&mut catalog, "d"),
        Err(MetadataError::DatabaseNotExists { database_name: "d".to_string() })
    );
    assert_eq!(
        meta.table(&catalog, &TableReference::parse("d.t")),
        Err(MetadataError::DatabaseNotExists { database_name: "d".to_string() })
    );
    assert_eq!(
        meta.show_tables(&catalog, &Some("d".to_string())),
        Err(MetadataError::DatabaseNotExists { database_name: "d".to_string() })
    );
}

#[test]
fn table_round_trip() {
    let (meta, mut catalog) = start(MockEngine::new());
    meta.create_database(&mut catalog, "d", DatabaseSchema::new("d")).unwrap();
    let s = native("d", "t");
    assert_eq!(meta.create_table(&mut catalog, "d.t", s.clone()), Ok(()));
    assert_eq!(meta.table(&catalog, &TableReference::parse("d.t")), Ok(s));
    assert_eq!(meta.drop_table(&mut catalog, "d.t"), Ok(()));
    assert_eq!(
        meta.table(&catalog, &TableReference::parse("d.t")),
        Err(MetadataError::TableNotExists { table_name: "t".to_string() })
    );
    assert_eq!(
        meta.drop_table(&mut catalog, "d.t"),
        Err(MetadataError::TableNotExists { table_name: "t".to_string() })
    );
    assert_eq!(
        meta.drop_table(&mut catalog, "gone.t"),
        Err(MetadataError::DatabaseNotExists { database_name: "gone".to_string() })
    );
    assert_eq!(
        meta.create_table(&mut catalog, "gone.t", native("gone", "t")),
        Err(MetadataError::DatabaseNotExists { database_name: "gone".to_string() })
    );
    assert_eq!(meta.show_tables(&catalog, &Some("d".to_string())), Ok(vec![]));
}

#[test]
fn registration_overwrites_a_table() {
    let (meta, mut catalog) = start(MockEngine::new());
    meta.create_table(&mut catalog, "t", native("public", "t")).unwrap();
    let other = external("file:///data/", FileType::Json, FileCompressionType::Uncompressed);
    assert_eq!(meta.create_table(&mut catalog, "t", other.clone()), Ok(()));
    assert_eq!(meta.table(&catalog, &TableReference::bare("t")), Ok(other));
    assert_eq!(meta.show_tables(&catalog, &None).unwrap(), vec!["t".to_string()]);
}

#[test]
fn table_names_keep_their_case() {
    let (meta, mut catalog) = start(MockEngine::new());
    meta.create_table(&mut catalog, "Evt", native("public", "Evt")).unwrap();
    assert_eq!(
        meta.table(&catalog, &TableReference::bare("evt")),
        Err(MetadataError::TableNotExists { table_name: "evt".to_string() })
    );
    assert!(meta.table(&catalog, &TableReference::bare("Evt")).is_ok());
}

#[test]
fn the_catalog_of_a_reference_is_not_looked_up() {
    let (meta, mut catalog) = start(MockEngine::new());
    meta.create_table(&mut catalog, "other_catalog.public.t", native("public", "t")).unwrap();
    assert_eq!(meta.table(&catalog, &TableReference::bare("t")), Ok(native("public", "t")));
    assert_eq!(
        meta.table(&catalog, &TableReference::full("third", "public", "t")),
        Ok(native("public", "t"))
    );
}

#[test]
fn database_descriptor_comes_from_the_engine() {
    let mut engine = MockEngine::new();
    engine.known.push("logs".to_string());
    let (meta, _catalog) = start(engine);
    assert_eq!(meta.database("logs"), Ok(DatabaseSchema::new("logs")));
    assert_eq!(
        meta.database("public"),
        Err(MetadataError::DatabaseNotExists { database_name: "public".to_string() })
    );
    assert_eq!(found_database("x", Some(DatabaseSchema::new("y"))), Ok(DatabaseSchema::new("y")));
    assert_eq!(
        found_database("x", None),
        Err(MetadataError::DatabaseNotExists { database_name: "x".to_string() })
    );
}

#[test]
fn alter_database_follows_the_engine() {
    let engine = MockEngine::new();
    let log = engine.log.clone();
    let (meta, _catalog) = start(engine);
    assert_eq!(meta.alter_database(DatabaseSchema::new("logs")), Ok(()));
    assert_eq!(*log.borrow(), vec!["alter_database logs".to_string()]);
    let (meta, _catalog) = start(MockEngine::rejecting());
    assert_eq!(
        meta.alter_database(DatabaseSchema::new("logs")),
        Err(MetadataError::External { message: "engine says no".to_string() })
    );
    assert_eq!(altered_database(Ok(())), Ok(()));
    assert_eq!(
        altered_database(Err(EngineError { message: "m".to_string() })),
        Err(MetadataError::External { message: "m".to_string() })
    );
}

#[test]
fn functions_come_from_the_registry() {
    let (meta, _catalog) = start(MockEngine::new());
    assert_eq!(meta.function().udf("abs"), Ok("scalar abs".to_string()));
    let provider = MetadataProvider::new(meta);
    assert_eq!(provider.get_function_meta("abs"), Some("scalar abs".to_string()));
    assert_eq!(provider.get_function_meta("nope"), None);
    assert_eq!(provider.get_aggregate_meta("sum"), Some("aggregate sum".to_string()));
    assert_eq!(provider.get_aggregate_meta("abs"), None);
    assert_eq!(provider.get_variable_type(&["@@version".to_string()]), None);
    assert_eq!(provider.get_variable_type(&[]), None);
}

#[test]
fn remote_meta_is_a_unit() {
    let _remote = RemoteCatalogMeta {};
}
