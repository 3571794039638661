use datafusion::arrow::array::{ArrayRef, Int32Array};
use datafusion::arrow::datatypes::{DataType, Field, Schema};
use datafusion::arrow::record_batch::RecordBatch;
use datafusion::physical_plan::RecordBatchStream;
use futures::executor::block_on;
use futures::StreamExt;
use query::catalog::UserCatalog;
use query::database::Database;
use query::error::{ColumnDropRefusal, EngineError, MetadataError};
use query::name_map::NameMap;
use query::provider::{function_or_miss, listing_source, unresolved, ProviderError, TableSource};
use query::reference::{ResolvedTableReference, TableReference};
use query::schema::{
    ColumnType, Columns, DatabaseOptions, DatabaseSchema, ExternalTableSchema,
    FileCompressionType, FileType, TableColumn, TableSchema, TskvTableSchema, ValueType,
};
use query::stream::stream_from_batches;
use std::sync::Arc;

fn resolved(catalog: &str, schema: &str, table: &str) -> ResolvedTableReference {
    ResolvedTableReference {
        catalog: catalog.to_string(),
        schema: schema.to_string(),
        table: table.to_string(),
    }
}

fn columns() -> Columns {
    Columns::from_vec(vec![
        TableColumn::new("time", ColumnType::Time),
        TableColumn::new("host", ColumnType::Tag),
        TableColumn::new("value", ColumnType::Field(ValueType::Float)),
        TableColumn::new("count", ColumnType::Field(ValueType::Unsigned)),
    ])
    .unwrap()
}

fn table() -> TableSchema {
    TableSchema::TsKvTableSchema(TskvTableSchema::new("d", "t", columns()))
}

fn database() -> Database {
    let mut d = Database::new("d", DatabaseSchema::new("d"));
    d.register_table("t".to_string(), table());
    d
}

fn bad<T>(message: &str) -> Result<T, datafusion::error::DataFusionError> {
    Err(datafusion::error::DataFusionError::Plan(message.to_string()))
}

fn batch(values: Vec<i32>) -> RecordBatch {
    let schema = Arc::new(Schema::new(vec![Field::new("n", DataType::Int32, false)]));
    let column: ArrayRef = Arc::new(Int32Array::from(values));
    RecordBatch::try_new(schema, vec![column]).unwrap()
}

#[test]
fn parse_splits_at_dots() {
    assert_eq!(TableReference::parse("t"), TableReference::Bare { table: "t".to_string() });
    assert_eq!(
        TableReference::parse("d.t"),
        TableReference::Partial { schema: "d".to_string(), table: "t".to_string() }
    );
    assert_eq!(
        TableReference::parse("c.d.t"),
        TableReference::Full {
            catalog: "c".to_string(),
            schema: "d".to_string(),
            table: "t".to_string()
        }
    );
}

#[test]
fn parse_edge_cases() {
    assert_eq!(TableReference::parse(""), TableReference::Bare { table: "".to_string() });
    assert_eq!(
        TableReference::parse("a.b.c.d"),
        TableReference::Bare { table: "a.b.c.d".to_string() }
    );
    assert_eq!(
        TableReference::parse("a..b"),
        TableReference::Full {
            catalog: "a".to_string(),
            schema: "".to_string(),
            table: "b".to_string()
        }
    );
    assert_eq!(
        TableReference::parse("."),
        TableReference::Partial { schema: "".to_string(), table: "".to_string() }
    );
    assert_eq!(
        TableReference::parse("Db.Tab"),
        TableReference::Partial { schema: "Db".to_string(), table: "Tab".to_string() }
    );
}

#[test]
fn constructors_and_table_name() {
    assert_eq!(TableReference::bare("t"), TableReference::parse("t"));
    assert_eq!(TableReference::partial("d", "t"), TableReference::parse("d.t"));
    assert_eq!(TableReference::full("c", "d", "t"), TableReference::parse("c.d.t"));
    assert_eq!(TableReference::bare("t").table(), "t");
    assert_eq!(TableReference::partial("d", "u").table(), "u");
    assert_eq!(TableReference::full("c", "d", "v").table(), "v");
}

#[test]
fn resolution_fills_missing_parts() {
    assert_eq!(TableReference::bare("t").resolve("cat", "db"), resolved("cat", "db", "t"));
    assert_eq!(TableReference::partial("d", "t").resolve("cat", "db"), resolved("cat", "d", "t"));
    assert_eq!(TableReference::full("c", "d", "t").resolve("cat", "db"), resolved("c", "d", "t"));
}

#[test]
fn resolution_of_a_full_reference_ignores_the_context() {
    let reference = TableReference::full("c", "d", "t");
    for (catalog, schema) in [("", ""), ("c", "d"), ("x", "y"), ("default_catalog", "public")] {
        assert_eq!(reference.resolve(catalog, schema), resolved("c", "d", "t"));
    }
    let once = TableReference::bare("t").resolve("cat", "db");
    let again = TableReference::full(&once.catalog, &once.schema, &once.table).resolve("x", "y");
    assert_eq!(again, once);
}

#[test]
fn name_map_stores_one_value_per_name() {
    let mut map: NameMap<TableColumn> = NameMap::new();
    assert!(!map.contains("a"));
    assert_eq!(map.get("a"), None);
    assert_eq!(map.names(), Vec::<String>::new());
    map.insert("a".to_string(), TableColumn::new("one", ColumnType::Tag));
    map.insert("b".to_string(), TableColumn::new("two", ColumnType::Time));
    map.insert("a".to_string(), TableColumn::new("three", ColumnType::Tag));
    assert_eq!(map.get("a"), Some(&TableColumn::new("three", ColumnType::Tag)));
    assert_eq!(map.get("b"), Some(&TableColumn::new("two", ColumnType::Time)));
    let mut names = map.names();
    names.sort();
    assert_eq!(names, vec!["a".to_string(), "b".to_string()]);
    assert_eq!(map.remove("a"), Some(TableColumn::new("three", ColumnType::Tag)));
    assert_eq!(map.remove("a"), None);
    assert!(!map.contains("a"));
    assert!(map.contains("b"));
    assert_eq!(map.names(), vec!["b".to_string()]);
}

#[test]
fn columns_have_distinct_names() {
    assert!(Columns::from_vec(vec![
        TableColumn::new("a", ColumnType::Tag),
        TableColumn::new("b", ColumnType::Tag),
        TableColumn::new("a", ColumnType::Time),
    ])
    .is_none());
    assert_eq!(Columns::from_vec(vec![]), Some(Columns::new()));
    let mut c = columns();
    assert_eq!(c.len(), 4);
    assert_eq!(c.position("value"), Some(2));
    assert_eq!(c.position("Value"), None);
    assert!(c.contains("host"));
    assert!(!c.contains("nope"));
    assert!(!c.add(TableColumn::new("host", ColumnType::Field(ValueType::Integer))));
    assert_eq!(c, columns());
    assert!(c.add(TableColumn::new("extra", ColumnType::Tag)));
    assert_eq!(c.len(), 5);
    assert_eq!(c.get(4), &TableColumn::new("extra", ColumnType::Tag));
    assert_eq!(c.clone(), c);
}

#[test]
fn only_field_is_told_apart() {
    let c = columns();
    assert!(!c.is_only_field(0));
    assert!(!c.is_only_field(2));
    let single = Columns::from_vec(vec![
        TableColumn::new("time", ColumnType::Time),
        TableColumn::new("value", ColumnType::Field(ValueType::Float)),
        TableColumn::new("host", ColumnType::Tag),
    ])
    .unwrap();
    assert!(single.is_only_field(1));
    assert!(!single.is_only_field(0));
    assert!(!single.is_only_field(2));
}

#[test]
fn column_roles() {
    assert!(ColumnType::Time.is_time());
    assert!(!ColumnType::Time.is_field());
    assert!(!ColumnType::Tag.is_time());
    assert!(!ColumnType::Tag.is_field());
    assert!(ColumnType::Field(ValueType::Boolean).is_field());
    assert!(!ColumnType::Field(ValueType::Boolean).is_time());
}

#[test]
fn schema_parts() {
    let t = table();
    assert!(t.is_native());
    assert_eq!(t.columns(), &columns());
    let emptied = t.clone().with_columns(Columns::new());
    assert_eq!(emptied.columns(), &Columns::new());
    assert!(emptied.is_native());
    assert_eq!(emptied.with_columns(columns()), t);
    let d = DatabaseSchema::new("d");
    assert_eq!(d.name, "d");
    assert_eq!(
        d.config,
        DatabaseOptions { ttl: None, shard_num: None, vnode_duration: None, replica: None }
    );
    assert_eq!(d.clone(), d);
}

#[test]
fn database_registers_and_deregisters_tables() {
    let mut d = Database::new("d", DatabaseSchema::new("d"));
    assert_eq!(d.name(), "d");
    assert_eq!(d.table_names(), Vec::<String>::new());
    assert_eq!(d.get_table("t"), None);
    d.register_table("t".to_string(), table());
    assert_eq!(d.get_table("t"), Some(&table()));
    assert_eq!(d.table_names(), vec!["t".to_string()]);
    assert_eq!(d.deregister_table("t"), Ok(table()));
    assert_eq!(
        d.deregister_table("t"),
        Err(MetadataError::TableNotExists { table_name: "t".to_string() })
    );
    assert_eq!(d.table_names(), Vec::<String>::new());
}

#[test]
fn registry_registers_and_deregisters_databases() {
    let mut c = UserCatalog::new();
    assert_eq!(c.database_names(), Vec::<String>::new());
    assert!(c.get_database("d").is_none());
    assert_eq!(c.register_database("d", database()), Ok(()));
    assert_eq!(
        c.register_database("d", Database::new("d", DatabaseSchema::new("d"))),
        Err(MetadataError::DatabaseAlreadyExists { database_name: "d".to_string() })
    );
    assert_eq!(c.get_database("d").unwrap().get_table("t"), Some(&table()));
    assert_eq!(c.database_names(), vec!["d".to_string()]);
    let removed = c.deregister_database("d").unwrap();
    assert_eq!(removed.table_names(), vec!["t".to_string()]);
    assert!(matches!(
        c.deregister_database("d"),
        Err(MetadataError::DatabaseNotExists { database_name }) if database_name == "d"
    ));
    assert_eq!(c.database_names(), Vec::<String>::new());
}

#[test]
fn settling_follows_the_engines_answer() {
    let region = TableColumn::new("region", ColumnType::Tag);
    let no = || Err(EngineError { message: "no".to_string() });
    let refused = Err(MetadataError::External { message: "no".to_string() });

    let mut d = database();
    assert_eq!(d.settle_add_column("t", region.clone(), no()), refused);
    assert_eq!(d.get_table("t"), Some(&table()));
    assert_eq!(d.settle_add_column("t", region.clone(), Ok(())), Ok(()));
    assert_eq!(d.get_table("t").unwrap().columns().len(), 5);
    assert_eq!(d.get_table("t").unwrap().columns().get(4), &region);
    assert_eq!(
        d.settle_add_column("t", region.clone(), Ok(())),
        Err(MetadataError::ColumnAlreadyExists {
            table: "t".to_string(),
            column: "region".to_string()
        })
    );
    assert_eq!(
        d.settle_add_column("t", region.clone(), no()),
        Err(MetadataError::ColumnAlreadyExists {
            table: "t".to_string(),
            column: "region".to_string()
        })
    );

    let mut d = database();
    let float = TableColumn::new("count", ColumnType::Field(ValueType::Float));
    assert_eq!(d.settle_alter_column("t", "count", float.clone(), no()), refused);
    assert_eq!(d.get_table("t"), Some(&table()));
    assert_eq!(d.settle_alter_column("t", "count", float.clone(), Ok(())), Ok(()));
    assert_eq!(d.get_table("t").unwrap().columns().get(3), &float);
    assert_eq!(d.get_table("t").unwrap().columns().len(), 4);

    let mut d = database();
    assert_eq!(d.settle_drop_column("t", "count", no()), refused);
    assert_eq!(d.get_table("t"), Some(&table()));
    assert_eq!(d.settle_drop_column("t", "count", Ok(())), Ok(()));
    assert_eq!(d.get_table("t").unwrap().columns().len(), 3);
    assert_eq!(
        d.settle_drop_column("t", "value", Ok(())),
        Err(MetadataError::InvalidColumnDrop { reason: ColumnDropRefusal::LastFieldColumn })
    );
    assert_eq!(
        d.settle_drop_column("t", "time", Ok(())),
        Err(MetadataError::InvalidColumnDrop { reason: ColumnDropRefusal::TimeColumn })
    );
    assert_eq!(
        d.settle_drop_column("u", "time", Ok(())),
        Err(MetadataError::TableNotExists { table_name: "u".to_string() })
    );
}

#[test]
fn engine_errors_become_external() {
    assert_eq!(
        MetadataError::from_engine(EngineError { message: "disk full".to_string() }),
        MetadataError::External { message: "disk full".to_string() }
    );
}

#[test]
fn an_unknown_function_is_a_miss() {
    assert_eq!(function_or_miss::<u8, String>(Ok(3)), Some(3));
    assert_eq!(function_or_miss::<u8, String>(Err("unknown".to_string())), None);
}

#[test]
fn unresolved_message_holds_the_resolved_name() {
    match unresolved(&resolved("c", "d", "t")) {
        ProviderError::Plan { message } => {
            assert_eq!(message, "failed to resolve user:c  db: d, table: t")
        }
        other => panic!("expected a plan error, got {:?}", other),
    }
}

#[test]
fn listing_source_prefers_the_error_of_the_location() {
    let schema = || ExternalTableSchema {
        db: "d".to_string(),
        name: "f".to_string(),
        location: "file:///data/".to_string(),
        file_type: FileType::Csv,
        file_compression_type: FileCompressionType::Uncompressed,
        has_header: false,
        delimiter: b';',
        target_partitions: 2,
        columns: Columns::new(),
    };
    let url = || datafusion::datasource::listing::ListingTableUrl::parse("file:///data/");
    match listing_source(schema(), url(), Ok(".csv".to_string())) {
        Ok(TableSource::Listing { url, file_extension, schema: found }) => {
            assert_eq!(url.scheme(), "file");
            assert_eq!(file_extension, ".csv");
            assert_eq!(found, schema());
        }
        other => panic!("expected a listing, got {:?}", other),
    }
    match listing_source(schema(), bad("location"), bad("format")) {
        Err(ProviderError::Outside(e)) => assert!(e.to_string().contains("location")),
        other => panic!("expected an error, got {:?}", other),
    }
    match listing_source(schema(), url(), bad("format")) {
        Err(ProviderError::Outside(e)) => assert!(e.to_string().contains("format")),
        other => panic!("expected an error, got {:?}", other),
    }
}

#[test]
fn stream_yields_the_batches_in_order_and_ends() {
    let first = batch(vec![1, 2, 3]);
    let second = batch(vec![4]);
    let third = batch(vec![]);
    let mut stream = stream_from_batches(vec![
        Arc::new(first.clone()),
        Arc::new(second.clone()),
        Arc::new(third.clone()),
    ]);
    assert_eq!(stream.schema(), first.schema());
    assert_eq!(block_on(stream.next()).unwrap().unwrap(), first);
    assert_eq!(block_on(stream.next()).unwrap().unwrap(), second);
    assert_eq!(block_on(stream.next()).unwrap().unwrap(), third);
    assert!(block_on(stream.next()).is_none());
    assert!(block_on(stream.next()).is_none());
}

#[test]
fn stream_of_one_batch() {
    let only = batch(vec![7, 8]);
    let mut stream = stream_from_batches(vec![Arc::new(only.clone())]);
    assert_eq!(block_on(stream.next()).unwrap().unwrap(), only);
    assert!(block_on(stream.next()).is_none());
}
