//! The planner's way to tables and functions.

use crate::catalog::UserCatalog;
use crate::engine::StorageEngine;
use crate::functions::{registry_found_aggregate, registry_found_scalar, FunctionRegistry};
use crate::meta::{ContextView, LocalCatalogMeta};
use crate::model::table_lookup;
use crate::reference::{ResolvedTableReferenceView, TableReference};
use crate::schema::{
    ExternalTableSchema, FileCompressionType, FileType, TableSchema, TableSchemaView,
    TskvTableSchema, ValueType,
};
use datafusion::datasource::file_format::file_type as outside;
use datafusion::datasource::listing::ListingTableUrl;
use datafusion::error::DataFusionError;
use vstd::prelude::*;
use vstd::string::StringExecFns;

verus! {

/// datafusion's parsed location of the files of a listing table.
#[verifier::external_type_specification]
#[verifier::external_body]
pub struct ExListingTableUrl(ListingTableUrl);

/// datafusion's error.
#[verifier::external_type_specification]
#[verifier::external_body]
pub struct ExDataFusionError(DataFusionError);

/// Where the rows of a table come from.
#[derive(Debug)]
pub enum TableSource {
    /// From the storage engine, which holds the table described by `schema`.
    Cluster { schema: TskvTableSchema },
    /// From the files at `url` whose names end in `file_extension`.
    Listing { url: ListingTableUrl, file_extension: String, schema: ExternalTableSchema },
}

/// Why the planner gets no table source.
#[derive(Debug)]
pub enum ProviderError {
    /// The reference names no table; `message` holds the resolved name.
    Plan { message: String },
    /// datafusion rejected the location or the file format of the table.
    Outside(DataFusionError),
}

/// The suffix of the names of files of the type `t`.
pub open spec fn type_extension(t: FileType) -> Seq<char> {
    match t {
        FileType::Avro => ".avro"@,
        FileType::Parquet => ".parquet"@,
        FileType::Csv => ".csv"@,
        FileType::Json => ".json"@,
    }
}

/// The suffix that the compression `c` adds to the name of a file.
pub open spec fn compression_extension(c: FileCompressionType) -> Seq<char> {
    match c {
        FileCompressionType::Gzip => ".gz"@,
        FileCompressionType::Bzip2 => ".bz2"@,
        FileCompressionType::Xz => ".xz"@,
        FileCompressionType::Uncompressed => ""@,
    }
}

/// The suffix of the names of files of the type `t` compressed by `c`.
/// There is none for compressed Parquet and Avro files.
pub open spec fn listing_extension(t: FileType, c: FileCompressionType) -> Option<Seq<char>> {
    match t {
        FileType::Json | FileType::Csv => Some(type_extension(t) + compression_extension(c)),
        FileType::Parquet | FileType::Avro => if c is Uncompressed {
            Some(type_extension(t))
        } else {
            None
        },
    }
}

/// The text of the error for a reference that names no table.
pub open spec fn unresolved_message(n: ResolvedTableReferenceView) -> Seq<char> {
    "failed to resolve user:"@ + n.catalog + "  db: "@ + n.schema + ", table: "@ + n.table
}

/// Calls `ListingTableUrl::parse` of datafusion on `location`. What it
/// returns for a location without a scheme depends on the files of the
/// machine, so the contract says nothing of the outcome.
#[verifier::external_body]
fn parse_location(location: &str) -> (r: Result<ListingTableUrl, DataFusionError>) {
    ListingTableUrl::parse(location)
}

/// Calls `FileType::get_ext_with_compression` of datafusion on the file
/// type and the compression that stand for `file_type` and `compression`
/// there. It joins the suffix of the type and the suffix of the
/// compression for JSON and CSV files, gives the suffix of the type for
/// Parquet and Avro files that are not compressed, and fails for those
/// that are.
#[verifier::external_body]
fn extension_with_compression(file_type: FileType, compression: FileCompressionType) -> (r: Result<
    String,
    DataFusionError,
>)
    ensures
        match r {
            Ok(extension) => listing_extension(file_type, compression) == Some(extension@),
            Err(_) => listing_extension(file_type, compression) is None,
        },
{
    let c = match compression {
        FileCompressionType::Gzip => outside::FileCompressionType::GZIP,
        FileCompressionType::Bzip2 => outside::FileCompressionType::BZIP2,
        FileCompressionType::Xz => outside::FileCompressionType::XZ,
        FileCompressionType::Uncompressed => outside::FileCompressionType::UNCOMPRESSED,
    };
    let t = match file_type {
        FileType::Avro => outside::FileType::AVRO,
        FileType::Parquet => outside::FileType::PARQUET,
        FileType::Csv => outside::FileType::CSV,
        FileType::Json => outside::FileType::JSON,
    };
    t.get_ext_with_compression(c)
}

/// The error for the reference `name`, which names no table.
pub fn unresolved(name: &crate::reference::ResolvedTableReference) -> (e: ProviderError)
    ensures
        e matches ProviderError::Plan { message } && message@ == unresolved_message(name@),
{
    let mut message = String::from_str("failed to resolve user:");
    message.append(name.catalog.as_str());
    message.append("  db: ");
    message.append(name.schema.as_str());
    message.append(", table: ");
    message.append(name.table.as_str());
    ProviderError::Plan { message }
}

/// The source of the external table described by `schema`, given what
/// datafusion made of its location and of its file format. An error of
/// the location comes before one of the format.
pub fn listing_source(
    schema: ExternalTableSchema,
    url: Result<ListingTableUrl, DataFusionError>,
    extension: Result<String, DataFusionError>,
) -> (r: Result<TableSource, ProviderError>)
    ensures
        match (url, extension) {
            (Err(e), _) => r == Err::<TableSource, ProviderError>(ProviderError::Outside(e)),
            (Ok(_), Err(e)) => r == Err::<TableSource, ProviderError>(ProviderError::Outside(e)),
            (Ok(u), Ok(x)) => r == Ok::<TableSource, ProviderError>(
                TableSource::Listing { url: u, file_extension: x, schema },
            ),
        },
{
    match url {
        Err(e) => Err(ProviderError::Outside(e)),
        Ok(url) => match extension {
            Err(e) => Err(ProviderError::Outside(e)),
            Ok(file_extension) => Ok(TableSource::Listing { url, file_extension, schema }),
        },
    }
}

/// What the planner is told of a function once the registry has answered
/// `answer`: an answer without a function is a miss, not an error.
pub open spec fn found_function<T, X>(answer: Result<T, X>) -> Option<T> {
    match answer {
        Ok(function) => Some(function),
        Err(_) => None,
    }
}

/// What the planner is told of a function, given what the registry
/// answered: an answer without a function is a miss, not an error.
pub fn function_or_miss<T, X>(answer: Result<T, X>) -> (r: Option<T>)
    ensures
        r == found_function(answer),
{
    match answer {
        Ok(function) => Some(function),
        Err(_) => None,
    }
}

/// What the planner asks for tables and functions: a facade with its
/// naming context.
pub struct MetadataProvider<E, F> {
    meta: LocalCatalogMeta<E, F>,
}

impl<E, F> View for MetadataProvider<E, F> {
    type V = ContextView;

    closed spec fn view(&self) -> ContextView {
        self.meta@
    }
}

impl<E, F> MetadataProvider<E, F> {
    /// The facade that the provider answers from.
    pub closed spec fn facade(&self) -> LocalCatalogMeta<E, F> {
        self.meta
    }
}

impl<E: StorageEngine + Clone, F: Clone> MetadataProvider<E, F> {
    /// A provider that answers in the context of `meta`.
    #[inline(always)]
    pub fn new(meta: LocalCatalogMeta<E, F>) -> (p: Self)
        ensures
            p.facade() == meta,
            p@ == meta@,
    {
        Self { meta }
    }

    /// The facade that the provider answers from.
    pub fn meta(&self) -> (meta: &LocalCatalogMeta<E, F>)
        ensures
            *meta == self.facade(),
            meta@ == self@,
    {
        &self.meta
    }

    /// The source of the table that `name` names in the provider's
    /// context. A reference that names no table gives a `Plan` error whose
    /// text holds the resolved name. A table of the storage engine gives
    /// its schema. An external table gives its parsed location and the
    /// suffix of its files, or the error with which datafusion rejected
    /// one of them.
    pub fn get_table_provider(&self, catalog: &UserCatalog, name: &TableReference) -> (r: Result<
        TableSource,
        ProviderError,
    >)
        ensures
            ({
                let n = name@.resolve(self@.catalog_name, self@.database_name);
                match table_lookup(catalog@, n) {
                    Err(_) => r matches Err(ProviderError::Plan { message }) && message@
                        == unresolved_message(n),
                    Ok(TableSchemaView::TsKvTableSchema(s)) => r matches Ok(
                        TableSource::Cluster { schema },
                    ) && schema@ == s,
                    Ok(TableSchemaView::ExternalTableSchema(s)) => match r {
                        Ok(TableSource::Listing { url, file_extension, schema }) => schema@ == s
                            && listing_extension(s.file_type, s.file_compression_type) == Some(
                            file_extension@,
                        ),
                        Ok(TableSource::Cluster { .. }) => false,
                        Err(e) => e is Outside,
                    },
                }
            }),
    {
        match self.meta.table(catalog, name) {
            Ok(table) => match table {
                TableSchema::TsKvTableSchema(schema) => Ok(TableSource::Cluster { schema }),
                TableSchema::ExternalTableSchema(schema) => {
                    let table_path = parse_location(schema.location.as_str());
                    let extension = extension_with_compression(
                        schema.file_type,
                        schema.file_compression_type,
                    );
                    listing_source(schema, table_path, extension)
                },
            },
            Err(_) => {
                let resolved_name = name.resolve(
                    self.meta.catalog_name(),
                    self.meta.schema_name(),
                );
                Err(unresolved(&resolved_name))
            },
        }
    }

    /// The type of a session variable. There are no session variables.
    pub fn get_variable_type(&self, variable_names: &[String]) -> (r: Option<ValueType>)
        ensures
            r is None,
    {
        None
    }
}

impl<E: StorageEngine + Clone, F: FunctionRegistry + Clone> MetadataProvider<E, F> {
    /// The scalar function called `name`, if the registry knows one. A
    /// name that it does not know is no error.
    pub fn get_function_meta(&self, name: &str) -> (r: Option<F::Scalar>)
        ensures
            exists|answer: Result<F::Scalar, F::Error>|
                #[trigger] registry_found_scalar(
                    &self.facade().function_handle(),
                    name@,
                    answer,
                ) && r == found_function(answer),
    {
        let answer = self.meta.function().udf(name);
        assert(registry_found_scalar(&self.facade().function_handle(), name@, answer));
        function_or_miss(answer)
    }

    /// The aggregate function called `name`, if the registry knows one. A
    /// name that it does not know is no error.
    pub fn get_aggregate_meta(&self, name: &str) -> (r: Option<F::Aggregate>)
        ensures
            exists|answer: Result<F::Aggregate, F::Error>|
                #[trigger] registry_found_aggregate(
                    &self.facade().function_handle(),
                    name@,
                    answer,
                ) && r == found_function(answer),
    {
        let answer = self.meta.function().udaf(name);
        assert(registry_found_aggregate(&self.facade().function_handle(), name@, answer));
        function_or_miss(answer)
    }
}

} // verus!
