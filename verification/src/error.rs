//! The errors that metadata operations report.

use vstd::prelude::*;

verus! {

/// Why a column may not be dropped.
#[derive(Debug, Clone, Copy, PartialEq, Eq)]
pub enum ColumnDropRefusal {
    /// It is the time column.
    TimeColumn,
    /// It is the only field column that is left.
    LastFieldColumn,
}

/// What the storage engine says when it rejects a request.
#[derive(Debug, Clone, PartialEq, Eq)]
pub struct EngineError {
    pub message: String,
}

/// An error of a metadata operation.
#[derive(Debug, Clone, PartialEq, Eq)]
pub enum MetadataError {
    DatabaseNotExists { database_name: String },
    TableNotExists { table_name: String },
    ColumnNotExists { table: String, column: String },
    DatabaseAlreadyExists { database_name: String },
    ColumnAlreadyExists { table: String, column: String },
    InvalidColumnDrop { reason: ColumnDropRefusal },
    External { message: String },
}

/// What a `MetadataError` stands for in contracts.
pub enum MetadataErrorView {
    DatabaseNotExists { database_name: Seq<char> },
    TableNotExists { table_name: Seq<char> },
    ColumnNotExists { table: Seq<char>, column: Seq<char> },
    DatabaseAlreadyExists { database_name: Seq<char> },
    ColumnAlreadyExists { table: Seq<char>, column: Seq<char> },
    InvalidColumnDrop { reason: ColumnDropRefusal },
    External { message: Seq<char> },
}

impl View for MetadataError {
    type V = MetadataErrorView;

    open spec fn view(&self) -> MetadataErrorView {
        match self {
            MetadataError::DatabaseNotExists { database_name } => {
                MetadataErrorView::DatabaseNotExists { database_name: database_name@ }
            },
            MetadataError::TableNotExists { table_name } => MetadataErrorView::TableNotExists {
                table_name: table_name@,
            },
            MetadataError::ColumnNotExists { table, column } => MetadataErrorView::ColumnNotExists {
                table: table@,
                column: column@,
            },
            MetadataError::DatabaseAlreadyExists { database_name } => {
                MetadataErrorView::DatabaseAlreadyExists { database_name: database_name@ }
            },
            MetadataError::ColumnAlreadyExists { table, column } => {
                MetadataErrorView::ColumnAlreadyExists { table: table@, column: column@ }
            },
            MetadataError::InvalidColumnDrop { reason } => MetadataErrorView::InvalidColumnDrop {
                reason: *reason,
            },
            MetadataError::External { message } => MetadataErrorView::External {
                message: message@,
            },
        }
    }
}

impl MetadataError {
    /// The error that passes on what the storage engine said.
    pub fn from_engine(e: EngineError) -> (r: Self)
        ensures
            r@ == (MetadataErrorView::External { message: e.message@ }),
    {
        MetadataError::External { message: e.message }
    }
}

} // verus!
