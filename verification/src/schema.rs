//! Descriptors of databases, tables and columns.

use vstd::prelude::*;

verus! {

/// The type of the values that a field column stores.
#[derive(Debug, Clone, Copy, PartialEq, Eq)]
pub enum ValueType {
    Unknown,
    Float,
    Integer,
    Unsigned,
    Boolean,
    String,
}

/// The role of a column in its table, with the value type of a field.
#[derive(Debug, Clone, Copy, PartialEq, Eq)]
pub enum ColumnType {
    Tag,
    Time,
    Field(ValueType),
}

impl ColumnType {
    /// Whether this is the time column's role.
    pub fn is_time(&self) -> (r: bool)
        ensures
            r == (*self is Time),
    {
        match self {
            ColumnType::Time => true,
            _ => false,
        }
    }

    /// Whether this is a field column's role.
    pub fn is_field(&self) -> (r: bool)
        ensures
            r == (*self is Field),
    {
        match self {
            ColumnType::Field(_) => true,
            _ => false,
        }
    }
}

/// A column of a table: its name and its role.
#[derive(Debug, PartialEq, Eq)]
pub struct TableColumn {
    pub name: String,
    pub column_type: ColumnType,
}

/// What a `TableColumn` stands for in contracts.
pub struct TableColumnView {
    pub name: Seq<char>,
    pub column_type: ColumnType,
}

impl View for TableColumn {
    type V = TableColumnView;

    open spec fn view(&self) -> TableColumnView {
        TableColumnView { name: self.name@, column_type: self.column_type }
    }
}

impl Clone for TableColumn {
    fn clone(&self) -> (c: Self)
        ensures
            c@ == self@,
    {
        TableColumn { name: self.name.clone(), column_type: self.column_type }
    }
}

impl TableColumn {
    /// A column called `name` with the role `column_type`.
    pub fn new(name: &str, column_type: ColumnType) -> (c: Self)
        ensures
            c@ == (TableColumnView { name: name@, column_type }),
    {
        TableColumn { name: name.to_owned(), column_type }
    }
}

/// The views of a list of columns, in the same order.
pub open spec fn column_views(items: Seq<TableColumn>) -> Seq<TableColumnView> {
    Seq::new(items.len(), |i: int| items[i]@)
}

/// Whether no two columns of `cols` share a name.
pub open spec fn distinct_column_names(cols: Seq<TableColumnView>) -> bool {
    forall|i: int, j: int| 0 <= i < j < cols.len() ==> cols[i].name != cols[j].name
}

/// Whether `cols` holds a column called `name`.
pub open spec fn has_column(cols: Seq<TableColumnView>, name: Seq<char>) -> bool {
    exists|i: int| 0 <= i < cols.len() && (#[trigger] cols[i]).name == name
}

/// The place in `cols` of a column called `name`, where there is one.
pub open spec fn column_index(cols: Seq<TableColumnView>, name: Seq<char>) -> int {
    choose|i: int| 0 <= i < cols.len() && (#[trigger] cols[i]).name == name
}

/// Whether the column at `i` is a field column and no other column of
/// `cols` is one.
pub open spec fn is_only_field(cols: Seq<TableColumnView>, i: int) -> bool {
    &&& cols[i].column_type is Field
    &&& forall|j: int|
        0 <= j < cols.len() && j != i ==> !((#[trigger] cols[j]).column_type is Field)
}

/// Where names are distinct, a column called `name` stands at one place only.
pub proof fn lemma_column_index(cols: Seq<TableColumnView>, name: Seq<char>, i: int)
    requires
        distinct_column_names(cols),
        0 <= i < cols.len(),
        cols[i].name == name,
    ensures
        has_column(cols, name),
        column_index(cols, name) == i,
{
    assert(has_column(cols, name));
    let j = column_index(cols, name);
    assert(0 <= j < cols.len() && cols[j].name == name);
}

/// The columns of a table, in order. No two of them share a name.
#[derive(Debug, PartialEq, Eq)]
pub struct Columns {
    items: Vec<TableColumn>,
}

impl View for Columns {
    type V = Seq<TableColumnView>;

    closed spec fn view(&self) -> Seq<TableColumnView> {
        column_views(self.items@)
    }
}

impl Clone for Columns {
    fn clone(&self) -> (c: Self)
        ensures
            c@ == self@,
    {
        proof {
            use_type_invariant(self);
        }
        let mut items: Vec<TableColumn> = Vec::new();
        let mut i: usize = 0;
        while i < self.items.len()
            invariant
                i <= self.items@.len(),
                items@.len() == i,
                forall|j: int| 0 <= j < i ==> (#[trigger] items@[j])@ == self.items@[j]@,
            decreases self.items@.len() - i,
        {
            items.push(self.items[i].clone());
            i += 1;
        }
        assert(column_views(items@) =~= column_views(self.items@));
        Columns { items }
    }
}

impl Columns {
    #[verifier::type_invariant]
    spec fn names_are_distinct(&self) -> bool {
        distinct_column_names(column_views(self.items@))
    }

    /// No columns.
    pub fn new() -> (c: Self)
        ensures
            c@ == Seq::<TableColumnView>::empty(),
    {
        let c = Columns { items: Vec::new() };
        assert(c@ =~= Seq::<TableColumnView>::empty());
        c
    }

    /// The columns of `items` in their order, unless two of them share a
    /// name.
    pub fn from_vec(items: Vec<TableColumn>) -> (r: Option<Self>)
        ensures
            r is Some <==> distinct_column_names(column_views(items@)),
            r matches Some(c) ==> c@ == column_views(items@),
    {
        let ghost all = column_views(items@);
        let mut i: usize = 0;
        while i < items.len()
            invariant
                i <= items@.len(),
                all == column_views(items@),
                forall|a: int, b: int| 0 <= a < b < i ==> all[a].name != all[b].name,
            decreases items@.len() - i,
        {
            let mut j: usize = 0;
            while j < i
                invariant
                    j <= i < items@.len(),
                    all == column_views(items@),
                    forall|a: int| 0 <= a < j ==> all[a].name != all[i as int].name,
                decreases i - j,
            {
                if items[j].name.as_str().eq(items[i].name.as_str()) {
                    assert(all[j as int].name == all[i as int].name);
                    return None;
                }
                j += 1;
            }
            i += 1;
        }
        Some(Columns { items })
    }

    /// The number of columns.
    pub fn len(&self) -> (n: usize)
        ensures
            n == self@.len(),
    {
        self.items.len()
    }

    /// The column at place `i`.
    pub fn get(&self, i: usize) -> (c: &TableColumn)
        requires
            i < self@.len(),
        ensures
            c@ == self@[i as int],
    {
        &self.items[i]
    }

    /// The place of the column called `name`, if there is one.
    pub fn position(&self, name: &str) -> (r: Option<usize>)
        ensures
            distinct_column_names(self@),
            match r {
                Some(i) => i < self@.len() && self@[i as int].name == name@ && has_column(
                    self@,
                    name@,
                ) && column_index(self@, name@) == i,
                None => !has_column(self@, name@),
            },
    {
        proof {
            use_type_invariant(self);
        }
        let mut i: usize = 0;
        while i < self.items.len()
            invariant
                i <= self.items@.len(),
                distinct_column_names(self@),
                forall|j: int| 0 <= j < i ==> (#[trigger] self@[j]).name != name@,
            decreases self.items@.len() - i,
        {
            if self.items[i].name.as_str().eq(name) {
                proof {
                    lemma_column_index(self@, name@, i as int);
                }
                return Some(i);
            }
            i += 1;
        }
        None
    }

    /// Whether a column is called `name`.
    pub fn contains(&self, name: &str) -> (r: bool)
        ensures
            r == has_column(self@, name@),
    {
        self.position(name).is_some()
    }

    /// Whether the column at place `i` is the only field column.
    pub fn is_only_field(&self, i: usize) -> (r: bool)
        requires
            i < self@.len(),
        ensures
            r == is_only_field(self@, i as int),
    {
        if !self.items[i].column_type.is_field() {
            return false;
        }
        let mut j: usize = 0;
        while j < self.items.len()
            invariant
                j <= self.items@.len(),
                i < self.items@.len(),
                self@[i as int].column_type is Field,
                forall|a: int|
                    0 <= a < j && a != i ==> !((#[trigger] self@[a]).column_type is Field),
            decreases self.items@.len() - j,
        {
            if j != i && self.items[j].column_type.is_field() {
                assert(self@[j as int].column_type is Field);
                return false;
            }
            j += 1;
        }
        true
    }

    /// Appends `column`, unless a column of that name is there already.
    /// Returns whether it was appended.
    pub fn add(&mut self, column: TableColumn) -> (added: bool)
        ensures
            added == !has_column(old(self)@, column.name@),
            added ==> final(self)@ == old(self)@.push(column@),
            !added ==> final(self)@ == old(self)@,
    {
        if self.contains(column.name.as_str()) {
            false
        } else {
            self.append(column);
            true
        }
    }

    /// Appends a column whose name is not yet taken.
    pub(crate) fn append(&mut self, column: TableColumn)
        requires
            !has_column(old(self)@, column.name@),
        ensures
            final(self)@ == old(self)@.push(column@),
    {
        proof {
            use_type_invariant(&*self);
        }
        let mut items: Vec<TableColumn> = Vec::new();
        std::mem::swap(&mut items, &mut self.items);
        let ghost before = column_views(items@);
        items.push(column);
        proof {
            let after = column_views(items@);
            assert(after =~= before.push(column@));
            assert forall|i: int, j: int| 0 <= i < j < after.len() implies after[i].name
                != after[j].name by {
                if j == before.len() {
                    assert(before[i].name != column.name@);
                } else {
                    assert(after[i] == before[i] && after[j] == before[j]);
                }
            }
        }
        self.items = items;
    }

    /// Puts `column` in the place `i`, where no column elsewhere has its
    /// name.
    pub(crate) fn replace(&mut self, i: usize, column: TableColumn)
        requires
            i < old(self)@.len(),
            forall|j: int|
                0 <= j < old(self)@.len() && j != i ==> (#[trigger] old(self)@[j]).name
                    != column.name@,
        ensures
            final(self)@ == old(self)@.update(i as int, column@),
    {
        proof {
            use_type_invariant(&*self);
        }
        let mut items: Vec<TableColumn> = Vec::new();
        std::mem::swap(&mut items, &mut self.items);
        let ghost before = column_views(items@);
        items[i] = column;
        proof {
            let after = column_views(items@);
            assert(after =~= before.update(i as int, column@));
            assert forall|a: int, b: int| 0 <= a < b < after.len() implies after[a].name
                != after[b].name by {
                if a == i {
                    assert(before[b].name != column.name@);
                } else if b == i {
                    assert(before[a].name != column.name@);
                } else {
                    assert(after[a] == before[a] && after[b] == before[b]);
                }
            }
        }
        self.items = items;
    }

    /// Takes out the column at place `i`.
    pub(crate) fn remove(&mut self, i: usize) -> (column: TableColumn)
        requires
            i < old(self)@.len(),
        ensures
            final(self)@ == old(self)@.remove(i as int),
            column@ == old(self)@[i as int],
    {
        proof {
            use_type_invariant(&*self);
        }
        let mut items: Vec<TableColumn> = Vec::new();
        std::mem::swap(&mut items, &mut self.items);
        let ghost before = column_views(items@);
        let column = items.remove(i);
        proof {
            let after = column_views(items@);
            assert(after =~= before.remove(i as int));
            assert forall|a: int, b: int| 0 <= a < b < after.len() implies after[a].name
                != after[b].name by {
                let x = if a < i { a } else { a + 1 };
                let y = if b < i { b } else { b + 1 };
                assert(after[a] == before[x] && after[b] == before[y]);
            }
        }
        self.items = items;
        column
    }
}

/// The schema of a table that the storage engine holds.
#[derive(Debug, PartialEq, Eq)]
pub struct TskvTableSchema {
    pub db: String,
    pub name: String,
    pub columns: Columns,
}

/// What a `TskvTableSchema` stands for in contracts.
pub struct TskvTableSchemaView {
    pub db: Seq<char>,
    pub name: Seq<char>,
    pub columns: Seq<TableColumnView>,
}

impl View for TskvTableSchema {
    type V = TskvTableSchemaView;

    open spec fn view(&self) -> TskvTableSchemaView {
        TskvTableSchemaView { db: self.db@, name: self.name@, columns: self.columns@ }
    }
}

impl Clone for TskvTableSchema {
    fn clone(&self) -> (s: Self)
        ensures
            s@ == self@,
    {
        TskvTableSchema {
            db: self.db.clone(),
            name: self.name.clone(),
            columns: self.columns.clone(),
        }
    }
}

impl TskvTableSchema {
    /// The schema of the table `name` of the database `db`, with `columns`.
    pub fn new(db: &str, name: &str, columns: Columns) -> (s: Self)
        ensures
            s@ == (TskvTableSchemaView { db: db@, name: name@, columns: columns@ }),
    {
        TskvTableSchema { db: db.to_owned(), name: name.to_owned(), columns }
    }
}

/// The format of the files of an external table.
#[derive(Debug, Clone, Copy, PartialEq, Eq)]
pub enum FileType {
    Avro,
    Parquet,
    Csv,
    Json,
}

/// How the files of an external table are compressed.
#[derive(Debug, Clone, Copy, PartialEq, Eq)]
pub enum FileCompressionType {
    Gzip,
    Bzip2,
    Xz,
    Uncompressed,
}

/// The schema of a table whose rows lie in files at some location.
#[derive(Debug, PartialEq, Eq)]
pub struct ExternalTableSchema {
    pub db: String,
    pub name: String,
    pub location: String,
    pub file_type: FileType,
    pub file_compression_type: FileCompressionType,
    pub has_header: bool,
    pub delimiter: u8,
    pub target_partitions: usize,
    pub columns: Columns,
}

/// What an `ExternalTableSchema` stands for in contracts.
pub struct ExternalTableSchemaView {
    pub db: Seq<char>,
    pub name: Seq<char>,
    pub location: Seq<char>,
    pub file_type: FileType,
    pub file_compression_type: FileCompressionType,
    pub has_header: bool,
    pub delimiter: u8,
    pub target_partitions: usize,
    pub columns: Seq<TableColumnView>,
}

impl View for ExternalTableSchema {
    type V = ExternalTableSchemaView;

    open spec fn view(&self) -> ExternalTableSchemaView {
        ExternalTableSchemaView {
            db: self.db@,
            name: self.name@,
            location: self.location@,
            file_type: self.file_type,
            file_compression_type: self.file_compression_type,
            has_header: self.has_header,
            delimiter: self.delimiter,
            target_partitions: self.target_partitions,
            columns: self.columns@,
        }
    }
}

impl Clone for ExternalTableSchema {
    fn clone(&self) -> (s: Self)
        ensures
            s@ == self@,
    {
        ExternalTableSchema {
            db: self.db.clone(),
            name: self.name.clone(),
            location: self.location.clone(),
            file_type: self.file_type,
            file_compression_type: self.file_compression_type,
            has_header: self.has_header,
            delimiter: self.delimiter,
            target_partitions: self.target_partitions,
            columns: self.columns.clone(),
        }
    }
}

/// The schema of a table, of either kind.
#[derive(Debug, PartialEq, Eq)]
pub enum TableSchema {
    TsKvTableSchema(TskvTableSchema),
    ExternalTableSchema(ExternalTableSchema),
}

/// What a `TableSchema` stands for in contracts.
pub enum TableSchemaView {
    TsKvTableSchema(TskvTableSchemaView),
    ExternalTableSchema(ExternalTableSchemaView),
}

impl TableSchemaView {
    /// The columns of the table.
    pub open spec fn columns(self) -> Seq<TableColumnView> {
        match self {
            TableSchemaView::TsKvTableSchema(t) => t.columns,
            TableSchemaView::ExternalTableSchema(t) => t.columns,
        }
    }

    /// The same schema with `columns` in place of its columns.
    pub open spec fn with_columns(self, columns: Seq<TableColumnView>) -> TableSchemaView {
        match self {
            TableSchemaView::TsKvTableSchema(t) => TableSchemaView::TsKvTableSchema(
                TskvTableSchemaView { columns, ..t },
            ),
            TableSchemaView::ExternalTableSchema(t) => TableSchemaView::ExternalTableSchema(
                ExternalTableSchemaView { columns, ..t },
            ),
        }
    }
}

impl View for TableSchema {
    type V = TableSchemaView;

    open spec fn view(&self) -> TableSchemaView {
        match self {
            TableSchema::TsKvTableSchema(t) => TableSchemaView::TsKvTableSchema(t@),
            TableSchema::ExternalTableSchema(t) => TableSchemaView::ExternalTableSchema(t@),
        }
    }
}

impl Clone for TableSchema {
    fn clone(&self) -> (s: Self)
        ensures
            s@ == self@,
    {
        match self {
            TableSchema::TsKvTableSchema(t) => TableSchema::TsKvTableSchema(t.clone()),
            TableSchema::ExternalTableSchema(t) => TableSchema::ExternalTableSchema(t.clone()),
        }
    }
}

impl TableSchema {
    /// Whether the storage engine holds the table.
    pub fn is_native(&self) -> (r: bool)
        ensures
            r == (self@ is TsKvTableSchema),
    {
        match self {
            TableSchema::TsKvTableSchema(_) => true,
            TableSchema::ExternalTableSchema(_) => false,
        }
    }

    /// The columns of the table.
    pub fn columns(&self) -> (c: &Columns)
        ensures
            c@ == self@.columns(),
    {
        match self {
            TableSchema::TsKvTableSchema(t) => &t.columns,
            TableSchema::ExternalTableSchema(t) => &t.columns,
        }
    }

    /// The same schema with `columns` in place of its columns.
    pub fn with_columns(self, columns: Columns) -> (s: Self)
        ensures
            s@ == self@.with_columns(columns@),
    {
        match self {
            TableSchema::TsKvTableSchema(t) => TableSchema::TsKvTableSchema(
                TskvTableSchema { db: t.db, name: t.name, columns },
            ),
            TableSchema::ExternalTableSchema(t) => TableSchema::ExternalTableSchema(
                ExternalTableSchema {
                    db: t.db,
                    name: t.name,
                    location: t.location,
                    file_type: t.file_type,
                    file_compression_type: t.file_compression_type,
                    has_header: t.has_header,
                    delimiter: t.delimiter,
                    target_partitions: t.target_partitions,
                    columns,
                },
            ),
        }
    }
}

/// The options that the storage engine keeps for a database. A value that
/// is absent leaves the engine's default in force.
#[derive(Debug, Clone, Copy, PartialEq, Eq)]
pub struct DatabaseOptions {
    pub ttl: Option<u64>,
    pub shard_num: Option<u64>,
    pub vnode_duration: Option<u64>,
    pub replica: Option<u64>,
}

/// The descriptor of a database.
#[derive(Debug, PartialEq, Eq)]
pub struct DatabaseSchema {
    pub name: String,
    pub config: DatabaseOptions,
}

/// What a `DatabaseSchema` stands for in contracts.
pub struct DatabaseSchemaView {
    pub name: Seq<char>,
    pub config: DatabaseOptions,
}

impl View for DatabaseSchema {
    type V = DatabaseSchemaView;

    open spec fn view(&self) -> DatabaseSchemaView {
        DatabaseSchemaView { name: self.name@, config: self.config }
    }
}

/// The descriptor of a database called `name` whose options are all left
/// to the engine.
pub open spec fn default_database_schema(name: Seq<char>) -> DatabaseSchemaView {
    DatabaseSchemaView {
        name,
        config: DatabaseOptions { ttl: None, shard_num: None, vnode_duration: None, replica: None },
    }
}

impl Clone for DatabaseSchema {
    fn clone(&self) -> (s: Self)
        ensures
            s@ == self@,
    {
        DatabaseSchema { name: self.name.clone(), config: self.config }
    }
}

impl DatabaseSchema {
    /// The descriptor of a database called `name` whose options are all
    /// left to the engine.
    pub fn new(name: &str) -> (s: Self)
        ensures
            s@ == default_database_schema(name@),
    {
        DatabaseSchema {
            name: name.to_owned(),
            config: DatabaseOptions {
                ttl: None,
                shard_num: None,
                vnode_duration: None,
                replica: None,
            },
        }
    }
}

} // verus!
