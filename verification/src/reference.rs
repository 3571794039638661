//! Table references and their resolution against a naming context.

use vstd::prelude::*;

verus! {

/// A reference to a table that names the table alone, the table in a
/// database, or the table in a database of a catalog.
#[derive(Debug, Clone, PartialEq, Eq)]
pub enum TableReference {
    Bare { table: String },
    Partial { schema: String, table: String },
    Full { catalog: String, schema: String, table: String },
}

/// A reference in which catalog, database and table are all named.
#[derive(Debug, Clone, PartialEq, Eq)]
pub struct ResolvedTableReference {
    pub catalog: String,
    pub schema: String,
    pub table: String,
}

/// What a `ResolvedTableReference` stands for in contracts.
pub struct ResolvedTableReferenceView {
    pub catalog: Seq<char>,
    pub schema: Seq<char>,
    pub table: Seq<char>,
}

/// What a `TableReference` stands for in contracts.
pub enum TableReferenceView {
    Bare { table: Seq<char> },
    Partial { schema: Seq<char>, table: Seq<char> },
    Full { catalog: Seq<char>, schema: Seq<char>, table: Seq<char> },
}

impl TableReferenceView {
    /// The name of the table, whatever else the reference names.
    pub open spec fn table(self) -> Seq<char> {
        match self {
            TableReferenceView::Bare { table } => table,
            TableReferenceView::Partial { table, .. } => table,
            TableReferenceView::Full { table, .. } => table,
        }
    }

    /// The reference with every part that it leaves out taken from the
    /// context `(default_catalog, default_schema)`.
    pub open spec fn resolve(
        self,
        default_catalog: Seq<char>,
        default_schema: Seq<char>,
    ) -> ResolvedTableReferenceView {
        match self {
            TableReferenceView::Bare { table } => ResolvedTableReferenceView {
                catalog: default_catalog,
                schema: default_schema,
                table,
            },
            TableReferenceView::Partial { schema, table } => ResolvedTableReferenceView {
                catalog: default_catalog,
                schema,
                table,
            },
            TableReferenceView::Full { catalog, schema, table } => ResolvedTableReferenceView {
                catalog,
                schema,
                table,
            },
        }
    }
}

impl ResolvedTableReferenceView {
    /// The same reference, as one that names all three parts.
    pub open spec fn as_full(self) -> TableReferenceView {
        TableReferenceView::Full { catalog: self.catalog, schema: self.schema, table: self.table }
    }
}

impl View for ResolvedTableReference {
    type V = ResolvedTableReferenceView;

    open spec fn view(&self) -> ResolvedTableReferenceView {
        ResolvedTableReferenceView {
            catalog: self.catalog@,
            schema: self.schema@,
            table: self.table@,
        }
    }
}

impl View for TableReference {
    type V = TableReferenceView;

    open spec fn view(&self) -> TableReferenceView {
        match self {
            TableReference::Bare { table } => TableReferenceView::Bare { table: table@ },
            TableReference::Partial { schema, table } => TableReferenceView::Partial {
                schema: schema@,
                table: table@,
            },
            TableReference::Full { catalog, schema, table } => TableReferenceView::Full {
                catalog: catalog@,
                schema: schema@,
                table: table@,
            },
        }
    }
}

/// The place of the first `'.'` in `s`, or the length of `s` where it
/// holds none.
pub open spec fn first_dot(s: Seq<char>) -> int
    decreases s.len(),
{
    if s.len() == 0 {
        0
    } else if s[0] == '.' {
        0
    } else {
        1 + first_dot(s.skip(1))
    }
}

/// The reference that a dotted name stands for. A name with one dot names
/// a database and a table, a name with two dots a catalog, a database and
/// a table. Any other name is the name of a table, dots included.
pub open spec fn parsed_reference(s: Seq<char>) -> TableReferenceView {
    let i = first_dot(s);
    let rest = s.skip(i + 1);
    let j = first_dot(rest);
    let tail = rest.skip(j + 1);
    if i == s.len() {
        TableReferenceView::Bare { table: s }
    } else if j == rest.len() {
        TableReferenceView::Partial { schema: s.take(i), table: rest }
    } else if first_dot(tail) == tail.len() {
        TableReferenceView::Full { catalog: s.take(i), schema: rest.take(j), table: tail }
    } else {
        TableReferenceView::Bare { table: s }
    }
}

/// `first_dot` finds a dot, no dot stands before it, and it is the length
/// of the text exactly when the text holds no dot.
pub proof fn lemma_first_dot(s: Seq<char>)
    ensures
        0 <= first_dot(s) <= s.len(),
        forall|k: int| 0 <= k < first_dot(s) ==> s[k] != '.',
        first_dot(s) < s.len() ==> s[first_dot(s)] == '.',
    decreases s.len(),
{
    if s.len() > 0 && s[0] != '.' {
        let rest = s.skip(1);
        lemma_first_dot(rest);
        assert forall|k: int| 0 <= k < first_dot(s) implies s[k] != '.' by {
            if k > 0 {
                assert(s[k] == rest[k - 1]);
            }
        }
        if first_dot(s) < s.len() {
            assert(s[first_dot(s)] == rest[first_dot(rest)]);
        }
    }
}

/// A name without a dot is the name of a table.
pub proof fn lemma_parsed_bare(s: Seq<char>)
    requires
        forall|k: int| 0 <= k < s.len() ==> s[k] != '.',
    ensures
        parsed_reference(s) == (TableReferenceView::Bare { table: s }),
{
    lemma_first_dot(s);
}

/// In a text that starts with a piece without dots and a dot, the first
/// dot is the one behind that piece.
pub proof fn lemma_first_dot_after(head: Seq<char>, rest: Seq<char>)
    requires
        forall|k: int| 0 <= k < head.len() ==> head[k] != '.',
    ensures
        first_dot(head + seq!['.'] + rest) == head.len(),
    decreases head.len(),
{
    let s = head + seq!['.'] + rest;
    if head.len() > 0 {
        assert(s[0] == head[0]);
        assert(s.skip(1) =~= head.skip(1) + seq!['.'] + rest);
        lemma_first_dot_after(head.skip(1), rest);
    } else {
        assert(s[0] == '.');
    }
}

/// Two pieces without dots, joined by a dot, name a database and a table.
pub proof fn lemma_parsed_partial(schema: Seq<char>, table: Seq<char>)
    requires
        forall|k: int| 0 <= k < schema.len() ==> schema[k] != '.',
        forall|k: int| 0 <= k < table.len() ==> table[k] != '.',
    ensures
        parsed_reference(schema + seq!['.'] + table) == (TableReferenceView::Partial {
            schema,
            table,
        }),
{
    let s = schema + seq!['.'] + table;
    lemma_first_dot_after(schema, table);
    lemma_first_dot(table);
    assert(s.skip(schema.len() as int + 1) =~= table);
    assert(s.take(schema.len() as int) =~= schema);
}

/// Three pieces without dots, joined by dots, name a catalog, a database
/// and a table.
pub proof fn lemma_parsed_full(catalog: Seq<char>, schema: Seq<char>, table: Seq<char>)
    requires
        forall|k: int| 0 <= k < catalog.len() ==> catalog[k] != '.',
        forall|k: int| 0 <= k < schema.len() ==> schema[k] != '.',
        forall|k: int| 0 <= k < table.len() ==> table[k] != '.',
    ensures
        parsed_reference(catalog + seq!['.'] + schema + seq!['.'] + table) == (
        TableReferenceView::Full { catalog, schema, table }),
{
    let rest = schema + seq!['.'] + table;
    let s = catalog + seq!['.'] + schema + seq!['.'] + table;
    assert(s =~= catalog + seq!['.'] + rest);
    lemma_first_dot_after(catalog, rest);
    lemma_first_dot_after(schema, table);
    lemma_first_dot(table);
    assert(s.skip(catalog.len() as int + 1) =~= rest);
    assert(s.take(catalog.len() as int) =~= catalog);
    assert(rest.skip(schema.len() as int + 1) =~= table);
    assert(rest.take(schema.len() as int) =~= schema);
}

/// A reference that names all three parts resolves to those parts in
/// every context.
pub proof fn lemma_resolve_full(
    catalog: Seq<char>,
    schema: Seq<char>,
    table: Seq<char>,
    default_catalog: Seq<char>,
    default_schema: Seq<char>,
)
    ensures
        (TableReferenceView::Full { catalog, schema, table }).resolve(
            default_catalog,
            default_schema,
        ) == (ResolvedTableReferenceView { catalog, schema, table }),
{
}

/// Resolving what a resolution gave changes nothing, whatever the context
/// of the second resolution is.
pub proof fn lemma_resolve_idempotent(
    reference: TableReferenceView,
    catalog: Seq<char>,
    schema: Seq<char>,
    other_catalog: Seq<char>,
    other_schema: Seq<char>,
)
    ensures
        reference.resolve(catalog, schema).as_full().resolve(other_catalog, other_schema)
            == reference.resolve(catalog, schema),
{
}

/// Calls `TableReference::from(&str)` of datafusion and copies the parts
/// of the variant that it returns. That function splits the name at every
/// `'.'`: two pieces are a database and a table, three pieces a catalog, a
/// database and a table, and with any other number of pieces the whole
/// name is the table's. The contract says this through `parsed_reference`.
#[verifier::external_body]
fn split_name(name: &str) -> (r: TableReference)
    ensures
        r@ == parsed_reference(name@),
{
    match datafusion::sql::TableReference::from(name) {
        datafusion::sql::TableReference::Bare { table } => TableReference::Bare {
            table: table.to_string(),
        },
        datafusion::sql::TableReference::Partial { schema, table } => TableReference::Partial {
            schema: schema.to_string(),
            table: table.to_string(),
        },
        datafusion::sql::TableReference::Full { catalog, schema, table } => TableReference::Full {
            catalog: catalog.to_string(),
            schema: schema.to_string(),
            table: table.to_string(),
        },
    }
}

impl TableReference {
    /// The reference that the dotted name `name` stands for.
    pub fn parse(name: &str) -> (r: Self)
        ensures
            r@ == parsed_reference(name@),
    {
        split_name(name)
    }

    /// A reference to the table `table` of the current database.
    pub fn bare(table: &str) -> (r: Self)
        ensures
            r@ == (TableReferenceView::Bare { table: table@ }),
    {
        TableReference::Bare { table: table.to_owned() }
    }

    /// A reference to the table `table` of the database `schema`.
    pub fn partial(schema: &str, table: &str) -> (r: Self)
        ensures
            r@ == (TableReferenceView::Partial { schema: schema@, table: table@ }),
    {
        TableReference::Partial { schema: schema.to_owned(), table: table.to_owned() }
    }

    /// A reference to the table `table` of the database `schema` of the
    /// catalog `catalog`.
    pub fn full(catalog: &str, schema: &str, table: &str) -> (r: Self)
        ensures
            r@ == (TableReferenceView::Full { catalog: catalog@, schema: schema@, table: table@ }),
    {
        TableReference::Full {
            catalog: catalog.to_owned(),
            schema: schema.to_owned(),
            table: table.to_owned(),
        }
    }

    /// The name of the table, whatever else the reference names.
    pub fn table(&self) -> (t: &str)
        ensures
            t@ == self@.table(),
    {
        match self {
            TableReference::Bare { table } => table.as_str(),
            TableReference::Partial { table, .. } => table.as_str(),
            TableReference::Full { table, .. } => table.as_str(),
        }
    }

    /// Fills the parts that the reference leaves out from the context
    /// `(default_catalog, default_schema)`. Nothing is looked up.
    pub fn resolve(&self, default_catalog: &str, default_schema: &str) -> (r:
        ResolvedTableReference)
        ensures
            r@ == self@.resolve(default_catalog@, default_schema@),
    {
        match self {
            TableReference::Bare { table } => ResolvedTableReference {
                catalog: default_catalog.to_owned(),
                schema: default_schema.to_owned(),
                table: table.clone(),
            },
            TableReference::Partial { schema, table } => ResolvedTableReference {
                catalog: default_catalog.to_owned(),
                schema: schema.clone(),
                table: table.clone(),
            },
            TableReference::Full { catalog, schema, table } => ResolvedTableReference {
                catalog: catalog.clone(),
                schema: schema.clone(),
                table: table.clone(),
            },
        }
    }
}

} // verus!
