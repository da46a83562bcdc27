//! Warehouse tables: a portable table as the warehouse declares it, and the
//! SQL that imports its rows from a landing table.

use vstd::prelude::*;
use vstd::string::*;

use crate::drivers::bigquery_shared::column::{
    bq_column_views, faithful_column, import_select_expr, import_udf, lemma_column_round_trip,
    mapped, needs_coercion, portable, BqColumn, BqColumnView,
};
use crate::drivers::bigquery_shared::{quotable, quote_known, quoted, Usage};
use crate::error::{TransferError, TransferErrorView};
use crate::schema::{column_models, distinct_names, Column, ColumnView, Table, TableView};
use crate::text::contains_char;

verus! {

/// The name of a warehouse table: a project, a dataset in it, a table in that.
#[derive(Debug)]
pub struct TableName {
    project: String,
    dataset: String,
    table: String,
}

/// The mathematical value of a [`TableName`].
pub struct TableNameView {
    pub project: Seq<char>,
    pub dataset: Seq<char>,
    pub table: Seq<char>,
}

impl View for TableName {
    type V = TableNameView;

    closed spec fn view(&self) -> TableNameView {
        TableNameView { project: self.project@, dataset: self.dataset@, table: self.table@ }
    }
}

impl Clone for TableName {
    fn clone(&self) -> (r: Self)
        ensures
            r@ == self@,
    {
        proof {
            use_type_invariant(self);
        }
        TableName {
            project: self.project.clone(),
            dataset: self.dataset.clone(),
            table: self.table.clone(),
        }
    }
}

impl TableNameView {
    /// The three parts with dots between them.
    pub open spec fn dotted(self) -> Seq<char> {
        self.project + "."@ + self.dataset + "."@ + self.table
    }

    /// Every part can stand between backticks.
    pub open spec fn wf(self) -> bool {
        quotable(self.project) && quotable(self.dataset) && quotable(self.table)
    }
}

/// The first of the three parts that cannot be quoted, if there is one.
pub open spec fn first_unquotable(
    project: Seq<char>,
    dataset: Seq<char>,
    table: Seq<char>,
) -> Option<Seq<char>> {
    if !quotable(project) {
        Some(project)
    } else if !quotable(dataset) {
        Some(dataset)
    } else if !quotable(table) {
        Some(table)
    } else {
        None
    }
}

/// A text made of parts without a backtick has none.
proof fn lemma_dotted_quotable(name: TableNameView)
    requires
        name.wf(),
    ensures
        quotable(name.dotted()),
{
    reveal_strlit(".");
    let dotted = name.dotted();
    if dotted.contains('`') {
        let i = choose|i: int| 0 <= i < dotted.len() && dotted[i] == '`';
        let a = name.project.len() as int;
        let b = a + 1 + name.dataset.len();
        if i < a {
            assert(name.project[i] == '`');
        } else if i == a {
        } else if i < b {
            assert(name.dataset[i - a - 1] == '`');
        } else if i == b {
        } else {
            assert(name.table[i - b - 1] == '`');
        }
    }
}

impl TableName {
    /// Every part of a table name can stand between backticks.
    #[verifier::type_invariant]
    spec fn parts_are_quotable(self) -> bool {
        quotable(self.project@) && quotable(self.dataset@) && quotable(self.table@)
    }

    /// The name with these parts, unless one of them holds a backtick: then
    /// the failure holds the first that does.
    pub fn new(project: &str, dataset: &str, table: &str) -> (r: Result<TableName, TransferError>)
        ensures
            match r {
                Ok(name) => first_unquotable(project@, dataset@, table@) is None && name@ == (
                TableNameView { project: project@, dataset: dataset@, table: table@ }),
                Err(e) => first_unquotable(project@, dataset@, table@) matches Some(part) && e@
                    == TransferErrorView::UnquotableName(part),
            },
    {
        if contains_char(project, '`') {
            return Err(TransferError::UnquotableName(String::from_str(project)));
        }
        if contains_char(dataset, '`') {
            return Err(TransferError::UnquotableName(String::from_str(dataset)));
        }
        if contains_char(table, '`') {
            return Err(TransferError::UnquotableName(String::from_str(table)));
        }
        Ok(
            TableName {
                project: String::from_str(project),
                dataset: String::from_str(dataset),
                table: String::from_str(table),
            },
        )
    }

    /// The project that holds the dataset.
    pub fn project(&self) -> (r: &str)
        ensures
            r@ == self@.project,
    {
        self.project.as_str()
    }

    /// The dataset that holds the table.
    pub fn dataset(&self) -> (r: &str)
        ensures
            r@ == self@.dataset,
    {
        self.dataset.as_str()
    }

    /// The table's own name.
    pub fn table(&self) -> (r: &str)
        ensures
            r@ == self@.table,
    {
        self.table.as_str()
    }

    /// The three parts with dots between them.
    pub fn dotted(&self) -> (r: String)
        ensures
            r@ == self@.dotted(),
            quotable(r@),
    {
        proof {
            use_type_invariant(self);
            lemma_dotted_quotable(self@);
        }
        let mut text = String::from_str(self.project.as_str());
        text.append(".");
        text.append(self.dataset.as_str());
        text.append(".");
        text.append(self.table.as_str());
        text
    }
}

/// The warehouse columns for the first `n` of `columns`, or what is in the
/// way of the first column that has none.
pub open spec fn mapped_columns(columns: Seq<ColumnView>, n: nat, usage: Usage) -> Result<
    Seq<BqColumnView>,
    TransferErrorView,
>
    decreases n,
{
    if n == 0 || n > columns.len() {
        Ok(Seq::empty())
    } else {
        match mapped_columns(columns, (n - 1) as nat, usage) {
            Err(e) => Err(e),
            Ok(before) => {
                let column = columns[n - 1];
                match mapped(
                    column.name,
                    column.comment,
                    column.data_type,
                    column.is_nullable,
                    usage,
                ) {
                    Ok(mapped_column) => Ok(before.push(mapped_column)),
                    Err(e) => Err(e),
                }
            },
        }
    }
}

/// Once a column has no counterpart, taking more columns does not change
/// what is in the way.
pub proof fn lemma_mapped_columns_fail(columns: Seq<ColumnView>, k: nat, n: nat, usage: Usage)
    requires
        k <= n <= columns.len(),
        mapped_columns(columns, k, usage) is Err,
    ensures
        mapped_columns(columns, n, usage) == mapped_columns(columns, k, usage),
    decreases n - k,
{
    if k < n {
        lemma_mapped_columns_fail(columns, k, (n - 1) as nat, usage);
    }
}

/// The declarations of the functions that coerce the first `n` of `columns`.
pub open spec fn import_udfs(columns: Seq<BqColumnView>, n: nat) -> Seq<char>
    decreases n,
{
    if n == 0 || n > columns.len() {
        Seq::empty()
    } else {
        import_udfs(columns, (n - 1) as nat) + import_udf(columns[n - 1], (n - 1) as nat)
    }
}

/// The expressions that select the first `n` of `columns`, a comma between two.
pub open spec fn import_select_list(columns: Seq<BqColumnView>, n: nat) -> Seq<char>
    decreases n,
{
    if n == 0 || n > columns.len() {
        Seq::empty()
    } else {
        let separator = if n > 1 {
            ","@
        } else {
            Seq::empty()
        };
        import_select_list(columns, (n - 1) as nat) + separator + import_select_expr(
            columns[n - 1],
            (n - 1) as nat,
        )
    }
}

/// The portable columns that `columns` are read back as.
pub open spec fn portable_columns(columns: Seq<BqColumnView>) -> Seq<ColumnView> {
    Seq::new(columns.len(), |i: int| portable(columns[i]))
}

/// Round trip of a table: where every column is faithful, the columns are
/// mapped to columns of the final table, and those are read back as the
/// columns they came from, in their order.
pub proof fn lemma_table_round_trip(columns: Seq<ColumnView>, n: nat)
    requires
        n <= columns.len(),
        forall|i: int| 0 <= i < n ==> faithful_column(#[trigger] columns[i]),
    ensures
        mapped_columns(columns, n, Usage::FinalTable) matches Ok(mapped_columns)
            && portable_columns(mapped_columns) == columns.take(n as int),
    decreases n,
{
    if n == 0 {
        assert(portable_columns(Seq::empty()) =~= columns.take(0));
    } else {
        lemma_table_round_trip(columns, (n - 1) as nat);
        let column = columns[n - 1];
        assert(faithful_column(column));
        lemma_column_round_trip(
            column.name,
            column.comment,
            column.data_type,
            column.is_nullable,
        );
        let before = mapped_columns(columns, (n - 1) as nat, Usage::FinalTable)->Ok_0;
        let last = mapped(
            column.name,
            column.comment,
            column.data_type,
            column.is_nullable,
            Usage::FinalTable,
        )->Ok_0;
        assert(portable_columns(before).len() == n - 1);
        assert(portable_columns(before.push(last)) =~= columns.take(n as int)) by {
            assert forall|i: int| 0 <= i < n implies portable_columns(before.push(last))[i]
                == columns.take(n as int)[i] by {
                if i < n - 1 {
                    assert(portable_columns(before)[i] == columns.take(n - 1)[i]);
                }
            }
        }
    }
}

/// A table as the warehouse declares it.
#[derive(Debug)]
pub struct BqTable {
    name: TableName,
    columns: Vec<BqColumn>,
    usage: Usage,
}

/// The mathematical value of a [`BqTable`].
pub struct BqTableView {
    pub name: TableNameView,
    pub columns: Seq<BqColumnView>,
    pub usage: Usage,
}

impl View for BqTable {
    type V = BqTableView;

    closed spec fn view(&self) -> BqTableView {
        BqTableView { name: self.name@, columns: bq_column_views(self.columns@), usage: self.usage }
    }
}

impl BqTableView {
    /// The statement that imports the rows of the landing table with this
    /// table's name into the types of its columns: first the functions that
    /// columns need for their coercion, then one `SELECT` of every column in
    /// order, from the quoted table.
    pub open spec fn import_sql(self) -> Seq<char> {
        import_udfs(self.columns, self.columns.len()) + "SELECT "@ + import_select_list(
            self.columns,
            self.columns.len(),
        ) + " FROM "@ + quoted(self.name.dotted())
    }
}

/// The value of what mapping a table gave.
pub open spec fn table_mapping_view(r: Result<BqTable, TransferError>) -> Result<
    BqTableView,
    TransferErrorView,
> {
    match r {
        Ok(table) => Ok(table@),
        Err(e) => Err(e@),
    }
}

impl BqTable {
    /// The warehouse table named `name` for the portable `columns`, mapped for
    /// `usage`; or what is in the way of the first column that has no
    /// counterpart.
    pub fn for_table_name_and_columns(name: TableName, columns: &[Column], usage: Usage) -> (r:
        Result<BqTable, TransferError>)
        ensures
            table_mapping_view(r) == match mapped_columns(
                column_models(columns@),
                columns@.len(),
                usage,
            ) {
                Ok(mapped_columns) => Ok(
                    BqTableView { name: name@, columns: mapped_columns, usage },
                ),
                Err(e) => Err::<BqTableView, TransferErrorView>(e),
            },
    {
        let ghost models = column_models(columns@);
        let mut mapped_so_far: Vec<BqColumn> = Vec::new();
        let mut i: usize = 0;
        assert(bq_column_views(mapped_so_far@) =~= Seq::empty());
        while i < columns.len()
            invariant
                i <= columns.len(),
                models == column_models(columns@),
                mapped_columns(models, i as nat, usage) == Ok::<
                    Seq<BqColumnView>,
                    TransferErrorView,
                >(bq_column_views(mapped_so_far@)),
            decreases columns.len() - i,
        {
            match BqColumn::for_column(&columns[i], usage) {
                Ok(column) => {
                    let ghost before = bq_column_views(mapped_so_far@);
                    mapped_so_far.push(column);
                    assert(bq_column_views(mapped_so_far@) =~= before.push(column@));
                },
                Err(e) => {
                    proof {
                        assert(mapped_columns(models, (i + 1) as nat, usage) == Err::<
                            Seq<BqColumnView>,
                            TransferErrorView,
                        >(e@));
                        lemma_mapped_columns_fail(models, (i + 1) as nat, models.len(), usage);
                    }
                    return Err(e);
                },
            }
            i += 1;
        }
        Ok(BqTable { name, columns: mapped_so_far, usage })
    }

    /// The name of the table in the warehouse.
    pub fn name(&self) -> (r: &TableName)
        ensures
            r@ == self@.name,
    {
        &self.name
    }

    /// The columns, in order.
    pub fn columns(&self) -> (r: &Vec<BqColumn>)
        ensures
            bq_column_views(r@) == self@.columns,
    {
        &self.columns
    }

    /// What the table was mapped for.
    pub fn usage(&self) -> (r: Usage)
        ensures
            r == self@.usage,
    {
        self.usage
    }

    /// Appends to `f` the statement that imports the rows of the landing table
    /// into the types of the columns. This asks for a table that was mapped
    /// as a final table; for another, `f` stays as it is.
    pub fn write_import_sql(&self, f: &mut String) -> (r: Result<(), TransferError>)
        ensures
            match r {
                Ok(()) => self@.usage is FinalTable && final(f)@ == old(f)@ + self@.import_sql(),
                Err(e) => !(self@.usage is FinalTable) && final(f)@ == old(f)@ && e@
                    == TransferErrorView::WrongUsage,
            },
    {
        match self.usage {
            Usage::FinalTable => {},
            Usage::CsvLoad => {
                return Err(TransferError::WrongUsage);
            },
        }
        let ghost views = self@.columns;
        let ghost start = f@;
        let mut i: usize = 0;
        while i < self.columns.len()
            invariant
                i <= self.columns.len(),
                views == bq_column_views(self.columns@),
                f@ == start + import_udfs(views, i as nat),
            decreases self.columns.len() - i,
        {
            self.columns[i].write_import_udf(f, i);
            i += 1;
        }
        f.append("SELECT ");
        let ghost selecting = f@;
        let mut i: usize = 0;
        while i < self.columns.len()
            invariant
                i <= self.columns.len(),
                views == bq_column_views(self.columns@),
                f@ == selecting + import_select_list(views, i as nat),
            decreases self.columns.len() - i,
        {
            if i > 0 {
                f.append(",");
            }
            self.columns[i].write_import_select_expr(f, i);
            i += 1;
        }
        f.append(" FROM ");
        let dotted = self.name.dotted();
        let table = quote_known(dotted.as_str());
        f.append(table.as_str());
        Ok(())
    }

    /// The portable table that this table is read back as, under the table's
    /// own name; it fails where two columns share a name.
    pub fn to_table(&self) -> (r: Result<Table, TransferError>)
        ensures
            r is Ok <==> distinct_names(portable_columns(self@.columns)),
            r matches Ok(t) ==> t.wf() && t@ == (TableView {
                name: Some(self@.name.table),
                columns: portable_columns(self@.columns),
            }),
            r matches Err(e) ==> e@ is DuplicateColumn,
    {
        let ghost views = self@.columns;
        let mut columns: Vec<Column> = Vec::new();
        let mut i: usize = 0;
        while i < self.columns.len()
            invariant
                i <= self.columns.len(),
                views == bq_column_views(self.columns@),
                columns.len() == i,
                forall|h: int| 0 <= h < i ==> (#[trigger] columns[h])@ == portable(views[h]),
            decreases self.columns.len() - i,
        {
            columns.push(self.columns[i].to_column());
            i += 1;
        }
        assert(column_models(columns@) =~= portable_columns(views));
        Table::new(Some(String::from_str(self.name.table())), columns)
    }
}

/// Whether CSV can hold the column in the type that it has in the final
/// table, or what is in the way of mapping it.
pub open spec fn column_imports_from_csv(column: ColumnView) -> Result<bool, TransferErrorView> {
    match mapped(
        column.name,
        column.comment,
        column.data_type,
        column.is_nullable,
        Usage::FinalTable,
    ) {
        Ok(mapped_column) => Ok(!needs_coercion(mapped_column)),
        Err(e) => Err(e),
    }
}

/// Whether CSV can hold each of the first `n` of `columns`: going through
/// them in order, the answer is that of the first column that is not
/// importable or cannot be mapped, and yes if there is none.
pub open spec fn columns_import_from_csv(columns: Seq<ColumnView>, n: nat) -> Result<
    bool,
    TransferErrorView,
>
    decreases n,
{
    if n == 0 || n > columns.len() {
        Ok(true)
    } else {
        match columns_import_from_csv(columns, (n - 1) as nat) {
            Ok(true) => column_imports_from_csv(columns[n - 1]),
            other => other,
        }
    }
}

/// Once the answer is not yes, taking more columns does not change it.
pub proof fn lemma_columns_import_settled(columns: Seq<ColumnView>, k: nat, n: nat)
    requires
        k <= n <= columns.len(),
        columns_import_from_csv(columns, k) != Ok::<bool, TransferErrorView>(true),
    ensures
        columns_import_from_csv(columns, n) == columns_import_from_csv(columns, k),
    decreases n - k,
{
    if k < n {
        lemma_columns_import_settled(columns, k, (n - 1) as nat);
    }
}

/// Where every column can be mapped, a table is importable from CSV exactly
/// when each of its columns is.
pub proof fn lemma_table_import_is_conjunction(columns: Seq<ColumnView>, n: nat)
    requires
        n <= columns.len(),
        forall|i: int| 0 <= i < n ==> column_imports_from_csv(#[trigger] columns[i]) is Ok,
    ensures
        columns_import_from_csv(columns, n) == Ok::<bool, TransferErrorView>(
            forall|i: int|
                0 <= i < n ==> column_imports_from_csv(#[trigger] columns[i]) == Ok::<
                    bool,
                    TransferErrorView,
                >(true),
        ),
    decreases n,
{
    if n > 0 {
        lemma_table_import_is_conjunction(columns, (n - 1) as nat);
        let last = column_imports_from_csv(columns[n - 1]);
        assert(last is Ok);
    }
}

/// What the first `n` columns answer does not depend on the columns after them.
pub proof fn lemma_columns_import_prefix(a: Seq<ColumnView>, b: Seq<ColumnView>, n: nat)
    requires
        n <= a.len(),
        n <= b.len(),
        forall|i: int| 0 <= i < n ==> a[i] == b[i],
    ensures
        columns_import_from_csv(a, n) == columns_import_from_csv(b, n),
    decreases n,
{
    if n > 0 {
        lemma_columns_import_prefix(a, b, (n - 1) as nat);
    }
}

/// Putting a column that is not importable from CSV in the place of any
/// column of an importable table makes the table not importable.
pub proof fn lemma_unimportable_column_flips(columns: Seq<ColumnView>, i: int, column: ColumnView)
    requires
        0 <= i < columns.len(),
        columns_import_from_csv(columns, columns.len()) == Ok::<bool, TransferErrorView>(true),
        column_imports_from_csv(column) == Ok::<bool, TransferErrorView>(false),
    ensures
        columns_import_from_csv(columns.update(i, column), columns.len()) == Ok::<
            bool,
            TransferErrorView,
        >(false),
{
    let changed = columns.update(i, column);
    if columns_import_from_csv(columns, i as nat) != Ok::<bool, TransferErrorView>(true) {
        lemma_columns_import_settled(columns, i as nat, columns.len());
    }
    lemma_columns_import_prefix(columns, changed, i as nat);
    assert(columns_import_from_csv(changed, (i + 1) as nat) == Ok::<bool, TransferErrorView>(
        false,
    ));
    lemma_columns_import_settled(changed, (i + 1) as nat, changed.len());
}

/// The value of an answer.
pub open spec fn answer_view(r: Result<bool, TransferError>) -> Result<bool, TransferErrorView> {
    match r {
        Ok(b) => Ok(b),
        Err(e) => Err(e@),
    }
}

impl Column {
    /// Whether the warehouse can load this column from CSV straight into its
    /// final type.
    pub fn bigquery_can_import_from_csv(&self) -> (r: Result<bool, TransferError>)
        ensures
            answer_view(r) == column_imports_from_csv(self@),
    {
        match BqColumn::for_column(self, Usage::FinalTable) {
            Ok(column) => Ok(column.can_import_from_csv()),
            Err(e) => Err(e),
        }
    }
}

impl Table {
    /// Whether the warehouse can load this table from CSV straight into its
    /// final types.
    pub fn bigquery_can_import_from_csv(&self) -> (r: Result<bool, TransferError>)
        ensures
            answer_view(r) == columns_import_from_csv(self@.columns, self@.columns.len()),
    {
        let columns = self.columns();
        let ghost models = self@.columns;
        let mut i: usize = 0;
        while i < columns.len()
            invariant
                i <= columns.len(),
                models == column_models(columns@),
                models == self@.columns,
                columns_import_from_csv(models, i as nat) == Ok::<bool, TransferErrorView>(true),
            decreases columns.len() - i,
        {
            match columns[i].bigquery_can_import_from_csv() {
                Ok(true) => {},
                other => {
                    proof {
                        lemma_columns_import_settled(models, (i + 1) as nat, models.len());
                    }
                    return other;
                },
            }
            i += 1;
        }
        Ok(true)
    }
}

} // verus!
