//! Warehouse columns, and how portable columns are mapped to them and back.

use vstd::prelude::*;
use vstd::string::*;

use crate::drivers::bigquery_shared::{
    decimal, decimal_text, quotable, quote_known, quoted, BqType, Mode, Usage,
};
use crate::error::{TransferError, TransferErrorView};
use crate::schema::{
    field_models, lemma_struct_model, Column, ColumnView, DataType, DataTypeView, StructField,
    StructFieldView,
};
use crate::text::{contains_char, copy_text, text_model};

verus! {

/// A column as the warehouse declares it. An array is a column in repeated
/// mode; a record lists its fields, which are columns themselves.
#[derive(Debug)]
pub struct BqColumn {
    name: String,
    description: Option<String>,
    ty: BqType,
    mode: Mode,
    fields: Vec<BqColumn>,
}

/// The mathematical value of a [`BqColumn`].
pub struct BqColumnView {
    pub name: Seq<char>,
    pub description: Option<Seq<char>>,
    pub ty: BqType,
    pub mode: Mode,
    pub fields: Seq<BqColumnView>,
}

impl BqColumn {
    /// Every column has a name that can be quoted.
    #[verifier::type_invariant]
    spec fn name_is_quotable(self) -> bool {
        quotable(self.name@)
    }

    /// The value of this column, by recursion on its fields.
    pub closed spec fn model(self) -> BqColumnView
        decreases self,
    {
        BqColumnView {
            name: self.name@,
            description: text_model(self.description),
            ty: self.ty,
            mode: self.mode,
            fields: Seq::new(self.fields.len() as nat, |i: int| nested_model(self.fields, i)),
        }
    }
}

/// The value of the column at `i`, where there is one.
pub closed spec fn nested_model(fields: Vec<BqColumn>, i: int) -> BqColumnView
    decreases fields, 0int,
{
    if 0 <= i < fields.len() {
        fields[i].model()
    } else {
        arbitrary()
    }
}

impl View for BqColumn {
    type V = BqColumnView;

    closed spec fn view(&self) -> BqColumnView {
        self.model()
    }
}

/// The values of `columns`, in order.
pub open spec fn bq_column_views(columns: Seq<BqColumn>) -> Seq<BqColumnView> {
    Seq::new(columns.len(), |i: int| columns[i]@)
}

/// The mode of a column that holds no array.
pub open spec fn mode_of(nullable: bool) -> Mode {
    if nullable {
        Mode::Nullable
    } else {
        Mode::Required
    }
}

/// The warehouse type that holds the values of `t` in one cell. Arrays and
/// structs have none of their own: in one cell they are text.
pub open spec fn scalar_type(t: DataTypeView) -> BqType {
    match t {
        DataTypeView::Bool => BqType::Bool,
        DataTypeView::Date => BqType::Date,
        DataTypeView::Decimal => BqType::Numeric,
        DataTypeView::Float32 => BqType::Float64,
        DataTypeView::Float64 => BqType::Float64,
        DataTypeView::GeoJson => BqType::Geography,
        DataTypeView::Int16 => BqType::Int64,
        DataTypeView::Int32 => BqType::Int64,
        DataTypeView::Int64 => BqType::Int64,
        DataTypeView::Json => BqType::String,
        DataTypeView::Text => BqType::String,
        DataTypeView::TimestampWithTimeZone => BqType::Timestamp,
        DataTypeView::TimestampWithoutTimeZone => BqType::Datetime,
        DataTypeView::Uuid => BqType::String,
        DataTypeView::Array(_) => BqType::String,
        DataTypeView::Struct(_) => BqType::String,
    }
}

/// The warehouse column for a portable column with these parts.
///
/// A name with a backtick cannot be quoted, so it has no column. For a CSV
/// load every type becomes a column of one cell. In a final table an array
/// becomes a repeated column of its element type, and has no column if its
/// elements are arrays again; a struct becomes a record of its mapped fields.
pub open spec fn mapped(
    name: Seq<char>,
    description: Option<Seq<char>>,
    t: DataTypeView,
    nullable: bool,
    usage: Usage,
) -> Result<BqColumnView, TransferErrorView>
    decreases t, 0nat,
{
    let plain = BqColumnView {
        name,
        description,
        ty: scalar_type(t),
        mode: mode_of(nullable),
        fields: Seq::empty(),
    };
    if !quotable(name) {
        Err(TransferErrorView::UnquotableName(name))
    } else if usage is CsvLoad {
        Ok(plain)
    } else {
        match t {
            DataTypeView::Array(inner) => {
                if *inner is Array {
                    Err(TransferErrorView::NoRepresentation(name))
                } else {
                    match mapped(name, description, *inner, nullable, usage) {
                        Ok(element) => Ok(
                            BqColumnView {
                                name: element.name,
                                description: element.description,
                                ty: element.ty,
                                mode: Mode::Repeated,
                                fields: element.fields,
                            },
                        ),
                        Err(e) => Err(e),
                    }
                }
            },
            DataTypeView::Struct(fields) => {
                match mapped_fields(fields, fields.len(), usage) {
                    Ok(columns) => Ok(
                        BqColumnView {
                            name,
                            description,
                            ty: BqType::Record,
                            mode: mode_of(nullable),
                            fields: columns,
                        },
                    ),
                    Err(e) => Err(e),
                }
            },
            _ => Ok(plain),
        }
    }
}

/// The warehouse columns for the first `n` of `fields`, or what is in the way
/// of the first field that has none.
pub open spec fn mapped_fields(fields: Seq<StructFieldView>, n: nat, usage: Usage) -> Result<
    Seq<BqColumnView>,
    TransferErrorView,
>
    decreases fields, n,
{
    if n == 0 || n > fields.len() {
        Ok(Seq::empty())
    } else {
        match mapped_fields(fields, (n - 1) as nat, usage) {
            Err(e) => Err(e),
            Ok(before) => {
                let field = fields[n - 1];
                match mapped(field.name, None, field.data_type, field.is_nullable, usage) {
                    Ok(column) => Ok(before.push(column)),
                    Err(e) => Err(e),
                }
            },
        }
    }
}

/// The value of what a mapping gave.
pub open spec fn mapping_view(r: Result<BqColumn, TransferError>) -> Result<
    BqColumnView,
    TransferErrorView,
> {
    match r {
        Ok(column) => Ok(column@),
        Err(e) => Err(e@),
    }
}

/// The warehouse type for the values of `t` in one cell.
fn scalar_type_of(t: &DataType) -> (r: BqType)
    ensures
        r == scalar_type(t@),
{
    match t {
        DataType::Bool => BqType::Bool,
        DataType::Date => BqType::Date,
        DataType::Decimal => BqType::Numeric,
        DataType::Float32 => BqType::Float64,
        DataType::Float64 => BqType::Float64,
        DataType::GeoJson => BqType::Geography,
        DataType::Int16 => BqType::Int64,
        DataType::Int32 => BqType::Int64,
        DataType::Int64 => BqType::Int64,
        DataType::Json => BqType::String,
        DataType::Text => BqType::String,
        DataType::TimestampWithTimeZone => BqType::Timestamp,
        DataType::TimestampWithoutTimeZone => BqType::Datetime,
        DataType::Uuid => BqType::String,
        DataType::Array(_) => BqType::String,
        DataType::Struct(_) => BqType::String,
    }
}

impl BqColumn {
    /// What a column holds: its fields are the values of its field columns.
    proof fn lemma_fields(self)
        ensures
            self@.fields == bq_column_views(self.fields@),
    {
        let direct = self.model().fields;
        assert forall|i: int| 0 <= i < self.fields.len() implies direct[i] == self.fields@[i]@ by {
            assert(direct[i] == nested_model(self.fields, i));
        }
        assert(direct =~= bq_column_views(self.fields@));
    }

    /// The warehouse column for the portable column `column`.
    pub fn for_column(column: &Column, usage: Usage) -> (r: Result<BqColumn, TransferError>)
        ensures
            mapping_view(r) == mapped(
                column@.name,
                column@.comment,
                column@.data_type,
                column@.is_nullable,
                usage,
            ),
    {
        Self::for_parts(
            column.name.as_str(),
            &column.comment,
            &column.data_type,
            column.is_nullable,
            usage,
        )
    }

    /// The warehouse column for a portable column with these parts.
    pub fn for_parts(
        name: &str,
        description: &Option<String>,
        data_type: &DataType,
        nullable: bool,
        usage: Usage,
    ) -> (r: Result<BqColumn, TransferError>)
        ensures
            mapping_view(r) == mapped(name@, text_model(*description), data_type@, nullable, usage),
        decreases data_type,
    {
        if contains_char(name, '`') {
            return Err(TransferError::UnquotableName(String::from_str(name)));
        }
        let mode = if nullable {
            Mode::Nullable
        } else {
            Mode::Required
        };
        let plain = BqColumn {
            name: String::from_str(name),
            description: copy_text(description),
            ty: scalar_type_of(data_type),
            mode,
            fields: Vec::new(),
        };
        proof {
            plain.lemma_fields();
            assert(plain@.fields =~= Seq::empty());
        }
        match usage {
            Usage::CsvLoad => {
                return Ok(plain);
            },
            Usage::FinalTable => {},
        }
        match data_type {
            DataType::Array(inner) => {
                match **inner {
                    DataType::Array(_) => {
                        assert(inner.model() is Array);
                        return Err(TransferError::NoRepresentation(String::from_str(name)));
                    },
                    _ => {},
                }
                match Self::for_parts(name, description, inner, nullable, usage) {
                    Ok(element) => {
                        proof {
                            use_type_invariant(&element);
                            element.lemma_fields();
                        }
                        let repeated = BqColumn {
                            name: element.name,
                            description: element.description,
                            ty: element.ty,
                            mode: Mode::Repeated,
                            fields: element.fields,
                        };
                        proof {
                            repeated.lemma_fields();
                        }
                        Ok(repeated)
                    },
                    Err(e) => Err(e),
                }
            },
            DataType::Struct(fields) => {
                let ghost models = field_models(fields@);
                proof {
                    lemma_struct_model(*fields);
                }
                let mut columns: Vec<BqColumn> = Vec::new();
                let mut i: usize = 0;
                while i < fields.len()
                    invariant
                        i <= fields.len(),
                        *data_type == DataType::Struct(*fields),
                        data_type@ == DataTypeView::Struct(models),
                        models == field_models(fields@),
                        quotable(name@),
                        usage == Usage::FinalTable,
                        mapped_fields(models, i as nat, usage) == Ok::<
                            Seq<BqColumnView>,
                            TransferErrorView,
                        >(bq_column_views(columns@)),
                    decreases fields.len() - i,
                {
                    let field = &fields[i];
                    proof {
                        vstd::std_specs::vec::axiom_vec_index_decreases(*fields, i as int);
                    }
                    let no_description: Option<String> = None;
                    match Self::for_parts(
                        field.name.as_str(),
                        &no_description,
                        &field.data_type,
                        field.is_nullable,
                        usage,
                    ) {
                        Ok(column) => {
                            let ghost before = bq_column_views(columns@);
                            columns.push(column);
                            assert(bq_column_views(columns@) =~= before.push(column@));
                        },
                        Err(e) => {
                            proof {
                                assert(mapped_fields(models, (i + 1) as nat, usage) == Err::<
                                    Seq<BqColumnView>,
                                    TransferErrorView,
                                >(e@));
                                lemma_mapped_fields_fail(
                                    models,
                                    (i + 1) as nat,
                                    models.len(),
                                    usage,
                                );
                            }
                            return Err(e);
                        },
                    }
                    i += 1;
                }
                let record = BqColumn {
                    name: String::from_str(name),
                    description: copy_text(description),
                    ty: BqType::Record,
                    mode,
                    fields: columns,
                };
                proof {
                    record.lemma_fields();
                }
                Ok(record)
            },
            _ => Ok(plain),
        }
    }
}

/// Once a field has no column, taking more fields does not change what is in
/// the way.
pub proof fn lemma_mapped_fields_fail(fields: Seq<StructFieldView>, k: nat, n: nat, usage: Usage)
    requires
        k <= n <= fields.len(),
        mapped_fields(fields, k, usage) is Err,
    ensures
        mapped_fields(fields, n, usage) == mapped_fields(fields, k, usage),
    decreases n - k,
{
    if k < n {
        lemma_mapped_fields_fail(fields, k, (n - 1) as nat, usage);
    }
}

/// Whether CSV cannot hold the column in its final type: an array or a record
/// arrives as text and is coerced on import.
pub open spec fn needs_coercion(column: BqColumnView) -> bool {
    column.mode is Repeated || column.ty is Record
}

/// The type of one element of the column in SQL.
pub open spec fn element_sql_type(column: BqColumnView) -> Seq<char>
    decreases column, 0nat,
{
    if column.ty is Record {
        "STRUCT<"@ + fields_sql(column.fields, column.fields.len()) + ">"@
    } else {
        column.ty.spec_name()
    }
}

/// The type of the column in SQL.
pub open spec fn sql_type(column: BqColumnView) -> Seq<char>
    decreases column, 1nat,
{
    if column.mode is Repeated {
        "ARRAY<"@ + element_sql_type(column) + ">"@
    } else {
        element_sql_type(column)
    }
}

/// The first `n` of `fields` as the inside of a `STRUCT` type in SQL: each
/// with its quoted name and its type, a comma between two.
pub open spec fn fields_sql(fields: Seq<BqColumnView>, n: nat) -> Seq<char>
    decreases fields, n,
{
    if n == 0 || n > fields.len() {
        Seq::empty()
    } else {
        let separator = if n > 1 {
            ","@
        } else {
            Seq::empty()
        };
        fields_sql(fields, (n - 1) as nat) + separator + quoted(fields[n - 1].name) + " "@
            + sql_type(fields[n - 1])
    }
}

/// The name of the function that coerces the column at `index`.
pub open spec fn udf_name(index: nat) -> Seq<char> {
    "ImportJson_"@ + decimal(index)
}

/// The declaration of the function that coerces the column at `index` from
/// its text to its final type; nothing for a column that needs none.
pub open spec fn import_udf(column: BqColumnView, index: nat) -> Seq<char> {
    if needs_coercion(column) {
        "CREATE TEMP FUNCTION "@ + udf_name(index) + "(input STRING)\nRETURNS "@ + sql_type(column)
            + "\nLANGUAGE js AS \"\"\"\nreturn JSON.parse(input);\n\"\"\";\n\n"@
    } else {
        Seq::empty()
    }
}

/// The expression that selects the column at `index` from the landing table.
pub open spec fn import_select_expr(column: BqColumnView, index: nat) -> Seq<char> {
    if needs_coercion(column) {
        udf_name(index) + "("@ + quoted(column.name) + ") AS "@ + quoted(column.name)
    } else {
        quoted(column.name)
    }
}

/// The portable type that a warehouse column is read back as.
pub open spec fn portable_type(column: BqColumnView) -> DataTypeView
    decreases column, 0nat,
{
    let element = match column.ty {
        BqType::Bool => DataTypeView::Bool,
        BqType::Date => DataTypeView::Date,
        BqType::Datetime => DataTypeView::TimestampWithoutTimeZone,
        BqType::Float64 => DataTypeView::Float64,
        BqType::Geography => DataTypeView::GeoJson,
        BqType::Int64 => DataTypeView::Int64,
        BqType::Numeric => DataTypeView::Decimal,
        BqType::Record => DataTypeView::Struct(
            portable_fields(column.fields, column.fields.len()),
        ),
        BqType::String => DataTypeView::Text,
        BqType::Timestamp => DataTypeView::TimestampWithTimeZone,
    };
    if column.mode is Repeated {
        DataTypeView::Array(Box::new(element))
    } else {
        element
    }
}

/// The struct fields that the first `n` of `fields` are read back as.
pub open spec fn portable_fields(fields: Seq<BqColumnView>, n: nat) -> Seq<StructFieldView>
    decreases fields, n,
{
    if n == 0 || n > fields.len() {
        Seq::empty()
    } else {
        portable_fields(fields, (n - 1) as nat).push(
            StructFieldView {
                name: fields[n - 1].name,
                data_type: portable_type(fields[n - 1]),
                is_nullable: !(fields[n - 1].mode is Required),
            },
        )
    }
}

/// The portable column that a warehouse column is read back as. Only a
/// required column is read back as not nullable.
pub open spec fn portable(column: BqColumnView) -> ColumnView {
    ColumnView {
        name: column.name,
        data_type: portable_type(column),
        is_nullable: !(column.mode is Required),
        comment: column.description,
    }
}

impl BqColumn {
    /// The name of the column.
    pub fn name(&self) -> (r: &str)
        ensures
            r@ == self@.name,
            quotable(r@),
    {
        proof {
            use_type_invariant(self);
        }
        self.name.as_str()
    }

    /// What the column is about, if that is recorded.
    pub fn description(&self) -> (r: &Option<String>)
        ensures
            text_model(*r) == self@.description,
    {
        &self.description
    }

    /// The type of the column, its mode apart.
    pub fn ty(&self) -> (r: BqType)
        ensures
            r == self@.ty,
    {
        self.ty
    }

    /// Whether the column may be null, or holds an array.
    pub fn mode(&self) -> (r: Mode)
        ensures
            r == self@.mode,
    {
        self.mode
    }

    /// The fields of a record; no field for another column.
    pub fn fields(&self) -> (r: &Vec<BqColumn>)
        ensures
            bq_column_views(r@) == self@.fields,
            decreases_to!(*self => *r),
    {
        proof {
            self.lemma_fields();
        }
        &self.fields
    }

    /// Whether the column can be loaded from CSV straight into its final type.
    pub fn can_import_from_csv(&self) -> (r: bool)
        ensures
            r == !needs_coercion(self@),
    {
        match (self.mode, self.ty) {
            (Mode::Repeated, _) => false,
            (_, BqType::Record) => false,
            _ => true,
        }
    }

    /// The type of one element of the column in SQL.
    fn element_sql_type(&self) -> (r: String)
        ensures
            r@ == element_sql_type(self@),
        decreases self, 0nat,
    {
        match self.ty {
            BqType::Record => {
                let mut text = String::from_str("STRUCT<");
                let ghost views = self@.fields;
                proof {
                    self.lemma_fields();
                }
                let mut i: usize = 0;
                while i < self.fields.len()
                    invariant
                        i <= self.fields.len(),
                        views == bq_column_views(self.fields@),
                        views == self@.fields,
                        text@ == "STRUCT<"@ + fields_sql(views, i as nat),
                    decreases self.fields.len() - i,
                {
                    let field = &self.fields[i];
                    proof {
                        vstd::std_specs::vec::axiom_vec_index_decreases(self.fields, i as int);
                        use_type_invariant(field);
                    }
                    if i > 0 {
                        text.append(",");
                    }
                    let quoted_name = quote_known(field.name.as_str());
                    text.append(quoted_name.as_str());
                    text.append(" ");
                    let field_type = field.sql_type();
                    text.append(field_type.as_str());
                    proof {
                        let separator = if i > 0 {
                            ","@
                        } else {
                            Seq::<char>::empty()
                        };
                        assert(text@ =~= "STRUCT<"@ + (fields_sql(views, i as nat) + separator
                            + quoted(views[i as int].name) + " "@ + sql_type(views[i as int])));
                    }
                    i += 1;
                }
                text.append(">");
                text
            },
            other => String::from_str(other.name()),
        }
    }

    /// The type of the column in SQL.
    pub fn sql_type(&self) -> (r: String)
        ensures
            r@ == sql_type(self@),
        decreases self, 1nat,
    {
        match self.mode {
            Mode::Repeated => {
                let mut text = String::from_str("ARRAY<");
                let element = self.element_sql_type();
                text.append(element.as_str());
                text.append(">");
                text
            },
            _ => self.element_sql_type(),
        }
    }

    /// Appends to `f` the declaration of the function that coerces this
    /// column, the one at `index`, on import; nothing if it needs none.
    pub fn write_import_udf(&self, f: &mut String, index: usize)
        ensures
            final(f)@ == old(f)@ + import_udf(self@, index as nat),
    {
        if self.can_import_from_csv() {
            return ;
        }
        let number = decimal_text(index);
        let column_type = self.sql_type();
        f.append("CREATE TEMP FUNCTION ");
        f.append("ImportJson_");
        f.append(number.as_str());
        f.append("(input STRING)\nRETURNS ");
        f.append(column_type.as_str());
        f.append("\nLANGUAGE js AS \"\"\"\nreturn JSON.parse(input);\n\"\"\";\n\n");
    }

    /// Appends to `f` the expression that selects this column, the one at
    /// `index`, from the landing table.
    pub fn write_import_select_expr(&self, f: &mut String, index: usize)
        ensures
            final(f)@ == old(f)@ + import_select_expr(self@, index as nat),
    {
        proof {
            use_type_invariant(self);
        }
        let name = quote_known(self.name.as_str());
        if self.can_import_from_csv() {
            f.append(name.as_str());
        } else {
            let number = decimal_text(index);
            f.append("ImportJson_");
            f.append(number.as_str());
            f.append("(");
            f.append(name.as_str());
            f.append(") AS ");
            f.append(name.as_str());
        }
    }

    /// The portable type that this column is read back as.
    pub fn to_data_type(&self) -> (r: DataType)
        ensures
            r@ == portable_type(self@),
        decreases self,
    {
        let element = match self.ty {
            BqType::Bool => DataType::Bool,
            BqType::Date => DataType::Date,
            BqType::Datetime => DataType::TimestampWithoutTimeZone,
            BqType::Float64 => DataType::Float64,
            BqType::Geography => DataType::GeoJson,
            BqType::Int64 => DataType::Int64,
            BqType::Numeric => DataType::Decimal,
            BqType::Record => {
                let ghost views = self@.fields;
                proof {
                    self.lemma_fields();
                }
                let mut fields: Vec<StructField> = Vec::new();
                let mut i: usize = 0;
                while i < self.fields.len()
                    invariant
                        i <= self.fields.len(),
                        views == bq_column_views(self.fields@),
                        field_models(fields@) == portable_fields(views, i as nat),
                    decreases self.fields.len() - i,
                {
                    let field = &self.fields[i];
                    proof {
                        vstd::std_specs::vec::axiom_vec_index_decreases(self.fields, i as int);
                    }
                    let nullable = match field.mode {
                        Mode::Required => false,
                        _ => true,
                    };
                    let portable = StructField {
                        name: field.name.clone(),
                        data_type: field.to_data_type(),
                        is_nullable: nullable,
                    };
                    fields.push(portable);
                    i += 1;
                }
                proof {
                    lemma_struct_model(fields);
                }
                DataType::Struct(fields)
            },
            BqType::String => DataType::Text,
            BqType::Timestamp => DataType::TimestampWithTimeZone,
        };
        match self.mode {
            Mode::Repeated => {
                let ghost inner = element@;
                let array = DataType::Array(Box::new(element));
                assert(array@ == DataTypeView::Array(Box::new(inner)));
                array
            },
            _ => element,
        }
    }

    /// The portable column that this column is read back as.
    pub fn to_column(&self) -> (r: Column)
        ensures
            r@ == portable(self@),
    {
        let nullable = match self.mode {
            Mode::Required => false,
            _ => true,
        };
        Column {
            name: self.name.clone(),
            data_type: self.to_data_type(),
            is_nullable: nullable,
            comment: copy_text(&self.description),
        }
    }
}

/// Whether the warehouse has a type of its own for `t` that is read back as
/// `t`. It has none for the narrower numbers, which it widens, for JSON and
/// UUIDs, which it keeps as text, nor for arrays of arrays.
pub open spec fn faithful(t: DataTypeView) -> bool
    decreases t, 0nat,
{
    match t {
        DataTypeView::Bool => true,
        DataTypeView::Date => true,
        DataTypeView::Decimal => true,
        DataTypeView::Float64 => true,
        DataTypeView::GeoJson => true,
        DataTypeView::Int64 => true,
        DataTypeView::Text => true,
        DataTypeView::TimestampWithTimeZone => true,
        DataTypeView::TimestampWithoutTimeZone => true,
        DataTypeView::Array(inner) => !(*inner is Array) && faithful(*inner),
        DataTypeView::Struct(fields) => faithful_fields(fields, fields.len()),
        _ => false,
    }
}

/// Whether each of the first `n` of `fields` is read back as it is: its name
/// can be quoted, its type is faithful, and if it is an array it is nullable,
/// as every repeated column is read back.
pub open spec fn faithful_fields(fields: Seq<StructFieldView>, n: nat) -> bool
    decreases fields, n,
{
    if n == 0 || n > fields.len() {
        true
    } else {
        let field = fields[n - 1];
        &&& faithful_fields(fields, (n - 1) as nat)
        &&& quotable(field.name)
        &&& faithful(field.data_type)
        &&& field.data_type is Array ==> field.is_nullable
    }
}

/// Whether `column` is read back as it is from the final table.
pub open spec fn faithful_column(column: ColumnView) -> bool {
    &&& quotable(column.name)
    &&& faithful(column.data_type)
    &&& column.data_type is Array ==> column.is_nullable
}

/// What the first `n` fields are read back as does not depend on the fields
/// after them.
pub proof fn lemma_portable_fields_prefix(a: Seq<BqColumnView>, b: Seq<BqColumnView>, n: nat)
    requires
        n <= a.len(),
        n <= b.len(),
        forall|i: int| 0 <= i < n ==> a[i] == b[i],
    ensures
        portable_fields(a, n) == portable_fields(b, n),
    decreases n,
{
    if n > 0 {
        lemma_portable_fields_prefix(a, b, (n - 1) as nat);
    }
}

/// Round trip of a column: a column that is faithful is mapped to a column of
/// the final table, and that column is read back as the column it came from,
/// with its name, type, nullability and comment.
pub proof fn lemma_column_round_trip(
    name: Seq<char>,
    description: Option<Seq<char>>,
    t: DataTypeView,
    nullable: bool,
)
    requires
        quotable(name),
        faithful(t),
        t is Array ==> nullable,
    ensures
        mapped(name, description, t, nullable, Usage::FinalTable) matches Ok(column) && portable(
            column,
        ) == (ColumnView { name, data_type: t, is_nullable: nullable, comment: description }),
    decreases t, 0nat,
{
    match t {
        DataTypeView::Array(inner) => {
            lemma_column_round_trip(name, description, *inner, nullable);
            let element = mapped(name, description, *inner, nullable, Usage::FinalTable)->Ok_0;
            assert(!(element.mode is Repeated));
            let column = mapped(name, description, t, nullable, Usage::FinalTable)->Ok_0;
            assert(portable_type(element) == *inner);
            assert(portable_type(column) == DataTypeView::Array(Box::new(*inner)));
        },
        DataTypeView::Struct(fields) => {
            lemma_fields_round_trip(fields, fields.len());
            assert(fields.take(fields.len() as int) =~= fields);
        },
        _ => {},
    }
}

/// Round trip of the fields of a struct: see [`lemma_column_round_trip`].
pub proof fn lemma_fields_round_trip(fields: Seq<StructFieldView>, n: nat)
    requires
        n <= fields.len(),
        faithful_fields(fields, n),
    ensures
        mapped_fields(fields, n, Usage::FinalTable) matches Ok(columns) && columns.len() == n
            && portable_fields(columns, n) == fields.take(n as int),
    decreases fields, n,
{
    if n == 0 {
        assert(fields.take(0) =~= Seq::empty());
    } else {
        lemma_fields_round_trip(fields, (n - 1) as nat);
        let field = fields[n - 1];
        lemma_column_round_trip(field.name, None, field.data_type, field.is_nullable);
        let before = mapped_fields(fields, (n - 1) as nat, Usage::FinalTable)->Ok_0;
        let column = mapped(
            field.name,
            None,
            field.data_type,
            field.is_nullable,
            Usage::FinalTable,
        )->Ok_0;
        let columns = before.push(column);
        lemma_portable_fields_prefix(before, columns, (n - 1) as nat);
        assert(portable(column).is_nullable == field.is_nullable);
        assert(portable_fields(columns, n) =~= fields.take(n as int));
    }
}

} // verus!
