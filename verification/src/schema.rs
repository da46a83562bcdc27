//! The portable schema: tables, columns and a closed set of logical types that
//! every driver maps to its own.

use vstd::prelude::*;
use vstd::string::*;

use crate::error::{TransferError, TransferErrorView};
use crate::text::{copy_text, text_model};

verus! {

/// A logical type. Arrays and structs nest to any finite depth.
#[derive(Debug)]
pub enum DataType {
    Bool,
    Date,
    Decimal,
    Float32,
    Float64,
    GeoJson,
    Int16,
    Int32,
    Int64,
    Json,
    Text,
    TimestampWithTimeZone,
    TimestampWithoutTimeZone,
    Uuid,
    /// A sequence of values of one type.
    Array(Box<DataType>),
    /// A record of named fields.
    Struct(Vec<StructField>),
}

/// A named field of a struct type.
#[derive(Debug)]
pub struct StructField {
    pub name: String,
    pub data_type: DataType,
    pub is_nullable: bool,
}

/// The mathematical value of a [`DataType`].
pub enum DataTypeView {
    Bool,
    Date,
    Decimal,
    Float32,
    Float64,
    GeoJson,
    Int16,
    Int32,
    Int64,
    Json,
    Text,
    TimestampWithTimeZone,
    TimestampWithoutTimeZone,
    Uuid,
    Array(Box<DataTypeView>),
    Struct(Seq<StructFieldView>),
}

/// The mathematical value of a [`StructField`].
pub struct StructFieldView {
    pub name: Seq<char>,
    pub data_type: DataTypeView,
    pub is_nullable: bool,
}

impl DataType {
    /// The value of this type, by recursion on its structure.
    pub open spec fn model(self) -> DataTypeView
        decreases self,
    {
        match self {
            DataType::Bool => DataTypeView::Bool,
            DataType::Date => DataTypeView::Date,
            DataType::Decimal => DataTypeView::Decimal,
            DataType::Float32 => DataTypeView::Float32,
            DataType::Float64 => DataTypeView::Float64,
            DataType::GeoJson => DataTypeView::GeoJson,
            DataType::Int16 => DataTypeView::Int16,
            DataType::Int32 => DataTypeView::Int32,
            DataType::Int64 => DataTypeView::Int64,
            DataType::Json => DataTypeView::Json,
            DataType::Text => DataTypeView::Text,
            DataType::TimestampWithTimeZone => DataTypeView::TimestampWithTimeZone,
            DataType::TimestampWithoutTimeZone => DataTypeView::TimestampWithoutTimeZone,
            DataType::Uuid => DataTypeView::Uuid,
            DataType::Array(inner) => DataTypeView::Array(Box::new(inner.model())),
            DataType::Struct(fields) => DataTypeView::Struct(
                Seq::new(fields.len() as nat, |i: int| field_model(fields, i)),
            ),
        }
    }
}

/// The value of the field at `i`, where there is one.
pub open spec fn field_model(fields: Vec<StructField>, i: int) -> StructFieldView
    decreases fields, 0int,
{
    if 0 <= i < fields.len() {
        StructFieldView {
            name: fields[i].name@,
            data_type: fields[i].data_type.model(),
            is_nullable: fields[i].is_nullable,
        }
    } else {
        arbitrary()
    }
}

impl View for DataType {
    type V = DataTypeView;

    open spec fn view(&self) -> DataTypeView {
        self.model()
    }
}

impl View for StructField {
    type V = StructFieldView;

    open spec fn view(&self) -> StructFieldView {
        StructFieldView {
            name: self.name@,
            data_type: self.data_type.model(),
            is_nullable: self.is_nullable,
        }
    }
}

impl DataType {
    /// A copy of this type.
    pub fn duplicate(&self) -> (r: DataType)
        ensures
            r@ == self@,
        decreases self,
    {
        match self {
            DataType::Bool => DataType::Bool,
            DataType::Date => DataType::Date,
            DataType::Decimal => DataType::Decimal,
            DataType::Float32 => DataType::Float32,
            DataType::Float64 => DataType::Float64,
            DataType::GeoJson => DataType::GeoJson,
            DataType::Int16 => DataType::Int16,
            DataType::Int32 => DataType::Int32,
            DataType::Int64 => DataType::Int64,
            DataType::Json => DataType::Json,
            DataType::Text => DataType::Text,
            DataType::TimestampWithTimeZone => DataType::TimestampWithTimeZone,
            DataType::TimestampWithoutTimeZone => DataType::TimestampWithoutTimeZone,
            DataType::Uuid => DataType::Uuid,
            DataType::Array(inner) => {
                let copy = DataType::duplicate(inner);
                DataType::Array(Box::new(copy))
            },
            DataType::Struct(fields) => {
                let mut copies: Vec<StructField> = Vec::new();
                let mut i: usize = 0;
                while i < fields.len()
                    invariant
                        i <= fields.len(),
                        copies.len() == i,
                        *self == DataType::Struct(*fields),
                        forall|j: int| 0 <= j < i ==> copies[j]@ == fields[j]@,
                    decreases fields.len() - i,
                {
                    let field = &fields[i];
                    proof {
                        vstd::std_specs::vec::axiom_vec_index_decreases(*fields, i as int);
                        assert(decreases_to!(*self => self->Struct_0));
                    }
                    copies.push(
                        StructField {
                            name: field.name.clone(),
                            data_type: field.data_type.duplicate(),
                            is_nullable: field.is_nullable,
                        },
                    );
                    i += 1;
                }
                proof {
                    lemma_struct_model(*fields);
                    lemma_struct_model(copies);
                    assert(field_models(copies@) =~= field_models(fields@));
                }
                DataType::Struct(copies)
            },
        }
    }
}

impl Clone for DataType {
    fn clone(&self) -> (r: Self)
        ensures
            r@ == self@,
    {
        self.duplicate()
    }
}

impl Clone for StructField {
    fn clone(&self) -> (r: Self)
        ensures
            r@ == self@,
    {
        StructField {
            name: self.name.clone(),
            data_type: self.data_type.duplicate(),
            is_nullable: self.is_nullable,
        }
    }
}

/// What a struct type holds is the values of its fields, in order.
pub proof fn lemma_struct_model(fields: Vec<StructField>)
    ensures
        DataType::Struct(fields)@ == DataTypeView::Struct(field_models(fields@)),
{
    let direct = DataType::Struct(fields).model()->Struct_0;
    assert forall|i: int| 0 <= i < fields.len() implies direct[i] == fields@[i]@ by {
        assert(direct[i] == field_model(fields, i));
    }
    assert(direct =~= field_models(fields@));
}

/// The values of `fields`, in order.
pub open spec fn field_models(fields: Seq<StructField>) -> Seq<StructFieldView> {
    Seq::new(fields.len(), |i: int| fields[i]@)
}

/// A column of a table.
#[derive(Debug)]
pub struct Column {
    pub name: String,
    pub data_type: DataType,
    pub is_nullable: bool,
    pub comment: Option<String>,
}

/// The mathematical value of a [`Column`].
pub struct ColumnView {
    pub name: Seq<char>,
    pub data_type: DataTypeView,
    pub is_nullable: bool,
    pub comment: Option<Seq<char>>,
}

impl View for Column {
    type V = ColumnView;

    open spec fn view(&self) -> ColumnView {
        ColumnView {
            name: self.name@,
            data_type: self.data_type@,
            is_nullable: self.is_nullable,
            comment: text_model(self.comment),
        }
    }
}

impl Clone for Column {
    fn clone(&self) -> (r: Self)
        ensures
            r@ == self@,
    {
        Column {
            name: self.name.clone(),
            data_type: self.data_type.duplicate(),
            is_nullable: self.is_nullable,
            comment: copy_text(&self.comment),
        }
    }
}

/// The values of `columns`, in order.
pub open spec fn column_models(columns: Seq<Column>) -> Seq<ColumnView> {
    Seq::new(columns.len(), |i: int| columns[i]@)
}

/// No two of `columns` share a name.
pub open spec fn distinct_names(columns: Seq<ColumnView>) -> bool {
    forall|i: int, j: int|
        0 <= i < j < columns.len() ==> (#[trigger] columns[i]).name != (#[trigger] columns[j]).name
}

/// The column at `j` has the name of one before it.
pub open spec fn repeats_earlier(columns: Seq<ColumnView>, j: int) -> bool {
    exists|i: int| 0 <= i < j && (#[trigger] columns[i]).name == columns[j].name
}

/// Some column of `columns` is named `name`.
pub open spec fn names_column(columns: Seq<ColumnView>, name: Seq<char>) -> bool {
    exists|i: int| 0 <= i < columns.len() && (#[trigger] columns[i]).name == name
}

/// A table: its columns in the order of the CSV fields, and a name if it has one.
#[derive(Debug)]
pub struct Table {
    name: Option<String>,
    columns: Vec<Column>,
}

/// The mathematical value of a [`Table`].
pub struct TableView {
    pub name: Option<Seq<char>>,
    pub columns: Seq<ColumnView>,
}

impl View for Table {
    type V = TableView;

    closed spec fn view(&self) -> TableView {
        TableView { name: text_model(self.name), columns: column_models(self.columns@) }
    }
}

impl Clone for Table {
    fn clone(&self) -> (r: Self)
        ensures
            r@ == self@,
    {
        let mut columns: Vec<Column> = Vec::new();
        let mut i: usize = 0;
        while i < self.columns.len()
            invariant
                i <= self.columns.len(),
                columns.len() == i,
                forall|h: int| 0 <= h < i ==> columns[h]@ == self.columns[h]@,
            decreases self.columns.len() - i,
        {
            columns.push(self.columns[i].clone());
            i += 1;
        }
        assert(column_models(columns@) =~= column_models(self.columns@));
        Table { name: copy_text(&self.name), columns }
    }
}

impl Table {
    /// What holds of every table: no two columns share a name.
    pub open spec fn wf(&self) -> bool {
        distinct_names(self@.columns)
    }

    /// The table with these columns, unless two of them share a name: then the
    /// failure names the first column that repeats an earlier one.
    pub fn new(name: Option<String>, columns: Vec<Column>) -> (r: Result<Table, TransferError>)
        ensures
            r is Ok <==> distinct_names(column_models(columns@)),
            r matches Ok(t) ==> t.wf() && t@ == (TableView {
                name: text_model(name),
                columns: column_models(columns@),
            }),
            r matches Err(e) ==> exists|j: int|
                0 <= j < columns.len() && #[trigger] repeats_earlier(column_models(columns@), j)
                    && (forall|k: int| 0 <= k < j ==> !repeats_earlier(column_models(columns@), k))
                    && e@ == TransferErrorView::DuplicateColumn(columns[j].name@),
    {
        let ghost models = column_models(columns@);
        let mut j: usize = 0;
        while j < columns.len()
            invariant
                j <= columns.len(),
                models == column_models(columns@),
                forall|k: int| 0 <= k < j ==> !repeats_earlier(models, k),
            decreases columns.len() - j,
        {
            let mut i: usize = 0;
            while i < j
                invariant
                    i <= j < columns.len(),
                    models == column_models(columns@),
                    forall|k: int| 0 <= k < j ==> !repeats_earlier(models, k),
                    forall|h: int|
                        0 <= h < i ==> (#[trigger] models[h]).name != models[j as int].name,
                decreases j - i,
            {
                if columns[i].name == columns[j].name {
                    assert(models[i as int].name == models[j as int].name);
                    assert(repeats_earlier(models, j as int));
                    return Err(TransferError::DuplicateColumn(columns[j].name.clone()));
                }
                i += 1;
            }
            j += 1;
        }
        assert(distinct_names(models)) by {
            assert forall|i: int, j: int| 0 <= i < j < models.len() implies (
            #[trigger] models[i]).name != (#[trigger] models[j]).name by {
                assert(!repeats_earlier(models, j));
            }
        }
        Ok(Table { name, columns })
    }

    /// The name of the table, if it has one.
    pub fn name(&self) -> (r: &Option<String>)
        ensures
            text_model(*r) == self@.name,
    {
        &self.name
    }

    /// The columns, in order.
    pub fn columns(&self) -> (r: &Vec<Column>)
        ensures
            column_models(r@) == self@.columns,
    {
        &self.columns
    }

    /// Whether a column of the table is named `name`.
    pub fn has_column(&self, name: &str) -> (r: bool)
        ensures
            r == names_column(self@.columns, name@),
    {
        let ghost models = self@.columns;
        let mut i: usize = 0;
        while i < self.columns.len()
            invariant
                i <= self.columns.len(),
                models == column_models(self.columns@),
                forall|h: int| 0 <= h < i ==> (#[trigger] models[h]).name != name@,
            decreases self.columns.len() - i,
        {
            if crate::text::same_text(self.columns[i].name.as_str(), name) {
                assert(models[i as int].name == name@);
                return true;
            }
            i += 1;
        }
        false
    }
}

} // verus!
