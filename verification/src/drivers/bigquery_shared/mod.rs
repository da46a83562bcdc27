//! The warehouse's side of a schema: how a portable table is declared there,
//! and the SQL that brings rows from a CSV landing table into their final types.

use vstd::prelude::*;
use vstd::string::*;

use crate::error::{TransferError, TransferErrorView};
use crate::text::{contains_char, join3};

pub mod column;
pub mod json;
pub mod table;

verus! {

/// What a mapped schema is for.
#[derive(Clone, Copy, Debug, PartialEq, Eq, Structural)]
pub enum Usage {
    /// A landing table that is loaded from CSV: what CSV cannot hold in its
    /// final type is kept as text.
    CsvLoad,
    /// The table that the rows end up in.
    FinalTable,
}

/// The type of a warehouse column, its mode apart.
#[derive(Clone, Copy, Debug, PartialEq, Eq, Structural)]
pub enum BqType {
    Bool,
    Date,
    Datetime,
    Float64,
    Geography,
    Int64,
    Numeric,
    /// A record; the column's fields say what it holds.
    Record,
    String,
    Timestamp,
}

/// Whether a warehouse column may be null, or holds an array.
#[derive(Clone, Copy, Debug, PartialEq, Eq, Structural)]
pub enum Mode {
    /// The column is never null.
    Required,
    /// The column may be null.
    Nullable,
    /// The column holds an array of its type.
    Repeated,
}

impl BqType {
    /// The name of the type in a schema file.
    pub open spec fn spec_name(self) -> Seq<char> {
        match self {
            BqType::Bool => "BOOL"@,
            BqType::Date => "DATE"@,
            BqType::Datetime => "DATETIME"@,
            BqType::Float64 => "FLOAT64"@,
            BqType::Geography => "GEOGRAPHY"@,
            BqType::Int64 => "INT64"@,
            BqType::Numeric => "NUMERIC"@,
            BqType::Record => "RECORD"@,
            BqType::String => "STRING"@,
            BqType::Timestamp => "TIMESTAMP"@,
        }
    }

    /// The name of the type in a schema file.
    pub fn name(&self) -> (r: &'static str)
        ensures
            r@ == self.spec_name(),
    {
        match self {
            BqType::Bool => "BOOL",
            BqType::Date => "DATE",
            BqType::Datetime => "DATETIME",
            BqType::Float64 => "FLOAT64",
            BqType::Geography => "GEOGRAPHY",
            BqType::Int64 => "INT64",
            BqType::Numeric => "NUMERIC",
            BqType::Record => "RECORD",
            BqType::String => "STRING",
            BqType::Timestamp => "TIMESTAMP",
        }
    }
}

impl Mode {
    /// The name of the mode in a schema file.
    pub open spec fn spec_name(self) -> Seq<char> {
        match self {
            Mode::Required => "REQUIRED"@,
            Mode::Nullable => "NULLABLE"@,
            Mode::Repeated => "REPEATED"@,
        }
    }

    /// The name of the mode in a schema file.
    pub fn name(&self) -> (r: &'static str)
        ensures
            r@ == self.spec_name(),
    {
        match self {
            Mode::Required => "REQUIRED",
            Mode::Nullable => "NULLABLE",
            Mode::Repeated => "REPEATED",
        }
    }
}

/// The decimal digit `d`.
pub open spec fn digit(d: nat) -> Seq<char> {
    if d == 0 {
        "0"@
    } else if d == 1 {
        "1"@
    } else if d == 2 {
        "2"@
    } else if d == 3 {
        "3"@
    } else if d == 4 {
        "4"@
    } else if d == 5 {
        "5"@
    } else if d == 6 {
        "6"@
    } else if d == 7 {
        "7"@
    } else if d == 8 {
        "8"@
    } else {
        "9"@
    }
}

/// The number `n` in decimal, without leading zeros.
pub open spec fn decimal(n: nat) -> Seq<char>
    decreases n,
{
    if n < 10 {
        digit(n)
    } else {
        decimal(n / 10) + digit(n % 10)
    }
}

/// The decimal digit `d`.
fn digit_text(d: usize) -> (r: &'static str)
    requires
        d < 10,
    ensures
        r@ == digit(d as nat),
{
    if d == 0 {
        "0"
    } else if d == 1 {
        "1"
    } else if d == 2 {
        "2"
    } else if d == 3 {
        "3"
    } else if d == 4 {
        "4"
    } else if d == 5 {
        "5"
    } else if d == 6 {
        "6"
    } else if d == 7 {
        "7"
    } else if d == 8 {
        "8"
    } else {
        "9"
    }
}

/// The number `n` in decimal, without leading zeros.
pub fn decimal_text(n: usize) -> (r: String)
    ensures
        r@ == decimal(n as nat),
    decreases n,
{
    if n < 10 {
        String::from_str(digit_text(n))
    } else {
        let mut text = decimal_text(n / 10);
        text.append(digit_text(n % 10));
        text
    }
}

/// Whether `name` can stand between backticks: it holds none itself.
pub open spec fn quotable(name: Seq<char>) -> bool {
    !name.contains('`')
}

/// `name` as an identifier in SQL: between backticks.
pub open spec fn quoted(name: Seq<char>) -> Seq<char> {
    "`"@ + name + "`"@
}

/// `name`, which holds no backtick, as an identifier in SQL.
pub(crate) fn quote_known(name: &str) -> (r: String)
    requires
        quotable(name@),
    ensures
        r@ == quoted(name@),
{
    join3("`", name, "`")
}

/// `name` as an identifier in SQL, unless it holds a backtick.
pub fn quote_ident(name: &str) -> (r: Result<String, TransferError>)
    ensures
        match r {
            Ok(text) => quotable(name@) && text@ == quoted(name@),
            Err(e) => !quotable(name@) && e@ == TransferErrorView::UnquotableName(name@),
        },
{
    if contains_char(name, '`') {
        Err(TransferError::UnquotableName(String::from_str(name)))
    } else {
        Ok(join3("`", name, "`"))
    }
}

} // verus!
