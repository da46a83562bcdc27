//! What can go wrong, and how it is reported.

use vstd::prelude::*;
use vstd::string::*;

use crate::text::{join2, join3};

verus! {

/// The rule of a driver that a locator's URL breaks.
#[derive(Clone, Copy, Debug, PartialEq, Eq, Structural)]
pub enum LocatorRule {
    /// The URL does not begin with the driver's scheme.
    Scheme,
    /// The scheme is not followed by `//`.
    Authority,
    /// The URL names a directory and so must end with `/`.
    TrailingSlash,
}

/// The user option that a driver does not support.
#[derive(Clone, Copy, Debug, PartialEq, Eq, Structural)]
pub enum UnsupportedOption {
    /// Driver arguments for the source.
    FromArgs,
    /// A `WHERE` clause for the source.
    Where,
    /// Driver arguments for the destination.
    ToArgs,
    /// The policy for a destination that already exists.
    IfExists,
}

/// The six kinds of failure.
#[derive(Clone, Copy, Debug, PartialEq, Eq, Structural)]
pub enum ErrorKind {
    Parse,
    UnsupportedArgument,
    IncompatibleTransfer,
    Schema,
    Driver,
    Cancelled,
}

/// A failure of the library, with the text it is about.
#[derive(Clone, Debug)]
pub enum TransferError {
    /// No driver is registered for the scheme of this URL.
    UnsupportedScheme(String),
    /// This URL breaks a rule of the driver that its scheme selects.
    InvalidLocator(String, LocatorRule),
    /// A driver for this scheme is registered already.
    DuplicateScheme(String),
    /// The driver does not support an option that the user gave.
    UnsupportedArgument(UnsupportedOption),
    /// No transfer path leads from the first URL to the second.
    IncompatibleTransfer(String, String),
    /// The type of the column with this name has no counterpart in the driver.
    NoRepresentation(String),
    /// Two columns of a table have this name.
    DuplicateColumn(String),
    /// A policy refers to a column with this name, and the table has none.
    UnknownColumn(String),
    /// This name cannot be quoted as an identifier.
    UnquotableName(String),
    /// The schema was mapped for another usage than the operation needs.
    WrongUsage,
    /// The schema could not be written as JSON.
    Unserializable,
    /// A backend failed; this is its message.
    Driver(String),
    /// The transfer was cancelled.
    Cancelled,
}

/// The mathematical value of a [`TransferError`].
pub enum TransferErrorView {
    UnsupportedScheme(Seq<char>),
    InvalidLocator(Seq<char>, LocatorRule),
    DuplicateScheme(Seq<char>),
    UnsupportedArgument(UnsupportedOption),
    IncompatibleTransfer(Seq<char>, Seq<char>),
    NoRepresentation(Seq<char>),
    DuplicateColumn(Seq<char>),
    UnknownColumn(Seq<char>),
    UnquotableName(Seq<char>),
    WrongUsage,
    Unserializable,
    Driver(Seq<char>),
    Cancelled,
}

impl View for TransferError {
    type V = TransferErrorView;

    open spec fn view(&self) -> TransferErrorView {
        match self {
            TransferError::UnsupportedScheme(url) => TransferErrorView::UnsupportedScheme(url@),
            TransferError::InvalidLocator(url, rule) => TransferErrorView::InvalidLocator(
                url@,
                *rule,
            ),
            TransferError::DuplicateScheme(scheme) => TransferErrorView::DuplicateScheme(scheme@),
            TransferError::UnsupportedArgument(option) => TransferErrorView::UnsupportedArgument(
                *option,
            ),
            TransferError::IncompatibleTransfer(from, to) => {
                TransferErrorView::IncompatibleTransfer(from@, to@)
            },
            TransferError::NoRepresentation(column) => TransferErrorView::NoRepresentation(column@),
            TransferError::DuplicateColumn(column) => TransferErrorView::DuplicateColumn(column@),
            TransferError::UnknownColumn(column) => TransferErrorView::UnknownColumn(column@),
            TransferError::UnquotableName(name) => TransferErrorView::UnquotableName(name@),
            TransferError::WrongUsage => TransferErrorView::WrongUsage,
            TransferError::Unserializable => TransferErrorView::Unserializable,
            TransferError::Driver(message) => TransferErrorView::Driver(message@),
            TransferError::Cancelled => TransferErrorView::Cancelled,
        }
    }
}

impl UnsupportedOption {
    /// The sentence that names the option.
    pub open spec fn sentence(self) -> Seq<char> {
        match self {
            UnsupportedOption::FromArgs => "this data source does not support --from-args"@,
            UnsupportedOption::Where => "this data source does not support --where"@,
            UnsupportedOption::ToArgs => "this data destination does not support --to-args"@,
            UnsupportedOption::IfExists => {
                "this data destination does not support this --if-exists"@
            },
        }
    }

    pub fn message(&self) -> (r: &'static str)
        ensures
            r@ == self.sentence(),
    {
        match self {
            UnsupportedOption::FromArgs => "this data source does not support --from-args",
            UnsupportedOption::Where => "this data source does not support --where",
            UnsupportedOption::ToArgs => "this data destination does not support --to-args",
            UnsupportedOption::IfExists => {
                "this data destination does not support this --if-exists"
            },
        }
    }
}

impl TransferErrorView {
    /// The kind that this failure belongs to.
    pub open spec fn kind(self) -> ErrorKind {
        match self {
            TransferErrorView::UnsupportedScheme(_) => ErrorKind::Parse,
            TransferErrorView::InvalidLocator(_, _) => ErrorKind::Parse,
            TransferErrorView::DuplicateScheme(_) => ErrorKind::Parse,
            TransferErrorView::UnsupportedArgument(_) => ErrorKind::UnsupportedArgument,
            TransferErrorView::IncompatibleTransfer(_, _) => ErrorKind::IncompatibleTransfer,
            TransferErrorView::NoRepresentation(_) => ErrorKind::Schema,
            TransferErrorView::DuplicateColumn(_) => ErrorKind::Schema,
            TransferErrorView::UnknownColumn(_) => ErrorKind::Schema,
            TransferErrorView::UnquotableName(_) => ErrorKind::Schema,
            TransferErrorView::WrongUsage => ErrorKind::Schema,
            TransferErrorView::Unserializable => ErrorKind::Schema,
            TransferErrorView::Driver(_) => ErrorKind::Driver,
            TransferErrorView::Cancelled => ErrorKind::Cancelled,
        }
    }

    /// The text shown to the user.
    pub open spec fn message(self) -> Seq<char> {
        match self {
            TransferErrorView::UnsupportedScheme(url) => "unsupported scheme: "@ + url,
            TransferErrorView::InvalidLocator(url, rule) => match rule {
                LocatorRule::Scheme => "invalid locator: expected "@ + url
                    + " to begin with gs://"@,
                LocatorRule::Authority => "invalid locator: "@ + url + " must start with gs://"@,
                LocatorRule::TrailingSlash => "invalid locator: "@ + url + " must end with a '/'"@,
            },
            TransferErrorView::DuplicateScheme(scheme) => "duplicate scheme: "@ + scheme,
            TransferErrorView::UnsupportedArgument(option) => option.sentence(),
            TransferErrorView::IncompatibleTransfer(from, to) => "no transfer path from "@ + from
                + " to "@ + to,
            TransferErrorView::NoRepresentation(column) => {
                "no representation for the type of column "@ + column
            },
            TransferErrorView::DuplicateColumn(column) => "duplicate column "@ + column,
            TransferErrorView::UnknownColumn(column) => "unknown column "@ + column,
            TransferErrorView::UnquotableName(name) => "cannot quote the name "@ + name,
            TransferErrorView::WrongUsage => "the schema was not mapped for the final table"@,
            TransferErrorView::Unserializable => "the schema cannot be written as JSON"@,
            TransferErrorView::Driver(message) => message,
            TransferErrorView::Cancelled => "cancelled"@,
        }
    }
}

/// The exit code of the front end for each kind of failure: 1 for what the
/// user got wrong, 2 for what went wrong during the transfer, 130 for a
/// cancelled transfer.
pub open spec fn exit_code_of(kind: ErrorKind) -> u8 {
    match kind {
        ErrorKind::Parse => 1,
        ErrorKind::UnsupportedArgument => 1,
        ErrorKind::IncompatibleTransfer => 2,
        ErrorKind::Schema => 2,
        ErrorKind::Driver => 2,
        ErrorKind::Cancelled => 130,
    }
}

impl TransferError {
    pub fn kind(&self) -> (r: ErrorKind)
        ensures
            r == self@.kind(),
    {
        match self {
            TransferError::UnsupportedScheme(_) => ErrorKind::Parse,
            TransferError::InvalidLocator(_, _) => ErrorKind::Parse,
            TransferError::DuplicateScheme(_) => ErrorKind::Parse,
            TransferError::UnsupportedArgument(_) => ErrorKind::UnsupportedArgument,
            TransferError::IncompatibleTransfer(_, _) => ErrorKind::IncompatibleTransfer,
            TransferError::NoRepresentation(_) => ErrorKind::Schema,
            TransferError::DuplicateColumn(_) => ErrorKind::Schema,
            TransferError::UnknownColumn(_) => ErrorKind::Schema,
            TransferError::UnquotableName(_) => ErrorKind::Schema,
            TransferError::WrongUsage => ErrorKind::Schema,
            TransferError::Unserializable => ErrorKind::Schema,
            TransferError::Driver(_) => ErrorKind::Driver,
            TransferError::Cancelled => ErrorKind::Cancelled,
        }
    }

    pub fn exit_code(&self) -> (r: u8)
        ensures
            r == exit_code_of(self@.kind()),
    {
        match self.kind() {
            ErrorKind::Parse => 1,
            ErrorKind::UnsupportedArgument => 1,
            ErrorKind::IncompatibleTransfer => 2,
            ErrorKind::Schema => 2,
            ErrorKind::Driver => 2,
            ErrorKind::Cancelled => 130,
        }
    }

    pub fn message(&self) -> (r: String)
        ensures
            r@ == self@.message(),
    {
        match self {
            TransferError::UnsupportedScheme(url) => join2("unsupported scheme: ", url.as_str()),
            TransferError::InvalidLocator(url, rule) => match rule {
                LocatorRule::Scheme => join3(
                    "invalid locator: expected ",
                    url.as_str(),
                    " to begin with gs://",
                ),
                LocatorRule::Authority => join3(
                    "invalid locator: ",
                    url.as_str(),
                    " must start with gs://",
                ),
                LocatorRule::TrailingSlash => join3(
                    "invalid locator: ",
                    url.as_str(),
                    " must end with a '/'",
                ),
            },
            TransferError::DuplicateScheme(scheme) => join2("duplicate scheme: ", scheme.as_str()),
            TransferError::UnsupportedArgument(option) => String::from_str(option.message()),
            TransferError::IncompatibleTransfer(from, to) => {
                let mut s = join3("no transfer path from ", from.as_str(), " to ");
                s.append(to.as_str());
                s
            },
            TransferError::NoRepresentation(column) => join2(
                "no representation for the type of column ",
                column.as_str(),
            ),
            TransferError::DuplicateColumn(column) => join2("duplicate column ", column.as_str()),
            TransferError::UnknownColumn(column) => join2("unknown column ", column.as_str()),
            TransferError::UnquotableName(name) => join2("cannot quote the name ", name.as_str()),
            TransferError::WrongUsage => String::from_str(
                "the schema was not mapped for the final table",
            ),
            TransferError::Unserializable => String::from_str(
                "the schema cannot be written as JSON",
            ),
            TransferError::Driver(message) => message.clone(),
            TransferError::Cancelled => String::from_str("cancelled"),
        }
    }
}

} // verus!
