//! What a destination does when the table it is asked to write exists already.

use vstd::prelude::*;
use vstd::string::*;

use crate::error::{TransferError, TransferErrorView, UnsupportedOption};
use crate::features::{bits_contain, IfExistsFeatures};
use crate::schema::{names_column, Table};
use crate::text::{copy_strings, texts};

verus! {

/// The policy for a destination that exists already.
#[derive(Debug)]
pub enum IfExists {
    /// Fail.
    Error,
    /// Add the new rows to the old ones.
    Append,
    /// Replace the old rows.
    Overwrite,
    /// Update the rows that agree with a new row on these columns, insert the rest.
    Upsert(Vec<String>),
}

/// The mathematical value of an [`IfExists`].
pub enum IfExistsView {
    Error,
    Append,
    Overwrite,
    Upsert(Seq<Seq<char>>),
}

impl View for IfExists {
    type V = IfExistsView;

    open spec fn view(&self) -> IfExistsView {
        match self {
            IfExists::Error => IfExistsView::Error,
            IfExists::Append => IfExistsView::Append,
            IfExists::Overwrite => IfExistsView::Overwrite,
            IfExists::Upsert(keys) => IfExistsView::Upsert(texts(keys@)),
        }
    }
}

impl Clone for IfExists {
    fn clone(&self) -> (r: Self)
        ensures
            r@ == self@,
    {
        match self {
            IfExists::Error => IfExists::Error,
            IfExists::Append => IfExists::Append,
            IfExists::Overwrite => IfExists::Overwrite,
            IfExists::Upsert(keys) => IfExists::Upsert(copy_strings(keys)),
        }
    }
}

impl IfExistsView {
    /// The flag that a driver must declare to follow this policy.
    pub open spec fn feature(self) -> u8 {
        match self {
            IfExistsView::Error => IfExistsFeatures::ERROR,
            IfExistsView::Append => IfExistsFeatures::APPEND,
            IfExistsView::Overwrite => IfExistsFeatures::OVERWRITE,
            IfExistsView::Upsert(_) => IfExistsFeatures::UPSERT,
        }
    }

    /// The columns that the policy refers to.
    pub open spec fn keys(self) -> Seq<Seq<char>> {
        match self {
            IfExistsView::Upsert(keys) => keys,
            _ => Seq::empty(),
        }
    }

    /// The key at `i` is no column of `table`.
    pub open spec fn missing(self, columns: Seq<crate::schema::ColumnView>, i: int) -> bool {
        0 <= i < self.keys().len() && !names_column(columns, self.keys()[i])
    }
}

impl Default for IfExists {
    /// Unless told otherwise, a transfer fails on a destination that exists.
    fn default() -> (r: Self)
        ensures
            r@ == IfExistsView::Error,
    {
        IfExists::Error
    }
}

impl IfExists {
    /// The flag that a driver must declare to follow this policy.
    pub fn to_feature(&self) -> (r: IfExistsFeatures)
        ensures
            r@ == self@.feature(),
    {
        match self {
            IfExists::Error => IfExistsFeatures::error(),
            IfExists::Append => IfExistsFeatures::append(),
            IfExists::Overwrite => IfExistsFeatures::overwrite(),
            IfExists::Upsert(_) => IfExistsFeatures::upsert(),
        }
    }

    /// Succeeds exactly when `features` holds the flag of this policy.
    pub fn verify(&self, features: IfExistsFeatures) -> (r: Result<(), TransferError>)
        ensures
            r is Ok <==> bits_contain(features@, self@.feature()),
            r matches Err(e) ==> e@ == TransferErrorView::UnsupportedArgument(
                UnsupportedOption::IfExists,
            ),
    {
        if features.contains(self.to_feature()) {
            Ok(())
        } else {
            Err(TransferError::UnsupportedArgument(UnsupportedOption::IfExists))
        }
    }

    /// Succeeds exactly when every column that the policy refers to is a column
    /// of `table`; otherwise the failure names the first that is not.
    pub fn check_columns(&self, table: &Table) -> (r: Result<(), TransferError>)
        ensures
            r is Ok <==> forall|i: int| !self@.missing(table@.columns, i),
            r matches Err(e) ==> exists|i: int| #[trigger]
                self@.missing(table@.columns, i) && (forall|h: int|
                    0 <= h < i ==> !self@.missing(table@.columns, h)) && e@
                    == TransferErrorView::UnknownColumn(self@.keys()[i]),
    {
        match self {
            IfExists::Upsert(keys) => {
                let mut i: usize = 0;
                while i < keys.len()
                    invariant
                        i <= keys.len(),
                        self@ == IfExistsView::Upsert(texts(keys@)),
                        forall|h: int| 0 <= h < i ==> !self@.missing(table@.columns, h),
                    decreases keys.len() - i,
                {
                    if !table.has_column(keys[i].as_str()) {
                        assert(self@.missing(table@.columns, i as int));
                        return Err(TransferError::UnknownColumn(keys[i].clone()));
                    }
                    i += 1;
                }
                Ok(())
            },
            _ => Ok(()),
        }
    }
}

} // verus!
