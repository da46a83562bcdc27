//! The options of a transfer. Each bundle starts out unverified, as the user
//! gave it, and becomes verified once it has been held against the features of
//! the driver that will read it.

use std::marker::PhantomData;
use vstd::prelude::*;
use vstd::string::*;

use crate::error::{TransferError, TransferErrorView, UnsupportedOption};
use crate::features::{
    bits_contain, lemma_contains_empty, lemma_contains_union, DestinationArgumentsFeatures,
    Features, SourceArgumentsFeatures,
};
use crate::if_exists::{IfExists, IfExistsView};
use crate::schema::{Table, TableView};
use crate::text::{copy_strings, copy_text, same_text, starts_with, text_model, texts};

verus! {

/// Marks whether a bundle was held against a driver's features.
pub trait ArgumentState: Clone {}

/// The state of a bundle that no driver has checked yet.
#[derive(Clone, Debug)]
pub struct Unverified;

impl ArgumentState for Unverified {}

/// The state of a bundle that holds only what its driver supports.
#[derive(Clone, Debug)]
pub struct Verified;

impl ArgumentState for Verified {}

/// Options that a driver alone gives a meaning to: keys with their values, in
/// the order in which they were given.
#[derive(Debug)]
pub struct DriverArguments {
    args: Vec<(String, String)>,
}

/// The keys and values of `pairs`, in order.
pub open spec fn pair_texts(pairs: Seq<(String, String)>) -> Seq<(Seq<char>, Seq<char>)> {
    Seq::new(pairs.len(), |i: int| (pairs[i].0@, pairs[i].1@))
}

impl View for DriverArguments {
    type V = Seq<(Seq<char>, Seq<char>)>;

    closed spec fn view(&self) -> Seq<(Seq<char>, Seq<char>)> {
        pair_texts(self.args@)
    }
}

/// The value that `pairs` gives to `key`: that of the last pair with this key.
pub open spec fn value_of(pairs: Seq<(Seq<char>, Seq<char>)>, key: Seq<char>) -> Option<Seq<char>>
    decreases pairs.len(),
{
    if pairs.len() == 0 {
        None
    } else if pairs.last().0 == key {
        Some(pairs.last().1)
    } else {
        value_of(pairs.drop_last(), key)
    }
}

impl Clone for DriverArguments {
    fn clone(&self) -> (r: Self)
        ensures
            r@ == self@,
    {
        let mut args: Vec<(String, String)> = Vec::new();
        let mut i: usize = 0;
        while i < self.args.len()
            invariant
                i <= self.args.len(),
                args.len() == i,
                forall|h: int|
                    0 <= h < i ==> args[h].0@ == self.args[h].0@ && args[h].1@ == self.args[h].1@,
            decreases self.args.len() - i,
        {
            args.push((self.args[i].0.clone(), self.args[i].1.clone()));
            i += 1;
        }
        DriverArguments { args }
    }
}

impl Default for DriverArguments {
    fn default() -> (r: Self)
        ensures
            r@.len() == 0,
    {
        DriverArguments { args: Vec::new() }
    }
}

impl DriverArguments {
    /// The arguments that `pairs` lists.
    pub fn from_pairs(pairs: Vec<(String, String)>) -> (r: Self)
        ensures
            r@ == pair_texts(pairs@),
    {
        DriverArguments { args: pairs }
    }

    /// Whether no argument was given.
    pub fn is_empty(&self) -> (r: bool)
        ensures
            r == (self@.len() == 0),
    {
        self.args.len() == 0
    }

    /// The value given to `key`, if any; where the key was given more than
    /// once, the last value.
    pub fn get(&self, key: &str) -> (r: Option<&String>)
        ensures
            match r {
                Some(value) => value_of(self@, key@) == Some(value@),
                None => value_of(self@, key@) is None,
            },
    {
        let mut i: usize = self.args.len();
        assert(self@.take(i as int) =~= self@);
        while i > 0
            invariant
                i <= self.args.len(),
                value_of(self@, key@) == value_of(self@.take(i as int), key@),
            decreases i,
        {
            i -= 1;
            proof {
                let upto = self@.take(i + 1);
                assert(upto.drop_last() =~= self@.take(i as int));
            }
            if same_text(self.args[i].0.as_str(), key) {
                return Some(&self.args[i].1);
            }
        }
        None
    }
}

/// Places where a transfer may keep data for a while: locator URLs, in the
/// order of preference.
#[derive(Debug)]
pub struct TemporaryStorage {
    locations: Vec<String>,
}

impl View for TemporaryStorage {
    type V = Seq<Seq<char>>;

    closed spec fn view(&self) -> Seq<Seq<char>> {
        texts(self.locations@)
    }
}

impl Clone for TemporaryStorage {
    fn clone(&self) -> (r: Self)
        ensures
            r@ == self@,
    {
        TemporaryStorage { locations: copy_strings(&self.locations) }
    }
}

/// `i` is the first place of `locations` that begins with `scheme`.
pub open spec fn first_with_scheme(locations: Seq<Seq<char>>, scheme: Seq<char>, i: int) -> bool {
    &&& 0 <= i < locations.len()
    &&& scheme.is_prefix_of(locations[i])
    &&& forall|h: int| 0 <= h < i ==> !scheme.is_prefix_of(#[trigger] locations[h])
}

impl TemporaryStorage {
    /// The storage that holds `locations`, the preferred one first.
    pub fn new(locations: Vec<String>) -> (r: Self)
        ensures
            r@ == texts(locations@),
    {
        TemporaryStorage { locations }
    }

    /// The places, the preferred one first.
    pub fn locations(&self) -> (r: &Vec<String>)
        ensures
            texts(r@) == self@,
    {
        &self.locations
    }

    /// The first place whose URL begins with `scheme`, if there is one.
    pub fn find_scheme(&self, scheme: &str) -> (r: Option<&str>)
        ensures
            match r {
                Some(location) => exists|i: int| #[trigger]
                    first_with_scheme(self@, scheme@, i) && location@ == self@[i],
                None => forall|i: int|
                    0 <= i < self@.len() ==> !scheme@.is_prefix_of(#[trigger] self@[i]),
            },
    {
        let mut i: usize = 0;
        while i < self.locations.len()
            invariant
                i <= self.locations.len(),
                forall|h: int| 0 <= h < i ==> !scheme@.is_prefix_of(#[trigger] self@[h]),
            decreases self.locations.len() - i,
        {
            if starts_with(self.locations[i].as_str(), scheme) {
                assert(first_with_scheme(self@, scheme@, i as int));
                return Some(self.locations[i].as_str());
            }
            i += 1;
        }
        None
    }
}

/// Options that the source and the destination both read.
#[derive(Debug)]
pub struct SharedArguments<S> {
    /// The portable schema of the table that is moved.
    schema: Table,
    /// Where the transfer may keep data for a while.
    temporary_storage: TemporaryStorage,
    /// The state, which takes no room.
    _phantom: PhantomData<S>,
}

/// The mathematical value of a [`SharedArguments`], in either state.
pub struct SharedArgumentsView {
    pub schema: TableView,
    pub temporary_storage: Seq<Seq<char>>,
}

impl<S> View for SharedArguments<S> {
    type V = SharedArgumentsView;

    closed spec fn view(&self) -> SharedArgumentsView {
        SharedArgumentsView {
            schema: self.schema@,
            temporary_storage: self.temporary_storage@,
        }
    }
}

impl<S> Clone for SharedArguments<S> {
    fn clone(&self) -> (r: Self)
        ensures
            r@ == self@,
    {
        SharedArguments {
            schema: self.schema.clone(),
            temporary_storage: self.temporary_storage.clone(),
            _phantom: PhantomData,
        }
    }
}

impl SharedArgumentsView {
    /// What verification against `features` gives: no field of this bundle asks
    /// anything of a driver, so it succeeds and keeps every field.
    pub open spec fn verified(self, features: Features) -> Result<
        SharedArgumentsView,
        TransferErrorView,
    > {
        Ok(self)
    }
}

impl SharedArguments<Unverified> {
    /// The bundle that holds `schema` and `temporary_storage`.
    pub fn new(schema: Table, temporary_storage: TemporaryStorage) -> (r: Self)
        ensures
            r@ == (SharedArgumentsView {
                schema: schema@,
                temporary_storage: temporary_storage@,
            }),
    {
        SharedArguments { schema, temporary_storage, _phantom: PhantomData }
    }

    /// Holds the bundle against `features`. This always succeeds, and the
    /// verified bundle holds what this one held.
    pub fn verify(self, features: Features) -> (r: Result<SharedArguments<Verified>, TransferError>)
        ensures
            r is Ok,
            verified_view(r) == self@.verified(features),
    {
        Ok(
            SharedArguments {
                schema: self.schema,
                temporary_storage: self.temporary_storage,
                _phantom: PhantomData,
            },
        )
    }
}

/// The value of what a verification gave.
pub open spec fn verified_view<B: View>(r: Result<B, TransferError>) -> Result<
    B::V,
    TransferErrorView,
> {
    match r {
        Ok(bundle) => Ok(bundle@),
        Err(e) => Err(e@),
    }
}

impl SharedArguments<Verified> {
    /// The schema of the table that is moved.
    pub fn schema(&self) -> (r: &Table)
        ensures
            r@ == self@.schema,
    {
        &self.schema
    }

    /// Where the transfer may keep data for a while.
    pub fn temporary_storage(&self) -> (r: &TemporaryStorage)
        ensures
            r@ == self@.temporary_storage,
    {
        &self.temporary_storage
    }
}

/// Options that the source reads.
#[derive(Debug)]
pub struct SourceArguments<S> {
    /// Options that the source's driver alone gives a meaning to.
    driver_args: DriverArguments,
    /// A `WHERE` clause that selects the rows to move.
    where_clause: Option<String>,
    /// The state, which takes no room.
    _phantom: PhantomData<S>,
}

/// The mathematical value of a [`SourceArguments`], in either state.
pub struct SourceArgumentsView {
    pub driver_args: Seq<(Seq<char>, Seq<char>)>,
    pub where_clause: Option<Seq<char>>,
}

impl<S> View for SourceArguments<S> {
    type V = SourceArgumentsView;

    closed spec fn view(&self) -> SourceArgumentsView {
        SourceArgumentsView {
            driver_args: self.driver_args@,
            where_clause: text_model(self.where_clause),
        }
    }
}

impl<S> Clone for SourceArguments<S> {
    fn clone(&self) -> (r: Self)
        ensures
            r@ == self@,
    {
        SourceArguments {
            driver_args: self.driver_args.clone(),
            where_clause: copy_text(&self.where_clause),
            _phantom: PhantomData,
        }
    }
}

impl SourceArgumentsView {
    /// The flags that a driver must declare to read this bundle: one for each
    /// option that was given.
    pub open spec fn required(self) -> u8 {
        let for_args = if self.driver_args.len() > 0 {
            SourceArgumentsFeatures::DRIVER_ARGS
        } else {
            0u8
        };
        let for_where = if self.where_clause is Some {
            SourceArgumentsFeatures::WHERE_CLAUSE
        } else {
            0u8
        };
        for_args | for_where
    }

    /// What verification against `features` gives: the bundle as it is, or the
    /// first option that the driver does not support.
    pub open spec fn verified(self, features: Features) -> Result<
        SourceArgumentsView,
        TransferErrorView,
    > {
        if self.driver_args.len() > 0 && !bits_contain(
            features.source_args@,
            SourceArgumentsFeatures::DRIVER_ARGS,
        ) {
            Err(TransferErrorView::UnsupportedArgument(UnsupportedOption::FromArgs))
        } else if self.where_clause is Some && !bits_contain(
            features.source_args@,
            SourceArgumentsFeatures::WHERE_CLAUSE,
        ) {
            Err(TransferErrorView::UnsupportedArgument(UnsupportedOption::Where))
        } else {
            Ok(self)
        }
    }
}

impl SourceArguments<Unverified> {
    /// The bundle that holds `driver_args` and `where_clause`.
    pub fn new(driver_args: DriverArguments, where_clause: Option<String>) -> (r: Self)
        ensures
            r@ == (SourceArgumentsView {
                driver_args: driver_args@,
                where_clause: text_model(where_clause),
            }),
    {
        SourceArguments { driver_args, where_clause, _phantom: PhantomData }
    }

    /// The bundle for reading from temporary storage: no option at all.
    pub fn for_temporary() -> (r: Self)
        ensures
            r@ == (SourceArgumentsView { driver_args: Seq::empty(), where_clause: None }),
    {
        let r = Self::new(DriverArguments::default(), None);
        assert(r@.driver_args =~= Seq::empty());
        r
    }

    /// Holds the bundle against `features`. It succeeds exactly when the driver
    /// declares every flag that the bundle requires, and the verified bundle
    /// then holds what this one held.
    pub fn verify(self, features: Features) -> (r: Result<SourceArguments<Verified>, TransferError>)
        ensures
            r is Ok <==> bits_contain(features.source_args@, self@.required()),
            verified_view(r) == self@.verified(features),
    {
        match self.check(features) {
            Ok(()) => Ok(
                SourceArguments {
                    driver_args: self.driver_args,
                    where_clause: self.where_clause,
                    _phantom: PhantomData,
                },
            ),
            Err(e) => Err(e),
        }
    }

    /// Says what [`Self::verify`] would give, and leaves the bundle with the caller.
    pub fn check(&self, features: Features) -> (r: Result<(), TransferError>)
        ensures
            r is Ok <==> bits_contain(features.source_args@, self@.required()),
            r is Ok <==> self@.verified(features) is Ok,
            r matches Err(e) ==> self@.verified(features) == Err::<
                SourceArgumentsView,
                TransferErrorView,
            >(e@),
    {
        proof {
            lemma_contains_union(
                features.source_args@,
                if self@.driver_args.len() > 0 {
                    SourceArgumentsFeatures::DRIVER_ARGS
                } else {
                    0u8
                },
                if self@.where_clause is Some {
                    SourceArgumentsFeatures::WHERE_CLAUSE
                } else {
                    0u8
                },
            );
            lemma_contains_empty(features.source_args@);
        }
        if !features.source_args.contains(SourceArgumentsFeatures::driver_args())
            && !self.driver_args.is_empty() {
            return Err(TransferError::UnsupportedArgument(UnsupportedOption::FromArgs));
        }
        if !features.source_args.contains(SourceArgumentsFeatures::where_clause())
            && self.where_clause.is_some() {
            return Err(TransferError::UnsupportedArgument(UnsupportedOption::Where));
        }
        Ok(())
    }
}

impl SourceArguments<Verified> {
    /// Options that the source's driver alone gives a meaning to.
    pub fn driver_args(&self) -> (r: &DriverArguments)
        ensures
            r@ == self@.driver_args,
    {
        &self.driver_args
    }

    /// The `WHERE` clause that selects the rows to move, if one was given.
    pub fn where_clause(&self) -> (r: Option<&str>)
        ensures
            match r {
                Some(clause) => self@.where_clause == Some(clause@),
                None => self@.where_clause is None,
            },
    {
        match &self.where_clause {
            Some(clause) => Some(clause.as_str()),
            None => None,
        }
    }
}

/// Options that the destination reads.
#[derive(Debug)]
pub struct DestinationArguments<S> {
    /// Options that the destination's driver alone gives a meaning to.
    driver_args: DriverArguments,
    /// What to do if the destination exists already.
    if_exists: IfExists,
    /// The state, which takes no room.
    _phantom: PhantomData<S>,
}

/// The mathematical value of a [`DestinationArguments`], in either state.
pub struct DestinationArgumentsView {
    pub driver_args: Seq<(Seq<char>, Seq<char>)>,
    pub if_exists: IfExistsView,
}

impl<S> View for DestinationArguments<S> {
    type V = DestinationArgumentsView;

    closed spec fn view(&self) -> DestinationArgumentsView {
        DestinationArgumentsView { driver_args: self.driver_args@, if_exists: self.if_exists@ }
    }
}

impl<S> Clone for DestinationArguments<S> {
    fn clone(&self) -> (r: Self)
        ensures
            r@ == self@,
    {
        DestinationArguments {
            driver_args: self.driver_args.clone(),
            if_exists: self.if_exists.clone(),
            _phantom: PhantomData,
        }
    }
}

impl DestinationArgumentsView {
    /// The flags for options that a driver must declare to read this bundle.
    pub open spec fn required(self) -> u8 {
        if self.driver_args.len() > 0 {
            DestinationArgumentsFeatures::DRIVER_ARGS
        } else {
            0u8
        }
    }

    /// Whether a driver with `features` supports everything in this bundle:
    /// its options and its policy.
    pub open spec fn supported_by(self, features: Features) -> bool {
        &&& bits_contain(features.dest_args@, self.required())
        &&& bits_contain(features.dest_if_exists@, self.if_exists.feature())
    }

    /// What verification against `features` gives: the bundle as it is, or the
    /// first thing that the driver does not support.
    pub open spec fn verified(self, features: Features) -> Result<
        DestinationArgumentsView,
        TransferErrorView,
    > {
        if self.driver_args.len() > 0 && !bits_contain(
            features.dest_args@,
            DestinationArgumentsFeatures::DRIVER_ARGS,
        ) {
            Err(TransferErrorView::UnsupportedArgument(UnsupportedOption::ToArgs))
        } else if !bits_contain(features.dest_if_exists@, self.if_exists.feature()) {
            Err(TransferErrorView::UnsupportedArgument(UnsupportedOption::IfExists))
        } else {
            Ok(self)
        }
    }
}

impl DestinationArguments<Unverified> {
    /// The bundle that holds `driver_args` and `if_exists`.
    pub fn new(driver_args: DriverArguments, if_exists: IfExists) -> (r: Self)
        ensures
            r@ == (DestinationArgumentsView { driver_args: driver_args@, if_exists: if_exists@ }),
    {
        DestinationArguments { driver_args, if_exists, _phantom: PhantomData }
    }

    /// The bundle for writing to temporary storage: no option, and whatever is
    /// there is overwritten.
    pub fn for_temporary() -> (r: Self)
        ensures
            r@ == (DestinationArgumentsView {
                driver_args: Seq::empty(),
                if_exists: IfExistsView::Overwrite,
            }),
    {
        let r = Self::new(DriverArguments::default(), IfExists::Overwrite);
        assert(r@.driver_args =~= Seq::empty());
        r
    }

    /// Holds the bundle against `features`. It succeeds exactly when the driver
    /// declares the flag of every option that was given and the flag of the
    /// policy, and the verified bundle then holds what this one held.
    pub fn verify(self, features: Features) -> (r: Result<
        DestinationArguments<Verified>,
        TransferError,
    >)
        ensures
            r is Ok <==> self@.supported_by(features),
            verified_view(r) == self@.verified(features),
    {
        match self.check(features) {
            Ok(()) => Ok(
                DestinationArguments {
                    driver_args: self.driver_args,
                    if_exists: self.if_exists,
                    _phantom: PhantomData,
                },
            ),
            Err(e) => Err(e),
        }
    }

    /// Says what [`Self::verify`] would give, and leaves the bundle with the caller.
    pub fn check(&self, features: Features) -> (r: Result<(), TransferError>)
        ensures
            r is Ok <==> self@.supported_by(features),
            r is Ok <==> self@.verified(features) is Ok,
            r matches Err(e) ==> self@.verified(features) == Err::<
                DestinationArgumentsView,
                TransferErrorView,
            >(e@),
    {
        proof {
            lemma_contains_empty(features.dest_args@);
        }
        if !features.dest_args.contains(DestinationArgumentsFeatures::driver_args())
            && !self.driver_args.is_empty() {
            return Err(TransferError::UnsupportedArgument(UnsupportedOption::ToArgs));
        }
        self.if_exists.verify(features.dest_if_exists)
    }
}

impl DestinationArguments<Verified> {
    /// Options that the destination's driver alone gives a meaning to.
    pub fn driver_args(&self) -> (r: &DriverArguments)
        ensures
            r@ == self@.driver_args,
    {
        &self.driver_args
    }

    /// What to do if the destination exists already.
    pub fn if_exists(&self) -> (r: &IfExists)
        ensures
            r@ == self@.if_exists,
    {
        &self.if_exists
    }
}

/// Verifying shared options succeeds whatever the driver declares: they
/// require no flag.
pub proof fn lemma_shared_verification(bundle: SharedArgumentsView, features: Features)
    ensures
        bundle.verified(features) == Ok::<SharedArgumentsView, TransferErrorView>(bundle),
{
}

/// Verifying source options succeeds exactly when the driver declares every
/// flag that they require, and then gives the options unchanged.
pub proof fn lemma_source_verification(bundle: SourceArgumentsView, features: Features)
    ensures
        bundle.verified(features) is Ok <==> bits_contain(features.source_args@, bundle.required()),
        bundle.verified(features) is Ok ==> bundle.verified(features) == Ok::<
            SourceArgumentsView,
            TransferErrorView,
        >(bundle),
{
    lemma_contains_union(
        features.source_args@,
        if bundle.driver_args.len() > 0 {
            SourceArgumentsFeatures::DRIVER_ARGS
        } else {
            0u8
        },
        if bundle.where_clause is Some {
            SourceArgumentsFeatures::WHERE_CLAUSE
        } else {
            0u8
        },
    );
    lemma_contains_empty(features.source_args@);
}

/// Verifying destination options succeeds exactly when the driver declares
/// every flag that they require and the flag of their policy, and then gives
/// the options unchanged.
pub proof fn lemma_destination_verification(bundle: DestinationArgumentsView, features: Features)
    ensures
        bundle.verified(features) is Ok <==> bundle.supported_by(features),
        bundle.verified(features) is Ok ==> bundle.verified(features) == Ok::<
            DestinationArgumentsView,
            TransferErrorView,
        >(bundle),
{
    lemma_contains_empty(features.dest_args@);
}

/// Verification is idempotent: what a verification against `features` gave,
/// verified against `features` once more, is given again.
pub proof fn lemma_verification_idempotent(
    shared: SharedArgumentsView,
    source: SourceArgumentsView,
    destination: DestinationArgumentsView,
    features: Features,
)
    ensures
        shared.verified(features) matches Ok(verified) ==> verified.verified(features) == Ok::<
            SharedArgumentsView,
            TransferErrorView,
        >(verified),
        source.verified(features) matches Ok(verified) ==> verified.verified(features) == Ok::<
            SourceArgumentsView,
            TransferErrorView,
        >(verified),
        destination.verified(features) matches Ok(verified) ==> verified.verified(features) == Ok::<
            DestinationArgumentsView,
            TransferErrorView,
        >(verified),
{
}

} // verus!
