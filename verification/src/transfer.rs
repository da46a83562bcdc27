//! The transfer engine's decisions: which path leads from a source to a
//! destination, and whether the drivers on it support the user's options.
//! Running the path is the caller's part.

use vstd::prelude::*;
use vstd::string::*;

use crate::args::{
    DestinationArguments, DestinationArgumentsView, SourceArguments, SourceArgumentsView,
    TemporaryStorage, Unverified,
};
use crate::error::{TransferError, TransferErrorView};
use crate::features::{bits_contain, LocatorFeatures};
use crate::if_exists::IfExistsView;
use crate::locator::{lookup, Driver, DriverView, Registry};

verus! {

/// A way to move data between two locators without a stop in between.
#[derive(Clone, Copy, Debug, PartialEq, Eq, Structural)]
pub enum DirectPath {
    /// The destination pulls from the source; no row passes through this process.
    Remote,
    /// The source hands its rows to this process, which hands them to the destination.
    Streaming,
}

/// The path of a transfer.
#[derive(Clone, Debug)]
pub enum TransferPath {
    /// The destination pulls from the source.
    Remote,
    /// The rows stream through this process.
    Streaming,
    /// The rows rest in temporary storage: a first leg takes them there, a
    /// second leg takes them on to the destination.
    Staged { temporary: String, first: DirectPath, second: DirectPath },
}

/// The mathematical value of a [`TransferPath`].
pub enum TransferPathView {
    Remote,
    Streaming,
    Staged { temporary: Seq<char>, first: DirectPath, second: DirectPath },
}

impl View for TransferPath {
    type V = TransferPathView;

    open spec fn view(&self) -> TransferPathView {
        match self {
            TransferPath::Remote => TransferPathView::Remote,
            TransferPath::Streaming => TransferPathView::Streaming,
            TransferPath::Staged { temporary, first, second } => TransferPathView::Staged {
                temporary: temporary@,
                first: *first,
                second: *second,
            },
        }
    }
}

/// The destination can pull from the source, and both drivers declare that
/// they take part in such transfers.
pub open spec fn remote_ok(source: DriverView, dest: DriverView) -> bool {
    &&& dest.remote_sources.contains(source.scheme)
    &&& bits_contain(source.features.locator@, LocatorFeatures::WRITE_REMOTE_DATA)
    &&& bits_contain(dest.features.locator@, LocatorFeatures::WRITE_REMOTE_DATA)
}

/// The source hands out local data and the destination takes it.
pub open spec fn streaming_ok(source: DriverView, dest: DriverView) -> bool {
    &&& bits_contain(source.features.locator@, LocatorFeatures::LOCAL_DATA)
    &&& bits_contain(dest.features.locator@, LocatorFeatures::WRITE_LOCAL_DATA)
}

/// The path without a stop from `source` to `dest`: the remote one where it
/// exists, else the streaming one, else none.
pub open spec fn direct_path(source: DriverView, dest: DriverView) -> Option<DirectPath> {
    if remote_ok(source, dest) {
        Some(DirectPath::Remote)
    } else if streaming_ok(source, dest) {
        Some(DirectPath::Streaming)
    } else {
        None
    }
}

/// The two legs by which the place `url` links `source` to `dest`, if its
/// driver is known and a direct path leads to it and on from it.
pub open spec fn bridge(
    drivers: Seq<DriverView>,
    source: DriverView,
    dest: DriverView,
    url: Seq<char>,
) -> Option<(DirectPath, DirectPath)> {
    match lookup(drivers, url) {
        Some(temporary) => match (direct_path(source, temporary), direct_path(temporary, dest)) {
            (Some(first), Some(second)) => Some((first, second)),
            _ => None,
        },
        None => None,
    }
}

/// The index of the first place of `places` that links `source` to `dest`.
pub open spec fn first_bridge(
    drivers: Seq<DriverView>,
    source: DriverView,
    dest: DriverView,
    places: Seq<Seq<char>>,
) -> Option<int>
    decreases places.len(),
{
    if places.len() == 0 {
        None
    } else {
        match first_bridge(drivers, source, dest, places.drop_last()) {
            Some(i) => Some(i),
            None => if bridge(drivers, source, dest, places.last()) is Some {
                Some(places.len() - 1)
            } else {
                None
            },
        }
    }
}

/// The path that the engine takes from `source` to `dest`: remote before
/// streaming before staged, and among the temporary places the first that
/// links the two.
pub open spec fn chosen_path(
    drivers: Seq<DriverView>,
    source: DriverView,
    dest: DriverView,
    places: Seq<Seq<char>>,
) -> Option<TransferPathView> {
    match direct_path(source, dest) {
        Some(DirectPath::Remote) => Some(TransferPathView::Remote),
        Some(DirectPath::Streaming) => Some(TransferPathView::Streaming),
        None => match first_bridge(drivers, source, dest, places) {
            Some(i) => {
                let legs = bridge(drivers, source, dest, places[i])->Some_0;
                Some(
                    TransferPathView::Staged {
                        temporary: places[i],
                        first: legs.0,
                        second: legs.1,
                    },
                )
            },
            None => None,
        },
    }
}

/// What the first bridge is: a place that links the two drivers, after places
/// that do not.
pub proof fn lemma_first_bridge(
    drivers: Seq<DriverView>,
    source: DriverView,
    dest: DriverView,
    places: Seq<Seq<char>>,
)
    ensures
        match first_bridge(drivers, source, dest, places) {
            Some(i) => {
                &&& 0 <= i < places.len()
                &&& bridge(drivers, source, dest, places[i]) is Some
                &&& forall|h: int|
                    0 <= h < i ==> bridge(drivers, source, dest, #[trigger] places[h]) is None
            },
            None => forall|h: int|
                0 <= h < places.len() ==> bridge(drivers, source, dest, #[trigger] places[h])
                    is None,
        },
    decreases places.len(),
{
    if places.len() > 0 {
        lemma_first_bridge(drivers, source, dest, places.drop_last());
        let before = places.drop_last();
        assert forall|h: int| 0 <= h < before.len() implies before[h] == places[h] by {}
    }
}

/// The first bridge among the first `k` places is the first bridge among all.
pub proof fn lemma_first_bridge_found(
    drivers: Seq<DriverView>,
    source: DriverView,
    dest: DriverView,
    places: Seq<Seq<char>>,
    k: int,
)
    requires
        0 <= k <= places.len(),
        first_bridge(drivers, source, dest, places.take(k)) is Some,
    ensures
        first_bridge(drivers, source, dest, places) == first_bridge(
            drivers,
            source,
            dest,
            places.take(k),
        ),
    decreases places.len() - k,
{
    if k < places.len() {
        assert(places.take(k + 1).drop_last() =~= places.take(k));
        lemma_first_bridge_found(drivers, source, dest, places, k + 1);
    } else {
        assert(places.take(k) =~= places);
    }
}

/// Exactly one outcome is chosen for every source and destination, and the
/// rules that the others need do not hold of it: the remote path where the
/// destination can pull; else the streaming path where the data can pass
/// through this process; else the staged path over the first temporary place
/// that links the two; else none.
pub proof fn lemma_exactly_one_path(
    drivers: Seq<DriverView>,
    source: DriverView,
    dest: DriverView,
    places: Seq<Seq<char>>,
)
    ensures
        match chosen_path(drivers, source, dest, places) {
            Some(TransferPathView::Remote) => remote_ok(source, dest),
            Some(TransferPathView::Streaming) => !remote_ok(source, dest) && streaming_ok(
                source,
                dest,
            ),
            Some(TransferPathView::Staged { temporary, first, second }) => {
                &&& !remote_ok(source, dest)
                &&& !streaming_ok(source, dest)
                &&& exists|i: int|
                    {
                        &&& 0 <= i < places.len()
                        &&& temporary == places[i]
                        &&& #[trigger] bridge(drivers, source, dest, places[i]) == Some(
                            (first, second),
                        )
                        &&& forall|h: int|
                            0 <= h < i ==> bridge(drivers, source, dest, #[trigger] places[h])
                                is None
                    }
            },
            None => {
                &&& !remote_ok(source, dest)
                &&& !streaming_ok(source, dest)
                &&& forall|h: int|
                    0 <= h < places.len() ==> bridge(drivers, source, dest, #[trigger] places[h])
                        is None
            },
        },
{
    lemma_first_bridge(drivers, source, dest, places);
}

/// The path without a stop from `source` to `dest`, if there is one.
pub fn find_direct_path(source: &Driver, dest: &Driver) -> (r: Option<DirectPath>)
    ensures
        r == direct_path(source@, dest@),
{
    let remote = LocatorFeatures::write_remote_data();
    if dest.supports_write_remote_data(source) && source.features.locator.contains(remote)
        && dest.features.locator.contains(remote) {
        Some(DirectPath::Remote)
    } else if source.features.locator.contains(LocatorFeatures::local_data())
        && dest.features.locator.contains(LocatorFeatures::write_local_data()) {
        Some(DirectPath::Streaming)
    } else {
        None
    }
}

/// The path that the engine takes from `source` to `dest`, if there is one.
pub fn choose_path(
    registry: &Registry,
    source: &Driver,
    dest: &Driver,
    temporary_storage: &TemporaryStorage,
) -> (r: Option<TransferPath>)
    ensures
        match r {
            Some(path) => chosen_path(registry@, source@, dest@, temporary_storage@) == Some(path@),
            None => chosen_path(registry@, source@, dest@, temporary_storage@) is None,
        },
{
    match find_direct_path(source, dest) {
        Some(DirectPath::Remote) => {
            return Some(TransferPath::Remote);
        },
        Some(DirectPath::Streaming) => {
            return Some(TransferPath::Streaming);
        },
        None => {},
    }
    let places = temporary_storage.locations();
    let ghost urls = temporary_storage@;
    let mut i: usize = 0;
    while i < places.len()
        invariant
            i <= places.len(),
            urls == crate::text::texts(places@),
            urls == temporary_storage@,
            direct_path(source@, dest@) is None,
            first_bridge(registry@, source@, dest@, urls.take(i as int)) is None,
        decreases places.len() - i,
    {
        let ghost upto = urls.take(i + 1);
        proof {
            assert(upto.drop_last() =~= urls.take(i as int));
        }
        match registry.find(places[i].as_str()) {
            Ok(temporary) => {
                let first = find_direct_path(source, temporary);
                let second = find_direct_path(temporary, dest);
                match (first, second) {
                    (Some(first), Some(second)) => {
                        proof {
                            assert(bridge(registry@, source@, dest@, urls[i as int]) == Some(
                                (first, second),
                            ));
                            lemma_first_bridge_found(registry@, source@, dest@, urls, i + 1);
                        }
                        return Some(
                            TransferPath::Staged { temporary: places[i].clone(), first, second },
                        );
                    },
                    _ => {},
                }
            },
            Err(_) => {},
        }
        i += 1;
    }
    assert(urls.take(i as int) =~= urls);
    None
}

/// The options for writing to temporary storage.
pub open spec fn temporary_destination() -> DestinationArgumentsView {
    DestinationArgumentsView { driver_args: Seq::empty(), if_exists: IfExistsView::Overwrite }
}

/// The options for reading from temporary storage.
pub open spec fn temporary_source() -> SourceArgumentsView {
    SourceArgumentsView { driver_args: Seq::empty(), where_clause: None }
}

/// The first option on `path` that the driver meant to read it does not
/// support, if there is one. On a staged path the temporary place is written
/// and then read with the options for temporary storage.
pub open spec fn first_unsupported(
    drivers: Seq<DriverView>,
    source: DriverView,
    dest: DriverView,
    path: TransferPathView,
    source_args: SourceArgumentsView,
    dest_args: DestinationArgumentsView,
) -> Option<TransferErrorView> {
    match path {
        TransferPathView::Staged { temporary, first, second } => {
            let place = lookup(drivers, temporary)->Some_0;
            if source_args.verified(source.features) is Err {
                Some(source_args.verified(source.features)->Err_0)
            } else if temporary_destination().verified(place.features) is Err {
                Some(temporary_destination().verified(place.features)->Err_0)
            } else if temporary_source().verified(place.features) is Err {
                Some(temporary_source().verified(place.features)->Err_0)
            } else if dest_args.verified(dest.features) is Err {
                Some(dest_args.verified(dest.features)->Err_0)
            } else {
                None
            }
        },
        _ => {
            if source_args.verified(source.features) is Err {
                Some(source_args.verified(source.features)->Err_0)
            } else if dest_args.verified(dest.features) is Err {
                Some(dest_args.verified(dest.features)->Err_0)
            } else {
                None
            }
        },
    }
}

/// What planning a transfer gives: the path, or the first thing in the way.
/// The locators must select drivers, a path must lead from one to the other,
/// and every driver on it must support the options that it will read.
pub open spec fn planned(
    drivers: Seq<DriverView>,
    source_url: Seq<char>,
    dest_url: Seq<char>,
    places: Seq<Seq<char>>,
    source_args: SourceArgumentsView,
    dest_args: DestinationArgumentsView,
) -> Result<TransferPathView, TransferErrorView> {
    match lookup(drivers, source_url) {
        None => Err(TransferErrorView::UnsupportedScheme(source_url)),
        Some(source) => match lookup(drivers, dest_url) {
            None => Err(TransferErrorView::UnsupportedScheme(dest_url)),
            Some(dest) => match chosen_path(drivers, source, dest, places) {
                None => Err(TransferErrorView::IncompatibleTransfer(source_url, dest_url)),
                Some(path) => match first_unsupported(
                    drivers,
                    source,
                    dest,
                    path,
                    source_args,
                    dest_args,
                ) {
                    Some(e) => Err(e),
                    None => Ok(path),
                },
            },
        },
    }
}

/// The value of what planning gave.
pub open spec fn plan_view(r: Result<TransferPath, TransferError>) -> Result<
    TransferPathView,
    TransferErrorView,
> {
    match r {
        Ok(path) => Ok(path@),
        Err(e) => Err(e@),
    }
}

/// Plans the transfer from `source_url` to `dest_url`: finds the two drivers,
/// chooses the path, and holds the options against the features of each
/// driver that will read them.
pub fn plan_transfer(
    registry: &Registry,
    source_url: &str,
    dest_url: &str,
    temporary_storage: &TemporaryStorage,
    source_args: &SourceArguments<Unverified>,
    dest_args: &DestinationArguments<Unverified>,
) -> (r: Result<TransferPath, TransferError>)
    ensures
        plan_view(r) == planned(
            registry@,
            source_url@,
            dest_url@,
            temporary_storage@,
            source_args@,
            dest_args@,
        ),
{
    let source = match registry.find(source_url) {
        Ok(driver) => driver,
        Err(e) => {
            return Err(e);
        },
    };
    let dest = match registry.find(dest_url) {
        Ok(driver) => driver,
        Err(e) => {
            return Err(e);
        },
    };
    let path = match choose_path(registry, source, dest, temporary_storage) {
        Some(path) => path,
        None => {
            return Err(
                TransferError::IncompatibleTransfer(
                    String::from_str(source_url),
                    String::from_str(dest_url),
                ),
            );
        },
    };
    match source_args.check(source.features) {
        Ok(()) => {},
        Err(e) => {
            return Err(e);
        },
    }
    match &path {
        TransferPath::Staged { temporary, first, second } => {
            proof {
                lemma_first_bridge(registry@, source@, dest@, temporary_storage@);
            }
            match registry.find(temporary.as_str()) {
                Ok(place) => {
                    match DestinationArguments::for_temporary().check(place.features) {
                        Ok(()) => {},
                        Err(e) => {
                            return Err(e);
                        },
                    }
                    match SourceArguments::for_temporary().check(place.features) {
                        Ok(()) => {},
                        Err(e) => {
                            return Err(e);
                        },
                    }
                },
                Err(e) => {
                    return Err(e);
                },
            }
        },
        _ => {},
    }
    match dest_args.check(dest.features) {
        Ok(()) => {},
        Err(e) => {
            return Err(e);
        },
    }
    Ok(path)
}

} // verus!
