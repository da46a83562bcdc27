//! Drivers and the locators that select them. A locator is a URL; the text up
//! to its first colon names the driver that understands the rest.

use vstd::prelude::*;
use vstd::string::*;

use crate::error::{TransferError, TransferErrorView};
use crate::features::Features;
use crate::text::{same_text, starts_with, texts};

verus! {

/// What the engine knows of a driver.
#[derive(Clone, Debug)]
pub struct Driver {
    /// The scheme of its locators, colon included.
    pub scheme: String,
    /// What it declares that it can do.
    pub features: Features,
    /// The schemes of the sources from which it can take data without this
    /// process in between.
    pub remote_sources: Vec<String>,
}

/// The mathematical value of a [`Driver`].
pub struct DriverView {
    pub scheme: Seq<char>,
    pub features: Features,
    pub remote_sources: Seq<Seq<char>>,
}

impl View for Driver {
    type V = DriverView;

    open spec fn view(&self) -> DriverView {
        DriverView {
            scheme: self.scheme@,
            features: self.features,
            remote_sources: texts(self.remote_sources@),
        }
    }
}

impl Driver {
    /// Whether this driver, as the destination, can take data straight from a
    /// locator of `source`.
    pub fn supports_write_remote_data(&self, source: &Driver) -> (r: bool)
        ensures
            r == self@.remote_sources.contains(source@.scheme),
    {
        let ghost sources = self@.remote_sources;
        let mut i: usize = 0;
        while i < self.remote_sources.len()
            invariant
                i <= self.remote_sources.len(),
                sources == texts(self.remote_sources@),
                forall|h: int| 0 <= h < i ==> sources[h] != source@.scheme,
            decreases self.remote_sources.len() - i,
        {
            if same_text(self.remote_sources[i].as_str(), source.scheme.as_str()) {
                assert(sources[i as int] == source@.scheme);
                return true;
            }
            i += 1;
        }
        false
    }
}

/// The values of `drivers`, in order.
pub open spec fn driver_views(drivers: Seq<Driver>) -> Seq<DriverView> {
    Seq::new(drivers.len(), |i: int| drivers[i]@)
}

/// `i` is the first driver of `drivers` whose scheme `url` begins with.
pub open spec fn selects(drivers: Seq<DriverView>, url: Seq<char>, i: int) -> bool {
    &&& 0 <= i < drivers.len()
    &&& drivers[i].scheme.is_prefix_of(url)
    &&& forall|h: int| 0 <= h < i ==> !(#[trigger] drivers[h]).scheme.is_prefix_of(url)
}

/// The driver that `url` selects among `drivers`, if any.
pub open spec fn lookup(drivers: Seq<DriverView>, url: Seq<char>) -> Option<DriverView> {
    if exists|i: int| selects(drivers, url, i) {
        Some(drivers[choose|i: int| selects(drivers, url, i)])
    } else {
        None
    }
}

/// A URL selects the first driver whose scheme it begins with, and no other.
pub proof fn lemma_lookup_first(drivers: Seq<DriverView>, url: Seq<char>, i: int)
    requires
        selects(drivers, url, i),
    ensures
        lookup(drivers, url) == Some(drivers[i]),
{
    let j = choose|j: int| selects(drivers, url, j);
    assert(j == i);
}

/// A URL that begins with no registered scheme selects no driver.
pub proof fn lemma_lookup_none(drivers: Seq<DriverView>, url: Seq<char>)
    requires
        unsupported(drivers, url),
    ensures
        lookup(drivers, url) is None,
{
}

/// No driver of `drivers` understands `url`.
pub open spec fn unsupported(drivers: Seq<DriverView>, url: Seq<char>) -> bool {
    forall|h: int| 0 <= h < drivers.len() ==> !(#[trigger] drivers[h]).scheme.is_prefix_of(url)
}

/// Some driver of `drivers` has the scheme `scheme`.
pub open spec fn has_scheme(drivers: Seq<DriverView>, scheme: Seq<char>) -> bool {
    exists|h: int| 0 <= h < drivers.len() && (#[trigger] drivers[h]).scheme == scheme
}

/// No two drivers of `drivers` have the same scheme.
pub open spec fn distinct_schemes(drivers: Seq<DriverView>) -> bool {
    forall|i: int, j: int|
        0 <= i < j < drivers.len() ==> (#[trigger] drivers[i]).scheme != (
        #[trigger] drivers[j]).scheme
}

/// The drivers that locators can select, each under its scheme.
#[derive(Clone, Debug)]
pub struct Registry {
    drivers: Vec<Driver>,
}

impl View for Registry {
    type V = Seq<DriverView>;

    closed spec fn view(&self) -> Seq<DriverView> {
        driver_views(self.drivers@)
    }
}

impl Registry {
    /// What holds of every registry: no scheme is registered twice.
    pub open spec fn wf(&self) -> bool {
        distinct_schemes(self@)
    }

    /// The registry without any driver.
    pub fn new() -> (r: Self)
        ensures
            r.wf(),
            r@.len() == 0,
    {
        Registry { drivers: Vec::new() }
    }

    /// Adds `driver` after the drivers that are there, unless its scheme is
    /// taken: then the registry stays as it is.
    pub fn register(&mut self, driver: Driver) -> (r: Result<(), TransferError>)
        ensures
            old(self).wf() ==> final(self).wf(),
            r is Ok <==> !has_scheme(old(self)@, driver@.scheme),
            r is Ok ==> final(self)@ == old(self)@.push(driver@),
            r matches Err(e) ==> final(self)@ == old(self)@ && e@
                == TransferErrorView::DuplicateScheme(driver@.scheme),
    {
        let ghost before = self@;
        let mut i: usize = 0;
        while i < self.drivers.len()
            invariant
                i <= self.drivers.len(),
                before == driver_views(self.drivers@),
                forall|h: int| 0 <= h < i ==> (#[trigger] before[h]).scheme != driver@.scheme,
            decreases self.drivers.len() - i,
        {
            if same_text(self.drivers[i].scheme.as_str(), driver.scheme.as_str()) {
                assert(before[i as int].scheme == driver@.scheme);
                return Err(TransferError::DuplicateScheme(driver.scheme));
            }
            i += 1;
        }
        self.drivers.push(driver);
        assert(self@ =~= before.push(driver@));
        Ok(())
    }

    /// The registered drivers, in the order of their registration.
    pub fn drivers(&self) -> (r: &Vec<Driver>)
        ensures
            driver_views(r@) == self@,
    {
        &self.drivers
    }

    /// The driver that `url` selects: the first whose scheme it begins with.
    pub fn find(&self, url: &str) -> (r: Result<&Driver, TransferError>)
        ensures
            match r {
                Ok(driver) => lookup(self@, url@) == Some(driver@),
                Err(e) => lookup(self@, url@) is None && e@
                    == TransferErrorView::UnsupportedScheme(url@),
            },
    {
        let ghost views = self@;
        let mut i: usize = 0;
        while i < self.drivers.len()
            invariant
                i <= self.drivers.len(),
                views == driver_views(self.drivers@),
                forall|h: int| 0 <= h < i ==> !(#[trigger] views[h]).scheme.is_prefix_of(url@),
            decreases self.drivers.len() - i,
        {
            if starts_with(url, self.drivers[i].scheme.as_str()) {
                proof {
                    lemma_lookup_first(self@, url@, i as int);
                }
                return Ok(&self.drivers[i]);
            }
            i += 1;
        }
        proof {
            lemma_lookup_none(self@, url@);
        }
        Err(TransferError::UnsupportedScheme(String::from_str(url)))
    }
}

} // verus!
