//! The object store: locators of directories under `gs://`.

use vstd::prelude::*;
use vstd::string::*;

use crate::error::{LocatorRule, TransferError, TransferErrorView};
use crate::features::{
    DestinationArgumentsFeatures, Features, IfExistsFeatures, LocatorFeatures,
    SourceArgumentsFeatures,
};
use crate::locator::Driver;
use crate::text::{chars_of, same_text, starts_with};

verus! {

/// The scheme of object-store locators.
pub const GS_SCHEME: &'static str = "gs:";

/// The scheme of warehouse locators.
pub const BIGQUERY_SCHEME: &'static str = "bigquery:";

/// What an object-store URL begins with.
pub open spec fn gs_prefix() -> Seq<char> {
    "gs://"@
}

/// Whether `url` names an object-store directory: `gs://`, then at least one
/// more character, the last of them `/`.
pub open spec fn is_gs_directory(url: Seq<char>) -> bool {
    &&& gs_prefix().is_prefix_of(url)
    &&& url.len() > gs_prefix().len()
    &&& url.last() == '/'
}

/// The rule that `url` breaks first, if it names no object-store directory.
pub open spec fn broken_gs_rule(url: Seq<char>) -> LocatorRule {
    if !GS_SCHEME@.is_prefix_of(url) {
        LocatorRule::Scheme
    } else if !gs_prefix().is_prefix_of(url) {
        LocatorRule::Authority
    } else {
        LocatorRule::TrailingSlash
    }
}

/// What the object-store driver declares: it hands out and takes local data,
/// takes part in transfers that bypass this process, understands no option,
/// and overwrites what exists.
pub open spec fn is_gs_features(features: Features) -> bool {
    &&& features.locator@ == LocatorFeatures::LOCAL_DATA | LocatorFeatures::WRITE_LOCAL_DATA
        | LocatorFeatures::WRITE_REMOTE_DATA
    &&& features.write_schema_if_exists@ == 0
    &&& features.source_args@ == 0
    &&& features.dest_args@ == 0
    &&& features.dest_if_exists@ == IfExistsFeatures::OVERWRITE
}

/// A locator of a directory in an object store.
#[derive(Clone, Debug)]
pub struct GsLocator {
    url: String,
}

impl View for GsLocator {
    type V = Seq<char>;

    closed spec fn view(&self) -> Seq<char> {
        self.url@
    }
}

impl GsLocator {
    /// The locator that `s` spells, if `s` names an object-store directory;
    /// otherwise the failure holds `s` and the rule that it breaks first.
    pub fn from_str(s: &str) -> (r: Result<GsLocator, TransferError>)
        ensures
            match r {
                Ok(locator) => is_gs_directory(s@) && locator@ == s@,
                Err(e) => !is_gs_directory(s@) && e@ == TransferErrorView::InvalidLocator(
                    s@,
                    broken_gs_rule(s@),
                ),
            },
    {
        proof {
            reveal_strlit("gs:");
            reveal_strlit("gs://");
        }
        if !starts_with(s, GS_SCHEME) {
            return Err(TransferError::InvalidLocator(String::from_str(s), LocatorRule::Scheme));
        }
        if !starts_with(s, "gs://") {
            return Err(TransferError::InvalidLocator(String::from_str(s), LocatorRule::Authority));
        }
        let chars = chars_of(s);
        if chars.len() > 5 && chars[chars.len() - 1] == '/' {
            Ok(GsLocator { url: String::from_str(s) })
        } else {
            Err(TransferError::InvalidLocator(String::from_str(s), LocatorRule::TrailingSlash))
        }
    }

    /// The URL of the locator.
    pub fn as_url(&self) -> (r: &str)
        ensures
            r@ == self@,
    {
        self.url.as_str()
    }

    /// What the object-store driver declares.
    pub fn features() -> (r: Features)
        ensures
            is_gs_features(r),
    {
        Features {
            locator: LocatorFeatures::local_data().union(LocatorFeatures::write_local_data()).union(
                LocatorFeatures::write_remote_data(),
            ),
            write_schema_if_exists: IfExistsFeatures::empty(),
            source_args: SourceArgumentsFeatures::empty(),
            dest_args: DestinationArgumentsFeatures::empty(),
            dest_if_exists: IfExistsFeatures::overwrite(),
        }
    }

    /// Whether the object store can take data straight from a locator with the
    /// scheme `source_scheme`: only from the warehouse.
    pub fn supports_write_remote_data(&self, source_scheme: &str) -> (r: bool)
        ensures
            r == (source_scheme@ == BIGQUERY_SCHEME@),
    {
        same_text(source_scheme, BIGQUERY_SCHEME)
    }

    /// The object-store driver as the engine sees it.
    pub fn driver() -> (r: Driver)
        ensures
            r@.scheme == GS_SCHEME@,
            is_gs_features(r@.features),
            r@.remote_sources == seq![BIGQUERY_SCHEME@],
    {
        let mut sources: Vec<String> = Vec::new();
        sources.push(String::from_str(BIGQUERY_SCHEME));
        Driver {
            scheme: String::from_str(GS_SCHEME),
            features: Self::features(),
            remote_sources: sources,
        }
    }
}

} // verus!
