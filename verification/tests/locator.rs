use dbcrossbarlib::error::{ErrorKind, LocatorRule, TransferError};
use dbcrossbarlib::features::{
    DestinationArgumentsFeatures, Features, IfExistsFeatures, LocatorFeatures,
    SourceArgumentsFeatures,
};
use dbcrossbarlib::drivers::gs::{GsLocator, BIGQUERY_SCHEME, GS_SCHEME};
use dbcrossbarlib::locator::{Driver, Registry};

fn driver(scheme: &str) -> Driver {
    Driver { scheme: scheme.to_string(), features: Features::empty(), remote_sources: vec![] }
}

#[test]
fn a_directory_in_the_object_store_is_a_locator() {
    let locator = GsLocator::from_str("gs://bucket/path/").unwrap();
    assert_eq!(locator.as_url(), "gs://bucket/path/");
    assert_eq!(GsLocator::from_str("gs://b/").unwrap().as_url(), "gs://b/");
}

#[test]
fn another_scheme_is_no_object_store_locator() {
    let err = GsLocator::from_str("s3://bucket/path/").unwrap_err();
    assert!(matches!(&err, TransferError::InvalidLocator(url, LocatorRule::Scheme) if url == "s3://bucket/path/"));
    assert_eq!(err.message(), "invalid locator: expected s3://bucket/path/ to begin with gs://");
    assert_eq!(err.kind(), ErrorKind::Parse);
    assert_eq!(err.exit_code(), 1);
    assert!(GsLocator::from_str("").is_err());
    assert!(GsLocator::from_str("g").is_err());
}

#[test]
fn the_scheme_must_be_followed_by_two_slashes() {
    let err = GsLocator::from_str("gs:bucket/path/").unwrap_err();
    assert!(matches!(&err, TransferError::InvalidLocator(_, LocatorRule::Authority)));
    assert_eq!(err.message(), "invalid locator: gs:bucket/path/ must start with gs://");
    assert!(matches!(
        GsLocator::from_str("gs:/bucket/").unwrap_err(),
        TransferError::InvalidLocator(_, LocatorRule::Authority)
    ));
}

#[test]
fn a_directory_ends_with_a_slash() {
    let err = GsLocator::from_str("gs://bucket/file.csv").unwrap_err();
    assert!(matches!(&err, TransferError::InvalidLocator(_, LocatorRule::TrailingSlash)));
    assert_eq!(err.message(), "invalid locator: gs://bucket/file.csv must end with a '/'");
    assert!(matches!(
        GsLocator::from_str("gs://").unwrap_err(),
        TransferError::InvalidLocator(_, LocatorRule::TrailingSlash)
    ));
}

#[test]
fn the_object_store_declares_its_features() {
    let features = GsLocator::features();
    assert!(features.locator.contains(LocatorFeatures::local_data()));
    assert!(features.locator.contains(LocatorFeatures::write_local_data()));
    assert!(features.locator.contains(LocatorFeatures::write_remote_data()));
    assert!(!features.locator.contains(LocatorFeatures::write_schema()));
    assert_eq!(features.locator.bits(), 0b0111);
    assert_eq!(features.write_schema_if_exists, IfExistsFeatures::empty());
    assert_eq!(features.source_args, SourceArgumentsFeatures::empty());
    assert_eq!(features.dest_args, DestinationArgumentsFeatures::empty());
    assert_eq!(features.dest_if_exists, IfExistsFeatures::overwrite());
}

#[test]
fn the_object_store_pulls_from_the_warehouse_only() {
    let locator = GsLocator::from_str("gs://b/out/").unwrap();
    assert!(locator.supports_write_remote_data("bigquery:"));
    assert!(!locator.supports_write_remote_data("postgres:"));
    assert!(!locator.supports_write_remote_data("gs:"));
    let gs = GsLocator::driver();
    assert_eq!(gs.scheme, GS_SCHEME);
    assert_eq!(gs.remote_sources, vec![BIGQUERY_SCHEME.to_string()]);
    assert_eq!(gs.features, GsLocator::features());
    assert!(gs.supports_write_remote_data(&driver("bigquery:")));
    assert!(!gs.supports_write_remote_data(&driver("csv:")));
}

#[test]
fn a_url_selects_the_driver_of_its_scheme() {
    let mut registry = Registry::new();
    registry.register(driver("csv:")).unwrap();
    registry.register(GsLocator::driver()).unwrap();
    registry.register(driver("bigquery:")).unwrap();
    assert_eq!(registry.drivers().len(), 3);
    assert_eq!(registry.find("gs://b/out/").unwrap().scheme, "gs:");
    assert_eq!(registry.find("csv:./in.csv").unwrap().scheme, "csv:");
    assert_eq!(registry.find("bigquery:p:d.t").unwrap().scheme, "bigquery:");
}

#[test]
fn an_unknown_scheme_is_unsupported() {
    let mut registry = Registry::new();
    registry.register(driver("csv:")).unwrap();
    let err = registry.find("ftp://host/file").unwrap_err();
    assert!(matches!(&err, TransferError::UnsupportedScheme(url) if url == "ftp://host/file"));
    assert_eq!(err.message(), "unsupported scheme: ftp://host/file");
    assert_eq!(err.exit_code(), 1);
    assert!(Registry::new().find("csv:x").is_err());
}

#[test]
fn a_scheme_is_registered_once() {
    let mut registry = Registry::new();
    registry.register(driver("csv:")).unwrap();
    registry.register(driver("gs:")).unwrap();
    let err = registry.register(driver("csv:")).unwrap_err();
    assert!(matches!(&err, TransferError::DuplicateScheme(scheme) if scheme == "csv:"));
    assert_eq!(err.message(), "duplicate scheme: csv:");
    assert_eq!(registry.drivers().len(), 2);
}
