use dbcrossbarlib::args::{
    DestinationArguments, DriverArguments, SharedArguments, SourceArguments, TemporaryStorage,
};
use dbcrossbarlib::error::{ErrorKind, TransferError, UnsupportedOption};
use dbcrossbarlib::features::{
    DestinationArgumentsFeatures, Features, IfExistsFeatures, LocatorFeatures,
    SourceArgumentsFeatures,
};
use dbcrossbarlib::if_exists::IfExists;
use dbcrossbarlib::schema::{Column, DataType, Table};

fn one_pair() -> DriverArguments {
    DriverArguments::from_pairs(vec![("k".to_string(), "v".to_string())])
}

fn features(source: SourceArgumentsFeatures, dest: DestinationArgumentsFeatures, if_exists: IfExistsFeatures) -> Features {
    Features {
        locator: LocatorFeatures::local_data().union(LocatorFeatures::write_local_data()),
        write_schema_if_exists: IfExistsFeatures::empty(),
        source_args: source,
        dest_args: dest,
        dest_if_exists: if_exists,
    }
}

fn plain() -> Features {
    features(
        SourceArgumentsFeatures::empty(),
        DestinationArgumentsFeatures::empty(),
        IfExistsFeatures::overwrite(),
    )
}

fn table() -> Table {
    Table::new(
        Some("t".to_string()),
        vec![
            Column { name: "id".to_string(), data_type: DataType::Int64, is_nullable: false, comment: None },
            Column { name: "name".to_string(), data_type: DataType::Text, is_nullable: true, comment: None },
        ],
    )
    .unwrap()
}

#[test]
fn source_driver_args_are_rejected_without_the_flag() {
    let source = SourceArguments::new(one_pair(), None);
    let err = source.verify(plain()).unwrap_err();
    assert!(matches!(err, TransferError::UnsupportedArgument(UnsupportedOption::FromArgs)));
    assert_eq!(err.message(), "this data source does not support --from-args");
    assert_eq!(err.kind(), ErrorKind::UnsupportedArgument);
    assert_eq!(err.exit_code(), 1);
}

#[test]
fn where_clause_is_rejected_without_the_flag() {
    let source = SourceArguments::new(DriverArguments::default(), Some("x > 1".to_string()));
    let err = source.verify(plain()).unwrap_err();
    assert_eq!(err.message(), "this data source does not support --where");
}

#[test]
fn driver_args_are_reported_before_the_where_clause() {
    let source = SourceArguments::new(one_pair(), Some("x > 1".to_string()));
    let err = source.verify(plain()).unwrap_err();
    assert!(matches!(err, TransferError::UnsupportedArgument(UnsupportedOption::FromArgs)));
    let only_args = features(
        SourceArgumentsFeatures::driver_args(),
        DestinationArgumentsFeatures::empty(),
        IfExistsFeatures::empty(),
    );
    let source = SourceArguments::new(one_pair(), Some("x > 1".to_string()));
    let err = source.verify(only_args).unwrap_err();
    assert!(matches!(err, TransferError::UnsupportedArgument(UnsupportedOption::Where)));
}

#[test]
fn verified_source_arguments_keep_their_fields() {
    let all = features(
        SourceArgumentsFeatures::driver_args().union(SourceArgumentsFeatures::where_clause()),
        DestinationArgumentsFeatures::empty(),
        IfExistsFeatures::empty(),
    );
    let source = SourceArguments::new(one_pair(), Some("x > 1".to_string()));
    let verified = source.verify(all).unwrap();
    assert_eq!(verified.where_clause(), Some("x > 1"));
    assert!(!verified.driver_args().is_empty());
    assert_eq!(verified.driver_args().get("k").map(|s| s.as_str()), Some("v"));
    assert_eq!(verified.driver_args().get("other"), None);
}

#[test]
fn checking_agrees_with_verifying() {
    let source = SourceArguments::new(one_pair(), None);
    assert!(source.check(plain()).is_err());
    assert!(source.verify(plain()).is_err());
    let source = SourceArguments::new(DriverArguments::default(), None);
    assert!(source.check(plain()).is_ok());
    assert!(source.verify(plain()).is_ok());
}

#[test]
fn empty_bundles_are_supported_by_every_driver() {
    let nothing = features(
        SourceArgumentsFeatures::empty(),
        DestinationArgumentsFeatures::empty(),
        IfExistsFeatures::error(),
    );
    let source = SourceArguments::for_temporary().verify(nothing).unwrap();
    assert_eq!(source.where_clause(), None);
    assert!(source.driver_args().is_empty());
    let dest = DestinationArguments::new(DriverArguments::default(), IfExists::default());
    let dest = dest.verify(nothing).unwrap();
    assert!(matches!(dest.if_exists(), IfExists::Error));
}

#[test]
fn destination_driver_args_are_rejected_without_the_flag() {
    let dest = DestinationArguments::new(one_pair(), IfExists::Overwrite);
    let err = dest.verify(plain()).unwrap_err();
    assert_eq!(err.message(), "this data destination does not support --to-args");
    assert_eq!(err.exit_code(), 1);
}

#[test]
fn destination_policy_must_be_declared() {
    let dest = DestinationArguments::new(DriverArguments::default(), IfExists::Append);
    let err = dest.verify(plain()).unwrap_err();
    assert!(matches!(err, TransferError::UnsupportedArgument(UnsupportedOption::IfExists)));
    let upsert = DestinationArguments::new(
        DriverArguments::default(),
        IfExists::Upsert(vec!["id".to_string()]),
    );
    let with_upsert = features(
        SourceArgumentsFeatures::empty(),
        DestinationArgumentsFeatures::driver_args(),
        IfExistsFeatures::upsert().union(IfExistsFeatures::append()),
    );
    let verified = upsert.verify(with_upsert).unwrap();
    assert!(matches!(verified.if_exists(), IfExists::Upsert(keys) if keys.len() == 1));
}

#[test]
fn temporary_destination_overwrites() {
    let dest = DestinationArguments::for_temporary().verify(plain()).unwrap();
    assert!(matches!(dest.if_exists(), IfExists::Overwrite));
    assert!(dest.driver_args().is_empty());
    let no_overwrite = features(
        SourceArgumentsFeatures::empty(),
        DestinationArgumentsFeatures::empty(),
        IfExistsFeatures::append(),
    );
    assert!(DestinationArguments::for_temporary().verify(no_overwrite).is_err());
}

#[test]
fn shared_arguments_always_verify() {
    let storage = TemporaryStorage::new(vec!["gs://tmp/".to_string()]);
    let shared = SharedArguments::new(table(), storage);
    let verified = shared.verify(Features::empty()).unwrap();
    assert_eq!(verified.schema().columns().len(), 2);
    assert_eq!(verified.temporary_storage().locations().len(), 1);
}

#[test]
fn reverifying_gives_the_same_bundle() {
    let all = features(
        SourceArgumentsFeatures::driver_args().union(SourceArgumentsFeatures::where_clause()),
        DestinationArgumentsFeatures::driver_args(),
        IfExistsFeatures::overwrite(),
    );
    let first = SourceArguments::new(one_pair(), Some("a = 1".to_string())).verify(all).unwrap();
    let again = SourceArguments::new(
        first.driver_args().clone(),
        first.where_clause().map(|s| s.to_string()),
    )
    .verify(all)
    .unwrap();
    assert_eq!(again.where_clause(), first.where_clause());
    assert_eq!(again.driver_args().get("k"), first.driver_args().get("k"));
}

#[test]
fn the_last_value_of_a_key_wins() {
    let args = DriverArguments::from_pairs(vec![
        ("a".to_string(), "1".to_string()),
        ("b".to_string(), "2".to_string()),
        ("a".to_string(), "3".to_string()),
    ]);
    assert_eq!(args.get("a").map(|s| s.as_str()), Some("3"));
    assert_eq!(args.get("b").map(|s| s.as_str()), Some("2"));
    assert_eq!(args.get("c"), None);
    assert!(DriverArguments::default().is_empty());
}

#[test]
fn temporary_storage_gives_the_first_place_with_a_scheme() {
    let storage = TemporaryStorage::new(vec![
        "s3://bucket/a/".to_string(),
        "gs://one/".to_string(),
        "gs://two/".to_string(),
    ]);
    assert_eq!(storage.find_scheme("gs:"), Some("gs://one/"));
    assert_eq!(storage.find_scheme("s3:"), Some("s3://bucket/a/"));
    assert_eq!(storage.find_scheme("file:"), None);
    assert_eq!(TemporaryStorage::new(vec![]).find_scheme("gs:"), None);
}

#[test]
fn flag_sets_are_bytes() {
    assert_eq!(SourceArgumentsFeatures::driver_args().bits(), 0b01);
    assert_eq!(SourceArgumentsFeatures::where_clause().bits(), 0b10);
    assert_eq!(DestinationArgumentsFeatures::driver_args().bits(), 0b01);
    let both = SourceArgumentsFeatures::driver_args().union(SourceArgumentsFeatures::where_clause());
    assert_eq!(both.bits(), 0b11);
    assert!(both.contains(SourceArgumentsFeatures::where_clause()));
    assert!(!SourceArgumentsFeatures::driver_args().contains(both));
    assert!(both.contains(SourceArgumentsFeatures::empty()));
    assert!(SourceArgumentsFeatures::empty().is_empty());
    assert_eq!(SourceArgumentsFeatures::from_bits_truncate(0xff), both);
    assert_eq!(LocatorFeatures::from_bits_truncate(0xf0), LocatorFeatures::empty());
    assert_eq!(IfExistsFeatures::from_bits_truncate(IfExistsFeatures::APPEND).bits(), 2);
}

#[test]
fn policies_name_their_flags() {
    assert_eq!(IfExists::Error.to_feature(), IfExistsFeatures::error());
    assert_eq!(IfExists::Append.to_feature(), IfExistsFeatures::append());
    assert_eq!(IfExists::Overwrite.to_feature(), IfExistsFeatures::overwrite());
    assert_eq!(IfExists::Upsert(vec![]).to_feature(), IfExistsFeatures::upsert());
    assert!(IfExists::Append.verify(IfExistsFeatures::append()).is_ok());
    assert!(IfExists::Append.verify(IfExistsFeatures::overwrite()).is_err());
}

#[test]
fn upsert_keys_must_be_columns() {
    let t = table();
    let good = IfExists::Upsert(vec!["id".to_string(), "name".to_string()]);
    assert!(good.check_columns(&t).is_ok());
    let bad = IfExists::Upsert(vec!["id".to_string(), "nope".to_string(), "neither".to_string()]);
    let err = bad.check_columns(&t).unwrap_err();
    assert!(matches!(&err, TransferError::UnknownColumn(name) if name == "nope"));
    assert_eq!(err.message(), "unknown column nope");
    assert_eq!(err.kind(), ErrorKind::Schema);
    assert!(IfExists::Overwrite.check_columns(&t).is_ok());
}
