use dataset_store::{CollectionConfig, DBConfig, DatasetConfig, DatasetError, Options};

#[test]
fn options_start_with_every_switch_off() {
    let opts = Options::default();
    assert!(!opts.create_if_missing);
    assert!(!opts.create_missing_column_families);
}

#[test]
fn option_setters_touch_one_switch_each() {
    let mut opts = Options::default();
    opts.create_if_missing(true);
    assert_eq!(
        opts,
        Options { create_if_missing: true, create_missing_column_families: false }
    );
    opts.create_missing_column_families(true);
    assert_eq!(
        opts,
        Options { create_if_missing: true, create_missing_column_families: true }
    );
    opts.create_if_missing(false);
    assert_eq!(
        opts,
        Options { create_if_missing: false, create_missing_column_families: true }
    );
}

#[test]
fn default_config_reserves_nothing() {
    let config = DBConfig::default();
    assert_eq!(config.opts, Options::default());
    assert!(config.cfs.is_empty());
}

#[test]
fn new_collection_config_has_default_options() {
    let config = CollectionConfig::<i32, i32>::new("test");
    assert_eq!(config.name, "test");
    assert_eq!(config.cf_options, Options::default());
}

#[test]
fn reservations_accumulate_in_order() {
    let mut db_config = DBConfig::default();
    db_config.opts.create_if_missing(true);
    let mut first = CollectionConfig::<i32, i32>::new("first");
    first.cf_options.create_missing_column_families(true);
    let second = CollectionConfig::<String, ()>::new("second");
    first.update_db_config(&mut db_config);
    second.update_db_config(&mut db_config);
    assert_eq!(
        db_config.cfs,
        vec![
            (
                "first".to_string(),
                Options { create_if_missing: false, create_missing_column_families: true }
            ),
            ("second".to_string(), Options::default()),
        ]
    );
    assert_eq!(
        db_config.opts,
        Options { create_if_missing: true, create_missing_column_families: false }
    );
}

#[test]
fn opened_store_serves_what_was_reserved() {
    let mut db_config = DBConfig::default();
    CollectionConfig::<i32, i32>::new("a").update_db_config(&mut db_config);
    CollectionConfig::<i32, i32>::new("b").update_db_config(&mut db_config);
    let db = db_config.open(Ok(())).unwrap();
    assert!(db.has_column_family(&"a".to_string()));
    assert!(db.has_column_family(&"b".to_string()));
    assert!(!db.has_column_family(&"c".to_string()));
    assert!(!db.has_column_family(&"default".to_string()));
    assert!(!db.has_column_family(&"".to_string()));
}

#[test]
fn cloned_store_handle_serves_the_same() {
    let mut db_config = DBConfig::default();
    CollectionConfig::<i32, i32>::new("a").update_db_config(&mut db_config);
    let db = db_config.open(Ok(())).unwrap();
    let other = db.clone();
    assert!(other.has_column_family(&"a".to_string()));
    assert!(!other.has_column_family(&"b".to_string()));
}

#[test]
fn config_opens_more_than_once() {
    let mut db_config = DBConfig::default();
    CollectionConfig::<i32, i32>::new("a").update_db_config(&mut db_config);
    let first = db_config.open(Ok(())).unwrap();
    let second = db_config.open(Ok(())).unwrap();
    assert!(first.has_column_family(&"a".to_string()));
    assert!(second.has_column_family(&"a".to_string()));
    assert_eq!(db_config.cfs.len(), 1);
}

#[test]
fn engine_failure_at_open_is_handed_on() {
    let db_config = DBConfig::default();
    let opened = db_config.open(Err("IO error: lock hold by current process".to_string()));
    assert!(matches!(
        opened,
        Err(DatasetError::RocksdbError(message))
            if message == "IO error: lock hold by current process"
    ));
}
