use commitlabs::price_oracle::{OracleError, PriceData, PriceOracleContract, CURRENT_VERSION, DEFAULT_MAX_STALENESS};

fn s(x: &str) -> String {
    x.to_string()
}

fn ready() -> (PriceOracleContract, String, String) {
    let admin = s("admin");
    let publisher = s("publisher");
    let mut oracle = PriceOracleContract::new();
    oracle.initialize(admin.clone()).unwrap();
    oracle.add_oracle(&admin, publisher.clone()).unwrap();
    (oracle, admin, publisher)
}

#[test]
fn initialize_sets_defaults_once() {
    let (mut oracle, admin, _) = ready();
    assert_eq!(oracle.get_admin(), Ok(admin.clone()));
    assert_eq!(oracle.get_max_staleness(), DEFAULT_MAX_STALENESS);
    assert_eq!(oracle.get_version(), CURRENT_VERSION);
    assert_eq!(oracle.initialize(s("other")), Err(OracleError::AlreadyInitialized));
    assert_eq!(PriceOracleContract::new().get_admin(), Err(OracleError::NotInitialized));
}

#[test]
fn only_whitelisted_publishers_write_prices() {
    let (mut oracle, admin, publisher) = ready();
    assert_eq!(
        oracle.set_price(&s("stranger"), s("xlm"), 10, 7, 100),
        Err(OracleError::OracleNotWhitelisted)
    );
    assert_eq!(oracle.set_price(&publisher, s("xlm"), -1, 7, 100), Err(OracleError::InvalidPrice));
    oracle.set_price(&publisher, s("xlm"), 10, 7, 100).unwrap();
    assert_eq!(oracle.get_price(&s("xlm")), PriceData { price: 10, updated_at: 100, decimals: 7 });
    oracle.remove_oracle(&admin, &publisher).unwrap();
    assert!(!oracle.is_oracle_whitelisted(&publisher));
    assert_eq!(
        oracle.set_price(&publisher, s("xlm"), 11, 7, 101),
        Err(OracleError::OracleNotWhitelisted)
    );
}

#[test]
fn missing_price_reads_as_zero_record() {
    let (oracle, _, _) = ready();
    assert_eq!(oracle.get_price(&s("none")), PriceData { price: 0, updated_at: 0, decimals: 0 });
    assert_eq!(oracle.get_price_valid(&s("none"), None, 5), Err(OracleError::PriceNotFound));
}

#[test]
fn freshness_window_and_future_dates() {
    let (mut oracle, _, publisher) = ready();
    oracle.set_price(&publisher, s("btc"), 500, 8, 1_000).unwrap();
    let data = PriceData { price: 500, updated_at: 1_000, decimals: 8 };
    assert_eq!(oracle.get_price_valid(&s("btc"), None, 1_000), Ok(data));
    assert_eq!(oracle.get_price_valid(&s("btc"), None, 4_600), Ok(data));
    assert_eq!(oracle.get_price_valid(&s("btc"), None, 4_601), Err(OracleError::StalePrice));
    assert_eq!(oracle.get_price_valid(&s("btc"), Some(10), 1_011), Err(OracleError::StalePrice));
    assert_eq!(oracle.get_price_valid(&s("btc"), Some(10), 1_010), Ok(data));
    assert_eq!(oracle.get_price_valid(&s("btc"), None, 999), Err(OracleError::StalePrice));
}

#[test]
fn admin_controls_are_refused_to_others() {
    let (mut oracle, admin, publisher) = ready();
    assert_eq!(oracle.add_oracle(&publisher, s("x")), Err(OracleError::Unauthorized));
    assert_eq!(oracle.set_max_staleness(&publisher, 5), Err(OracleError::Unauthorized));
    oracle.set_max_staleness(&admin, 60).unwrap();
    assert_eq!(oracle.get_max_staleness(), 60);
    oracle.set_admin(&admin, s("new_admin")).unwrap();
    assert_eq!(oracle.get_admin(), Ok(s("new_admin")));
    assert_eq!(oracle.set_admin(&admin, s("again")), Err(OracleError::Unauthorized));
}

#[test]
fn upgrade_rejects_the_zero_hash() {
    let (oracle, admin, _) = ready();
    assert_eq!(oracle.upgrade(&admin, &[0u8; 32]), Err(OracleError::InvalidWasmHash));
    let mut hash = [0u8; 32];
    hash[31] = 1;
    assert_eq!(oracle.upgrade(&admin, &hash), Ok(()));
    assert_eq!(oracle.upgrade(&s("stranger"), &hash), Err(OracleError::Unauthorized));
}

#[test]
fn migration_from_legacy_keeps_the_window() {
    let mut oracle = PriceOracleContract::from_legacy(s("admin"), Some(900));
    assert_eq!(oracle.get_version(), 0);
    assert_eq!(oracle.get_max_staleness(), 900);
    assert_eq!(oracle.migrate(&s("admin"), 3), Err(OracleError::InvalidVersion));
    oracle.migrate(&s("admin"), 0).unwrap();
    assert_eq!(oracle.get_version(), CURRENT_VERSION);
    assert_eq!(oracle.get_max_staleness(), 900);
    assert_eq!(oracle.migrate(&s("admin"), 1), Err(OracleError::AlreadyMigrated));
    let mut bare = PriceOracleContract::from_legacy(s("admin"), None);
    bare.migrate(&s("admin"), 0).unwrap();
    assert_eq!(bare.get_max_staleness(), DEFAULT_MAX_STALENESS);
}

#[test]
fn rotating_a_publisher_revokes_the_old_key() {
    let (mut oracle, admin, old_key) = ready();
    oracle.remove_oracle(&admin, &old_key).unwrap();
    oracle.add_oracle(&admin, s("new_key")).unwrap();
    assert!(oracle.is_oracle_whitelisted(&s("new_key")));
    assert!(!oracle.is_oracle_whitelisted(&old_key));
    assert_eq!(oracle.set_price(&old_key, s("eth"), 1, 8, 5), Err(OracleError::OracleNotWhitelisted));
    oracle.set_price(&s("new_key"), s("eth"), 2, 8, 5).unwrap();
    assert_eq!(oracle.get_price(&s("eth")).price, 2);
}
