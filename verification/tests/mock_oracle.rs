use commitlabs::mock_oracle::{apply_volatility, MockOracleContract, OracleError};

const NOW: u64 = 50_000;

fn s(x: &str) -> String {
    x.to_string()
}

fn create_test_contract() -> (MockOracleContract, String) {
    let admin = s("admin");
    let mut oracle = MockOracleContract::new();
    oracle.initialize(admin.clone(), 3600).unwrap();
    (oracle, admin)
}

#[test]
fn lib_test_initialize() {
    let (oracle, admin) = create_test_contract();
    assert_eq!(oracle.get_admin().unwrap(), admin);
}

#[test]
fn test_set_and_get_price() {
    let (mut oracle, admin) = create_test_contract();
    let asset = s("asset");
    oracle.set_price(&admin, asset.clone(), 100_000_000, 8, 1000, NOW).unwrap();
    let price = oracle.get_price(&asset, NOW).unwrap();
    assert_eq!(price, 100_000_000);
}

#[test]
fn test_price_not_found() {
    let (oracle, _) = create_test_contract();
    let result = oracle.get_price(&s("asset"), NOW);
    assert_eq!(result, Err(OracleError::PriceNotFound));
}

#[test]
fn test_set_test_mode() {
    let (mut oracle, admin) = create_test_contract();
    oracle.set_test_mode(&admin, true).unwrap();
}

#[test]
fn test_set_test_mode_unauthorized() {
    let (mut oracle, _) = create_test_contract();
    let res = oracle.set_test_mode(&s("stranger"), true);
    assert_eq!(res, Err(OracleError::Unauthorized));
}

#[test]
fn test_configurable_price_override() {
    let (mut oracle, admin) = create_test_contract();
    let asset = s("asset");
    oracle.set_test_mode(&admin, true).unwrap();
    oracle.set_test_price(&admin, asset.clone(), 500_000_000).unwrap();
    let price = oracle.get_price(&asset, NOW).unwrap();
    assert_eq!(price, 500_000_000);
}

#[test]
fn test_configurable_price_override_applies_to_get_price_data_and_no_older_than() {
    let (mut oracle, admin) = create_test_contract();
    let asset = s("asset");
    oracle.set_test_mode(&admin, true).unwrap();
    oracle.set_test_price(&admin, asset.clone(), 500_000_000).unwrap();
    let price_data = oracle.get_price_data(&asset, NOW).unwrap();
    let price = oracle.get_price_no_older_than(&asset, 1, NOW).unwrap();
    assert_eq!(price_data.price, 500_000_000);
    assert_eq!(price, 500_000_000);
}

#[test]
fn test_configurable_price_override_preserves_metadata_in_get_price_data() {
    let (mut oracle, admin) = create_test_contract();
    let asset = s("asset");
    oracle.set_price(&admin, asset.clone(), 100_000_000, 8, 1234, NOW).unwrap();
    oracle.set_test_mode(&admin, true).unwrap();
    oracle.set_test_price(&admin, asset.clone(), 200_000_000).unwrap();
    let price_data = oracle.get_price_data(&asset, NOW).unwrap();
    assert_eq!(price_data.price, 200_000_000);
    assert_eq!(price_data.decimals, 8);
    assert_eq!(price_data.confidence, 1234);
}

#[test]
fn test_multiple_price_overrides() {
    let (mut oracle, admin) = create_test_contract();
    oracle.set_test_mode(&admin, true).unwrap();
    oracle.set_test_price(&admin, s("asset1"), 100_000_000).unwrap();
    oracle.set_test_price(&admin, s("asset2"), 200_000_000).unwrap();
    assert_eq!(oracle.get_price(&s("asset1"), NOW).unwrap(), 100_000_000);
    assert_eq!(oracle.get_price(&s("asset2"), NOW).unwrap(), 200_000_000);
}

#[test]
fn test_set_test_price_invalid_price() {
    let (mut oracle, admin) = create_test_contract();
    oracle.set_test_mode(&admin, true).unwrap();
    let res = oracle.set_test_price(&admin, s("asset"), -100);
    assert_eq!(res, Err(OracleError::InvalidPrice));
}

#[test]
fn test_failure_injection_price_not_found() {
    let (mut oracle, admin) = create_test_contract();
    oracle.set_test_mode(&admin, true).unwrap();
    oracle.configure_failure_mode(&admin, s("price_not_found"), true).unwrap();
    assert_eq!(oracle.get_price(&s("asset"), NOW), Err(OracleError::PriceNotFound));
}

#[test]
fn test_failure_injection_per_asset_affects_only_configured_asset() {
    let (mut oracle, admin) = create_test_contract();
    oracle.set_test_mode(&admin, true).unwrap();
    oracle.set_price(&admin, s("asset1"), 100_000_000, 8, 1000, NOW).unwrap();
    oracle.set_price(&admin, s("asset2"), 200_000_000, 8, 1000, NOW).unwrap();
    oracle
        .configure_failure_mode_for_asset(&admin, s("asset1"), s("stale_price"), true)
        .unwrap();
    assert_eq!(oracle.get_price_data(&s("asset1"), NOW), Err(OracleError::StalePrice));
    let r2 = oracle.get_price_data(&s("asset2"), NOW).unwrap();
    assert_eq!(r2.price, 200_000_000);
}

#[test]
fn test_failure_injection_global_still_affects_get_price_data() {
    let (mut oracle, admin) = create_test_contract();
    oracle.set_test_mode(&admin, true).unwrap();
    oracle.set_price(&admin, s("asset1"), 100_000_000, 8, 1000, NOW).unwrap();
    oracle.set_price(&admin, s("asset2"), 200_000_000, 8, 1000, NOW).unwrap();
    oracle.configure_failure_mode(&admin, s("stale_price"), true).unwrap();
    assert_eq!(oracle.get_price_data(&s("asset1"), NOW), Err(OracleError::StalePrice));
    assert_eq!(oracle.get_price_data(&s("asset2"), NOW), Err(OracleError::StalePrice));
}

#[test]
fn test_failure_injection_stale_price() {
    let (mut oracle, admin) = create_test_contract();
    oracle.set_test_mode(&admin, true).unwrap();
    oracle.set_price(&admin, s("asset"), 100_000_000, 8, 1000, NOW).unwrap();
    oracle.configure_failure_mode(&admin, s("stale_price"), true).unwrap();
    assert_eq!(oracle.get_price(&s("asset"), NOW), Err(OracleError::StalePrice));
}

#[test]
fn test_failure_injection_oracle_paused() {
    let (mut oracle, admin) = create_test_contract();
    oracle.set_test_mode(&admin, true).unwrap();
    oracle.configure_failure_mode(&admin, s("oracle_paused"), true).unwrap();
    assert_eq!(oracle.get_price(&s("asset"), NOW), Err(OracleError::NotInitialized));
}

#[test]
fn test_failure_injection_invalid_price() {
    let (mut oracle, admin) = create_test_contract();
    oracle.set_test_mode(&admin, true).unwrap();
    oracle.configure_failure_mode(&admin, s("invalid_price"), true).unwrap();
    assert_eq!(oracle.get_price(&s("asset"), NOW), Err(OracleError::InvalidPrice));
}

#[test]
fn test_price_volatility_simulation() {
    let (mut oracle, admin) = create_test_contract();
    let asset = s("asset");
    oracle.set_test_mode(&admin, true).unwrap();
    oracle.set_test_price(&admin, asset.clone(), 100_000_000).unwrap();
    oracle.set_volatility_factor(&admin, 500).unwrap();
    let price = oracle.get_price(&asset, NOW).unwrap();
    assert!(price > 100_000_000);
    assert!(price < 110_000_000);
}

#[test]
fn test_query_delay_configuration() {
    let (mut oracle, admin) = create_test_contract();
    oracle.set_query_delay(&admin, 30).unwrap();
}

#[test]
fn test_clear_test_configurations() {
    let (mut oracle, admin) = create_test_contract();
    let asset = s("asset");
    oracle.set_test_mode(&admin, true).unwrap();
    oracle.set_test_price(&admin, asset.clone(), 500_000_000).unwrap();
    oracle.set_volatility_factor(&admin, 1000).unwrap();
    oracle.clear_test_configurations(&admin).unwrap();
    assert_eq!(oracle.get_price(&asset, NOW), Err(OracleError::PriceNotFound));
}

#[test]
fn test_configure_failure_mode_unauthorized() {
    let (mut oracle, _) = create_test_contract();
    let res = oracle.configure_failure_mode(&s("stranger"), s("test_failure"), true);
    assert_eq!(res, Err(OracleError::Unauthorized));
}

#[test]
fn test_set_volatility_factor_unauthorized() {
    let (mut oracle, _) = create_test_contract();
    let res = oracle.set_volatility_factor(&s("stranger"), 1000);
    assert_eq!(res, Err(OracleError::Unauthorized));
}

#[test]
fn test_test_mode_isolation() {
    let (mut oracle, admin) = create_test_contract();
    let asset = s("asset");
    oracle.set_price(&admin, asset.clone(), 100_000_000, 8, 1000, NOW).unwrap();
    assert_eq!(oracle.get_price(&asset, NOW).unwrap(), 100_000_000);
}

#[test]
fn volatility_shifts_by_basis_points() {
    assert_eq!(apply_volatility(100_000_000, 500), 105_000_000);
    assert_eq!(apply_volatility(100_000_000, -500), 95_000_000);
    assert_eq!(apply_volatility(1234, 0), 1234);
    assert_eq!(apply_volatility(-20_000, 100), -20_200);
}

#[test]
fn test_settings_do_nothing_outside_test_mode() {
    let (mut oracle, admin) = create_test_contract();
    let asset = s("asset");
    oracle.set_price(&admin, asset.clone(), 7_000, 2, 1, NOW).unwrap();
    oracle.set_test_price(&admin, asset.clone(), 9_000).unwrap();
    oracle.configure_failure_mode(&admin, s("stale_price"), true).unwrap();
    assert_eq!(oracle.get_price(&asset, NOW), Ok(7_000));
    // The volatility factor is applied whether or not test mode is on.
    oracle.set_volatility_factor(&admin, 500).unwrap();
    assert_eq!(oracle.get_price(&asset, NOW), Ok(7_350));
}

#[test]
fn stale_prices_are_rejected_by_age() {
    let (mut oracle, admin) = create_test_contract();
    let asset = s("asset");
    oracle.set_price_with_timestamp(&admin, asset.clone(), 10, NOW - 3_601, 8, 0).unwrap();
    assert_eq!(oracle.get_price(&asset, NOW), Err(OracleError::StalePrice));
    assert_eq!(oracle.get_price_no_older_than(&asset, 4_000, NOW), Ok(10));
    assert_eq!(oracle.get_price_no_older_than(&asset, 3_600, NOW), Err(OracleError::StalePrice));
}

#[test]
fn pausing_makes_prices_unavailable() {
    let (mut oracle, admin) = create_test_contract();
    let asset = s("asset");
    oracle.set_price(&admin, asset.clone(), 10, 8, 0, NOW).unwrap();
    oracle.pause(&admin).unwrap();
    assert_eq!(oracle.get_price(&asset, NOW), Err(OracleError::NotInitialized));
    oracle.unpause(&admin).unwrap();
    assert_eq!(oracle.get_price(&asset, NOW), Ok(10));
}

#[test]
fn feeders_may_publish_until_removed() {
    let (mut oracle, admin) = create_test_contract();
    let feeder = s("feeder");
    assert_eq!(
        oracle.set_price(&feeder, s("a"), 1, 8, 0, NOW),
        Err(OracleError::Unauthorized)
    );
    oracle.add_feeder(&admin, feeder.clone()).unwrap();
    assert!(oracle.is_feeder(&feeder));
    oracle.set_price(&feeder, s("a"), 1, 8, 0, NOW).unwrap();
    assert!(oracle.has_price(&s("a")));
    oracle.remove_feeder(&admin, &feeder).unwrap();
    assert!(!oracle.is_feeder(&feeder));
    assert_eq!(
        oracle.set_price(&feeder, s("a"), 2, 8, 0, NOW),
        Err(OracleError::Unauthorized)
    );
    oracle.remove_price(&admin, &s("a")).unwrap();
    assert!(!oracle.has_price(&s("a")));
}

#[test]
fn initialize_is_refused_twice() {
    let (mut oracle, _) = create_test_contract();
    assert_eq!(oracle.initialize(s("other"), 10), Err(OracleError::AlreadyInitialized));
    let fresh = MockOracleContract::new();
    assert_eq!(fresh.get_admin(), Err(OracleError::NotInitialized));
}

#[test]
fn override_answers_even_when_the_published_price_is_old() {
    let (mut oracle, admin) = create_test_contract();
    let asset = s("asset");
    oracle.set_price_with_timestamp(&admin, asset.clone(), 10, 0, 8, 0).unwrap();
    oracle.set_test_mode(&admin, true).unwrap();
    oracle.set_test_price(&admin, asset.clone(), 77).unwrap();
    assert_eq!(oracle.get_price(&asset, NOW), Ok(77));
    assert_eq!(oracle.get_price_no_older_than(&asset, 0, NOW), Ok(77));
    let data = oracle.get_price_data(&asset, NOW).unwrap();
    assert_eq!(data.price, 77);
    assert_eq!(data.timestamp, 0);
}
