use commitlabs::versioning::{
    ContractVersioning, Version, VersionError, CONTRACT_VERSION_MAJOR, CONTRACT_VERSION_MINOR,
    CONTRACT_VERSION_PATCH, CONTRACT_VERSION_STR,
};

const NOW: u64 = 12_345;

fn s(x: &str) -> String {
    x.to_string()
}

fn v(major: u32, minor: u32, patch: u32) -> Version {
    Version { major, minor, patch }
}

fn initialized_by(deployer: &str, major: u32, minor: u32, patch: u32) -> ContractVersioning {
    let mut reg = ContractVersioning::new();
    reg.initialize(s(deployer), major, minor, patch, s("Initial"), NOW).unwrap();
    reg
}

fn initialized(major: u32, minor: u32, patch: u32) -> ContractVersioning {
    initialized_by("deployer", major, minor, patch)
}

#[test]
fn test_get_build_metadata_no_init_required() {
    let meta = ContractVersioning::get_build_metadata();
    assert_eq!(meta.major, CONTRACT_VERSION_MAJOR);
    assert_eq!(meta.minor, CONTRACT_VERSION_MINOR);
    assert_eq!(meta.patch, CONTRACT_VERSION_PATCH);
    assert_eq!(meta.version_str, CONTRACT_VERSION_STR);
}

#[test]
fn test_get_contract_version_no_init_required() {
    let cv = ContractVersioning::get_contract_version();
    assert_eq!(cv.major, CONTRACT_VERSION_MAJOR);
    assert_eq!(cv.minor, CONTRACT_VERSION_MINOR);
    assert_eq!(cv.patch, CONTRACT_VERSION_PATCH);
}

#[test]
fn test_version_str_matches_constants() {
    let text = CONTRACT_VERSION_STR.to_string();
    let parts: Vec<&str> = text.split('.').collect();
    assert_eq!(parts.len(), 3, "VERSION_STR must be MAJOR.MINOR.PATCH");
    let major: u32 = parts[0].parse().expect("major must be a u32");
    let minor: u32 = parts[1].parse().expect("minor must be a u32");
    let patch: u32 = parts[2].parse().expect("patch must be a u32");
    assert_eq!(major, CONTRACT_VERSION_MAJOR);
    assert_eq!(minor, CONTRACT_VERSION_MINOR);
    assert_eq!(patch, CONTRACT_VERSION_PATCH);
}

#[test]
fn test_binary_meets_minimum_exact() {
    assert!(ContractVersioning::binary_meets_minimum(
        CONTRACT_VERSION_MAJOR,
        CONTRACT_VERSION_MINOR,
        CONTRACT_VERSION_PATCH,
    ));
}

#[test]
fn test_binary_meets_minimum_too_high() {
    assert!(!ContractVersioning::binary_meets_minimum(CONTRACT_VERSION_MAJOR + 1, 0, 0));
}

#[test]
fn test_binary_meets_minimum_lower_requirement() {
    assert!(ContractVersioning::binary_meets_minimum(0, 0, 0));
}

#[test]
fn test_build_metadata_consistent_with_contract_version() {
    let meta = ContractVersioning::get_build_metadata();
    let cv = ContractVersioning::get_contract_version();
    assert_eq!(meta.major, cv.major);
    assert_eq!(meta.minor, cv.minor);
    assert_eq!(meta.patch, cv.patch);
}

#[test]
fn test_initialization() {
    let reg = initialized(1, 0, 0);
    let version = reg.get_current_version().unwrap();
    assert_eq!(version.major, 1);
    assert_eq!(version.minor, 0);
    assert_eq!(version.patch, 0);
    assert_eq!(reg.get_version_count(), Ok(1));
}

#[test]
fn test_version_update() {
    let mut reg = initialized(1, 0, 0);
    reg.update_version(s("deployer"), 1, 1, 0, s("Minor update"), NOW + 1).unwrap();
    let version = reg.get_current_version().unwrap();
    assert_eq!(version.major, 1);
    assert_eq!(version.minor, 1);
    assert_eq!(version.patch, 0);
    assert_eq!(reg.get_version_count(), Ok(2));
}

#[test]
fn test_version_comparison() {
    let v1 = v(1, 0, 0);
    let v2 = v(2, 0, 0);
    let v3 = v(1, 0, 0);
    assert_eq!(ContractVersioning::compare_versions(v1, v2), -1);
    assert_eq!(ContractVersioning::compare_versions(v2, v1), 1);
    assert_eq!(ContractVersioning::compare_versions(v1, v3), 0);
}

#[test]
fn test_version_support() {
    let mut reg = initialized(1, 0, 0);
    reg.update_version(s("deployer"), 2, 0, 0, s("V2"), NOW).unwrap();
    assert_eq!(reg.is_version_supported(v(1, 0, 0)), Ok(true));
    assert_eq!(reg.is_version_supported(v(2, 0, 0)), Ok(true));
    assert_eq!(reg.is_version_supported(v(3, 0, 0)), Ok(false));
}

#[test]
fn test_deprecation() {
    let mut reg = initialized_by("admin", 1, 0, 0);
    let version = v(1, 0, 0);
    reg.deprecate_version(s("admin"), version, s("Outdated")).unwrap();
    assert_eq!(reg.is_version_deprecated(version), Ok(true));
}

#[test]
fn test_meets_minimum_version() {
    let reg = initialized(2, 5, 3);
    assert_eq!(reg.meets_minimum_version(2, 5, 3), Ok(true));
    assert_eq!(reg.meets_minimum_version(2, 0, 0), Ok(true));
    assert_eq!(reg.meets_minimum_version(1, 0, 0), Ok(true));
    assert_eq!(reg.meets_minimum_version(3, 0, 0), Ok(false));
}

#[test]
fn increments_must_strictly_increase() {
    assert!(ContractVersioning::is_valid_increment(&v(1, 0, 0), &v(1, 0, 1)));
    assert!(ContractVersioning::is_valid_increment(&v(1, 9, 9), &v(2, 0, 0)));
    assert!(!ContractVersioning::is_valid_increment(&v(1, 2, 3), &v(1, 2, 3)));
    assert!(!ContractVersioning::is_valid_increment(&v(2, 0, 0), &v(1, 9, 9)));
    let mut reg = initialized(1, 2, 0);
    assert_eq!(
        reg.update_version(s("deployer"), 1, 1, 9, s("older"), NOW),
        Err(VersionError::InvalidVersionIncrement)
    );
    assert_eq!(reg.get_version_count(), Ok(1));
}

#[test]
fn registry_refuses_before_initialization_and_twice() {
    let mut reg = ContractVersioning::new();
    assert_eq!(reg.get_current_version(), Err(VersionError::NotInitialized));
    assert_eq!(reg.get_version_count(), Err(VersionError::NotInitialized));
    assert_eq!(reg.is_version_supported(v(1, 0, 0)), Err(VersionError::NotInitialized));
    reg.initialize(s("deployer"), 1, 0, 0, s("a"), NOW).unwrap();
    assert_eq!(
        reg.initialize(s("d"), 2, 0, 0, s("b"), NOW),
        Err(VersionError::AlreadyInitialized)
    );
    assert_eq!(VersionError::AlreadyInitialized.message(), "Already initialized");
}

#[test]
fn minimum_version_bounds_support() {
    let mut reg = initialized(1, 0, 0);
    reg.update_version(s("deployer"), 2, 0, 0, s("V2"), NOW).unwrap();
    assert_eq!(
        reg.update_minimum_version(s("deployer"), 3, 0, 0),
        Err(VersionError::MinimumExceedsCurrent)
    );
    reg.update_minimum_version(s("deployer"), 2, 0, 0).unwrap();
    assert_eq!(reg.get_minimum_version(), Ok(v(2, 0, 0)));
    assert_eq!(reg.is_version_supported(v(1, 0, 0)), Ok(false));
    assert_eq!(reg.meets_minimum_version(2, 0, 1), Ok(false));
}

#[test]
fn deprecation_is_refused_for_unknown_or_repeated_versions() {
    let mut reg = initialized(1, 0, 0);
    assert_eq!(
        reg.deprecate_version(s("deployer"), v(9, 0, 0), s("r")),
        Err(VersionError::VersionNotFound)
    );
    reg.deprecate_version(s("deployer"), v(1, 0, 0), s("r")).unwrap();
    assert_eq!(
        reg.deprecate_version(s("deployer"), v(1, 0, 0), s("r")),
        Err(VersionError::AlreadyDeprecated)
    );
    assert_eq!(reg.is_version_deprecated(v(9, 0, 0)), Ok(false));
}

#[test]
fn history_and_metadata_record_each_version() {
    let mut reg = initialized(1, 0, 0);
    reg.update_version(s("deployer"), 1, 0, 1, s("patch"), NOW + 5).unwrap();
    let history = reg.get_version_history().unwrap();
    assert_eq!(history, &vec![v(1, 0, 0), v(1, 0, 1)]);
    let meta = reg.get_version_metadata(v(1, 0, 1)).unwrap();
    assert_eq!(meta.description, "patch");
    assert_eq!(meta.deployed_by, "deployer");
    assert_eq!(meta.timestamp, NOW + 5);
    assert!(!meta.deprecated);
    assert_eq!(reg.get_version_metadata(v(7, 0, 0)).unwrap_err(), VersionError::VersionNotFound);
}

#[test]
fn compatibility_defaults_and_recorded_verdicts() {
    let mut reg = initialized(1, 0, 0);
    let (same, note) = ContractVersioning::default_compatibility_check(v(1, 0, 0), v(1, 3, 0));
    assert!(same);
    assert_eq!(note, "Same major version - backward compatible");
    let (cross, note) = ContractVersioning::default_compatibility_check(v(1, 0, 0), v(2, 0, 0));
    assert!(!cross);
    assert_eq!(note, "Different major versions - breaking changes");
    let (zero, _) = ContractVersioning::default_compatibility_check(v(0, 1, 0), v(0, 2, 0));
    assert!(!zero);
    assert_eq!(reg.check_compatibility(v(1, 0, 0), v(2, 0, 0)).unwrap().0, false);
    reg.set_compatibility(s("deployer"), v(1, 0, 0), v(2, 0, 0), true, s("bridged"), NOW).unwrap();
    let (ok, note) = reg.check_compatibility(v(2, 0, 0), v(1, 0, 0)).unwrap();
    assert!(ok);
    assert_eq!(note, "bridged");
    assert_eq!(reg.is_client_compatible(v(1, 9, 0)), Ok(true));
}

#[test]
fn migrations_need_an_initialized_registry() {
    let reg = ContractVersioning::new();
    assert_eq!(
        reg.start_migration(&s("deployer"), v(1, 0, 0), v(2, 0, 0)),
        Err(VersionError::NotInitialized)
    );
    let reg = initialized(1, 0, 0);
    assert_eq!(reg.start_migration(&s("deployer"), v(1, 0, 0), v(2, 0, 0)), Ok(()));
    assert_eq!(reg.complete_migration(&s("deployer"), v(1, 0, 0), v(2, 0, 0), true), Ok(()));
}

#[test]
fn only_the_deployer_may_change_the_registry() {
    let mut reg = initialized(1, 0, 0);
    let stranger = s("stranger");
    assert_eq!(
        reg.update_version(stranger.clone(), 2, 0, 0, s("V2"), NOW),
        Err(VersionError::Unauthorized)
    );
    assert_eq!(reg.get_current_version(), Ok(v(1, 0, 0)));
    assert_eq!(reg.get_version_count(), Ok(1));
    assert_eq!(reg.update_minimum_version(stranger.clone(), 1, 0, 0), Err(VersionError::Unauthorized));
    assert_eq!(reg.deprecate_version(stranger.clone(), v(1, 0, 0), s("r")), Err(VersionError::Unauthorized));
    assert_eq!(reg.is_version_deprecated(v(1, 0, 0)), Ok(false));
    assert_eq!(
        reg.set_compatibility(stranger.clone(), v(1, 0, 0), v(2, 0, 0), true, s("n"), NOW),
        Err(VersionError::Unauthorized)
    );
    assert_eq!(reg.start_migration(&stranger, v(1, 0, 0), v(2, 0, 0)), Err(VersionError::Unauthorized));
    assert_eq!(
        reg.complete_migration(&stranger, v(1, 0, 0), v(2, 0, 0), true),
        Err(VersionError::Unauthorized)
    );
    assert_eq!(VersionError::Unauthorized.message(), "Unauthorized: caller is not the deployer");
    assert_eq!(reg.require_updater(&s("deployer")), Ok(()));
}

#[test]
fn the_last_verdict_on_a_pair_wins() {
    let mut reg = initialized(1, 0, 0);
    let d = s("deployer");
    reg.set_compatibility(d.clone(), v(1, 0, 0), v(1, 1, 0), false, s("first"), NOW).unwrap();
    reg.set_compatibility(d.clone(), v(3, 0, 0), v(4, 0, 0), true, s("other"), NOW).unwrap();
    reg.set_compatibility(d.clone(), v(1, 1, 0), v(1, 0, 0), true, s("second"), NOW).unwrap();
    reg.update_version(d.clone(), 2, 0, 0, s("V2"), NOW).unwrap();
    assert_eq!(reg.check_compatibility(v(1, 0, 0), v(1, 1, 0)), Ok((true, s("second"))));
    assert_eq!(reg.check_compatibility(v(1, 1, 0), v(1, 0, 0)), Ok((true, s("second"))));
    // A recorded verdict takes precedence over the default rules.
    reg.set_compatibility(d, v(1, 0, 0), v(1, 1, 0), false, s("third"), NOW).unwrap();
    assert_eq!(reg.check_compatibility(v(1, 0, 0), v(1, 1, 0)), Ok((false, s("third"))));
}

#[test]
fn a_refused_increment_needs_no_room_in_the_counter() {
    let mut reg = initialized(5, 0, 0);
    assert_eq!(
        reg.update_version(s("deployer"), 4, 0, 0, s("down"), NOW),
        Err(VersionError::InvalidVersionIncrement)
    );
}
