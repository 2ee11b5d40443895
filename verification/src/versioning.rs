//! On-chain protocol versioning: the version registry's state machine, the
//! semantic-version order it relies on, and the build metadata of this
//! implementation.
use vstd::prelude::*;
use crate::table::{Table, TableKey};

verus! {

/// Major version of this implementation (semver).
pub const CONTRACT_VERSION_MAJOR: u32 = 0;

/// Minor version of this implementation (semver).
pub const CONTRACT_VERSION_MINOR: u32 = 1;

/// Patch version of this implementation (semver).
pub const CONTRACT_VERSION_PATCH: u32 = 0;

/// Full semver string of this implementation, `"MAJOR.MINOR.PATCH"`.
pub const CONTRACT_VERSION_STR: &'static str = "0.1.0";

/// A semantic version triple.
#[derive(Clone, Copy, Debug, PartialEq, Eq, Structural)]
pub struct Version {
    pub major: u32,
    pub minor: u32,
    pub patch: u32,
}

impl View for Version {
    type V = Version;

    open spec fn view(&self) -> Version {
        *self
    }
}

impl TableKey for Version {
    fn same_key(&self, other: &Self) -> (r: bool) {
        self.major == other.major && self.minor == other.minor && self.patch == other.patch
    }
}

/// Metadata recorded for a registered protocol version.
#[derive(Debug)]
pub struct VersionMetadata {
    /// The version this metadata describes.
    pub version: Version,
    /// Ledger timestamp at which the version was registered.
    pub timestamp: u64,
    /// Release notes.
    pub description: String,
    /// Address that registered the version.
    pub deployed_by: String,
    /// Whether the version has been deprecated.
    pub deprecated: bool,
}

/// An explicit compatibility verdict between two versions.
#[derive(Debug)]
pub struct CompatibilityInfo {
    pub is_compatible: bool,
    pub notes: String,
    /// Ledger timestamp at which the verdict was recorded.
    pub checked_at: u64,
}

/// The implementation's own version constants.
#[derive(Debug)]
pub struct BuildMetadata {
    pub major: u32,
    pub minor: u32,
    pub patch: u32,
    pub version_str: String,
}

/// Why a registry operation was refused.
#[derive(Clone, Copy, Debug, PartialEq, Eq, Structural)]
pub enum VersionError {
    AlreadyInitialized,
    NotInitialized,
    InvalidVersionIncrement,
    VersionNotFound,
    MinimumExceedsCurrent,
    AlreadyDeprecated,
    /// The caller is not the registry's privileged updater.
    Unauthorized,
}

/// The failure text of each refusal.
pub open spec fn version_error_message(e: VersionError) -> Seq<char> {
    match e {
        VersionError::AlreadyInitialized => "Already initialized"@,
        VersionError::NotInitialized => "Contract not initialized"@,
        VersionError::InvalidVersionIncrement => "Invalid version increment"@,
        VersionError::VersionNotFound => "Version not found"@,
        VersionError::MinimumExceedsCurrent => "Minimum version cannot exceed current version"@,
        VersionError::AlreadyDeprecated => "Already deprecated"@,
        VersionError::Unauthorized => "Unauthorized: caller is not the deployer"@,
    }
}

impl VersionError {
    /// The text the operation fails with.
    pub fn message(&self) -> (r: &'static str)
        ensures
            r@ == version_error_message(*self),
    {
        match self {
            VersionError::AlreadyInitialized => "Already initialized",
            VersionError::NotInitialized => "Contract not initialized",
            VersionError::InvalidVersionIncrement => "Invalid version increment",
            VersionError::VersionNotFound => "Version not found",
            VersionError::MinimumExceedsCurrent => "Minimum version cannot exceed current version",
            VersionError::AlreadyDeprecated => "Already deprecated",
            VersionError::Unauthorized => "Unauthorized: caller is not the deployer",
        }
    }
}

/// `a` comes strictly before `b` in the lexicographic order on
/// `(major, minor, patch)`.
pub open spec fn version_lt(a: Version, b: Version) -> bool {
    a.major < b.major || (a.major == b.major && (a.minor < b.minor || (a.minor == b.minor
        && a.patch < b.patch)))
}

/// `a` comes before `b` or equals it.
pub open spec fn version_le(a: Version, b: Version) -> bool {
    version_lt(a, b) || a == b
}

/// `-1`, `0` or `1` as `a` is below, equal to or above `b`.
pub open spec fn version_cmp(a: Version, b: Version) -> int {
    if version_lt(a, b) {
        -1
    } else if a == b {
        0
    } else {
        1
    }
}

/// The version triple of this implementation.
pub open spec fn binary_version() -> Version {
    Version { major: CONTRACT_VERSION_MAJOR, minor: CONTRACT_VERSION_MINOR, patch: CONTRACT_VERSION_PATCH }
}

/// The verdict, and its note, of the default compatibility rules: versions
/// with the same non-zero major are compatible, different majors are not,
/// and under major 0 the minors must agree.
pub open spec fn default_compatibility(v1: Version, v2: Version) -> (bool, Seq<char>) {
    if v1.major == v2.major && v1.major > 0 {
        (true, "Same major version - backward compatible"@)
    } else if v1.major != v2.major {
        (false, "Different major versions - breaking changes"@)
    } else if v1.minor == v2.minor {
        (true, "Version 0.x.x - same minor version"@)
    } else {
        (false, "Version 0.x.x - different minor versions"@)
    }
}


/// The compatibility verdict between `v1` and `v2` in `reg`: the recorded
/// one when there is one, else the default rules.
pub open spec fn compatibility_verdict(reg: RegistryView, v1: Version, v2: Version) -> (bool, Seq<char>) {
    if reg.compatibility.contains_key((v1, v2)) {
        (reg.compatibility[(v1, v2)].is_compatible, reg.compatibility[(v1, v2)].notes@)
    } else {
        default_compatibility(v1, v2)
    }
}

/// The registry's state as seen by contracts.
pub struct RegistryView {
    pub initialized: bool,
    /// The deployer that initialized the registry: its privileged updater.
    pub deployer: Seq<char>,
    pub current: Version,
    pub minimum: Version,
    pub history: Seq<Version>,
    pub count: u32,
    pub metadata: Map<Version, VersionMetadata>,
    pub compatibility: Map<(Version, Version), CompatibilityInfo>,
}

impl RegistryView {
    /// The refusal, if any, of a privileged operation by `caller`: the
    /// registry must be initialized and `caller` must be its deployer.
    pub open spec fn update_refusal(&self, caller: Seq<char>) -> Option<VersionError> {
        if !self.initialized {
            Some(VersionError::NotInitialized)
        } else if caller != self.deployer {
            Some(VersionError::Unauthorized)
        } else {
            None
        }
    }

    /// The relations every reachable registry state keeps: before
    /// initialization nothing is registered; once
    /// initialized, the history is non-empty and strictly increasing, ends
    /// with the current version, has `count` entries, each registered
    /// version has metadata describing it, and the minimum does not exceed
    /// the current version.
    pub open spec fn consistent(&self) -> bool {
        &&& !self.initialized ==> {
            &&& self.history.len() == 0
            &&& self.metadata == Map::<Version, VersionMetadata>::empty()
            &&& self.compatibility == Map::<(Version, Version), CompatibilityInfo>::empty()
        }
        &&& self.initialized ==> {
            &&& self.history.len() >= 1
            &&& self.history.len() == self.count
            &&& self.history.last() == self.current
            &&& forall|i: int, j: int|
                0 <= i < j < self.history.len() ==> version_lt(
                    #[trigger] self.history[i],
                    #[trigger] self.history[j],
                )
            &&& forall|v: Version| #[trigger]
                self.metadata.contains_key(v) <==> self.history.contains(v)
            &&& forall|v: Version| #[trigger]
                self.metadata.contains_key(v) ==> self.metadata[v].version == v
            &&& version_le(self.minimum, self.current)
        }
    }
}

/// The version registry: the current and minimum supported protocol
/// versions, the ordered history, per-version metadata and explicit
/// compatibility verdicts.
pub struct ContractVersioning {
    initialized: bool,
    deployer: String,
    current: Version,
    minimum: Version,
    history: Vec<Version>,
    count: u32,
    metadata: Table<Version, VersionMetadata>,
    compatibility: Table<(Version, Version), CompatibilityInfo>,
}

impl View for ContractVersioning {
    type V = RegistryView;

    closed spec fn view(&self) -> RegistryView {
        RegistryView {
            initialized: self.initialized,
            deployer: self.deployer@,
            current: self.current,
            minimum: self.minimum,
            history: self.history@,
            count: self.count,
            metadata: self.metadata@,
            compatibility: self.compatibility@,
        }
    }
}

impl ContractVersioning {
    /// Compares two versions lexicographically by `(major, minor, patch)`:
    /// `-1` if `v1 < v2`, `0` if equal, `1` if `v1 > v2`.
    pub fn compare_versions(v1: Version, v2: Version) -> (r: i32)
        ensures
            r == version_cmp(v1, v2),
    {
        if v1.major != v2.major {
            return if v1.major > v2.major { 1 } else { -1 };
        }
        if v1.minor != v2.minor {
            return if v1.minor > v2.minor { 1 } else { -1 };
        }
        if v1.patch != v2.patch {
            return if v1.patch > v2.patch { 1 } else { -1 };
        }
        0
    }

    /// Whether `new` is an admissible successor of `old`: strictly greater.
    pub fn is_valid_increment(old: &Version, new: &Version) -> (r: bool)
        ensures
            r == version_lt(*old, *new),
    {
        if old.major != new.major {
            if old.major > new.major {
                return false;
            }
            true
        } else if old.minor != new.minor {
            if old.minor > new.minor {
                return false;
            }
            old.major == new.major
        } else if old.patch != new.patch {
            if old.patch > new.patch {
                return false;
            }
            old.major == new.major && old.minor == new.minor
        } else {
            false
        }
    }

    /// The default compatibility verdict between `v1` and `v2`, with its note.
    pub fn default_compatibility_check(v1: Version, v2: Version) -> (r: (bool, String))
        ensures
            r.0 == default_compatibility(v1, v2).0,
            r.1@ == default_compatibility(v1, v2).1,
    {
        if v1.major == v2.major && v1.major > 0 {
            return (true, "Same major version - backward compatible".to_owned());
        }
        if v1.major != v2.major {
            return (false, "Different major versions - breaking changes".to_owned());
        }
        if v1.minor == v2.minor {
            (true, "Version 0.x.x - same minor version".to_owned())
        } else {
            (false, "Version 0.x.x - different minor versions".to_owned())
        }
    }

    /// The version constants of this implementation; needs no registry state.
    pub fn get_build_metadata() -> (r: BuildMetadata)
        ensures
            r.major == CONTRACT_VERSION_MAJOR,
            r.minor == CONTRACT_VERSION_MINOR,
            r.patch == CONTRACT_VERSION_PATCH,
            r.version_str@ == CONTRACT_VERSION_STR@,
    {
        BuildMetadata {
            major: CONTRACT_VERSION_MAJOR,
            minor: CONTRACT_VERSION_MINOR,
            patch: CONTRACT_VERSION_PATCH,
            version_str: CONTRACT_VERSION_STR.to_owned(),
        }
    }

    /// The version triple of this implementation.
    pub fn get_contract_version() -> (r: Version)
        ensures
            r == binary_version(),
    {
        Version { major: CONTRACT_VERSION_MAJOR, minor: CONTRACT_VERSION_MINOR, patch: CONTRACT_VERSION_PATCH }
    }

    /// Whether this implementation's version is at least the required one.
    pub fn binary_meets_minimum(required_major: u32, required_minor: u32, required_patch: u32) -> (r:
        bool)
        ensures
            r == version_le(
                Version { major: required_major, minor: required_minor, patch: required_patch },
                binary_version(),
            ),
    {
        let binary = Self::get_contract_version();
        let required = Version { major: required_major, minor: required_minor, patch: required_patch };
        Self::compare_versions(binary, required) >= 0
    }
}

proof fn lemma_lt_transitive(a: Version, b: Version, c: Version)
    requires
        version_lt(a, b),
        version_lt(b, c),
    ensures
        version_lt(a, c),
{
}

impl ContractVersioning {
    #[verifier::type_invariant]
    closed spec fn registry_invariant(&self) -> bool {
        self@.consistent()
    }

    /// A registry that has not been initialized.
    pub fn new() -> (r: Self)
        ensures
            r@.consistent(),
            !r@.initialized,
            r@.deployer == Seq::<char>::empty(),
            r@.current == (Version { major: 0, minor: 0, patch: 0 }),
            r@.minimum == (Version { major: 0, minor: 0, patch: 0 }),
            r@.history == Seq::<Version>::empty(),
            r@.count == 0,
            r@.metadata == Map::<Version, VersionMetadata>::empty(),
            r@.compatibility == Map::<(Version, Version), CompatibilityInfo>::empty(),
    {
        let zero = Version { major: 0, minor: 0, patch: 0 };
        ContractVersioning {
            initialized: false,
            deployer: String::new(),
            current: zero,
            minimum: zero,
            history: Vec::new(),
            count: 0,
            metadata: Table::new(),
            compatibility: Table::new(),
        }
    }

    /// Registers the first protocol version, which also becomes the minimum
    /// supported version, and makes `deployer` the registry's privileged
    /// updater; refused once the registry is initialized.
    pub fn initialize(
        &mut self,
        deployer: String,
        major: u32,
        minor: u32,
        patch: u32,
        description: String,
        now: u64,
    ) -> (r: Result<(), VersionError>)
        ensures
            final(self)@.consistent(),
            old(self)@.initialized ==> r == Err::<(), VersionError>(VersionError::AlreadyInitialized)
                && final(self)@ == old(self)@,
            !old(self)@.initialized ==> r is Ok && ({
                let v = Version { major, minor, patch };
                &&& final(self)@.initialized
                &&& final(self)@.deployer == deployer@
                &&& final(self)@.current == v
                &&& final(self)@.minimum == v
                &&& final(self)@.history == seq![v]
                &&& final(self)@.count == 1
                &&& final(self)@.metadata == Map::<Version, VersionMetadata>::empty().insert(
                    v,
                    VersionMetadata {
                        version: v,
                        timestamp: now,
                        description,
                        deployed_by: deployer,
                        deprecated: false,
                    },
                )
                &&& final(self)@.compatibility == Map::<(Version, Version), CompatibilityInfo>::empty()
            }),
    {
        proof {
            use_type_invariant(&*self);
        }
        if self.initialized {
            return Err(VersionError::AlreadyInitialized);
        }
        let version = Version { major, minor, patch };
        let updater = deployer.clone();
        let meta = VersionMetadata {
            version,
            timestamp: now,
            description,
            deployed_by: deployer,
            deprecated: false,
        };
        let mut metadata = Table::new();
        std::mem::swap(&mut metadata, &mut self.metadata);
        metadata.insert(version, meta);
        let mut history = Vec::new();
        history.push(version);
        let mut compatibility = Table::new();
        std::mem::swap(&mut compatibility, &mut self.compatibility);
        proof {
            assert(history@ == seq![version]);
            assert forall|v: Version| #[trigger]
                metadata@.contains_key(v) <==> history@.contains(v) by {
                if v == version {
                    assert(history@[0] == v);
                }
            }
        }
        *self = ContractVersioning {
            initialized: true,
            deployer: updater,
            current: version,
            minimum: version,
            history,
            count: 1,
            metadata,
            compatibility,
        };
        Ok(())
    }

    /// Advances the current protocol version to `(major, minor, patch)`,
    /// which must be strictly greater than the current one; records its
    /// metadata and appends it to the history. Only the deployer may.
    pub fn update_version(
        &mut self,
        updater: String,
        major: u32,
        minor: u32,
        patch: u32,
        description: String,
        now: u64,
    ) -> (r: Result<(), VersionError>)
        requires
            old(self)@.update_refusal(updater@) is None && version_lt(
                old(self)@.current,
                Version { major, minor, patch },
            ) ==> old(self)@.count < u32::MAX,
        ensures
            final(self)@.consistent(),
            old(self)@.update_refusal(updater@) is Some ==> r == Err::<(), VersionError>(
                old(self)@.update_refusal(updater@)->Some_0,
            ) && final(self)@ == old(self)@,
            old(self)@.update_refusal(updater@) is None && !version_lt(
                old(self)@.current,
                Version { major, minor, patch },
            ) ==> r == Err::<(), VersionError>(VersionError::InvalidVersionIncrement)
                && final(self)@ == old(self)@,
            old(self)@.update_refusal(updater@) is None && version_lt(
                old(self)@.current,
                Version { major, minor, patch },
            ) ==> r is Ok && ({
                let v = Version { major, minor, patch };
                &&& final(self)@.initialized
                &&& final(self)@.deployer == old(self)@.deployer
                &&& final(self)@.current == v
                &&& final(self)@.minimum == old(self)@.minimum
                &&& final(self)@.history == old(self)@.history.push(v)
                &&& final(self)@.count == old(self)@.count + 1
                &&& final(self)@.metadata == old(self)@.metadata.insert(
                    v,
                    VersionMetadata {
                        version: v,
                        timestamp: now,
                        description,
                        deployed_by: updater,
                        deprecated: false,
                    },
                )
                &&& final(self)@.compatibility == old(self)@.compatibility
            }),
    {
        proof {
            use_type_invariant(&*self);
        }
        self.require_updater(&updater)?;
        let new_version = Version { major, minor, patch };
        if !Self::is_valid_increment(&self.current, &new_version) {
            return Err(VersionError::InvalidVersionIncrement);
        }
        let ghost old_view = self@;
        let meta = VersionMetadata {
            version: new_version,
            timestamp: now,
            description,
            deployed_by: updater,
            deprecated: false,
        };
        let ghost meta_view = meta;
        let mut taken = Self::new();
        std::mem::swap(&mut taken, self);
        proof {
            assert(taken@ == old_view);
        }
        let ContractVersioning {
            initialized: _,
            deployer,
            current: _,
            minimum,
            mut history,
            count,
            mut metadata,
            compatibility,
        } = taken;
        let ghost om = metadata@;
        metadata.insert(new_version, meta);
        history.push(new_version);
        proof {
            let h = history@;
            let oh = old_view.history;
            assert(om == old_view.metadata);
            assert(metadata@ == old_view.metadata.insert(new_version, meta_view));
            assert(h == oh.push(new_version));
            assert forall|i: int, j: int| 0 <= i < j < h.len() implies version_lt(
                #[trigger] h[i],
                #[trigger] h[j],
            ) by {
                if j == h.len() - 1 {
                    if i < oh.len() - 1 {
                        assert(version_lt(oh[i], oh[oh.len() - 1]));
                        lemma_lt_transitive(oh[i], old_view.current, new_version);
                    }
                } else {
                    assert(h[i] == oh[i] && h[j] == oh[j]);
                }
            }
            assert forall|v: Version| #[trigger]
                metadata@.contains_key(v) <==> h.contains(v) by {
                if v == new_version {
                    assert(h[h.len() - 1] == v);
                } else {
                    assert(old_view.metadata.contains_key(v) <==> oh.contains(v));
                    if oh.contains(v) {
                        let k = choose|k: int| 0 <= k < oh.len() && oh[k] == v;
                        assert(h[k] == v);
                    }
                    if h.contains(v) {
                        let k = choose|k: int| 0 <= k < h.len() && h[k] == v;
                        assert(k < oh.len());
                        assert(oh[k] == v);
                    }
                }
            }
            assert(version_le(old_view.minimum, new_version)) by {
                if version_lt(old_view.minimum, old_view.current) {
                    lemma_lt_transitive(old_view.minimum, old_view.current, new_version);
                }
            }
        }
        *self = ContractVersioning {
            initialized: true,
            deployer,
            current: new_version,
            minimum,
            history,
            count: count + 1,
            metadata,
            compatibility,
        };
        Ok(())
    }

    /// Succeeds when the registry is initialized and `caller` is its
    /// deployer.
    pub fn require_updater(&self, caller: &String) -> (r: Result<(), VersionError>)
        ensures
            match self@.update_refusal(caller@) {
                None => r is Ok,
                Some(e) => r == Err::<(), VersionError>(e),
            },
    {
        if !self.initialized {
            return Err(VersionError::NotInitialized);
        }
        if *caller != self.deployer {
            return Err(VersionError::Unauthorized);
        }
        Ok(())
    }

    /// The current protocol version.
    pub fn get_current_version(&self) -> (r: Result<Version, VersionError>)
        ensures
            self@.initialized ==> r == Ok::<Version, VersionError>(self@.current),
            !self@.initialized ==> r == Err::<Version, VersionError>(VersionError::NotInitialized),
    {
        if !self.initialized {
            return Err(VersionError::NotInitialized);
        }
        Ok(self.current)
    }

    /// The minimum supported protocol version.
    pub fn get_minimum_version(&self) -> (r: Result<Version, VersionError>)
        ensures
            self@.initialized ==> r == Ok::<Version, VersionError>(self@.minimum),
            !self@.initialized ==> r == Err::<Version, VersionError>(VersionError::NotInitialized),
    {
        if !self.initialized {
            return Err(VersionError::NotInitialized);
        }
        Ok(self.minimum)
    }

    /// How many protocol versions have been registered.
    pub fn get_version_count(&self) -> (r: Result<u32, VersionError>)
        ensures
            self@.initialized ==> r == Ok::<u32, VersionError>(self@.count),
            !self@.initialized ==> r == Err::<u32, VersionError>(VersionError::NotInitialized),
    {
        if !self.initialized {
            return Err(VersionError::NotInitialized);
        }
        Ok(self.count)
    }

    /// The metadata registered for `version`.
    pub fn get_version_metadata(&self, version: Version) -> (r: Result<&VersionMetadata, VersionError>)
        ensures
            !self@.initialized ==> r == Err::<&VersionMetadata, VersionError>(VersionError::NotInitialized),
            self@.initialized && !self@.metadata.contains_key(version) ==> r == Err::<
                &VersionMetadata,
                VersionError,
            >(VersionError::VersionNotFound),
            self@.initialized && self@.metadata.contains_key(version) ==> r is Ok && *r->Ok_0
                == self@.metadata[version],
    {
        if !self.initialized {
            return Err(VersionError::NotInitialized);
        }
        match self.metadata.get(&version) {
            Some(m) => Ok(m),
            None => Err(VersionError::VersionNotFound),
        }
    }

    /// Every registered protocol version, oldest first.
    pub fn get_version_history(&self) -> (r: Result<&Vec<Version>, VersionError>)
        ensures
            !self@.initialized ==> r == Err::<&Vec<Version>, VersionError>(VersionError::NotInitialized),
            self@.initialized ==> r is Ok && r->Ok_0@ == self@.history,
    {
        if !self.initialized {
            return Err(VersionError::NotInitialized);
        }
        Ok(&self.history)
    }

    /// Whether `version` lies between the minimum and the current version,
    /// both included.
    pub fn is_version_supported(&self, version: Version) -> (r: Result<bool, VersionError>)
        ensures
            !self@.initialized ==> r == Err::<bool, VersionError>(VersionError::NotInitialized),
            self@.initialized ==> r == Ok::<bool, VersionError>(
                version_le(self@.minimum, version) && version_le(version, self@.current),
            ),
    {
        if !self.initialized {
            return Err(VersionError::NotInitialized);
        }
        let min_cmp = Self::compare_versions(version, self.minimum);
        let max_cmp = Self::compare_versions(version, self.current);
        Ok(min_cmp >= 0 && max_cmp <= 0)
    }

    /// Whether the current version is at least `(major, minor, patch)`.
    pub fn meets_minimum_version(&self, major: u32, minor: u32, patch: u32) -> (r: Result<
        bool,
        VersionError,
    >)
        ensures
            !self@.initialized ==> r == Err::<bool, VersionError>(VersionError::NotInitialized),
            self@.initialized ==> r == Ok::<bool, VersionError>(
                version_le(Version { major, minor, patch }, self@.current),
            ),
    {
        if !self.initialized {
            return Err(VersionError::NotInitialized);
        }
        let required = Version { major, minor, patch };
        Ok(Self::compare_versions(self.current, required) >= 0)
    }

    /// Sets the minimum supported version, which may not exceed the current
    /// version; only the deployer may.
    pub fn update_minimum_version(&mut self, updater: String, major: u32, minor: u32, patch: u32) -> (r:
        Result<(), VersionError>)
        ensures
            final(self)@.consistent(),
            old(self)@.update_refusal(updater@) is Some ==> r == Err::<(), VersionError>(
                old(self)@.update_refusal(updater@)->Some_0,
            ) && final(self)@ == old(self)@,
            old(self)@.update_refusal(updater@) is None && !version_le(
                Version { major, minor, patch },
                old(self)@.current,
            ) ==> r == Err::<(), VersionError>(VersionError::MinimumExceedsCurrent)
                && final(self)@ == old(self)@,
            old(self)@.update_refusal(updater@) is None && version_le(
                Version { major, minor, patch },
                old(self)@.current,
            ) ==> r is Ok && final(self)@ == (RegistryView {
                minimum: Version { major, minor, patch },
                ..old(self)@
            }),
    {
        proof {
            use_type_invariant(&*self);
        }
        self.require_updater(&updater)?;
        let new_min = Version { major, minor, patch };
        if Self::compare_versions(new_min, self.current) > 0 {
            return Err(VersionError::MinimumExceedsCurrent);
        }
        self.minimum = new_min;
        Ok(())
    }

    /// Marks `version` deprecated; refused for unknown versions and for
    /// versions already deprecated; only the deployer may.
    pub fn deprecate_version(&mut self, admin: String, version: Version, reason: String) -> (r: Result<
        (),
        VersionError,
    >)
        ensures
            final(self)@.consistent(),
            old(self)@.update_refusal(admin@) is Some ==> r == Err::<(), VersionError>(
                old(self)@.update_refusal(admin@)->Some_0,
            ) && final(self)@ == old(self)@,
            old(self)@.update_refusal(admin@) is None && !old(self)@.metadata.contains_key(version)
                ==> r == Err::<(), VersionError>(VersionError::VersionNotFound) && final(self)@ == old(
                self,
            )@,
            old(self)@.update_refusal(admin@) is None && old(self)@.metadata.contains_key(version)
                && old(self)@.metadata[version].deprecated ==> r == Err::<(), VersionError>(
                VersionError::AlreadyDeprecated,
            ) && final(self)@ == old(self)@,
            old(self)@.update_refusal(admin@) is None && old(self)@.metadata.contains_key(version)
                && !old(self)@.metadata[version].deprecated ==> r is Ok && final(self)@ == (
            RegistryView {
                metadata: old(self)@.metadata.insert(
                    version,
                    VersionMetadata { deprecated: true, ..old(self)@.metadata[version] },
                ),
                ..old(self)@
            }),
    {
        proof {
            use_type_invariant(&*self);
        }
        self.require_updater(&admin)?;
        let updated = match self.metadata.get(&version) {
            None => {
                return Err(VersionError::VersionNotFound);
            },
            Some(m) => {
                if m.deprecated {
                    return Err(VersionError::AlreadyDeprecated);
                }
                VersionMetadata {
                    version: m.version,
                    timestamp: m.timestamp,
                    description: m.description.clone(),
                    deployed_by: m.deployed_by.clone(),
                    deprecated: true,
                }
            },
        };
        let ghost old_view = self@;
        let ghost updated_view = updated;
        let mut taken = Self::new();
        std::mem::swap(&mut taken, self);
        proof {
            assert(taken@ == old_view);
        }
        let ContractVersioning {
            initialized,
            deployer,
            current,
            minimum,
            history,
            count,
            mut metadata,
            compatibility,
        } = taken;
        metadata.insert(version, updated);
        proof {
            assert(metadata@ == old_view.metadata.insert(version, updated_view));
            assert forall|v: Version| #[trigger]
                metadata@.contains_key(v) <==> history@.contains(v) by {
                assert(old_view.metadata.contains_key(v) <==> old_view.history.contains(v));
            }
            assert forall|v: Version| #[trigger]
                metadata@.contains_key(v) implies metadata@[v].version == v by {
                assert(old_view.metadata.contains_key(v) ==> old_view.metadata[v].version == v);
            }
        }
        *self = ContractVersioning {
            initialized,
            deployer,
            current,
            minimum,
            history,
            count,
            metadata,
            compatibility,
        };
        proof {
            assert(self@.metadata == old_view.metadata.insert(version, updated_view));
        }
        Ok(())
    }

    /// Whether `version` has been deprecated (`false` for unknown versions).
    pub fn is_version_deprecated(&self, version: Version) -> (r: Result<bool, VersionError>)
        ensures
            !self@.initialized ==> r == Err::<bool, VersionError>(VersionError::NotInitialized),
            self@.initialized ==> r == Ok::<bool, VersionError>(
                self@.metadata.contains_key(version) && self@.metadata[version].deprecated,
            ),
    {
        if !self.initialized {
            return Err(VersionError::NotInitialized);
        }
        match self.metadata.get(&version) {
            Some(m) => Ok(m.deprecated),
            None => Ok(false),
        }
    }

    /// Records an explicit compatibility verdict between `v1` and `v2`, in
    /// both directions; only the deployer may.
    pub fn set_compatibility(
        &mut self,
        admin: String,
        v1: Version,
        v2: Version,
        is_compatible: bool,
        notes: String,
        now: u64,
    ) -> (r: Result<(), VersionError>)
        ensures
            final(self)@.consistent(),
            old(self)@.update_refusal(admin@) is Some ==> r == Err::<(), VersionError>(
                old(self)@.update_refusal(admin@)->Some_0,
            ) && final(self)@ == old(self)@,
            old(self)@.update_refusal(admin@) is None ==> r is Ok && final(self)@ == (RegistryView {
                compatibility: with_verdict(
                    old(self)@.compatibility,
                    (v1, v2, CompatibilityInfo { is_compatible, notes, checked_at: now }),
                ),
                ..old(self)@
            }),
    {
        proof {
            use_type_invariant(&*self);
        }
        self.require_updater(&admin)?;
        let ghost old_view = self@;
        let mirrored = CompatibilityInfo { is_compatible, notes: notes.clone(), checked_at: now };
        let info = CompatibilityInfo { is_compatible, notes, checked_at: now };
        let mut taken = Self::new();
        std::mem::swap(&mut taken, self);
        proof {
            assert(taken@ == old_view);
        }
        let ContractVersioning {
            initialized,
            deployer,
            current,
            minimum,
            history,
            count,
            metadata,
            mut compatibility,
        } = taken;
        compatibility.insert((v1, v2), info);
        compatibility.insert((v2, v1), mirrored);
        *self = ContractVersioning {
            initialized,
            deployer,
            current,
            minimum,
            history,
            count,
            metadata,
            compatibility,
        };
        Ok(())
    }

    /// The compatibility verdict between `v1` and `v2`, with its note: the
    /// recorded verdict when there is one, else the default rules.
    pub fn check_compatibility(&self, v1: Version, v2: Version) -> (r: Result<(bool, String), VersionError>)
        ensures
            !self@.initialized ==> r is Err && r->Err_0 == VersionError::NotInitialized,
            self@.initialized ==> r is Ok && r->Ok_0.0 == compatibility_verdict(self@, v1, v2).0
                && r->Ok_0.1@ == compatibility_verdict(self@, v1, v2).1,
    {
        if !self.initialized {
            return Err(VersionError::NotInitialized);
        }
        match self.compatibility.get(&(v1, v2)) {
            Some(info) => Ok((info.is_compatible, info.notes.clone())),
            None => Ok(Self::default_compatibility_check(v1, v2)),
        }
    }

    /// Whether `client_version` is compatible with the current version.
    pub fn is_client_compatible(&self, client_version: Version) -> (r: Result<bool, VersionError>)
        ensures
            !self@.initialized ==> r == Err::<bool, VersionError>(VersionError::NotInitialized),
            self@.initialized ==> r == Ok::<bool, VersionError>(
                compatibility_verdict(self@, client_version, self@.current).0,
            ),
    {
        if !self.initialized {
            return Err(VersionError::NotInitialized);
        }
        match self.check_compatibility(client_version, self.current) {
            Ok(verdict) => Ok(verdict.0),
            Err(e) => Err(e),
        }
    }

    /// Accepts the announcement of a migration between two versions by the
    /// deployer; it changes no state.
    pub fn start_migration(&self, initiator: &String, from_version: Version, to_version: Version) -> (r:
        Result<(), VersionError>)
        ensures
            match self@.update_refusal(initiator@) {
                None => r is Ok,
                Some(e) => r == Err::<(), VersionError>(e),
            },
    {
        self.require_updater(initiator)
    }

    /// Accepts the deployer's report that a migration finished; it changes
    /// no state.
    pub fn complete_migration(
        &self,
        executor: &String,
        from_version: Version,
        to_version: Version,
        success: bool,
    ) -> (r: Result<(), VersionError>)
        ensures
            match self@.update_refusal(executor@) {
                None => r is Ok,
                Some(e) => r == Err::<(), VersionError>(e),
            },
    {
        self.require_updater(executor)
    }
}

/// Comparing `a` with `b` gives the opposite of comparing `b` with `a`.
pub proof fn lemma_compare_antisymmetric(a: Version, b: Version)
    ensures
        version_cmp(a, b) == -version_cmp(b, a),
{
}

/// Two versions compare as equal exactly when they are the same version.
pub proof fn lemma_compare_zero_iff_equal(a: Version, b: Version)
    ensures
        (version_cmp(a, b) == 0) <==> (a == b),
{
}

/// The version order is transitive.
pub proof fn lemma_version_le_transitive(a: Version, b: Version, c: Version)
    requires
        version_le(a, b),
        version_le(b, c),
    ensures
        version_le(a, c),
{
}

/// The version order is total: of two versions one is at most the other.
pub proof fn lemma_version_le_total(a: Version, b: Version)
    ensures
        version_le(a, b) || version_le(b, a),
{
}

/// A version update is admissible exactly when the new version compares
/// above the old one.
pub proof fn lemma_increment_is_compare_above(old: Version, new: Version)
    ensures
        version_lt(old, new) <==> version_cmp(new, old) == 1,
{
}

/// The default compatibility rules do not depend on the order of the two
/// versions.
pub proof fn lemma_default_compatibility_symmetric(v1: Version, v2: Version)
    ensures
        default_compatibility(v1, v2) == default_compatibility(v2, v1),
{
}

/// The default rules judge only the major and minor versions: versions
/// with the same positive major are compatible, different majors are not,
/// and under major 0 the verdict is whether the minors agree; patches never
/// matter.
pub proof fn lemma_default_compatibility_ignores_patch(v1: Version, v2: Version, p1: u32, p2: u32)
    ensures
        default_compatibility(v1, v2).0 == default_compatibility(
            Version { patch: p1, ..v1 },
            Version { patch: p2, ..v2 },
        ).0,
        v1.major == v2.major && v1.major > 0 ==> default_compatibility(v1, v2).0,
        v1.major != v2.major ==> !default_compatibility(v1, v2).0,
        v1.major == 0 && v2.major == 0 ==> (default_compatibility(v1, v2).0 <==> v1.minor == v2.minor),
{
}

/// Once a verdict between `v1` and `v2` has been recorded (in both
/// directions, as `set_compatibility` does), querying either order gives
/// the same answer.
pub proof fn lemma_recorded_compatibility_symmetric(
    before: RegistryView,
    after: RegistryView,
    v1: Version,
    v2: Version,
    info: CompatibilityInfo,
)
    requires
        after.compatibility == before.compatibility.insert((v1, v2), info).insert((v2, v1), info),
    ensures
        compatibility_verdict(after, v1, v2) == compatibility_verdict(after, v2, v1),
        compatibility_verdict(after, v1, v2) == (info.is_compatible, info.notes@),
{
}

/// In every initialized registry both the minimum and the current version
/// are supported, and every registered version is at most the current one.
pub proof fn lemma_registered_versions_bounded(reg: RegistryView, i: int)
    requires
        reg.consistent(),
        reg.initialized,
        0 <= i < reg.history.len(),
    ensures
        version_le(reg.minimum, reg.minimum) && version_le(reg.minimum, reg.current),
        version_le(reg.minimum, reg.current) && version_le(reg.current, reg.current),
        version_le(reg.history[i], reg.current),
{
    if i < reg.history.len() - 1 {
        assert(version_lt(reg.history[i], reg.history[reg.history.len() - 1]));
    }
}

/// Whatever sequence of operations produced it (every constructor and
/// operation keeps `consistent`), an initialized registry compares its
/// minimum at or below its current version, counts exactly its history,
/// keeps the history strictly increasing under `compare_versions`, and
/// ends the history with the current version.
pub proof fn lemma_consistent_registry_reads(reg: RegistryView)
    requires
        reg.consistent(),
        reg.initialized,
    ensures
        version_cmp(reg.minimum, reg.current) <= 0,
        reg.count == reg.history.len(),
        forall|i: int, j: int|
            0 <= i < j < reg.history.len() ==> version_cmp(#[trigger] reg.history[i], #[trigger] reg.history[j])
                == -1,
        reg.history.last() == reg.current,
{
}

/// A compatibility verdict on a pair of versions.
pub type VerdictEntry = (Version, Version, CompatibilityInfo);

/// `m` after `set_compatibility` records verdict `w`, in both directions.
pub open spec fn with_verdict(
    m: Map<(Version, Version), CompatibilityInfo>,
    w: VerdictEntry,
) -> Map<(Version, Version), CompatibilityInfo> {
    m.insert((w.0, w.1), w.2).insert((w.1, w.0), w.2)
}

/// `m` after the verdicts `ws` are recorded in order.
pub open spec fn with_verdicts(
    m: Map<(Version, Version), CompatibilityInfo>,
    ws: Seq<VerdictEntry>,
) -> Map<(Version, Version), CompatibilityInfo>
    decreases ws.len(),
{
    if ws.len() == 0 {
        m
    } else {
        with_verdict(with_verdicts(m, ws.drop_last()), ws.last())
    }
}

/// Whether verdict `w` is about the pair `{v1, v2}`, in either order.
pub open spec fn about_pair(w: VerdictEntry, v1: Version, v2: Version) -> bool {
    (w.0 == v1 && w.1 == v2) || (w.0 == v2 && w.1 == v1)
}

/// The last verdict recorded on a pair wins: after any sequence of
/// recorded verdicts, the pair `{v1, v2}` answers, in both orders, the
/// last verdict that named it, whatever the default rules say and whatever
/// was recorded on other pairs since.
pub proof fn lemma_last_verdict_wins(
    reg: RegistryView,
    start: Map<(Version, Version), CompatibilityInfo>,
    ws: Seq<VerdictEntry>,
    k: int,
    v1: Version,
    v2: Version,
)
    requires
        reg.compatibility == with_verdicts(start, ws),
        0 <= k < ws.len(),
        about_pair(ws[k], v1, v2),
        forall|j: int| k < j < ws.len() ==> !about_pair(#[trigger] ws[j], v1, v2),
    ensures
        compatibility_verdict(reg, v1, v2) == (ws[k].2.is_compatible, ws[k].2.notes@),
        compatibility_verdict(reg, v2, v1) == (ws[k].2.is_compatible, ws[k].2.notes@),
{
    lemma_last_verdict_in_map(start, ws, k, v1, v2);
}

proof fn lemma_last_verdict_in_map(
    start: Map<(Version, Version), CompatibilityInfo>,
    ws: Seq<VerdictEntry>,
    k: int,
    v1: Version,
    v2: Version,
)
    requires
        0 <= k < ws.len(),
        about_pair(ws[k], v1, v2),
        forall|j: int| k < j < ws.len() ==> !about_pair(#[trigger] ws[j], v1, v2),
    ensures
        with_verdicts(start, ws).contains_key((v1, v2)),
        with_verdicts(start, ws)[(v1, v2)] == ws[k].2,
        with_verdicts(start, ws).contains_key((v2, v1)),
        with_verdicts(start, ws)[(v2, v1)] == ws[k].2,
    decreases ws.len(),
{
    let last = ws.len() - 1;
    if k < last {
        let rest = ws.drop_last();
        assert forall|j: int| k < j < rest.len() implies !about_pair(#[trigger] rest[j], v1, v2) by {
            assert(rest[j] == ws[j]);
        }
        assert(rest[k] == ws[k]);
        lemma_last_verdict_in_map(start, rest, k, v1, v2);
        assert(!about_pair(ws[last], v1, v2));
        assert(ws.last() == ws[last]);
    }
}

} // verus!
