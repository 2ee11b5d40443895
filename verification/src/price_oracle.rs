//! The price oracle: an admin-managed whitelist of publishers, the latest
//! price per asset, and freshness checks for readers.
//!
//! A whitelisted publisher can replace the latest price of any asset; there
//! is no aggregation. Readers that need fresh data use `get_price_valid`,
//! which rejects prices older than the staleness window and prices dated
//! in the future.
use vstd::prelude::*;
use crate::table::Table;

verus! {

/// The storage layout version this implementation migrates to.
pub const CURRENT_VERSION: u32 = 1;

/// Staleness window, in seconds, used when none is configured.
pub const DEFAULT_MAX_STALENESS: u64 = 3600;

/// Why an oracle call was refused.
#[derive(Clone, Copy, Debug, PartialEq, Eq, Structural)]
pub enum OracleError {
    NotInitialized,
    AlreadyInitialized,
    Unauthorized,
    OracleNotWhitelisted,
    PriceNotFound,
    StalePrice,
    InvalidPrice,
    InvalidStaleness,
    InvalidWasmHash,
    InvalidVersion,
    AlreadyMigrated,
}

/// The last published price of an asset.
#[derive(Clone, Copy, Debug, PartialEq, Eq, Structural)]
pub struct PriceData {
    pub price: i128,
    /// Ledger timestamp of the accepted write.
    pub updated_at: u64,
    pub decimals: u32,
}

/// Freshness configuration.
#[derive(Clone, Copy, Debug, PartialEq, Eq, Structural)]
pub struct OracleConfig {
    pub max_staleness_seconds: u64,
}

/// The oracle's state as seen by contracts.
pub struct PriceOracleView {
    pub admin: Option<Seq<char>>,
    /// The staleness window kept by storage layouts before version 1.
    pub legacy_max_staleness: Option<u64>,
    pub whitelist: Map<Seq<char>, bool>,
    pub prices: Map<Seq<char>, PriceData>,
    pub config: Option<OracleConfig>,
    pub version: Option<u32>,
}

impl PriceOracleView {
    /// Whether `addr` may publish prices.
    pub open spec fn is_whitelisted(&self, addr: Seq<char>) -> bool {
        self.whitelist.contains_key(addr) && self.whitelist[addr]
    }

    /// The staleness window used when a reader gives none: the configured
    /// one, else the legacy one, else one hour.
    pub open spec fn max_staleness(&self) -> u64 {
        match self.config {
            Some(c) => c.max_staleness_seconds,
            None => match self.legacy_max_staleness {
                Some(s) => s,
                None => DEFAULT_MAX_STALENESS,
            },
        }
    }

    /// The stored layout version, 0 for legacy or uninitialized storage.
    pub open spec fn stored_version(&self) -> u32 {
        match self.version {
            Some(v) => v,
            None => 0,
        }
    }

    /// The refusal of an admin-only call by `caller`, if it is refused.
    pub open spec fn admin_refusal(&self, caller: Seq<char>) -> Option<OracleError> {
        match self.admin {
            None => Some(OracleError::NotInitialized),
            Some(a) => if a == caller {
                None
            } else {
                Some(OracleError::Unauthorized)
            },
        }
    }

    /// The answer of `get_price_valid` for `asset` at time `now`.
    pub open spec fn valid_price(&self, asset: Seq<char>, max_staleness_override: Option<u64>, now: u64) -> Result<
        PriceData,
        OracleError,
    > {
        if !self.prices.contains_key(asset) {
            Err(OracleError::PriceNotFound)
        } else {
            let data = self.prices[asset];
            let window = match max_staleness_override {
                Some(s) => s,
                None => self.max_staleness(),
            };
            if data.price < 0 {
                Err(OracleError::InvalidPrice)
            } else if now < data.updated_at || now - data.updated_at > window {
                Err(OracleError::StalePrice)
            } else {
                Ok(data)
            }
        }
    }
}

/// The price oracle's storage.
pub struct PriceOracleContract {
    admin: Option<String>,
    legacy_max_staleness: Option<u64>,
    whitelist: Table<String, bool>,
    prices: Table<String, PriceData>,
    config: Option<OracleConfig>,
    version: Option<u32>,
}

impl View for PriceOracleContract {
    type V = PriceOracleView;

    closed spec fn view(&self) -> PriceOracleView {
        PriceOracleView {
            admin: match self.admin {
                Some(a) => Some(a@),
                None => None,
            },
            legacy_max_staleness: self.legacy_max_staleness,
            whitelist: self.whitelist@,
            prices: self.prices@,
            config: self.config,
            version: self.version,
        }
    }
}

impl PriceOracleContract {
    /// An oracle that has not been initialized.
    pub fn new() -> (r: Self)
        ensures
            r@.admin is None,
            r@.legacy_max_staleness is None,
            r@.whitelist == Map::<Seq<char>, bool>::empty(),
            r@.prices == Map::<Seq<char>, PriceData>::empty(),
            r@.config is None,
            r@.version is None,
    {
        PriceOracleContract {
            admin: None,
            legacy_max_staleness: None,
            whitelist: Table::new(),
            prices: Table::new(),
            config: None,
            version: None,
        }
    }

    /// Storage written by a layout before version 1: an admin, a legacy
    /// staleness window, and neither a configuration nor a version.
    pub fn from_legacy(admin: String, legacy_max_staleness: Option<u64>) -> (r: Self)
        ensures
            r@.admin == Some(admin@),
            r@.legacy_max_staleness == legacy_max_staleness,
            r@.whitelist == Map::<Seq<char>, bool>::empty(),
            r@.prices == Map::<Seq<char>, PriceData>::empty(),
            r@.config is None,
            r@.version is None,
    {
        PriceOracleContract {
            admin: Some(admin),
            legacy_max_staleness,
            whitelist: Table::new(),
            prices: Table::new(),
            config: None,
            version: None,
        }
    }

    fn require_admin(&self, caller: &String) -> (r: Result<(), OracleError>)
        ensures
            match self@.admin_refusal(caller@) {
                None => r is Ok,
                Some(e) => r == Err::<(), OracleError>(e),
            },
    {
        match &self.admin {
            None => Err(OracleError::NotInitialized),
            Some(a) => if *a == *caller {
                Ok(())
            } else {
                Err(OracleError::Unauthorized)
            },
        }
    }

    /// Sets the admin, a one-hour staleness window and the current layout
    /// version; refused once initialized.
    pub fn initialize(&mut self, admin: String) -> (r: Result<(), OracleError>)
        ensures
            old(self)@.admin is Some ==> r == Err::<(), OracleError>(OracleError::AlreadyInitialized)
                && final(self)@ == old(self)@,
            old(self)@.admin is None ==> r is Ok && final(self)@ == (PriceOracleView {
                admin: Some(admin@),
                config: Some(OracleConfig { max_staleness_seconds: DEFAULT_MAX_STALENESS }),
                version: Some(CURRENT_VERSION),
                ..old(self)@
            }),
    {
        if self.admin.is_some() {
            return Err(OracleError::AlreadyInitialized);
        }
        self.admin = Some(admin);
        self.config = Some(OracleConfig { max_staleness_seconds: DEFAULT_MAX_STALENESS });
        self.version = Some(CURRENT_VERSION);
        Ok(())
    }

    /// Adds `oracle_address` to the publisher whitelist; admin only.
    pub fn add_oracle(&mut self, caller: &String, oracle_address: String) -> (r: Result<(), OracleError>)
        ensures
            old(self)@.admin_refusal(caller@) is Some ==> r == Err::<(), OracleError>(
                old(self)@.admin_refusal(caller@)->Some_0,
            ) && final(self)@ == old(self)@,
            old(self)@.admin_refusal(caller@) is None ==> r is Ok && final(self)@ == (PriceOracleView {
                whitelist: old(self)@.whitelist.insert(oracle_address@, true),
                ..old(self)@
            }),
    {
        self.require_admin(caller)?;
        self.whitelist.insert(oracle_address, true);
        Ok(())
    }

    /// Removes `oracle_address` from the publisher whitelist; admin only.
    pub fn remove_oracle(&mut self, caller: &String, oracle_address: &String) -> (r: Result<
        (),
        OracleError,
    >)
        ensures
            old(self)@.admin_refusal(caller@) is Some ==> r == Err::<(), OracleError>(
                old(self)@.admin_refusal(caller@)->Some_0,
            ) && final(self)@ == old(self)@,
            old(self)@.admin_refusal(caller@) is None ==> r is Ok && final(self)@ == (PriceOracleView {
                whitelist: old(self)@.whitelist.remove(oracle_address@),
                ..old(self)@
            }),
    {
        self.require_admin(caller)?;
        self.whitelist.remove(oracle_address);
        Ok(())
    }

    /// Whether `address` may publish prices.
    pub fn is_oracle_whitelisted(&self, address: &String) -> (r: bool)
        ensures
            r == self@.is_whitelisted(address@),
    {
        match self.whitelist.get(address) {
            Some(b) => *b,
            None => false,
        }
    }

    /// Stores `price` (at least zero) with `decimals` as the latest price of
    /// `asset`, dated `now`; the caller must be whitelisted.
    pub fn set_price(&mut self, caller: &String, asset: String, price: i128, decimals: u32, now: u64) -> (r:
        Result<(), OracleError>)
        ensures
            !old(self)@.is_whitelisted(caller@) ==> r == Err::<(), OracleError>(
                OracleError::OracleNotWhitelisted,
            ) && final(self)@ == old(self)@,
            old(self)@.is_whitelisted(caller@) && price < 0 ==> r == Err::<(), OracleError>(
                OracleError::InvalidPrice,
            ) && final(self)@ == old(self)@,
            old(self)@.is_whitelisted(caller@) && price >= 0 ==> r is Ok && final(self)@ == (
            PriceOracleView {
                prices: old(self)@.prices.insert(asset@, PriceData { price, updated_at: now, decimals }),
                ..old(self)@
            }),
    {
        if !self.is_oracle_whitelisted(caller) {
            return Err(OracleError::OracleNotWhitelisted);
        }
        if price < 0 {
            return Err(OracleError::InvalidPrice);
        }
        self.prices.insert(asset, PriceData { price, updated_at: now, decimals });
        Ok(())
    }

    /// The latest price of `asset`, or all zeros when none was published;
    /// freshness is not checked.
    pub fn get_price(&self, asset: &String) -> (r: PriceData)
        ensures
            self@.prices.contains_key(asset@) ==> r == self@.prices[asset@],
            !self@.prices.contains_key(asset@) ==> r == (PriceData { price: 0, updated_at: 0, decimals: 0 }),
    {
        match self.prices.get(asset) {
            Some(d) => *d,
            None => PriceData { price: 0, updated_at: 0, decimals: 0 },
        }
    }

    /// The latest price of `asset` if it exists, is not negative, is not
    /// dated after `now`, and is at most `max_staleness_override` (or the
    /// configured window) seconds old.
    pub fn get_price_valid(&self, asset: &String, max_staleness_override: Option<u64>, now: u64) -> (r:
        Result<PriceData, OracleError>)
        ensures
            r == self@.valid_price(asset@, max_staleness_override, now),
    {
        let data = match self.prices.get(asset) {
            Some(d) => *d,
            None => {
                return Err(OracleError::PriceNotFound);
            },
        };
        if data.price < 0 {
            return Err(OracleError::InvalidPrice);
        }
        let max_staleness = match max_staleness_override {
            Some(s) => s,
            None => self.get_max_staleness(),
        };
        if now < data.updated_at || now - data.updated_at > max_staleness {
            return Err(OracleError::StalePrice);
        }
        Ok(data)
    }

    /// Sets the default staleness window; admin only. A legacy window, if
    /// stored, is updated as well.
    pub fn set_max_staleness(&mut self, caller: &String, seconds: u64) -> (r: Result<(), OracleError>)
        ensures
            old(self)@.admin_refusal(caller@) is Some ==> r == Err::<(), OracleError>(
                old(self)@.admin_refusal(caller@)->Some_0,
            ) && final(self)@ == old(self)@,
            old(self)@.admin_refusal(caller@) is None ==> r is Ok && final(self)@ == (PriceOracleView {
                config: Some(OracleConfig { max_staleness_seconds: seconds }),
                legacy_max_staleness: match old(self)@.legacy_max_staleness {
                    Some(_) => Some(seconds),
                    None => None,
                },
                ..old(self)@
            }),
    {
        self.require_admin(caller)?;
        self.config = Some(OracleConfig { max_staleness_seconds: seconds });
        if self.legacy_max_staleness.is_some() {
            self.legacy_max_staleness = Some(seconds);
        }
        Ok(())
    }

    /// The staleness window used when a reader gives none.
    pub fn get_max_staleness(&self) -> (r: u64)
        ensures
            r == self@.max_staleness(),
    {
        match self.config {
            Some(c) => c.max_staleness_seconds,
            None => match self.legacy_max_staleness {
                Some(s) => s,
                None => DEFAULT_MAX_STALENESS,
            },
        }
    }

    /// The admin address.
    pub fn get_admin(&self) -> (r: Result<String, OracleError>)
        ensures
            match self@.admin {
                Some(a) => r is Ok && r->Ok_0@ == a,
                None => r == Err::<String, OracleError>(OracleError::NotInitialized),
            },
    {
        match &self.admin {
            Some(a) => Ok(a.clone()),
            None => Err(OracleError::NotInitialized),
        }
    }

    /// The stored layout version (0 for legacy or uninitialized storage).
    pub fn get_version(&self) -> (r: u32)
        ensures
            r == self@.stored_version(),
    {
        match self.version {
            Some(v) => v,
            None => 0,
        }
    }

    /// Hands admin authority to `new_admin`; admin only.
    pub fn set_admin(&mut self, caller: &String, new_admin: String) -> (r: Result<(), OracleError>)
        ensures
            old(self)@.admin_refusal(caller@) is Some ==> r == Err::<(), OracleError>(
                old(self)@.admin_refusal(caller@)->Some_0,
            ) && final(self)@ == old(self)@,
            old(self)@.admin_refusal(caller@) is None ==> r is Ok && final(self)@ == (PriceOracleView {
                admin: Some(new_admin@),
                ..old(self)@
            }),
    {
        self.require_admin(caller)?;
        self.admin = Some(new_admin);
        Ok(())
    }

    /// Accepts an upgrade to the code with hash `new_wasm_hash`: admin only,
    /// and the hash may not be all zeros. The state is left unchanged; the
    /// code replacement itself is the host's.
    pub fn upgrade(&self, caller: &String, new_wasm_hash: &[u8; 32]) -> (r: Result<(), OracleError>)
        ensures
            self@.admin_refusal(caller@) is Some ==> r == Err::<(), OracleError>(
                self@.admin_refusal(caller@)->Some_0,
            ),
            self@.admin_refusal(caller@) is None && (forall|i: int|
                0 <= i < 32 ==> #[trigger] new_wasm_hash@[i] == 0u8) ==> r == Err::<(), OracleError>(
                OracleError::InvalidWasmHash,
            ),
            self@.admin_refusal(caller@) is None && (exists|i: int|
                0 <= i < 32 && #[trigger] new_wasm_hash@[i] != 0u8) ==> r is Ok,
    {
        self.require_admin(caller)?;
        let mut i: usize = 0;
        while i < 32
            invariant
                i <= 32,
                self@.admin_refusal(caller@) is None,
                forall|j: int| 0 <= j < i ==> #[trigger] new_wasm_hash@[j] == 0u8,
            decreases 32 - i,
        {
            if new_wasm_hash[i] != 0u8 {
                return Ok(());
            }
            i = i + 1;
        }
        Err(OracleError::InvalidWasmHash)
    }

    /// Migrates storage from layout `from_version`, which must be the
    /// stored version and not newer than [`CURRENT_VERSION`]; admin only.
    /// From version 0 the staleness window moves into the configuration
    /// (keeping its value) and the legacy entry is dropped. Afterwards the
    /// stored version is [`CURRENT_VERSION`].
    pub fn migrate(&mut self, caller: &String, from_version: u32) -> (r: Result<(), OracleError>)
        ensures
            old(self)@.admin_refusal(caller@) is Some ==> r == Err::<(), OracleError>(
                old(self)@.admin_refusal(caller@)->Some_0,
            ) && final(self)@ == old(self)@,
            old(self)@.admin_refusal(caller@) is None && old(self)@.stored_version() == CURRENT_VERSION
                ==> r == Err::<(), OracleError>(OracleError::AlreadyMigrated) && final(self)@ == old(
                self,
            )@,
            old(self)@.admin_refusal(caller@) is None && old(self)@.stored_version() != CURRENT_VERSION
                && (from_version != old(self)@.stored_version() || from_version > CURRENT_VERSION)
                ==> r == Err::<(), OracleError>(OracleError::InvalidVersion) && final(self)@ == old(
                self,
            )@,
            old(self)@.admin_refusal(caller@) is None && old(self)@.stored_version() != CURRENT_VERSION
                && from_version == old(self)@.stored_version() && from_version <= CURRENT_VERSION
                ==> r is Ok && final(self)@ == (PriceOracleView {
                version: Some(CURRENT_VERSION),
                config: if from_version == 0 {
                    Some(OracleConfig { max_staleness_seconds: old(self)@.max_staleness() })
                } else {
                    old(self)@.config
                },
                legacy_max_staleness: if from_version == 0 {
                    None
                } else {
                    old(self)@.legacy_max_staleness
                },
                ..old(self)@
            }),
    {
        self.require_admin(caller)?;
        let stored_version = self.get_version();
        if stored_version == CURRENT_VERSION {
            return Err(OracleError::AlreadyMigrated);
        }
        if from_version != stored_version || from_version > CURRENT_VERSION {
            return Err(OracleError::InvalidVersion);
        }
        if from_version == 0 {
            let max_staleness_seconds = self.get_max_staleness();
            self.config = Some(OracleConfig { max_staleness_seconds });
            self.legacy_max_staleness = None;
        }
        self.version = Some(CURRENT_VERSION);
        Ok(())
    }
}

/// A price just published at time `now` passes the freshness check at `now`
/// (for any window) and reads back as published.
pub proof fn lemma_published_price_reads_back(
    before: PriceOracleView,
    after: PriceOracleView,
    asset: Seq<char>,
    price: i128,
    decimals: u32,
    now: u64,
    max_staleness_override: Option<u64>,
)
    requires
        price >= 0,
        after.prices == before.prices.insert(asset, PriceData { price, updated_at: now, decimals }),
    ensures
        after.valid_price(asset, max_staleness_override, now) == Ok::<PriceData, OracleError>(
            PriceData { price, updated_at: now, decimals },
        ),
{
}

/// A price dated after the reader's clock is never accepted as valid.
pub proof fn lemma_future_price_rejected(
    state: PriceOracleView,
    asset: Seq<char>,
    max_staleness_override: Option<u64>,
    now: u64,
)
    requires
        state.prices.contains_key(asset),
        state.prices[asset].price >= 0,
        state.prices[asset].updated_at > now,
    ensures
        state.valid_price(asset, max_staleness_override, now) == Err::<PriceData, OracleError>(
            OracleError::StalePrice,
        ),
{
}

/// Migrating from the legacy layout keeps the effective staleness window.
pub proof fn lemma_migration_keeps_staleness(before: PriceOracleView, after: PriceOracleView)
    requires
        after == (PriceOracleView {
            version: Some(CURRENT_VERSION),
            config: Some(OracleConfig { max_staleness_seconds: before.max_staleness() }),
            legacy_max_staleness: None,
            ..before
        }),
    ensures
        after.max_staleness() == before.max_staleness(),
        after.stored_version() == CURRENT_VERSION,
{
}

/// Rotating a publisher (removing the old address, then adding the new
/// one) leaves the new address able to publish and the old one unable,
/// and every other address as it was.
pub proof fn lemma_rotation_replaces_publisher(
    before: PriceOracleView,
    after: PriceOracleView,
    old_oracle: Seq<char>,
    new_oracle: Seq<char>,
    other: Seq<char>,
)
    requires
        old_oracle != new_oracle,
        after.whitelist == before.whitelist.remove(old_oracle).insert(new_oracle, true),
    ensures
        after.is_whitelisted(new_oracle),
        !after.is_whitelisted(old_oracle),
        other != old_oracle && other != new_oracle ==> after.is_whitelisted(other) == before.is_whitelisted(
            other,
        ),
{
}

/// Without an override, a stored non-negative price is valid exactly when
/// it is not dated in the future and its age is at most the window that
/// `get_max_staleness` reports; a given override replaces that window.
pub proof fn lemma_valid_price_uses_configured_window(
    state: PriceOracleView,
    asset: Seq<char>,
    max_staleness_override: Option<u64>,
    now: u64,
)
    requires
        state.prices.contains_key(asset),
        state.prices[asset].price >= 0,
    ensures
        ({
            let data = state.prices[asset];
            let window = if max_staleness_override is Some {
                max_staleness_override->Some_0
            } else {
                state.max_staleness()
            };
            &&& state.valid_price(asset, max_staleness_override, now) is Ok <==> (data.updated_at <= now
                && now - data.updated_at <= window)
            &&& state.valid_price(asset, max_staleness_override, now) is Ok ==> state.valid_price(
                asset,
                max_staleness_override,
                now,
            )->Ok_0 == data
            &&& state.valid_price(asset, max_staleness_override, now) is Err ==> state.valid_price(
                asset,
                max_staleness_override,
                now,
            )->Err_0 == OracleError::StalePrice
        }),
{
}

/// After `set_max_staleness(seconds)` (the configuration holds `seconds`),
/// the window used without an override is `seconds`, whatever the legacy
/// entry or the default says.
pub proof fn lemma_configured_window_wins(state: PriceOracleView, seconds: u64)
    requires
        state.config == Some(OracleConfig { max_staleness_seconds: seconds }),
    ensures
        state.max_staleness() == seconds,
{
}

} // verus!
