//! A configurable oracle for integration testing: deterministic prices per
//! asset, staleness, and switches that make reads fail on purpose or shift
//! prices by a volatility factor.
use vstd::prelude::*;
use crate::math::{trunc_div, fits_i128};
use crate::table::Table;

verus! {

/// Staleness window, in seconds, used when none is stored.
pub const DEFAULT_STALENESS_THRESHOLD: u64 = 3600;

/// Why an oracle call was refused.
#[derive(Clone, Copy, Debug, PartialEq, Eq, Structural)]
pub enum OracleError {
    NotInitialized,
    AlreadyInitialized,
    Unauthorized,
    PriceNotFound,
    StalePrice,
    InvalidPrice,
    AssetNotConfigured,
}

/// A published price.
#[derive(Clone, Copy, Debug, PartialEq, Eq, Structural)]
pub struct PriceData {
    /// Price in base units.
    pub price: i128,
    /// When the price was published.
    pub timestamp: u64,
    pub decimals: u32,
    /// Confidence interval.
    pub confidence: i128,
}

/// The mock oracle's state as seen by contracts.
pub struct MockOracleView {
    pub admin: Option<Seq<char>>,
    pub prices: Map<Seq<char>, PriceData>,
    pub staleness_threshold: Option<u64>,
    pub paused: bool,
    pub feeders: Map<Seq<char>, bool>,
    pub test_mode: bool,
    pub price_overrides: Map<Seq<char>, i128>,
    pub failure_modes: Map<Seq<char>, bool>,
    pub asset_failure_modes: Map<(Seq<char>, Seq<char>), bool>,
    pub query_delay: u64,
    pub volatility_factor: i128,
}

/// `base_price` shifted by `volatility_factor` basis points of itself
/// (rounded toward zero); unchanged when the factor is zero or the shift
/// overflows.
pub open spec fn with_volatility(base_price: int, volatility_factor: int) -> int {
    if volatility_factor == 0 {
        base_price
    } else {
        let variation = if fits_i128(base_price * volatility_factor) {
            trunc_div(base_price * volatility_factor, 10000)
        } else {
            0
        };
        if fits_i128(base_price + variation) {
            base_price + variation
        } else {
            base_price
        }
    }
}

impl MockOracleView {
    /// Whether `caller` is the admin.
    pub open spec fn is_admin(&self, caller: Seq<char>) -> bool {
        self.admin == Some(caller)
    }

    /// The refusal of an admin-only call by `caller`, if it is refused.
    pub open spec fn admin_refusal(&self, caller: Seq<char>) -> Option<OracleError> {
        match self.admin {
            None => Some(OracleError::NotInitialized),
            Some(a) => if a == caller {
                None
            } else {
                Some(OracleError::Unauthorized)
            },
        }
    }

    /// The refusal of a price write by `caller` (admin or feeder), if it is
    /// refused.
    pub open spec fn feeder_refusal(&self, caller: Seq<char>) -> Option<OracleError> {
        match self.admin {
            None => Some(OracleError::NotInitialized),
            Some(a) => if a == caller || (self.feeders.contains_key(caller) && self.feeders[caller]) {
                None
            } else {
                Some(OracleError::Unauthorized)
            },
        }
    }

    /// Whether failure `kind` is injected for `asset`: only in test mode; a
    /// per-asset setting takes precedence over the global one.
    pub open spec fn injects(&self, asset: Seq<char>, kind: Seq<char>) -> bool {
        self.test_mode && if self.asset_failure_modes.contains_key((asset, kind)) {
            self.asset_failure_modes[(asset, kind)]
        } else {
            self.failure_modes.contains_key(kind) && self.failure_modes[kind]
        }
    }

    /// The failure every read of `asset` meets before looking at prices, if
    /// any: injected failures in a fixed order, then the pause switch.
    pub open spec fn read_refusal(&self, asset: Seq<char>) -> Option<OracleError> {
        if self.injects(asset, "price_not_found"@) {
            Some(OracleError::PriceNotFound)
        } else if self.injects(asset, "stale_price"@) {
            Some(OracleError::StalePrice)
        } else if self.injects(asset, "oracle_paused"@) {
            Some(OracleError::NotInitialized)
        } else if self.injects(asset, "invalid_price"@) {
            Some(OracleError::InvalidPrice)
        } else if self.paused {
            Some(OracleError::NotInitialized)
        } else {
            None
        }
    }

    /// Whether a test price override applies to `asset`.
    pub open spec fn overridden(&self, asset: Seq<char>) -> bool {
        self.test_mode && self.price_overrides.contains_key(asset)
    }

    /// `price` with the configured volatility applied.
    pub open spec fn shifted(&self, price: i128) -> i128 {
        with_volatility(price as int, self.volatility_factor as int) as i128
    }

    /// Whether a price published at `timestamp` is too old at `now` for a
    /// window of `window` seconds.
    pub open spec fn too_old(timestamp: u64, now: u64, window: u64) -> bool {
        now > timestamp && now - timestamp > window
    }

    /// The answer of `get_price` for `asset` at `now`.
    pub open spec fn price_answer(&self, asset: Seq<char>, now: u64) -> Result<i128, OracleError> {
        if self.read_refusal(asset) is Some {
            Err(self.read_refusal(asset)->Some_0)
        } else if self.overridden(asset) {
            Ok(self.shifted(self.price_overrides[asset]))
        } else if !self.prices.contains_key(asset) {
            Err(OracleError::PriceNotFound)
        } else {
            let window = match self.staleness_threshold {
                Some(t) => t,
                None => DEFAULT_STALENESS_THRESHOLD,
            };
            if Self::too_old(self.prices[asset].timestamp, now, window) {
                Err(OracleError::StalePrice)
            } else {
                Ok(self.shifted(self.prices[asset].price))
            }
        }
    }

    /// The answer of `get_price_data` for `asset` at `now`.
    pub open spec fn price_data_answer(&self, asset: Seq<char>, now: u64) -> Result<PriceData, OracleError> {
        if self.read_refusal(asset) is Some {
            Err(self.read_refusal(asset)->Some_0)
        } else if self.overridden(asset) {
            let base = if self.prices.contains_key(asset) {
                self.prices[asset]
            } else {
                PriceData { price: 0, timestamp: now, decimals: 0, confidence: 0 }
            };
            Ok(PriceData { price: self.shifted(self.price_overrides[asset]), ..base })
        } else if !self.prices.contains_key(asset) {
            Err(OracleError::PriceNotFound)
        } else {
            Ok(PriceData { price: self.shifted(self.prices[asset].price), ..self.prices[asset] })
        }
    }

    /// The answer of `get_price_no_older_than` for `asset` at `now`.
    pub open spec fn fresh_price_answer(&self, asset: Seq<char>, max_staleness: u64, now: u64) -> Result<
        i128,
        OracleError,
    > {
        if self.read_refusal(asset) is Some {
            Err(self.read_refusal(asset)->Some_0)
        } else if self.overridden(asset) {
            Ok(self.shifted(self.price_overrides[asset]))
        } else if !self.prices.contains_key(asset) {
            Err(OracleError::PriceNotFound)
        } else if Self::too_old(self.prices[asset].timestamp, now, max_staleness) {
            Err(OracleError::StalePrice)
        } else {
            Ok(self.shifted(self.prices[asset].price))
        }
    }
}

/// The mock oracle's storage.
pub struct MockOracleContract {
    admin: Option<String>,
    prices: Table<String, PriceData>,
    staleness_threshold: Option<u64>,
    paused: bool,
    feeders: Table<String, bool>,
    test_mode: bool,
    price_overrides: Table<String, i128>,
    failure_modes: Table<String, bool>,
    asset_failure_modes: Table<(String, String), bool>,
    query_delay: u64,
    volatility_factor: i128,
}

impl View for MockOracleContract {
    type V = MockOracleView;

    closed spec fn view(&self) -> MockOracleView {
        MockOracleView {
            admin: match self.admin {
                Some(a) => Some(a@),
                None => None,
            },
            prices: self.prices@,
            staleness_threshold: self.staleness_threshold,
            paused: self.paused,
            feeders: self.feeders@,
            test_mode: self.test_mode,
            price_overrides: self.price_overrides@,
            failure_modes: self.failure_modes@,
            asset_failure_modes: self.asset_failure_modes@,
            query_delay: self.query_delay,
            volatility_factor: self.volatility_factor,
        }
    }
}

/// `base_price` shifted by `volatility_factor` basis points of itself.
pub fn apply_volatility(base_price: i128, volatility_factor: i128) -> (r: i128)
    ensures
        r == with_volatility(base_price as int, volatility_factor as int),
{
    if volatility_factor == 0 {
        return base_price;
    }
    let variation = match base_price.checked_mul(volatility_factor) {
        Some(scaled) => match scaled.checked_div(10000) {
            Some(v) => v,
            None => 0,
        },
        None => 0,
    };
    match base_price.checked_add(variation) {
        Some(p) => p,
        None => base_price,
    }
}

impl MockOracleContract {
    /// An oracle that has not been initialized.
    pub fn new() -> (r: Self)
        ensures
            r@.admin is None,
            r@.prices == Map::<Seq<char>, PriceData>::empty(),
            r@.staleness_threshold is None,
            !r@.paused,
            r@.feeders == Map::<Seq<char>, bool>::empty(),
            !r@.test_mode,
            r@.price_overrides == Map::<Seq<char>, i128>::empty(),
            r@.failure_modes == Map::<Seq<char>, bool>::empty(),
            r@.asset_failure_modes == Map::<(Seq<char>, Seq<char>), bool>::empty(),
            r@.query_delay == 0,
            r@.volatility_factor == 0,
    {
        MockOracleContract {
            admin: None,
            prices: Table::new(),
            staleness_threshold: None,
            paused: false,
            feeders: Table::new(),
            test_mode: false,
            price_overrides: Table::new(),
            failure_modes: Table::new(),
            asset_failure_modes: Table::new(),
            query_delay: 0,
            volatility_factor: 0,
        }
    }

    fn require_admin(&self, caller: &String) -> (r: Result<(), OracleError>)
        ensures
            match self@.admin_refusal(caller@) {
                None => r is Ok,
                Some(e) => r == Err::<(), OracleError>(e),
            },
    {
        match &self.admin {
            None => Err(OracleError::NotInitialized),
            Some(a) => if *a == *caller {
                Ok(())
            } else {
                Err(OracleError::Unauthorized)
            },
        }
    }

    fn require_feeder(&self, caller: &String) -> (r: Result<(), OracleError>)
        ensures
            match self@.feeder_refusal(caller@) {
                None => r is Ok,
                Some(e) => r == Err::<(), OracleError>(e),
            },
    {
        match &self.admin {
            None => Err(OracleError::NotInitialized),
            Some(a) => {
                if *a == *caller {
                    return Ok(());
                }
                let feeder = match self.feeders.get(caller) {
                    Some(b) => *b,
                    None => false,
                };
                if feeder {
                    Ok(())
                } else {
                    Err(OracleError::Unauthorized)
                }
            },
        }
    }

    /// Sets the admin (who is also a feeder) and the staleness threshold,
    /// with test settings off; refused once initialized.
    pub fn initialize(&mut self, admin: String, staleness_threshold: u64) -> (r: Result<(), OracleError>)
        ensures
            old(self)@.admin is Some ==> r == Err::<(), OracleError>(OracleError::AlreadyInitialized)
                && final(self)@ == old(self)@,
            old(self)@.admin is None ==> r is Ok && final(self)@ == (MockOracleView {
                admin: Some(admin@),
                staleness_threshold: Some(staleness_threshold),
                paused: false,
                feeders: old(self)@.feeders.insert(admin@, true),
                test_mode: false,
                query_delay: 0,
                volatility_factor: 0,
                ..old(self)@
            }),
    {
        if self.admin.is_some() {
            return Err(OracleError::AlreadyInitialized);
        }
        self.feeders.insert(admin.clone(), true);
        self.admin = Some(admin);
        self.staleness_threshold = Some(staleness_threshold);
        self.paused = false;
        self.test_mode = false;
        self.query_delay = 0;
        self.volatility_factor = 0;
        Ok(())
    }

    /// Publishes `price` (at least zero) for `asset`, dated `now`; admin or
    /// feeder only.
    pub fn set_price(
        &mut self,
        caller: &String,
        asset: String,
        price: i128,
        decimals: u32,
        confidence: i128,
        now: u64,
    ) -> (r: Result<(), OracleError>)
        ensures
            old(self)@.feeder_refusal(caller@) is Some ==> r == Err::<(), OracleError>(
                old(self)@.feeder_refusal(caller@)->Some_0,
            ) && final(self)@ == old(self)@,
            old(self)@.feeder_refusal(caller@) is None && price < 0 ==> r == Err::<(), OracleError>(
                OracleError::InvalidPrice,
            ) && final(self)@ == old(self)@,
            old(self)@.feeder_refusal(caller@) is None && price >= 0 ==> r is Ok && final(self)@ == (
            MockOracleView {
                prices: old(self)@.prices.insert(
                    asset@,
                    PriceData { price, timestamp: now, decimals, confidence },
                ),
                ..old(self)@
            }),
    {
        self.set_price_with_timestamp(caller, asset, price, now, decimals, confidence)
    }

    /// Publishes `price` (at least zero) for `asset` dated `timestamp`;
    /// admin or feeder only.
    pub fn set_price_with_timestamp(
        &mut self,
        caller: &String,
        asset: String,
        price: i128,
        timestamp: u64,
        decimals: u32,
        confidence: i128,
    ) -> (r: Result<(), OracleError>)
        ensures
            old(self)@.feeder_refusal(caller@) is Some ==> r == Err::<(), OracleError>(
                old(self)@.feeder_refusal(caller@)->Some_0,
            ) && final(self)@ == old(self)@,
            old(self)@.feeder_refusal(caller@) is None && price < 0 ==> r == Err::<(), OracleError>(
                OracleError::InvalidPrice,
            ) && final(self)@ == old(self)@,
            old(self)@.feeder_refusal(caller@) is None && price >= 0 ==> r is Ok && final(self)@ == (
            MockOracleView {
                prices: old(self)@.prices.insert(
                    asset@,
                    PriceData { price, timestamp, decimals, confidence },
                ),
                ..old(self)@
            }),
    {
        self.require_feeder(caller)?;
        if price < 0 {
            return Err(OracleError::InvalidPrice);
        }
        self.prices.insert(asset, PriceData { price, timestamp, decimals, confidence });
        Ok(())
    }

    fn should_inject_failure(&self, asset: &String, failure_type: &str) -> (r: bool)
        ensures
            r == self@.injects(asset@, failure_type@),
    {
        if !self.test_mode {
            return false;
        }
        let kind = failure_type.to_owned();
        let key = (asset.clone(), kind.clone());
        match self.asset_failure_modes.get(&key) {
            Some(b) => *b,
            None => match self.failure_modes.get(&kind) {
                Some(b) => *b,
                None => false,
            },
        }
    }

    fn read_check(&self, asset: &String) -> (r: Result<(), OracleError>)
        ensures
            match self@.read_refusal(asset@) {
                None => r is Ok,
                Some(e) => r == Err::<(), OracleError>(e),
            },
    {
        if self.should_inject_failure(asset, "price_not_found") {
            return Err(OracleError::PriceNotFound);
        }
        if self.should_inject_failure(asset, "stale_price") {
            return Err(OracleError::StalePrice);
        }
        if self.should_inject_failure(asset, "oracle_paused") {
            return Err(OracleError::NotInitialized);
        }
        if self.should_inject_failure(asset, "invalid_price") {
            return Err(OracleError::InvalidPrice);
        }
        if self.paused {
            return Err(OracleError::NotInitialized);
        }
        Ok(())
    }

    fn active_override(&self, asset: &String) -> (r: Option<i128>)
        ensures
            self@.overridden(asset@) ==> r == Some(self@.price_overrides[asset@]),
            !self@.overridden(asset@) ==> r is None,
    {
        if !self.test_mode {
            return None;
        }
        match self.price_overrides.get(asset) {
            Some(p) => Some(*p),
            None => None,
        }
    }

    /// The price of `asset` at `now`: injected failures and the pause
    /// switch first, then a test override, else the published price if it
    /// is not older than the staleness threshold; volatility is applied to
    /// the price returned.
    pub fn get_price(&self, asset: &String, now: u64) -> (r: Result<i128, OracleError>)
        ensures
            r == self@.price_answer(asset@, now),
    {
        self.read_check(asset)?;
        if let Some(p) = self.active_override(asset) {
            return Ok(apply_volatility(p, self.volatility_factor));
        }
        let data = match self.prices.get(asset) {
            Some(d) => *d,
            None => {
                return Err(OracleError::PriceNotFound);
            },
        };
        let price = apply_volatility(data.price, self.volatility_factor);
        let threshold = match self.staleness_threshold {
            Some(t) => t,
            None => DEFAULT_STALENESS_THRESHOLD,
        };
        if now > data.timestamp && now - data.timestamp > threshold {
            return Err(OracleError::StalePrice);
        }
        Ok(price)
    }

    /// The full price record of `asset`, with volatility applied to the
    /// price; a test override keeps the published metadata (or zeros dated
    /// `now` when nothing was published). Staleness is not checked.
    pub fn get_price_data(&self, asset: &String, now: u64) -> (r: Result<PriceData, OracleError>)
        ensures
            r == self@.price_data_answer(asset@, now),
    {
        self.read_check(asset)?;
        if let Some(p) = self.active_override(asset) {
            let base = match self.prices.get(asset) {
                Some(d) => *d,
                None => PriceData { price: 0, timestamp: now, decimals: 0, confidence: 0 },
            };
            return Ok(PriceData { price: apply_volatility(p, self.volatility_factor), ..base });
        }
        match self.prices.get(asset) {
            Some(d) => Ok(PriceData { price: apply_volatility(d.price, self.volatility_factor), ..*d }),
            None => Err(OracleError::PriceNotFound),
        }
    }

    /// The price of `asset` if it is at most `max_staleness` seconds old at
    /// `now`; a test override is returned without a staleness check.
    pub fn get_price_no_older_than(&self, asset: &String, max_staleness: u64, now: u64) -> (r: Result<
        i128,
        OracleError,
    >)
        ensures
            r == self@.fresh_price_answer(asset@, max_staleness, now),
    {
        self.read_check(asset)?;
        if let Some(p) = self.active_override(asset) {
            return Ok(apply_volatility(p, self.volatility_factor));
        }
        let data = match self.prices.get(asset) {
            Some(d) => *d,
            None => {
                return Err(OracleError::PriceNotFound);
            },
        };
        if now > data.timestamp && now - data.timestamp > max_staleness {
            return Err(OracleError::StalePrice);
        }
        Ok(apply_volatility(data.price, self.volatility_factor))
    }

    /// Whether a price was published for `asset`.
    pub fn has_price(&self, asset: &String) -> (r: bool)
        ensures
            r == self@.prices.contains_key(asset@),
    {
        self.prices.contains_key(asset)
    }

    /// Drops the published price of `asset`; admin only.
    pub fn remove_price(&mut self, caller: &String, asset: &String) -> (r: Result<(), OracleError>)
        ensures
            old(self)@.admin_refusal(caller@) is Some ==> r == Err::<(), OracleError>(
                old(self)@.admin_refusal(caller@)->Some_0,
            ) && final(self)@ == old(self)@,
            old(self)@.admin_refusal(caller@) is None ==> r is Ok && final(self)@ == (MockOracleView {
                prices: old(self)@.prices.remove(asset@),
                ..old(self)@
            }),
    {
        self.require_admin(caller)?;
        self.prices.remove(asset);
        Ok(())
    }

    /// Makes every read fail as unavailable; admin only.
    pub fn pause(&mut self, caller: &String) -> (r: Result<(), OracleError>)
        ensures
            old(self)@.admin_refusal(caller@) is Some ==> r == Err::<(), OracleError>(
                old(self)@.admin_refusal(caller@)->Some_0,
            ) && final(self)@ == old(self)@,
            old(self)@.admin_refusal(caller@) is None ==> r is Ok && final(self)@ == (MockOracleView {
                paused: true,
                ..old(self)@
            }),
    {
        self.require_admin(caller)?;
        self.paused = true;
        Ok(())
    }

    /// Lifts the pause; admin only.
    pub fn unpause(&mut self, caller: &String) -> (r: Result<(), OracleError>)
        ensures
            old(self)@.admin_refusal(caller@) is Some ==> r == Err::<(), OracleError>(
                old(self)@.admin_refusal(caller@)->Some_0,
            ) && final(self)@ == old(self)@,
            old(self)@.admin_refusal(caller@) is None ==> r is Ok && final(self)@ == (MockOracleView {
                paused: false,
                ..old(self)@
            }),
    {
        self.require_admin(caller)?;
        self.paused = false;
        Ok(())
    }

    /// Lets `feeder` publish prices; admin only.
    pub fn add_feeder(&mut self, caller: &String, feeder: String) -> (r: Result<(), OracleError>)
        ensures
            old(self)@.admin_refusal(caller@) is Some ==> r == Err::<(), OracleError>(
                old(self)@.admin_refusal(caller@)->Some_0,
            ) && final(self)@ == old(self)@,
            old(self)@.admin_refusal(caller@) is None ==> r is Ok && final(self)@ == (MockOracleView {
                feeders: old(self)@.feeders.insert(feeder@, true),
                ..old(self)@
            }),
    {
        self.require_admin(caller)?;
        self.feeders.insert(feeder, true);
        Ok(())
    }

    /// Withdraws the right of `feeder` to publish; admin only.
    pub fn remove_feeder(&mut self, caller: &String, feeder: &String) -> (r: Result<(), OracleError>)
        ensures
            old(self)@.admin_refusal(caller@) is Some ==> r == Err::<(), OracleError>(
                old(self)@.admin_refusal(caller@)->Some_0,
            ) && final(self)@ == old(self)@,
            old(self)@.admin_refusal(caller@) is None ==> r is Ok && final(self)@ == (MockOracleView {
                feeders: old(self)@.feeders.remove(feeder@),
                ..old(self)@
            }),
    {
        self.require_admin(caller)?;
        self.feeders.remove(feeder);
        Ok(())
    }

    /// Sets the staleness threshold used by `get_price`; admin only.
    pub fn set_staleness_threshold(&mut self, caller: &String, threshold: u64) -> (r: Result<
        (),
        OracleError,
    >)
        ensures
            old(self)@.admin_refusal(caller@) is Some ==> r == Err::<(), OracleError>(
                old(self)@.admin_refusal(caller@)->Some_0,
            ) && final(self)@ == old(self)@,
            old(self)@.admin_refusal(caller@) is None ==> r is Ok && final(self)@ == (MockOracleView {
                staleness_threshold: Some(threshold),
                ..old(self)@
            }),
    {
        self.require_admin(caller)?;
        self.staleness_threshold = Some(threshold);
        Ok(())
    }

    /// The admin address.
    pub fn get_admin(&self) -> (r: Result<String, OracleError>)
        ensures
            match self@.admin {
                Some(a) => r is Ok && r->Ok_0@ == a,
                None => r == Err::<String, OracleError>(OracleError::NotInitialized),
            },
    {
        match &self.admin {
            Some(a) => Ok(a.clone()),
            None => Err(OracleError::NotInitialized),
        }
    }

    /// Turns test mode (overrides and failure injection) on or off; admin
    /// only.
    pub fn set_test_mode(&mut self, caller: &String, enabled: bool) -> (r: Result<(), OracleError>)
        ensures
            old(self)@.admin_refusal(caller@) is Some ==> r == Err::<(), OracleError>(
                old(self)@.admin_refusal(caller@)->Some_0,
            ) && final(self)@ == old(self)@,
            old(self)@.admin_refusal(caller@) is None ==> r is Ok && final(self)@ == (MockOracleView {
                test_mode: enabled,
                ..old(self)@
            }),
    {
        self.require_admin(caller)?;
        self.test_mode = enabled;
        Ok(())
    }

    /// Sets a test price (at least zero) for `asset`, used in test mode;
    /// admin only.
    pub fn set_test_price(&mut self, caller: &String, asset: String, price: i128) -> (r: Result<
        (),
        OracleError,
    >)
        ensures
            old(self)@.admin_refusal(caller@) is Some ==> r == Err::<(), OracleError>(
                old(self)@.admin_refusal(caller@)->Some_0,
            ) && final(self)@ == old(self)@,
            old(self)@.admin_refusal(caller@) is None && price < 0 ==> r == Err::<(), OracleError>(
                OracleError::InvalidPrice,
            ) && final(self)@ == old(self)@,
            old(self)@.admin_refusal(caller@) is None && price >= 0 ==> r is Ok && final(self)@ == (
            MockOracleView { price_overrides: old(self)@.price_overrides.insert(asset@, price), ..old(self)@ }),
    {
        self.require_admin(caller)?;
        if price < 0 {
            return Err(OracleError::InvalidPrice);
        }
        self.price_overrides.insert(asset, price);
        Ok(())
    }

    /// Switches injected failure `failure_type` on or off for every asset;
    /// admin only.
    pub fn configure_failure_mode(&mut self, caller: &String, failure_type: String, enabled: bool) -> (r:
        Result<(), OracleError>)
        ensures
            old(self)@.admin_refusal(caller@) is Some ==> r == Err::<(), OracleError>(
                old(self)@.admin_refusal(caller@)->Some_0,
            ) && final(self)@ == old(self)@,
            old(self)@.admin_refusal(caller@) is None ==> r is Ok && final(self)@ == (MockOracleView {
                failure_modes: old(self)@.failure_modes.insert(failure_type@, enabled),
                ..old(self)@
            }),
    {
        self.require_admin(caller)?;
        self.failure_modes.insert(failure_type, enabled);
        Ok(())
    }

    /// Switches injected failure `failure_type` on or off for `asset` alone,
    /// overriding the global switch for that asset; admin only.
    pub fn configure_failure_mode_for_asset(
        &mut self,
        caller: &String,
        asset: String,
        failure_type: String,
        enabled: bool,
    ) -> (r: Result<(), OracleError>)
        ensures
            old(self)@.admin_refusal(caller@) is Some ==> r == Err::<(), OracleError>(
                old(self)@.admin_refusal(caller@)->Some_0,
            ) && final(self)@ == old(self)@,
            old(self)@.admin_refusal(caller@) is None ==> r is Ok && final(self)@ == (MockOracleView {
                asset_failure_modes: old(self)@.asset_failure_modes.insert(
                    (asset@, failure_type@),
                    enabled,
                ),
                ..old(self)@
            }),
    {
        self.require_admin(caller)?;
        self.asset_failure_modes.insert((asset, failure_type), enabled);
        Ok(())
    }

    /// Records a simulated query delay in seconds; admin only.
    pub fn set_query_delay(&mut self, caller: &String, delay_seconds: u64) -> (r: Result<(), OracleError>)
        ensures
            old(self)@.admin_refusal(caller@) is Some ==> r == Err::<(), OracleError>(
                old(self)@.admin_refusal(caller@)->Some_0,
            ) && final(self)@ == old(self)@,
            old(self)@.admin_refusal(caller@) is None ==> r is Ok && final(self)@ == (MockOracleView {
                query_delay: delay_seconds,
                ..old(self)@
            }),
    {
        self.require_admin(caller)?;
        self.query_delay = delay_seconds;
        Ok(())
    }

    /// Sets the volatility factor, in basis points of the price, applied to
    /// prices read; admin only.
    pub fn set_volatility_factor(&mut self, caller: &String, volatility_factor: i128) -> (r: Result<
        (),
        OracleError,
    >)
        ensures
            old(self)@.admin_refusal(caller@) is Some ==> r == Err::<(), OracleError>(
                old(self)@.admin_refusal(caller@)->Some_0,
            ) && final(self)@ == old(self)@,
            old(self)@.admin_refusal(caller@) is None ==> r is Ok && final(self)@ == (MockOracleView {
                volatility_factor,
                ..old(self)@
            }),
    {
        self.require_admin(caller)?;
        self.volatility_factor = volatility_factor;
        Ok(())
    }

    /// Turns test mode off and resets the query delay and the volatility
    /// factor; admin only. Stored overrides and failure switches stay but
    /// have no effect outside test mode.
    pub fn clear_test_configurations(&mut self, caller: &String) -> (r: Result<(), OracleError>)
        ensures
            old(self)@.admin_refusal(caller@) is Some ==> r == Err::<(), OracleError>(
                old(self)@.admin_refusal(caller@)->Some_0,
            ) && final(self)@ == old(self)@,
            old(self)@.admin_refusal(caller@) is None ==> r is Ok && final(self)@ == (MockOracleView {
                test_mode: false,
                query_delay: 0,
                volatility_factor: 0,
                ..old(self)@
            }),
    {
        self.require_admin(caller)?;
        self.test_mode = false;
        self.query_delay = 0;
        self.volatility_factor = 0;
        Ok(())
    }

    /// Whether `address` is an authorized feeder.
    pub fn is_feeder(&self, address: &String) -> (r: bool)
        ensures
            r == (self@.feeders.contains_key(address@) && self@.feeders[address@]),
    {
        match self.feeders.get(address) {
            Some(b) => *b,
            None => false,
        }
    }
}

/// Outside test mode no failure is injected and no override applies:
/// reads see exactly the published prices (and the pause switch).
pub proof fn lemma_test_settings_inert_outside_test_mode(state: MockOracleView, asset: Seq<char>, kind: Seq<char>)
    requires
        !state.test_mode,
    ensures
        !state.injects(asset, kind),
        !state.overridden(asset),
        state.read_refusal(asset) == (if state.paused {
            Some(OracleError::NotInitialized)
        } else {
            None
        }),
{
}

/// A per-asset failure switch decides for its asset whatever the global
/// switch says.
pub proof fn lemma_asset_switch_takes_precedence(state: MockOracleView, asset: Seq<char>, kind: Seq<char>)
    requires
        state.test_mode,
        state.asset_failure_modes.contains_key((asset, kind)),
    ensures
        state.injects(asset, kind) == state.asset_failure_modes[(asset, kind)],
{
}

/// A price published at `now` reads back unchanged at `now` when no test
/// setting, pause or volatility is in force.
pub proof fn lemma_published_price_reads_back(
    before: MockOracleView,
    after: MockOracleView,
    asset: Seq<char>,
    data: PriceData,
    now: u64,
)
    requires
        after == (MockOracleView { prices: before.prices.insert(asset, data), ..before }),
        data.timestamp == now,
        !before.test_mode,
        !before.paused,
        before.volatility_factor == 0,
    ensures
        after.price_answer(asset, now) == Ok::<i128, OracleError>(data.price),
        after.price_data_answer(asset, now) == Ok::<PriceData, OracleError>(data),
{
    lemma_test_settings_inert_outside_test_mode(after, asset, "price_not_found"@);
}

/// Without a volatility factor prices are returned unchanged.
pub proof fn lemma_zero_volatility_is_identity(price: int)
    ensures
        with_volatility(price, 0) == price,
{
}

/// In test mode an override answers every read of its asset, whatever
/// prices are published and however old they are, unless a failure is
/// injected or the oracle is paused.
pub proof fn lemma_override_bypasses_staleness(
    state: MockOracleView,
    asset: Seq<char>,
    max_staleness: u64,
    now: u64,
)
    requires
        state.test_mode,
        state.price_overrides.contains_key(asset),
        state.read_refusal(asset) is None,
    ensures
        state.price_answer(asset, now) == Ok::<i128, OracleError>(state.shifted(state.price_overrides[asset])),
        state.fresh_price_answer(asset, max_staleness, now) == Ok::<i128, OracleError>(
            state.shifted(state.price_overrides[asset]),
        ),
        state.price_data_answer(asset, now) is Ok,
        state.price_data_answer(asset, now)->Ok_0.price == state.shifted(state.price_overrides[asset]),
{
}

/// A published price is refused as stale by `get_price` exactly when it is
/// older than the stored staleness threshold (the one given at
/// `initialize` or `set_staleness_threshold`), when no failure is injected,
/// the oracle is not paused and no override applies.
pub proof fn lemma_stored_threshold_decides_staleness(
    state: MockOracleView,
    asset: Seq<char>,
    threshold: u64,
    now: u64,
)
    requires
        state.staleness_threshold == Some(threshold),
        state.read_refusal(asset) is None,
        !state.overridden(asset),
        state.prices.contains_key(asset),
    ensures
        ({
            let ts = state.prices[asset].timestamp;
            &&& (now > ts && now - ts > threshold) ==> state.price_answer(asset, now) == Err::<i128, OracleError>(
                OracleError::StalePrice,
            )
            &&& !(now > ts && now - ts > threshold) ==> state.price_answer(asset, now) is Ok
        }),
{
}

/// `get_price_no_older_than` judges freshness by the caller's window alone,
/// whatever threshold is stored.
pub proof fn lemma_caller_window_decides_freshness(
    state: MockOracleView,
    asset: Seq<char>,
    max_staleness: u64,
    now: u64,
)
    requires
        state.read_refusal(asset) is None,
        !state.overridden(asset),
        state.prices.contains_key(asset),
    ensures
        ({
            let ts = state.prices[asset].timestamp;
            &&& (now > ts && now - ts > max_staleness) ==> state.fresh_price_answer(asset, max_staleness, now)
                == Err::<i128, OracleError>(OracleError::StalePrice)
            &&& !(now > ts && now - ts > max_staleness) ==> state.fresh_price_answer(asset, max_staleness, now)
                is Ok
        }),
{
}

} // verus!
