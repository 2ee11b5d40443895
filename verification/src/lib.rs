//! The logic of the CommitLabs Soroban contracts, with its contracts proved.
//!
//! Each contract's storage is modelled as a value owned by the caller: the
//! contract methods take that state, the caller's address and the ledger
//! time as plain values and return what the contract answers; host work
//! (authentication, token transfers, events) is left to the caller.
//!
//! - [`transformation`]: tranches, collateral, secondary instruments,
//!   guarantees and transformation fees; [`mock_core`] is the stand-in core
//!   contract it is tested against.
//! - [`price_oracle`]: whitelisted publishers and freshness-checked prices.
//! - [`mock_oracle`]: a configurable oracle with test overrides and
//!   failure injection.
//! - [`versioning`]: the protocol version registry.
//! - [`storage`], [`pausable`], [`math`], [`validation`], [`fees`]: shared
//!   helpers; [`fuzzing`]: classifiers of commitment inputs.
//! - [`table`], [`record_id`]: the keyed table that holds storage entries
//!   and the decimal record ids.

pub mod fees;
pub mod fuzzing;
pub mod math;
pub mod mock_core;
pub mod mock_oracle;
pub mod pausable;
pub mod price_oracle;
pub mod record_id;
pub mod storage;
pub mod table;
pub mod transformation;
pub mod validation;
pub mod versioning;
