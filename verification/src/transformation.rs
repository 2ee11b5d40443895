//! The commitment transformation contract: splits commitments into risk
//! tranches, records collateralized assets, secondary instruments and
//! protocol guarantees, and keeps the transformation fees it collects.
//!
//! Trust boundaries: the admin alone configures fees, the fee recipient and
//! the transformer allowlist; the admin and allowlisted transformers create
//! records; anyone may read.
//!
//! Creating tranches pays a fee to the contract in the middle of the
//! operation, so it runs in two steps around that transfer:
//! [`CommitmentTransformationContract::create_tranches_begin`] checks the
//! request, raises the reentrancy guard and quotes the fee; after the fee
//! has been transferred,
//! [`CommitmentTransformationContract::create_tranches_finish`] records the
//! tranches and lowers the guard.
use vstd::prelude::*;
use crate::math::{trunc_div, fits_i128, div_toward_zero};
use crate::record_id::{format_record_id, lemma_record_id_injective, record_id};
use crate::table::Table;

verus! {

/// Every condition under which the transformation contract refuses a call.
#[derive(Clone, Copy, Debug, PartialEq, Eq, Structural)]
pub enum TransformationError {
    /// Amount argument is zero or negative.
    InvalidAmount,
    /// Tranche shares are empty, of another length than the risk levels, or
    /// do not sum to 10 000 bps.
    InvalidTrancheRatios,
    /// A fee above 10 000 bps.
    InvalidFeeBps,
    /// Caller is neither the admin nor an authorized transformer.
    Unauthorized,
    /// The contract has not been initialized.
    NotInitialized,
    /// The contract was initialized already.
    AlreadyInitialized,
    /// Reserved: the referenced commitment does not exist.
    CommitmentNotFound,
    /// No record under the requested id.
    TransformationNotFound,
    /// Reserved: the commitment is in a state that forbids the operation.
    InvalidState,
    /// A guarded operation was entered while another one was in progress.
    ReentrancyDetected,
    /// No fee recipient has been set.
    FeeRecipientNotSet,
    /// The withdrawal exceeds the fees collected for the asset.
    InsufficientFees,
}

/// The failure text of each error.
pub open spec fn transformation_message(e: TransformationError) -> Seq<char> {
    match e {
        TransformationError::InvalidAmount => "Invalid amount: must be positive"@,
        TransformationError::InvalidTrancheRatios => "Tranche ratios must sum to 100"@,
        TransformationError::InvalidFeeBps => "Fee must be 0-10000 bps"@,
        TransformationError::Unauthorized => "Unauthorized: caller not owner or authorized"@,
        TransformationError::NotInitialized => "Contract not initialized"@,
        TransformationError::AlreadyInitialized => "Contract already initialized"@,
        TransformationError::CommitmentNotFound => "Commitment not found"@,
        TransformationError::TransformationNotFound => "Transformation record not found"@,
        TransformationError::InvalidState => "Invalid state for transformation"@,
        TransformationError::ReentrancyDetected => "Reentrancy detected"@,
        TransformationError::FeeRecipientNotSet => "Fee recipient not set"@,
        TransformationError::InsufficientFees => "Insufficient collected fees to withdraw"@,
    }
}

impl TransformationError {
    /// The text the call fails with.
    pub fn message(&self) -> (r: &'static str)
        ensures
            r@ == transformation_message(*self),
    {
        match self {
            TransformationError::InvalidAmount => "Invalid amount: must be positive",
            TransformationError::InvalidTrancheRatios => "Tranche ratios must sum to 100",
            TransformationError::InvalidFeeBps => "Fee must be 0-10000 bps",
            TransformationError::Unauthorized => "Unauthorized: caller not owner or authorized",
            TransformationError::NotInitialized => "Contract not initialized",
            TransformationError::AlreadyInitialized => "Contract already initialized",
            TransformationError::CommitmentNotFound => "Commitment not found",
            TransformationError::TransformationNotFound => "Transformation record not found",
            TransformationError::InvalidState => "Invalid state for transformation",
            TransformationError::ReentrancyDetected => "Reentrancy detected",
            TransformationError::FeeRecipientNotSet => "Fee recipient not set",
            TransformationError::InsufficientFees => "Insufficient collected fees to withdraw",
        }
    }
}

/// One tranche of a tranche set.
#[derive(Clone, Debug, PartialEq, Eq)]
pub struct RiskTranche {
    pub tranche_id: String,
    pub commitment_id: String,
    /// Risk label, e.g. "senior", "mezzanine", "equity".
    pub risk_level: String,
    pub amount: i128,
    pub share_bps: u32,
    pub created_at: u64,
}

/// A commitment split into risk tranches.
#[derive(Clone, Debug, PartialEq, Eq)]
pub struct TrancheSet {
    pub transformation_id: String,
    pub commitment_id: String,
    pub owner: String,
    pub total_value: i128,
    pub tranches: Vec<RiskTranche>,
    pub fee_paid: i128,
    pub created_at: u64,
}

/// An asset pledged as collateral against a commitment.
#[derive(Clone, Debug, PartialEq, Eq)]
pub struct CollateralizedAsset {
    pub asset_id: String,
    pub commitment_id: String,
    pub owner: String,
    pub collateral_amount: i128,
    pub asset_address: String,
    pub created_at: u64,
}

/// A secondary market instrument written on a commitment.
#[derive(Clone, Debug, PartialEq, Eq)]
pub struct SecondaryInstrument {
    pub instrument_id: String,
    pub commitment_id: String,
    pub owner: String,
    /// Instrument class, e.g. "receivable", "option", "warrant".
    pub instrument_type: String,
    pub amount: i128,
    pub created_at: u64,
}

/// A protocol guarantee attached to a commitment.
#[derive(Clone, Debug, PartialEq, Eq)]
pub struct ProtocolGuarantee {
    pub guarantee_id: String,
    pub commitment_id: String,
    pub guarantee_type: String,
    pub terms_hash: String,
    pub created_at: u64,
}

/// The fee split of a tranche request, computed when the request is
/// accepted.
#[derive(Clone, Copy, Debug, PartialEq, Eq, Structural)]
pub struct TrancheQuote {
    /// The fee the caller pays to the contract.
    pub fee_amount: i128,
    /// The value left to split into tranches.
    pub net_value: i128,
}

/// A transfer of collected fees from the contract to the fee recipient.
#[derive(Clone, Debug, PartialEq, Eq)]
pub struct FeePayout {
    pub token: String,
    pub recipient: String,
    pub amount: i128,
}

/// The fee on `total_value` at `fee_bps` basis points, rounded toward zero.
pub open spec fn fee_of(total_value: int, fee_bps: int) -> int {
    trunc_div(total_value * fee_bps, 10000)
}

/// The amount of a tranche of `share_bps` basis points of `net_value`,
/// rounded toward zero.
pub open spec fn tranche_amount(net_value: int, share_bps: int) -> int {
    trunc_div(net_value * share_bps, 10000)
}

/// The sum of a sequence of basis-point shares.
pub open spec fn sum_bps(s: Seq<u32>) -> int
    decreases s.len(),
{
    if s.len() == 0 {
        0
    } else {
        sum_bps(s.drop_last()) + s.last()
    }
}

/// The views of a list of string ids.
pub open spec fn ids_view(v: Vec<String>) -> Seq<Seq<char>> {
    v@.map_values(|s: String| s@)
}

/// The view of an optional string.
pub open spec fn opt_view(o: Option<String>) -> Option<Seq<char>> {
    match o {
        Some(s) => Some(s@),
        None => None,
    }
}

/// The id list stored under `key`, empty when there is none.
pub open spec fn list_of(m: Map<Seq<char>, Seq<Seq<char>>>, key: Seq<char>) -> Seq<Seq<char>> {
    if m.contains_key(key) {
        m[key]
    } else {
        Seq::empty()
    }
}

/// `m` with `id` appended to the list under `key`.
pub open spec fn appended(m: Map<Seq<char>, Seq<Seq<char>>>, key: Seq<char>, id: Seq<char>) -> Map<
    Seq<char>,
    Seq<Seq<char>>,
> {
    m.insert(key, list_of(m, key).push(id))
}

/// The fees collected for `asset`, zero when none were.
pub open spec fn collected_of(m: Map<Seq<char>, i128>, asset: Seq<char>) -> int {
    if m.contains_key(asset) {
        m[asset] as int
    } else {
        0
    }
}

/// The transformation contract's state as seen by contracts.
pub struct TransformationView {
    pub admin: Option<Seq<char>>,
    pub core_contract: Option<Seq<char>>,
    pub fee_bps: u32,
    pub reentrancy_guard: bool,
    pub tranche_sets: Map<Seq<char>, TrancheSet>,
    pub collateral: Map<Seq<char>, CollateralizedAsset>,
    pub instruments: Map<Seq<char>, SecondaryInstrument>,
    pub guarantees: Map<Seq<char>, ProtocolGuarantee>,
    pub commitment_tranche_sets: Map<Seq<char>, Seq<Seq<char>>>,
    pub commitment_collateral: Map<Seq<char>, Seq<Seq<char>>>,
    pub commitment_instruments: Map<Seq<char>, Seq<Seq<char>>>,
    pub commitment_guarantees: Map<Seq<char>, Seq<Seq<char>>>,
    pub authorized: Map<Seq<char>, bool>,
    pub counter: u64,
    pub fee_recipient: Option<Seq<char>>,
    pub collected_fees: Map<Seq<char>, i128>,
}

impl TransformationView {
    /// The relations that every operation keeps: the fee rate is at most
    /// 100 %, no collected fee balance is negative, nothing has been
    /// recorded, allowlisted or begun before initialization, and no record is
    /// stored under an id numbered at or above the record counter.
    pub open spec fn well_formed(&self) -> bool {
        &&& self.fee_bps <= 10000
        &&& forall|a: Seq<char>| #[trigger] self.collected_fees.contains_key(a) ==> self.collected_fees[a] >= 0
        &&& self.admin is None ==> self.counter == 0 && self.authorized == Map::<Seq<char>, bool>::empty()
            && !self.reentrancy_guard
        &&& self.ids_unused_from(self.counter as nat)
    }

    /// No record of any kind is stored under an id numbered `c` or above.
    pub open spec fn ids_unused_from(&self, c: nat) -> bool {
        &&& forall|n: nat| #![trigger record_id("tr"@, n)]
            n >= c ==> !self.tranche_sets.contains_key(record_id("tr"@, n))
        &&& forall|n: nat| #![trigger record_id("col"@, n)]
            n >= c ==> !self.collateral.contains_key(record_id("col"@, n))
        &&& forall|n: nat| #![trigger record_id("sec"@, n)]
            n >= c ==> !self.instruments.contains_key(record_id("sec"@, n))
        &&& forall|n: nat| #![trigger record_id("guar"@, n)]
            n >= c ==> !self.guarantees.contains_key(record_id("guar"@, n))
    }

    /// Whether `caller` is the admin.
    pub open spec fn is_admin(&self, caller: Seq<char>) -> bool {
        self.admin == Some(caller)
    }

    /// Whether `caller` may create records: the admin or an allowlisted
    /// transformer.
    pub open spec fn may_transform(&self, caller: Seq<char>) -> bool {
        self.admin == Some(caller) || (self.authorized.contains_key(caller)
            && self.authorized[caller])
    }

    /// The refusal of an admin-only call by `caller`, if it is refused.
    pub open spec fn admin_refusal(&self, caller: Seq<char>) -> Option<TransformationError> {
        match self.admin {
            None => Some(TransformationError::NotInitialized),
            Some(a) => if a == caller {
                None
            } else {
                Some(TransformationError::Unauthorized)
            },
        }
    }

    /// The refusal, if any, of a guarded record-creating call by `caller`
    /// before its own argument checks.
    pub open spec fn entry_refusal(&self, caller: Seq<char>) -> Option<TransformationError> {
        if !self.may_transform(caller) {
            Some(TransformationError::Unauthorized)
        } else if self.reentrancy_guard {
            Some(TransformationError::ReentrancyDetected)
        } else {
            None
        }
    }

    /// The refusal, if any, of a tranche request.
    pub open spec fn tranche_refusal(
        &self,
        caller: Seq<char>,
        total_value: int,
        shares: Seq<u32>,
        levels: nat,
    ) -> Option<TransformationError> {
        if self.entry_refusal(caller) is Some {
            self.entry_refusal(caller)
        } else if total_value <= 0 {
            Some(TransformationError::InvalidAmount)
        } else if shares.len() != levels || shares.len() == 0 {
            Some(TransformationError::InvalidTrancheRatios)
        } else if sum_bps(shares) != 10000 {
            Some(TransformationError::InvalidTrancheRatios)
        } else {
            None
        }
    }
}

/// The tranche set recorded for a finished request.
pub open spec fn tranche_set_recorded(
    set: TrancheSet,
    id: Seq<char>,
    commitment_id: Seq<char>,
    owner: Seq<char>,
    total_value: i128,
    quote: TrancheQuote,
    shares: Seq<u32>,
    levels: Seq<Seq<char>>,
    counter: u64,
    now: u64,
) -> bool {
    &&& set.transformation_id@ == id
    &&& set.commitment_id@ == commitment_id
    &&& set.owner@ == owner
    &&& set.total_value == total_value
    &&& set.fee_paid == quote.fee_amount
    &&& set.created_at == now
    &&& set.tranches@.len() == shares.len()
    &&& forall|i: int|
        0 <= i < shares.len() ==> {
            let t = #[trigger] set.tranches@[i];
            &&& t.tranche_id@ == record_id("t"@, (counter * 10 + i) as nat)
            &&& t.commitment_id@ == commitment_id
            &&& t.risk_level@ == levels[i]
            &&& t.amount == tranche_amount(quote.net_value as int, shares[i] as int)
            &&& t.share_bps == shares[i]
            &&& t.created_at == now
        }
}

/// Tranche `i` of a recorded set carries exactly the risk level and the
/// share given at position `i` of the request, and there is one tranche
/// per share.
pub proof fn lemma_tranches_follow_request_order(
    set: TrancheSet,
    id: Seq<char>,
    commitment_id: Seq<char>,
    owner: Seq<char>,
    total_value: i128,
    quote: TrancheQuote,
    shares: Seq<u32>,
    levels: Seq<Seq<char>>,
    counter: u64,
    now: u64,
)
    requires
        tranche_set_recorded(set, id, commitment_id, owner, total_value, quote, shares, levels, counter, now),
        levels.len() == shares.len(),
    ensures
        set.tranches@.len() == levels.len(),
        forall|i: int|
            0 <= i < levels.len() ==> (#[trigger] set.tranches@[i]).risk_level@ == levels[i]
                && set.tranches@[i].share_bps == shares[i],
{
    assert forall|i: int| 0 <= i < levels.len() implies (#[trigger] set.tranches@[i]).risk_level@ == levels[i]
        && set.tranches@[i].share_bps == shares[i] by {
        let t = set.tranches@[i];
        assert(t.risk_level@ == levels[i]);
    }
}

/// The admin may always create records: in a state whose admin is
/// `caller`, the caller may transform, and a guarded call is refused only
/// while another is in progress, never as unauthorized.
pub proof fn lemma_admin_may_always_transform(state: TransformationView, caller: Seq<char>)
    requires
        state.admin == Some(caller),
    ensures
        state.may_transform(caller),
        state.entry_refusal(caller) != Some(TransformationError::Unauthorized),
        !state.reentrancy_guard ==> state.entry_refusal(caller) is None,
{
}

/// With a rate of at most 100 %, the fee on a positive value lies between
/// zero and the value itself.
pub proof fn lemma_fee_within_total(total_value: int, fee_bps: int)
    requires
        total_value > 0,
        0 <= fee_bps <= 10000,
    ensures
        0 <= fee_of(total_value, fee_bps) <= total_value,
{
    assert(0 <= total_value * fee_bps <= total_value * 10000) by (nonlinear_arith)
        requires
            total_value > 0,
            0 <= fee_bps <= 10000,
    ;
}

/// A map that gained at most the entry numbered `c` keeps every id
/// numbered above `c` unused, when the ids from `c` on were unused before.
proof fn lemma_ids_unused_after_insert<V>(before: Map<Seq<char>, V>, after: Map<Seq<char>, V>, prefix: Seq<char>, c: nat)
    requires
        forall|n: nat| #![trigger record_id(prefix, n)] n >= c ==> !before.contains_key(record_id(prefix, n)),
        forall|k: Seq<char>| #[trigger] after.contains_key(k) ==> before.contains_key(k) || k == record_id(prefix, c),
    ensures
        forall|n: nat| #![trigger record_id(prefix, n)] n >= c + 1 ==> !after.contains_key(record_id(prefix, n)),
{
    assert forall|n: nat| n >= c + 1 implies !after.contains_key(#[trigger] record_id(prefix, n)) by {
        if record_id(prefix, n) == record_id(prefix, c) {
            lemma_record_id_injective(prefix, n, c);
        }
    }
}

/// In every well-formed state the ids that the next record of each kind
/// would get are unused, so creating a record never replaces one.
pub proof fn lemma_next_record_ids_unused(state: TransformationView)
    requires
        state.well_formed(),
    ensures
        !state.tranche_sets.contains_key(record_id("tr"@, state.counter as nat)),
        !state.collateral.contains_key(record_id("col"@, state.counter as nat)),
        !state.instruments.contains_key(record_id("sec"@, state.counter as nat)),
        !state.guarantees.contains_key(record_id("guar"@, state.counter as nat)),
{
}

/// Mapping values commutes with inserting an entry.
proof fn lemma_map_values_insert(m: Map<Seq<char>, Vec<String>>, k: Seq<char>, v: Vec<String>)
    ensures
        m.insert(k, v).map_values(|l: Vec<String>| ids_view(l)) == m.map_values(
            |l: Vec<String>| ids_view(l),
        ).insert(k, ids_view(v)),
{
    assert(m.insert(k, v).map_values(|l: Vec<String>| ids_view(l)) =~= m.map_values(
        |l: Vec<String>| ids_view(l),
    ).insert(k, ids_view(v)));
}


/// The sum of the tranche amounts that `shares` of `net_value` give.
pub open spec fn tranche_total(net_value: int, shares: Seq<u32>) -> int
    decreases shares.len(),
{
    if shares.len() == 0 {
        0
    } else {
        tranche_total(net_value, shares.drop_last()) + tranche_amount(net_value, shares.last() as int)
    }
}

/// The sum of the amounts of a list of tranches.
pub open spec fn sum_tranche_amounts(tranches: Seq<RiskTranche>) -> int
    decreases tranches.len(),
{
    if tranches.len() == 0 {
        0
    } else {
        sum_tranche_amounts(tranches.drop_last()) + tranches.last().amount
    }
}

proof fn lemma_tranche_total_scaled(net_value: int, shares: Seq<u32>)
    requires
        net_value >= 0,
    ensures
        10000 * tranche_total(net_value, shares) <= net_value * sum_bps(shares),
        10000 * tranche_total(net_value, shares) >= net_value * sum_bps(shares) - 9999 * shares.len(),
    decreases shares.len(),
{
    if shares.len() > 0 {
        let rest = shares.drop_last();
        let b = shares.last() as int;
        lemma_tranche_total_scaled(net_value, rest);
        let x = net_value * b;
        assert(x >= 0) by (nonlinear_arith)
            requires
                net_value >= 0,
                b >= 0,
                x == net_value * b,
        ;
        let a = tranche_amount(net_value, b);
        assert(a == x / 10000);
        assert(10000 * a <= x && 10000 * a > x - 10000);
        assert(net_value * sum_bps(shares) == net_value * sum_bps(rest) + x) by (nonlinear_arith)
            requires
                sum_bps(shares) == sum_bps(rest) + b,
                x == net_value * b,
        ;
    }
}

/// Splitting a non-negative `net_value` by shares summing to 10 000 bps
/// hands out at most `net_value` in total and loses less than one unit per
/// tranche to rounding: the total lies in `(net_value - n, net_value]` for
/// `n` tranches.
pub proof fn lemma_tranche_split_bounds(net_value: int, shares: Seq<u32>)
    requires
        net_value >= 0,
        sum_bps(shares) == 10000,
    ensures
        net_value - shares.len() < tranche_total(net_value, shares) <= net_value,
{
    lemma_tranche_total_scaled(net_value, shares);
}

/// The tranches of a recorded tranche set add up to the tranche total of
/// its shares.
pub proof fn lemma_recorded_tranche_amounts(
    set: TrancheSet,
    id: Seq<char>,
    commitment_id: Seq<char>,
    owner: Seq<char>,
    total_value: i128,
    quote: TrancheQuote,
    shares: Seq<u32>,
    levels: Seq<Seq<char>>,
    counter: u64,
    now: u64,
)
    requires
        tranche_set_recorded(set, id, commitment_id, owner, total_value, quote, shares, levels, counter, now),
    ensures
        sum_tranche_amounts(set.tranches@) == tranche_total(quote.net_value as int, shares),
        quote.net_value >= 0 && sum_bps(shares) == 10000 ==> quote.net_value - shares.len()
            < sum_tranche_amounts(set.tranches@) <= quote.net_value,
{
    let ts = set.tranches@;
    let net = quote.net_value as int;
    assert forall|k: int| 0 <= k <= shares.len() implies #[trigger] sum_tranche_amounts(ts.take(k))
        == tranche_total(net, shares.take(k)) by {
        lemma_prefix_sums(ts, shares, net, k);
    }
    assert(ts.take(ts.len() as int) =~= ts);
    assert(shares.take(shares.len() as int) =~= shares);
    assert(sum_tranche_amounts(ts.take(shares.len() as int)) == tranche_total(net, shares.take(shares.len() as int)));
    if net >= 0 && sum_bps(shares) == 10000 {
        lemma_tranche_split_bounds(net, shares);
    }
}

proof fn lemma_prefix_sums(ts: Seq<RiskTranche>, shares: Seq<u32>, net: int, k: int)
    requires
        ts.len() == shares.len(),
        forall|i: int| 0 <= i < shares.len() ==> (#[trigger] ts[i]).amount == tranche_amount(net, shares[i] as int),
        0 <= k <= shares.len(),
    ensures
        sum_tranche_amounts(ts.take(k)) == tranche_total(net, shares.take(k)),
    decreases k,
{
    if k > 0 {
        lemma_prefix_sums(ts, shares, net, k - 1);
        assert(ts.take(k).drop_last() =~= ts.take(k - 1));
        assert(shares.take(k).drop_last() =~= shares.take(k - 1));
        assert(ts.take(k).last() == ts[k - 1]);
        assert(shares.take(k).last() == shares[k - 1]);
    }
}

/// While a tranche creation is in progress (the guard is raised), every
/// guarded operation by a caller who may transform is refused as
/// reentrant.
pub proof fn lemma_guard_refuses_reentry(state: TransformationView, caller: Seq<char>)
    requires
        state.reentrancy_guard,
        state.may_transform(caller),
    ensures
        state.entry_refusal(caller) == Some(TransformationError::ReentrancyDetected),
{
}

/// The commitment transformation contract's storage.
pub struct CommitmentTransformationContract {
    admin: Option<String>,
    core_contract: Option<String>,
    fee_bps: u32,
    reentrancy_guard: bool,
    tranche_sets: Table<String, TrancheSet>,
    collateral: Table<String, CollateralizedAsset>,
    instruments: Table<String, SecondaryInstrument>,
    guarantees: Table<String, ProtocolGuarantee>,
    commitment_tranche_sets: Table<String, Vec<String>>,
    commitment_collateral: Table<String, Vec<String>>,
    commitment_instruments: Table<String, Vec<String>>,
    commitment_guarantees: Table<String, Vec<String>>,
    authorized: Table<String, bool>,
    counter: u64,
    fee_recipient: Option<String>,
    collected_fees: Table<String, i128>,
}

impl View for CommitmentTransformationContract {
    type V = TransformationView;

    closed spec fn view(&self) -> TransformationView {
        TransformationView {
            admin: opt_view(self.admin),
            core_contract: opt_view(self.core_contract),
            fee_bps: self.fee_bps,
            reentrancy_guard: self.reentrancy_guard,
            tranche_sets: self.tranche_sets@,
            collateral: self.collateral@,
            instruments: self.instruments@,
            guarantees: self.guarantees@,
            commitment_tranche_sets: self.commitment_tranche_sets@.map_values(|v: Vec<String>| ids_view(v)),
            commitment_collateral: self.commitment_collateral@.map_values(|v: Vec<String>| ids_view(v)),
            commitment_instruments: self.commitment_instruments@.map_values(|v: Vec<String>| ids_view(v)),
            commitment_guarantees: self.commitment_guarantees@.map_values(|v: Vec<String>| ids_view(v)),
            authorized: self.authorized@,
            counter: self.counter,
            fee_recipient: opt_view(self.fee_recipient),
            collected_fees: self.collected_fees@,
        }
    }
}

/// A copy of a list of ids.
fn copy_ids(v: &Vec<String>) -> (r: Vec<String>)
    ensures
        ids_view(r) == ids_view(*v),
{
    let mut out: Vec<String> = Vec::new();
    let mut i: usize = 0;
    while i < v.len()
        invariant
            i <= v@.len(),
            out@.len() == i,
            forall|j: int| 0 <= j < i ==> (#[trigger] out@[j])@ == v@[j]@,
        decreases v@.len() - i,
    {
        out.push(v[i].clone());
        i = i + 1;
    }
    assert(ids_view(out) =~= ids_view(*v));
    out
}

/// `list` (a copy of the list under some key, or empty) with `id` appended.
fn push_id(table: &Table<String, Vec<String>>, key: &String, id: &String) -> (r: Vec<String>)
    ensures
        ids_view(r) == list_of(table@.map_values(|v: Vec<String>| ids_view(v)), key@).push(id@),
{
    let mut list = match table.get(key) {
        Some(existing) => copy_ids(existing),
        None => Vec::new(),
    };
    let ghost before = ids_view(list);
    list.push(id.clone());
    proof {
        assert(ids_view(list) =~= before.push(id@));
        assert(before == list_of(table@.map_values(|v: Vec<String>| ids_view(v)), key@)) by {
            if !table@.contains_key(key@) {
                assert(before =~= Seq::<Seq<char>>::empty());
            }
        }
    }
    list
}

/// A copy of the id list stored under `key`, empty when there is none.
fn listed_ids(table: &Table<String, Vec<String>>, key: &String) -> (r: Vec<String>)
    ensures
        ids_view(r) == list_of(table@.map_values(|v: Vec<String>| ids_view(v)), key@),
{
    match table.get(key) {
        Some(existing) => copy_ids(existing),
        None => {
            let empty: Vec<String> = Vec::new();
            assert(ids_view(empty) =~= Seq::<Seq<char>>::empty());
            empty
        },
    }
}

impl CommitmentTransformationContract {
    /// A contract that has not been initialized.
    pub fn new() -> (r: Self)
        ensures
            r@.admin is None,
            r@.core_contract is None,
            r@.fee_bps == 0,
            !r@.reentrancy_guard,
            r@.counter == 0,
            r@.fee_recipient is None,
            r@.tranche_sets == Map::<Seq<char>, TrancheSet>::empty(),
            r@.collateral == Map::<Seq<char>, CollateralizedAsset>::empty(),
            r@.instruments == Map::<Seq<char>, SecondaryInstrument>::empty(),
            r@.guarantees == Map::<Seq<char>, ProtocolGuarantee>::empty(),
            r@.commitment_tranche_sets == Map::<Seq<char>, Seq<Seq<char>>>::empty(),
            r@.commitment_collateral == Map::<Seq<char>, Seq<Seq<char>>>::empty(),
            r@.commitment_instruments == Map::<Seq<char>, Seq<Seq<char>>>::empty(),
            r@.commitment_guarantees == Map::<Seq<char>, Seq<Seq<char>>>::empty(),
            r@.collected_fees == Map::<Seq<char>, i128>::empty(),
            r@.authorized == Map::<Seq<char>, bool>::empty(),
            r@.well_formed(),
    {
        CommitmentTransformationContract {
            admin: None,
            core_contract: None,
            fee_bps: 0,
            reentrancy_guard: false,
            tranche_sets: Table::new(),
            collateral: Table::new(),
            instruments: Table::new(),
            guarantees: Table::new(),
            commitment_tranche_sets: Table::new(),
            commitment_collateral: Table::new(),
            commitment_instruments: Table::new(),
            commitment_guarantees: Table::new(),
            authorized: Table::new(),
            counter: 0,
            fee_recipient: None,
            collected_fees: Table::new(),
        }
    }

    fn require_admin(&self, caller: &String) -> (r: Result<(), TransformationError>)
        ensures
            match self@.admin_refusal(caller@) {
                None => r is Ok,
                Some(e) => r == Err::<(), TransformationError>(e),
            },
    {
        match &self.admin {
            None => Err(TransformationError::NotInitialized),
            Some(a) => if *a == *caller {
                Ok(())
            } else {
                Err(TransformationError::Unauthorized)
            },
        }
    }

    fn require_authorized(&self, caller: &String) -> (r: Result<(), TransformationError>)
        ensures
            r is Ok <==> self@.may_transform(caller@),
            r is Err ==> r == Err::<(), TransformationError>(TransformationError::Unauthorized),
    {
        if let Some(a) = &self.admin {
            if *a == *caller {
                return Ok(());
            }
        }
        let allowed = match self.authorized.get(caller) {
            Some(b) => *b,
            None => false,
        };
        if allowed {
            Ok(())
        } else {
            Err(TransformationError::Unauthorized)
        }
    }

    /// Checks that `caller` may create records and that no guarded
    /// operation is in progress.
    pub fn guarded_entry(&self, caller: &String) -> (r: Result<(), TransformationError>)
        ensures
            match self@.entry_refusal(caller@) {
                None => r is Ok,
                Some(e) => r == Err::<(), TransformationError>(e),
            },
    {
        self.require_authorized(caller)?;
        if self.reentrancy_guard {
            return Err(TransformationError::ReentrancyDetected);
        }
        Ok(())
    }

    /// Sets the admin and the core contract, with a zero fee rate and a zero
    /// record counter; refused once initialized.
    pub fn initialize(&mut self, admin: String, core_contract: String) -> (r: Result<
        (),
        TransformationError,
    >)
        ensures
            old(self)@.well_formed() ==> final(self)@.well_formed(),
            old(self)@.admin is Some ==> r == Err::<(), TransformationError>(
                TransformationError::AlreadyInitialized,
            ) && final(self)@ == old(self)@,
            old(self)@.admin is None ==> r is Ok && final(self)@ == (TransformationView {
                admin: Some(admin@),
                core_contract: Some(core_contract@),
                fee_bps: 0,
                counter: 0,
                ..old(self)@
            }),
    {
        if self.admin.is_some() {
            return Err(TransformationError::AlreadyInitialized);
        }
        self.admin = Some(admin);
        self.core_contract = Some(core_contract);
        self.fee_bps = 0;
        self.counter = 0;
        Ok(())
    }

    /// Sets the fee charged on tranche creation, in basis points (at most
    /// 10 000); admin only.
    pub fn set_transformation_fee(&mut self, caller: &String, fee_bps: u32) -> (r: Result<
        (),
        TransformationError,
    >)
        ensures
            old(self)@.well_formed() ==> final(self)@.well_formed(),
            old(self)@.admin_refusal(caller@) is Some ==> r == Err::<(), TransformationError>(
                old(self)@.admin_refusal(caller@)->Some_0,
            ) && final(self)@ == old(self)@,
            old(self)@.admin_refusal(caller@) is None && fee_bps > 10000 ==> r == Err::<
                (),
                TransformationError,
            >(TransformationError::InvalidFeeBps) && final(self)@ == old(self)@,
            old(self)@.admin_refusal(caller@) is None && fee_bps <= 10000 ==> r is Ok && final(self)@
                == (TransformationView { fee_bps, ..old(self)@ }),
    {
        self.require_admin(caller)?;
        if fee_bps > 10000 {
            return Err(TransformationError::InvalidFeeBps);
        }
        self.fee_bps = fee_bps;
        Ok(())
    }

    /// Grants (`allowed`) or revokes the right of `transformer` to create
    /// records; admin only.
    pub fn set_authorized_transformer(&mut self, caller: &String, transformer: String, allowed: bool) -> (r:
        Result<(), TransformationError>)
        ensures
            old(self)@.well_formed() ==> final(self)@.well_formed(),
            old(self)@.admin_refusal(caller@) is Some ==> r == Err::<(), TransformationError>(
                old(self)@.admin_refusal(caller@)->Some_0,
            ) && final(self)@ == old(self)@,
            old(self)@.admin_refusal(caller@) is None ==> r is Ok && final(self)@ == (
            TransformationView {
                authorized: old(self)@.authorized.insert(transformer@, allowed),
                ..old(self)@
            }),
    {
        self.require_admin(caller)?;
        self.authorized.insert(transformer, allowed);
        Ok(())
    }

    /// Sets the address that withdrawn fees are paid to; admin only.
    pub fn set_fee_recipient(&mut self, caller: &String, recipient: String) -> (r: Result<
        (),
        TransformationError,
    >)
        ensures
            old(self)@.well_formed() ==> final(self)@.well_formed(),
            old(self)@.admin_refusal(caller@) is Some ==> r == Err::<(), TransformationError>(
                old(self)@.admin_refusal(caller@)->Some_0,
            ) && final(self)@ == old(self)@,
            old(self)@.admin_refusal(caller@) is None ==> r is Ok && final(self)@ == (
            TransformationView { fee_recipient: Some(recipient@), ..old(self)@ }),
    {
        self.require_admin(caller)?;
        self.fee_recipient = Some(recipient);
        Ok(())
    }


    /// Checks a tranche request without changing anything: `caller` may
    /// transform, no guarded operation is in progress, `total_value` is
    /// positive, there is one risk level per share, and the shares sum to
    /// exactly 10 000 bps.
    pub fn check_tranche_request(
        &self,
        caller: &String,
        total_value: i128,
        tranche_share_bps: &Vec<u32>,
        risk_levels: &Vec<String>,
    ) -> (r: Result<(), TransformationError>)
        ensures
            match self@.tranche_refusal(caller@, total_value as int, tranche_share_bps@, risk_levels@.len()) {
                None => r is Ok,
                Some(e) => r == Err::<(), TransformationError>(e),
            },
    {
        self.guarded_entry(caller)?;
        if total_value <= 0 {
            return Err(TransformationError::InvalidAmount);
        }
        let n = tranche_share_bps.len();
        if n != risk_levels.len() || n == 0 {
            return Err(TransformationError::InvalidTrancheRatios);
        }
        let mut sum: u32 = 0;
        let mut i: usize = 0;
        while i < n
            invariant
                n == tranche_share_bps@.len(),
                i <= n,
                sum as int == if sum_bps(tranche_share_bps@.take(i as int)) > u32::MAX {
                    u32::MAX as int
                } else {
                    sum_bps(tranche_share_bps@.take(i as int))
                },
            decreases n - i,
        {
            proof {
                let s = tranche_share_bps@;
                assert(s.take(i + 1).drop_last() =~= s.take(i as int));
                assert(s.take(i + 1).last() == s[i as int]);
            }
            sum = sum.saturating_add(tranche_share_bps[i]);
            i = i + 1;
        }
        proof {
            assert(tranche_share_bps@.take(n as int) =~= tranche_share_bps@);
        }
        if sum != 10000 {
            return Err(TransformationError::InvalidTrancheRatios);
        }
        Ok(())
    }

    /// Accepts a tranche request: `caller` may transform, no guarded
    /// operation is in progress, `total_value` is positive, there is one
    /// risk level per share, and the shares sum to exactly 10 000 bps.
    /// On acceptance the reentrancy guard is raised and the fee split is
    /// quoted: `fee = total_value * fee_bps / 10 000` (rounded toward zero)
    /// and `net = total_value - fee`.
    pub fn create_tranches_begin(
        &mut self,
        caller: &String,
        total_value: i128,
        tranche_share_bps: &Vec<u32>,
        risk_levels: &Vec<String>,
    ) -> (r: Result<TrancheQuote, TransformationError>)
        requires
            old(self)@.tranche_refusal(
                caller@,
                total_value as int,
                tranche_share_bps@,
                risk_levels@.len(),
            ) is None ==> fits_i128(total_value * old(self)@.fee_bps),
        ensures
            old(self)@.well_formed() ==> final(self)@.well_formed(),
            ({
                let refusal = old(self)@.tranche_refusal(
                    caller@,
                    total_value as int,
                    tranche_share_bps@,
                    risk_levels@.len(),
                );
                &&& refusal is Some ==> r == Err::<TrancheQuote, TransformationError>(refusal->Some_0)
                    && final(self)@ == old(self)@
                &&& refusal is None ==> r == Ok::<TrancheQuote, TransformationError>(
                    TrancheQuote {
                        fee_amount: fee_of(total_value as int, old(self)@.fee_bps as int) as i128,
                        net_value: (total_value - fee_of(total_value as int, old(self)@.fee_bps as int)) as i128,
                    },
                ) && final(self)@ == (TransformationView { reentrancy_guard: true, ..old(self)@ })
            }),
    {
        self.check_tranche_request(caller, total_value, tranche_share_bps, risk_levels)?;
        let scaled = total_value * (self.fee_bps as i128);
        let fee_amount = div_toward_zero(scaled, 10000);
        proof {
            assert(fee_amount == fee_of(total_value as int, self.fee_bps as int));
            if self.fee_bps <= 10000 {
                lemma_fee_within_total(total_value as int, self.fee_bps as int);
            }
        }
        let net_value = total_value - fee_amount;
        self.reentrancy_guard = true;
        Ok(TrancheQuote { fee_amount, net_value })
    }

    /// Splits a commitment of `total_value` into risk tranches in one call:
    /// the request is checked as [`Self::create_tranches_begin`] checks it;
    /// when accepted, a positive fee is handed to `collect_fee` (which
    /// transfers it from the caller and does not return if it cannot), and
    /// the set is recorded as [`Self::create_tranches_finish`] records it.
    pub fn create_tranches<F: FnOnce(i128)>(
        &mut self,
        caller: String,
        commitment_id: String,
        total_value: i128,
        tranche_share_bps: &Vec<u32>,
        risk_levels: &Vec<String>,
        fee_asset: String,
        now: u64,
        collect_fee: F,
    ) -> (r: Result<String, TransformationError>)
        requires
            old(self)@.tranche_refusal(caller@, total_value as int, tranche_share_bps@, risk_levels@.len())
                is None ==> {
                let fee = fee_of(total_value as int, old(self)@.fee_bps as int);
                &&& fits_i128(total_value * old(self)@.fee_bps)
                &&& old(self)@.counter < u64::MAX
                &&& old(self)@.counter * 10 + tranche_share_bps@.len() <= u64::MAX + 1
                &&& forall|i: int|
                    0 <= i < tranche_share_bps@.len() ==> fits_i128(
                        (total_value - fee) * #[trigger] tranche_share_bps@[i],
                    )
                &&& fee > 0 ==> fits_i128(collected_of(old(self)@.collected_fees, fee_asset@) + fee)
                &&& fee > 0 ==> call_requires(collect_fee, (fee as i128,))
            },
        ensures
            old(self)@.well_formed() ==> final(self)@.well_formed(),
            ({
                let refusal = old(self)@.tranche_refusal(
                    caller@,
                    total_value as int,
                    tranche_share_bps@,
                    risk_levels@.len(),
                );
                let fee = fee_of(total_value as int, old(self)@.fee_bps as int);
                let quote = TrancheQuote { fee_amount: fee as i128, net_value: (total_value - fee) as i128 };
                &&& refusal is Some ==> r == Err::<String, TransformationError>(refusal->Some_0)
                    && final(self)@ == old(self)@
                &&& refusal is None ==> r is Ok && ({
                    let id = r->Ok_0;
                    &&& fee > 0 ==> call_ensures(collect_fee, (fee as i128,), ())
                    &&& id@ == record_id("tr"@, old(self)@.counter as nat)
                    &&& old(self)@.well_formed() ==> !old(self)@.tranche_sets.contains_key(id@)
                    &&& final(self)@.tranche_sets.contains_key(id@)
                    &&& tranche_set_recorded(
                        final(self)@.tranche_sets[id@],
                        id@,
                        commitment_id@,
                        caller@,
                        total_value,
                        quote,
                        tranche_share_bps@,
                        risk_levels@.map_values(|s: String| s@),
                        old(self)@.counter,
                        now,
                    )
                    &&& forall|i: int|
                        0 <= i < risk_levels@.len() ==> (#[trigger] final(self)@.tranche_sets[id@].tranches@[i]).risk_level@
                            == risk_levels@[i]@ && final(self)@.tranche_sets[id@].tranches@[i].share_bps
                            == tranche_share_bps@[i]
                    &&& final(self)@ == (TransformationView {
                        counter: (old(self)@.counter + 1) as u64,
                        tranche_sets: old(self)@.tranche_sets.insert(id@, final(self)@.tranche_sets[id@]),
                        commitment_tranche_sets: appended(
                            old(self)@.commitment_tranche_sets,
                            commitment_id@,
                            id@,
                        ),
                        collected_fees: if fee > 0 {
                            old(self)@.collected_fees.insert(
                                fee_asset@,
                                (collected_of(old(self)@.collected_fees, fee_asset@) + fee) as i128,
                            )
                        } else {
                            old(self)@.collected_fees
                        },
                        ..old(self)@
                    })
                })
            }),
    {
        let quote = self.create_tranches_begin(&caller, total_value, tranche_share_bps, risk_levels)?;
        if quote.fee_amount > 0 {
            collect_fee(quote.fee_amount);
        }
        let id = self.create_tranches_finish(
            caller,
            commitment_id,
            total_value,
            tranche_share_bps,
            risk_levels,
            fee_asset,
            quote,
            now,
        );
        Ok(id)
    }

    /// Records the tranche set of an accepted request once its fee has been
    /// paid: the set gets id `"tr"` + counter, tranche `i` gets id `"t"` +
    /// (counter * 10 + i) and the amount `net * share_i / 10 000` (rounded
    /// toward zero); a positive fee is added to the fees collected for
    /// `fee_asset`; the counter advances, the set is listed under the
    /// commitment, and the reentrancy guard is lowered.
    pub fn create_tranches_finish(
        &mut self,
        caller: String,
        commitment_id: String,
        total_value: i128,
        tranche_share_bps: &Vec<u32>,
        risk_levels: &Vec<String>,
        fee_asset: String,
        quote: TrancheQuote,
        now: u64,
    ) -> (id: String)
        requires
            old(self)@.reentrancy_guard,
            tranche_share_bps@.len() == risk_levels@.len(),
            old(self)@.counter < u64::MAX,
            old(self)@.counter * 10 + tranche_share_bps@.len() <= u64::MAX + 1,
            forall|i: int|
                0 <= i < tranche_share_bps@.len() ==> fits_i128(
                    quote.net_value * #[trigger] tranche_share_bps@[i],
                ),
            quote.fee_amount > 0 ==> fits_i128(
                collected_of(old(self)@.collected_fees, fee_asset@) + quote.fee_amount,
            ),
        ensures
            old(self)@.well_formed() ==> final(self)@.well_formed(),
            id@ == record_id("tr"@, old(self)@.counter as nat),
            old(self)@.well_formed() ==> !old(self)@.tranche_sets.contains_key(id@),
            final(self)@.tranche_sets.contains_key(id@),
            tranche_set_recorded(
                final(self)@.tranche_sets[id@],
                id@,
                commitment_id@,
                caller@,
                total_value,
                quote,
                tranche_share_bps@,
                risk_levels@.map_values(|s: String| s@),
                old(self)@.counter,
                now,
            ),
            forall|i: int|
                0 <= i < risk_levels@.len() ==> (#[trigger] final(self)@.tranche_sets[id@].tranches@[i]).risk_level@
                    == risk_levels@[i]@ && final(self)@.tranche_sets[id@].tranches@[i].share_bps
                    == tranche_share_bps@[i],
            final(self)@ == (TransformationView {
                reentrancy_guard: false,
                counter: (old(self)@.counter + 1) as u64,
                tranche_sets: old(self)@.tranche_sets.insert(id@, final(self)@.tranche_sets[id@]),
                commitment_tranche_sets: appended(
                    old(self)@.commitment_tranche_sets,
                    commitment_id@,
                    id@,
                ),
                collected_fees: if quote.fee_amount > 0 {
                    old(self)@.collected_fees.insert(
                        fee_asset@,
                        (collected_of(old(self)@.collected_fees, fee_asset@) + quote.fee_amount) as i128,
                    )
                } else {
                    old(self)@.collected_fees
                },
                ..old(self)@
            }),
    {
        let ghost old_view = self@;
        let fee_amount = quote.fee_amount;
        if fee_amount > 0 {
            let current = match self.collected_fees.get(&fee_asset) {
                Some(v) => *v,
                None => 0,
            };
            self.collected_fees.insert(fee_asset, current + fee_amount);
        }
        let counter = self.counter;
        let transformation_id = format_record_id("tr", counter);
        self.counter = counter + 1;
        let n = tranche_share_bps.len();
        let net_value = quote.net_value;
        let mut tranches: Vec<RiskTranche> = Vec::new();
        let mut i: usize = 0;
        while i < n
            invariant
                n == tranche_share_bps@.len(),
                n == risk_levels@.len(),
                i <= n,
                counter * 10 + n <= u64::MAX + 1,
                net_value == quote.net_value,
                forall|j: int|
                    0 <= j < n ==> fits_i128(quote.net_value * #[trigger] tranche_share_bps@[j]),
                tranches@.len() == i,
                forall|j: int|
                    0 <= j < i ==> {
                        let t = #[trigger] tranches@[j];
                        &&& t.tranche_id@ == record_id("t"@, (counter * 10 + j) as nat)
                        &&& t.commitment_id@ == commitment_id@
                        &&& t.risk_level@ == risk_levels@[j]@
                        &&& t.amount == tranche_amount(quote.net_value as int, tranche_share_bps@[j] as int)
                        &&& t.share_bps == tranche_share_bps@[j]
                        &&& t.created_at == now
                    },
            decreases n - i,
        {
            let bps = tranche_share_bps[i];
            let amount = div_toward_zero(net_value * (bps as i128), 10000);
            let tranche_id = format_record_id("t", counter * 10 + (i as u64));
            tranches.push(
                RiskTranche {
                    tranche_id,
                    commitment_id: commitment_id.clone(),
                    risk_level: risk_levels[i].clone(),
                    amount,
                    share_bps: bps,
                    created_at: now,
                },
            );
            i = i + 1;
        }
        let set = TrancheSet {
            transformation_id: transformation_id.clone(),
            commitment_id: commitment_id.clone(),
            owner: caller,
            total_value,
            tranches,
            fee_paid: fee_amount,
            created_at: now,
        };
        self.tranche_sets.insert(transformation_id.clone(), set);
        let ghost lists_before = self.commitment_tranche_sets@;
        let list = push_id(&self.commitment_tranche_sets, &commitment_id, &transformation_id);
        self.commitment_tranche_sets.insert(commitment_id, list);
        self.reentrancy_guard = false;
        proof {
            lemma_map_values_insert(lists_before, commitment_id@, list);
        }
        proof {
            if old_view.well_formed() {
                lemma_ids_unused_after_insert(old_view.tranche_sets, self@.tranche_sets, "tr"@, old_view.counter as nat);
            }
        }
        transformation_id
    }


    /// Abandons an accepted tranche request whose fee could not be paid:
    /// the reentrancy guard is lowered and nothing else changes.
    pub fn create_tranches_cancel(&mut self)
        ensures
            old(self)@.well_formed() ==> final(self)@.well_formed(),
            final(self)@ == (TransformationView { reentrancy_guard: false, ..old(self)@ }),
    {
        self.reentrancy_guard = false;
    }

    /// The number the next record will carry in its id.
    pub fn next_record_number(&self) -> (r: u64)
        ensures
            r == self@.counter,
    {
        self.counter
    }

    /// Records `collateral_amount` (positive) of `asset_address` pledged
    /// against `commitment_id`, under id `"col"` + counter; the counter
    /// advances and the record is listed under the commitment.
    pub fn collateralize(
        &mut self,
        caller: String,
        commitment_id: String,
        collateral_amount: i128,
        asset_address: String,
        now: u64,
    ) -> (r: Result<String, TransformationError>)
        requires
            old(self)@.entry_refusal(caller@) is None && collateral_amount > 0 ==> old(self)@.counter
                < u64::MAX,
        ensures
            old(self)@.well_formed() ==> final(self)@.well_formed(),
            old(self)@.entry_refusal(caller@) is Some ==> r == Err::<String, TransformationError>(
                old(self)@.entry_refusal(caller@)->Some_0,
            ) && final(self)@ == old(self)@,
            old(self)@.entry_refusal(caller@) is None && collateral_amount <= 0 ==> r == Err::<
                String,
                TransformationError,
            >(TransformationError::InvalidAmount) && final(self)@ == old(self)@,
            old(self)@.entry_refusal(caller@) is None && collateral_amount > 0 ==> r is Ok && ({
                let id = r->Ok_0;
                &&& id@ == record_id("col"@, old(self)@.counter as nat)
                &&& old(self)@.well_formed() ==> !old(self)@.collateral.contains_key(id@)
                &&& final(self)@ == (TransformationView {
                    counter: (old(self)@.counter + 1) as u64,
                    collateral: old(self)@.collateral.insert(
                        id@,
                        CollateralizedAsset {
                            asset_id: id,
                            commitment_id,
                            owner: caller,
                            collateral_amount,
                            asset_address,
                            created_at: now,
                        },
                    ),
                    commitment_collateral: appended(
                        old(self)@.commitment_collateral,
                        commitment_id@,
                        id@,
                    ),
                    ..old(self)@
                })
            }),
    {
        let ghost old_view = self@;
        self.guarded_entry(&caller)?;
        if collateral_amount <= 0 {
            return Err(TransformationError::InvalidAmount);
        }
        let counter = self.counter;
        let asset_id = format_record_id("col", counter);
        self.counter = counter + 1;
        let key = commitment_id.clone();
        let record = CollateralizedAsset {
            asset_id: asset_id.clone(),
            commitment_id,
            owner: caller,
            collateral_amount,
            asset_address,
            created_at: now,
        };
        self.collateral.insert(asset_id.clone(), record);
        let ghost lists_before = self.commitment_collateral@;
        let list = push_id(&self.commitment_collateral, &key, &asset_id);
        self.commitment_collateral.insert(key, list);
        proof {
            lemma_map_values_insert(lists_before, commitment_id@, list);
        }
        proof {
            if old_view.well_formed() {
                lemma_ids_unused_after_insert(old_view.collateral, self@.collateral, "col"@, old_view.counter as nat);
            }
        }
        Ok(asset_id)
    }

    /// Records a secondary instrument of `instrument_type` and positive
    /// `amount` on `commitment_id`, under id `"sec"` + counter; the counter
    /// advances and the record is listed under the commitment.
    pub fn create_secondary_instrument(
        &mut self,
        caller: String,
        commitment_id: String,
        instrument_type: String,
        amount: i128,
        now: u64,
    ) -> (r: Result<String, TransformationError>)
        requires
            old(self)@.entry_refusal(caller@) is None && amount > 0 ==> old(self)@.counter < u64::MAX,
        ensures
            old(self)@.well_formed() ==> final(self)@.well_formed(),
            old(self)@.entry_refusal(caller@) is Some ==> r == Err::<String, TransformationError>(
                old(self)@.entry_refusal(caller@)->Some_0,
            ) && final(self)@ == old(self)@,
            old(self)@.entry_refusal(caller@) is None && amount <= 0 ==> r == Err::<
                String,
                TransformationError,
            >(TransformationError::InvalidAmount) && final(self)@ == old(self)@,
            old(self)@.entry_refusal(caller@) is None && amount > 0 ==> r is Ok && ({
                let id = r->Ok_0;
                &&& id@ == record_id("sec"@, old(self)@.counter as nat)
                &&& old(self)@.well_formed() ==> !old(self)@.instruments.contains_key(id@)
                &&& final(self)@ == (TransformationView {
                    counter: (old(self)@.counter + 1) as u64,
                    instruments: old(self)@.instruments.insert(
                        id@,
                        SecondaryInstrument {
                            instrument_id: id,
                            commitment_id,
                            owner: caller,
                            instrument_type,
                            amount,
                            created_at: now,
                        },
                    ),
                    commitment_instruments: appended(
                        old(self)@.commitment_instruments,
                        commitment_id@,
                        id@,
                    ),
                    ..old(self)@
                })
            }),
    {
        let ghost old_view = self@;
        self.guarded_entry(&caller)?;
        if amount <= 0 {
            return Err(TransformationError::InvalidAmount);
        }
        let counter = self.counter;
        let instrument_id = format_record_id("sec", counter);
        self.counter = counter + 1;
        let key = commitment_id.clone();
        let record = SecondaryInstrument {
            instrument_id: instrument_id.clone(),
            commitment_id,
            owner: caller,
            instrument_type,
            amount,
            created_at: now,
        };
        self.instruments.insert(instrument_id.clone(), record);
        let ghost lists_before = self.commitment_instruments@;
        let list = push_id(&self.commitment_instruments, &key, &instrument_id);
        self.commitment_instruments.insert(key, list);
        proof {
            lemma_map_values_insert(lists_before, commitment_id@, list);
        }
        proof {
            if old_view.well_formed() {
                lemma_ids_unused_after_insert(old_view.instruments, self@.instruments, "sec"@, old_view.counter as nat);
            }
        }
        Ok(instrument_id)
    }

    /// Attaches a guarantee of `guarantee_type` with off-chain terms hash
    /// `terms_hash` to `commitment_id`, under id `"guar"` + counter; the
    /// counter advances and the record is listed under the commitment.
    pub fn add_protocol_guarantee(
        &mut self,
        caller: String,
        commitment_id: String,
        guarantee_type: String,
        terms_hash: String,
        now: u64,
    ) -> (r: Result<String, TransformationError>)
        requires
            old(self)@.entry_refusal(caller@) is None ==> old(self)@.counter < u64::MAX,
        ensures
            old(self)@.well_formed() ==> final(self)@.well_formed(),
            old(self)@.entry_refusal(caller@) is Some ==> r == Err::<String, TransformationError>(
                old(self)@.entry_refusal(caller@)->Some_0,
            ) && final(self)@ == old(self)@,
            old(self)@.entry_refusal(caller@) is None ==> r is Ok && ({
                let id = r->Ok_0;
                &&& id@ == record_id("guar"@, old(self)@.counter as nat)
                &&& old(self)@.well_formed() ==> !old(self)@.guarantees.contains_key(id@)
                &&& final(self)@ == (TransformationView {
                    counter: (old(self)@.counter + 1) as u64,
                    guarantees: old(self)@.guarantees.insert(
                        id@,
                        ProtocolGuarantee {
                            guarantee_id: id,
                            commitment_id,
                            guarantee_type,
                            terms_hash,
                            created_at: now,
                        },
                    ),
                    commitment_guarantees: appended(
                        old(self)@.commitment_guarantees,
                        commitment_id@,
                        id@,
                    ),
                    ..old(self)@
                })
            }),
    {
        let ghost old_view = self@;
        self.guarded_entry(&caller)?;
        let counter = self.counter;
        let guarantee_id = format_record_id("guar", counter);
        self.counter = counter + 1;
        let key = commitment_id.clone();
        let record = ProtocolGuarantee {
            guarantee_id: guarantee_id.clone(),
            commitment_id,
            guarantee_type,
            terms_hash,
            created_at: now,
        };
        self.guarantees.insert(guarantee_id.clone(), record);
        let ghost lists_before = self.commitment_guarantees@;
        let list = push_id(&self.commitment_guarantees, &key, &guarantee_id);
        self.commitment_guarantees.insert(key, list);
        proof {
            lemma_map_values_insert(lists_before, commitment_id@, list);
        }
        proof {
            if old_view.well_formed() {
                lemma_ids_unused_after_insert(old_view.guarantees, self@.guarantees, "guar"@, old_view.counter as nat);
            }
        }
        Ok(guarantee_id)
    }

    /// The tranche set recorded under `transformation_id`.
    pub fn get_tranche_set(&self, transformation_id: &String) -> (r: Result<&TrancheSet, TransformationError>)
        ensures
            self@.tranche_sets.contains_key(transformation_id@) ==> r is Ok && *r->Ok_0
                == self@.tranche_sets[transformation_id@],
            !self@.tranche_sets.contains_key(transformation_id@) ==> r is Err && r->Err_0
                == TransformationError::TransformationNotFound,
    {
        match self.tranche_sets.get(transformation_id) {
            Some(v) => Ok(v),
            None => Err(TransformationError::TransformationNotFound),
        }
    }

    /// The collateral record under `asset_id`.
    pub fn get_collateralized_asset(&self, asset_id: &String) -> (r: Result<
        &CollateralizedAsset,
        TransformationError,
    >)
        ensures
            self@.collateral.contains_key(asset_id@) ==> r is Ok && *r->Ok_0
                == self@.collateral[asset_id@],
            !self@.collateral.contains_key(asset_id@) ==> r is Err && r->Err_0
                == TransformationError::TransformationNotFound,
    {
        match self.collateral.get(asset_id) {
            Some(v) => Ok(v),
            None => Err(TransformationError::TransformationNotFound),
        }
    }

    /// The secondary instrument under `instrument_id`.
    pub fn get_secondary_instrument(&self, instrument_id: &String) -> (r: Result<
        &SecondaryInstrument,
        TransformationError,
    >)
        ensures
            self@.instruments.contains_key(instrument_id@) ==> r is Ok && *r->Ok_0
                == self@.instruments[instrument_id@],
            !self@.instruments.contains_key(instrument_id@) ==> r is Err && r->Err_0
                == TransformationError::TransformationNotFound,
    {
        match self.instruments.get(instrument_id) {
            Some(v) => Ok(v),
            None => Err(TransformationError::TransformationNotFound),
        }
    }

    /// The protocol guarantee under `guarantee_id`.
    pub fn get_protocol_guarantee(&self, guarantee_id: &String) -> (r: Result<
        &ProtocolGuarantee,
        TransformationError,
    >)
        ensures
            self@.guarantees.contains_key(guarantee_id@) ==> r is Ok && *r->Ok_0
                == self@.guarantees[guarantee_id@],
            !self@.guarantees.contains_key(guarantee_id@) ==> r is Err && r->Err_0
                == TransformationError::TransformationNotFound,
    {
        match self.guarantees.get(guarantee_id) {
            Some(v) => Ok(v),
            None => Err(TransformationError::TransformationNotFound),
        }
    }

    /// The ids of the tranche sets of `commitment_id`, oldest first.
    pub fn get_commitment_tranche_sets(&self, commitment_id: &String) -> (r: Vec<String>)
        ensures
            ids_view(r) == list_of(self@.commitment_tranche_sets, commitment_id@),
    {
        listed_ids(&self.commitment_tranche_sets, commitment_id)
    }

    /// The ids of the collateral records of `commitment_id`, oldest first.
    pub fn get_commitment_collateral(&self, commitment_id: &String) -> (r: Vec<String>)
        ensures
            ids_view(r) == list_of(self@.commitment_collateral, commitment_id@),
    {
        listed_ids(&self.commitment_collateral, commitment_id)
    }

    /// The ids of the secondary instruments of `commitment_id`, oldest first.
    pub fn get_commitment_instruments(&self, commitment_id: &String) -> (r: Vec<String>)
        ensures
            ids_view(r) == list_of(self@.commitment_instruments, commitment_id@),
    {
        listed_ids(&self.commitment_instruments, commitment_id)
    }

    /// The ids of the guarantees of `commitment_id`, oldest first.
    pub fn get_commitment_guarantees(&self, commitment_id: &String) -> (r: Vec<String>)
        ensures
            ids_view(r) == list_of(self@.commitment_guarantees, commitment_id@),
    {
        listed_ids(&self.commitment_guarantees, commitment_id)
    }

    /// Withdraws `amount` (positive, at most the fees collected for
    /// `asset_address`) of collected fees to the fee recipient; admin only.
    /// The payout is handed to `pay_out` (which transfers it and does not
    /// return if it cannot) before the balance is reduced, and is returned.
    pub fn withdraw_fees<F: FnOnce(&FeePayout)>(
        &mut self,
        caller: &String,
        asset_address: String,
        amount: i128,
        pay_out: F,
    ) -> (r: Result<FeePayout, TransformationError>)
        requires
            old(self)@.admin_refusal(caller@) is None && amount > 0 && old(self)@.fee_recipient is Some
                && amount <= collected_of(old(self)@.collected_fees, asset_address@) ==> forall|p: FeePayout|
                p.token@ == asset_address@ && p.recipient@ == old(self)@.fee_recipient->Some_0 && p.amount
                    == amount ==> call_requires(pay_out, (&p,)),
        ensures
            r is Ok ==> call_ensures(pay_out, (&r->Ok_0,), ()),
            old(self)@.well_formed() ==> final(self)@.well_formed(),
            old(self)@.admin_refusal(caller@) is Some ==> r == Err::<FeePayout, TransformationError>(
                old(self)@.admin_refusal(caller@)->Some_0,
            ) && final(self)@ == old(self)@,
            old(self)@.admin_refusal(caller@) is None && amount <= 0 ==> r == Err::<
                FeePayout,
                TransformationError,
            >(TransformationError::InvalidAmount) && final(self)@ == old(self)@,
            old(self)@.admin_refusal(caller@) is None && amount > 0 && old(self)@.fee_recipient is None
                ==> r == Err::<FeePayout, TransformationError>(
                TransformationError::FeeRecipientNotSet,
            ) && final(self)@ == old(self)@,
            old(self)@.admin_refusal(caller@) is None && amount > 0 && old(self)@.fee_recipient is Some
                && amount > collected_of(old(self)@.collected_fees, asset_address@) ==> r == Err::<
                FeePayout,
                TransformationError,
            >(TransformationError::InsufficientFees) && final(self)@ == old(self)@,
            old(self)@.admin_refusal(caller@) is None && amount > 0 && old(self)@.fee_recipient is Some
                && amount <= collected_of(old(self)@.collected_fees, asset_address@) ==> r is Ok && ({
                let payout = r->Ok_0;
                &&& payout.token == asset_address
                &&& payout.recipient@ == old(self)@.fee_recipient->Some_0
                &&& payout.amount == amount
                &&& final(self)@ == (TransformationView {
                    collected_fees: old(self)@.collected_fees.insert(
                        asset_address@,
                        (collected_of(old(self)@.collected_fees, asset_address@) - amount) as i128,
                    ),
                    ..old(self)@
                })
            }),
    {
        self.require_admin(caller)?;
        if amount <= 0 {
            return Err(TransformationError::InvalidAmount);
        }
        let recipient = match &self.fee_recipient {
            Some(a) => a.clone(),
            None => {
                return Err(TransformationError::FeeRecipientNotSet);
            },
        };
        let collected = match self.collected_fees.get(&asset_address) {
            Some(v) => *v,
            None => 0,
        };
        if amount > collected {
            return Err(TransformationError::InsufficientFees);
        }
        let payout = FeePayout { token: asset_address.clone(), recipient, amount };
        proof {
            assert(collected == collected_of(self@.collected_fees, asset_address@));
            assert(payout.token@ == asset_address@ && payout.recipient@ == self@.fee_recipient->Some_0);
        }
        pay_out(&payout);
        self.collected_fees.insert(asset_address, collected - amount);
        Ok(payout)
    }

    /// The admin address.
    pub fn get_admin(&self) -> (r: Result<String, TransformationError>)
        ensures
            match self@.admin {
                Some(a) => r is Ok && r->Ok_0@ == a,
                None => r == Err::<String, TransformationError>(TransformationError::NotInitialized),
            },
    {
        match &self.admin {
            Some(a) => Ok(a.clone()),
            None => Err(TransformationError::NotInitialized),
        }
    }

    /// The fee rate charged on tranche creation, in basis points.
    pub fn get_transformation_fee_bps(&self) -> (r: u32)
        ensures
            r == self@.fee_bps,
    {
        self.fee_bps
    }

    /// The fee recipient, if one was set.
    pub fn get_fee_recipient(&self) -> (r: Option<String>)
        ensures
            opt_view(r) == self@.fee_recipient,
    {
        match &self.fee_recipient {
            Some(a) => Some(a.clone()),
            None => None,
        }
    }

    /// The fees collected for `asset_address` and not yet withdrawn.
    pub fn get_collected_fees(&self, asset_address: &String) -> (r: i128)
        ensures
            r == collected_of(self@.collected_fees, asset_address@),
    {
        match self.collected_fees.get(asset_address) {
            Some(v) => *v,
            None => 0,
        }
    }
}

} // verus!
