//! Pure, allocation-free classifiers of commitment inputs: the shape of a
//! generated commitment id and the fee split of a commitment amount.
use vstd::prelude::*;
use crate::fees::{BPS_MAX, BPS_SCALE};
use crate::math::{trunc_div, fits_i128, div_toward_zero};

verus! {

/// Longest commitment id, in bytes, that the generator produces.
pub const MAX_COMMITMENT_ID_BYTES: usize = 32;

/// The shape of a byte string offered as a generated commitment id
/// (`c_` followed by decimal digits).
#[derive(Clone, Copy, Debug, PartialEq, Eq, Structural)]
pub enum CommitmentIdShape {
    Empty,
    TooLong,
    InvalidPrefix,
    MissingDigits,
    NonDigitSuffix,
    ValidGenerated,
}

/// The outcome of splitting an amount into a fee and a net part.
#[derive(Clone, Copy, Debug, PartialEq, Eq, Structural)]
pub enum AmountShape {
    NonPositive,
    InvalidFeeBps,
    FeeOverflow,
    NetUnderflow,
    Valid,
}

/// The classification of an amount together with the fee and net amounts
/// that could be computed.
#[derive(Clone, Copy, Debug, PartialEq, Eq, Structural)]
pub struct AmountObservation {
    pub shape: AmountShape,
    pub fee: Option<i128>,
    pub net: Option<i128>,
}

/// The classification of both halves of a commitment input.
#[derive(Clone, Copy, Debug, PartialEq, Eq, Structural)]
pub struct CommitmentInputObservation {
    pub id_shape: CommitmentIdShape,
    pub amount: AmountObservation,
}

/// ASCII `'0'..='9'`.
pub open spec fn is_digit_byte(b: u8) -> bool {
    48 <= b <= 57
}

/// The shape of `bytes` as a generated commitment id.
pub open spec fn id_shape(bytes: Seq<u8>) -> CommitmentIdShape {
    if bytes.len() == 0 {
        CommitmentIdShape::Empty
    } else if bytes.len() > MAX_COMMITMENT_ID_BYTES {
        CommitmentIdShape::TooLong
    } else if !(bytes.len() >= 2 && bytes[0] == 99u8 && bytes[1] == 95u8) {
        CommitmentIdShape::InvalidPrefix
    } else if bytes.len() == 2 {
        CommitmentIdShape::MissingDigits
    } else if forall|i: int| 2 <= i < bytes.len() ==> is_digit_byte(#[trigger] bytes[i]) {
        CommitmentIdShape::ValidGenerated
    } else {
        CommitmentIdShape::NonDigitSuffix
    }
}

/// The fee on `amount` at `fee_bps` basis points, when the rate is at most
/// 100 % and the product fits in `i128`.
pub open spec fn fee_from_bps(amount: int, fee_bps: int) -> Option<int> {
    if fee_bps > BPS_MAX || !fits_i128(amount * fee_bps) {
        None
    } else {
        Some(trunc_div(amount * fee_bps, BPS_SCALE as int))
    }
}

/// The observation of `amount` charged at `fee_bps` basis points.
pub open spec fn amount_observation(amount: int, fee_bps: int) -> AmountObservation {
    if amount <= 0 {
        AmountObservation { shape: AmountShape::NonPositive, fee: None, net: None }
    } else if fee_bps > BPS_MAX {
        AmountObservation { shape: AmountShape::InvalidFeeBps, fee: None, net: None }
    } else {
        match fee_from_bps(amount, fee_bps) {
            None => AmountObservation { shape: AmountShape::FeeOverflow, fee: None, net: None },
            Some(fee) => if fits_i128(amount - fee) {
                AmountObservation {
                    shape: AmountShape::Valid,
                    fee: Some(fee as i128),
                    net: Some((amount - fee) as i128),
                }
            } else {
                AmountObservation { shape: AmountShape::NetUnderflow, fee: Some(fee as i128), net: None }
            },
        }
    }
}

/// Classifies `bytes` as a generated commitment id: non-empty, at most
/// [`MAX_COMMITMENT_ID_BYTES`] long, `c_` followed by at least one decimal
/// digit and nothing else.
pub fn classify_generated_commitment_id_bytes(bytes: &[u8]) -> (r: CommitmentIdShape)
    ensures
        r == id_shape(bytes@),
{
    let n = bytes.len();
    if n == 0 {
        return CommitmentIdShape::Empty;
    }
    if n > MAX_COMMITMENT_ID_BYTES {
        return CommitmentIdShape::TooLong;
    }
    if n < 2 || bytes[0] != 99u8 || bytes[1] != 95u8 {
        return CommitmentIdShape::InvalidPrefix;
    }
    if n == 2 {
        return CommitmentIdShape::MissingDigits;
    }
    let mut i: usize = 2;
    while i < n
        invariant
            n == bytes@.len(),
            2 < n <= MAX_COMMITMENT_ID_BYTES,
            bytes@[0] == 99u8,
            bytes@[1] == 95u8,
            2 <= i <= n,
            forall|j: int| 2 <= j < i ==> is_digit_byte(#[trigger] bytes@[j]),
        decreases n - i,
    {
        let b = bytes[i];
        if b < 48u8 || b > 57u8 {
            proof {
                assert(!is_digit_byte(bytes@[i as int]));
            }
            return CommitmentIdShape::NonDigitSuffix;
        }
        i = i + 1;
    }
    CommitmentIdShape::ValidGenerated
}

/// The fee on `amount` at `fee_bps` basis points, rounded toward zero;
/// `None` when the rate exceeds [`BPS_MAX`] or `amount * fee_bps` overflows.
pub fn checked_fee_from_bps(amount: i128, fee_bps: u32) -> (r: Option<i128>)
    ensures
        match fee_from_bps(amount as int, fee_bps as int) {
            Some(f) => r == Some(f as i128),
            None => r is None,
        },
{
    if fee_bps > BPS_MAX {
        return None;
    }
    match amount.checked_mul(fee_bps as i128) {
        Some(scaled) => Some(div_toward_zero(scaled, BPS_SCALE as i128)),
        None => None,
    }
}

/// Classifies `amount` charged at `fee_bps` basis points and, where they can
/// be computed, reports the fee and the net amount (`amount - fee`).
pub fn observe_amount(amount: i128, fee_bps: u32) -> (r: AmountObservation)
    ensures
        r == amount_observation(amount as int, fee_bps as int),
{
    if amount <= 0 {
        return AmountObservation { shape: AmountShape::NonPositive, fee: None, net: None };
    }
    if fee_bps > BPS_MAX {
        return AmountObservation { shape: AmountShape::InvalidFeeBps, fee: None, net: None };
    }
    let fee = match checked_fee_from_bps(amount, fee_bps) {
        Some(f) => f,
        None => {
            return AmountObservation { shape: AmountShape::FeeOverflow, fee: None, net: None };
        },
    };
    match amount.checked_sub(fee) {
        Some(net) => AmountObservation { shape: AmountShape::Valid, fee: Some(fee), net: Some(net) },
        None => AmountObservation { shape: AmountShape::NetUnderflow, fee: Some(fee), net: None },
    }
}

/// Classifies both the id and the amount of a commitment input.
pub fn observe_commitment_input(commitment_id: &[u8], amount: i128, fee_bps: u32) -> (r:
    CommitmentInputObservation)
    ensures
        r.id_shape == id_shape(commitment_id@),
        r.amount == amount_observation(amount as int, fee_bps as int),
{
    CommitmentInputObservation {
        id_shape: classify_generated_commitment_id_bytes(commitment_id),
        amount: observe_amount(amount, fee_bps),
    }
}

} // verus!
