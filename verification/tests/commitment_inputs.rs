use commitlabs::fuzzing::{
    checked_fee_from_bps, classify_generated_commitment_id_bytes, observe_amount, observe_commitment_input,
    AmountObservation, AmountShape, CommitmentIdShape,
};

#[test]
fn id_shapes_are_classified() {
    assert_eq!(classify_generated_commitment_id_bytes(b""), CommitmentIdShape::Empty);
    assert_eq!(classify_generated_commitment_id_bytes(&[b'1'; 33]), CommitmentIdShape::TooLong);
    assert_eq!(classify_generated_commitment_id_bytes(b"x_12"), CommitmentIdShape::InvalidPrefix);
    assert_eq!(classify_generated_commitment_id_bytes(b"c"), CommitmentIdShape::InvalidPrefix);
    assert_eq!(classify_generated_commitment_id_bytes(b"c_"), CommitmentIdShape::MissingDigits);
    assert_eq!(classify_generated_commitment_id_bytes(b"c_12a"), CommitmentIdShape::NonDigitSuffix);
    assert_eq!(classify_generated_commitment_id_bytes(b"c_0042"), CommitmentIdShape::ValidGenerated);
    let mut longest = vec![b'9'; 32];
    longest[0] = b'c';
    longest[1] = b'_';
    assert_eq!(classify_generated_commitment_id_bytes(&longest), CommitmentIdShape::ValidGenerated);
}

#[test]
fn fee_from_bps_rounds_toward_zero_and_checks_bounds() {
    assert_eq!(checked_fee_from_bps(999, 100), Some(9));
    assert_eq!(checked_fee_from_bps(-999, 100), Some(-9));
    assert_eq!(checked_fee_from_bps(1_000, 10_001), None);
    assert_eq!(checked_fee_from_bps(i128::MAX, 2), None);
}

#[test]
fn amounts_are_classified() {
    assert_eq!(
        observe_amount(0, 100),
        AmountObservation { shape: AmountShape::NonPositive, fee: None, net: None }
    );
    assert_eq!(
        observe_amount(100, 10_001),
        AmountObservation { shape: AmountShape::InvalidFeeBps, fee: None, net: None }
    );
    assert_eq!(
        observe_amount(i128::MAX, 10_000),
        AmountObservation { shape: AmountShape::FeeOverflow, fee: None, net: None }
    );
    assert_eq!(
        observe_amount(10_000, 250),
        AmountObservation { shape: AmountShape::Valid, fee: Some(250), net: Some(9_750) }
    );
}

#[test]
fn commitment_input_combines_both_halves() {
    let obs = observe_commitment_input(b"c_7", 1_000, 100);
    assert_eq!(obs.id_shape, CommitmentIdShape::ValidGenerated);
    assert_eq!(obs.amount.fee, Some(10));
    assert_eq!(obs.amount.net, Some(990));
    let bad = observe_commitment_input(b"", -1, 0);
    assert_eq!(bad.id_shape, CommitmentIdShape::Empty);
    assert_eq!(bad.amount.shape, AmountShape::NonPositive);
}
