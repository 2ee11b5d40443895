//! A stand-in for the commitment core contract with fixed answers, used to
//! exercise callers of `get_commitment`.
use vstd::prelude::*;
use crate::transformation::TransformationError;

verus! {

/// The commitment record the stand-in returns.
#[derive(Clone, Debug, PartialEq, Eq)]
pub struct Commitment {
    pub commitment_id: String,
    pub owner: String,
    pub amount: i128,
    pub status: String,
}

/// The stand-in core contract.
pub struct MockCommitmentCore;

impl MockCommitmentCore {
    /// `"c_valid"` is an active commitment of 1000, `"c_expired"` an expired
    /// one of 1000, both owned by `owner`; any other id is not found.
    pub fn get_commitment(commitment_id: String, owner: String) -> (r: Result<Commitment, TransformationError>)
        ensures
            commitment_id@ == "c_valid"@ ==> r is Ok && r->Ok_0 == (Commitment {
                commitment_id,
                owner,
                amount: 1000,
                status: r->Ok_0.status,
            }) && r->Ok_0.status@ == "active"@,
            commitment_id@ == "c_expired"@ ==> r is Ok && r->Ok_0 == (Commitment {
                commitment_id,
                owner,
                amount: 1000,
                status: r->Ok_0.status,
            }) && r->Ok_0.status@ == "expired"@,
            commitment_id@ != "c_valid"@ && commitment_id@ != "c_expired"@ ==> r == Err::<
                Commitment,
                TransformationError,
            >(TransformationError::CommitmentNotFound),
    {
        proof {
            reveal_strlit("c_valid");
            reveal_strlit("c_expired");
            assert("c_valid"@[2] != "c_expired"@[2]);
        }
        let valid = "c_valid".to_owned();
        let expired = "c_expired".to_owned();
        if commitment_id == valid {
            Ok(Commitment { commitment_id, owner, amount: 1000, status: "active".to_owned() })
        } else if commitment_id == expired {
            Ok(Commitment { commitment_id, owner, amount: 1000, status: "expired".to_owned() })
        } else {
            Err(TransformationError::CommitmentNotFound)
        }
    }
}

} // verus!
