//! Emergency stop: a boolean switch kept in instance storage.
use vstd::prelude::*;
use crate::storage::{InstanceStorage, Storage, StoredValue};

verus! {

/// Storage key of the pause switch.
pub const PAUSED_KEY: &'static str = "paused";

/// Whether the pause slot of `s` holds something `is_paused` can read:
/// nothing, or a boolean.
pub open spec fn pause_slot_readable(s: Map<Seq<char>, StoredValue>) -> bool {
    s.contains_key(PAUSED_KEY@) ==> s[PAUSED_KEY@] is Bool
}

/// The pause state stored in `s`; an absent switch reads as not paused.
pub open spec fn paused_in(s: Map<Seq<char>, StoredValue>) -> bool {
    s.contains_key(PAUSED_KEY@) && s[PAUSED_KEY@] == StoredValue::Bool(true)
}

/// Why a pause helper refused.
#[derive(Clone, Copy, Debug, PartialEq, Eq, Structural)]
pub enum PauseError {
    AlreadyPaused,
    AlreadyUnpaused,
    Paused,
    NotPaused,
}

/// The failure text of each refusal.
pub open spec fn pause_message(e: PauseError) -> Seq<char> {
    match e {
        PauseError::AlreadyPaused => "Contract is already paused"@,
        PauseError::AlreadyUnpaused => "Contract is already unpaused"@,
        PauseError::Paused => "Contract is paused - operation not allowed"@,
        PauseError::NotPaused => "Contract is not paused"@,
    }
}

impl PauseError {
    /// The text the helper fails with.
    pub fn message(&self) -> (r: &'static str)
        ensures
            r@ == pause_message(*self),
    {
        match self {
            PauseError::AlreadyPaused => "Contract is already paused",
            PauseError::AlreadyUnpaused => "Contract is already unpaused",
            PauseError::Paused => "Contract is paused - operation not allowed",
            PauseError::NotPaused => "Contract is not paused",
        }
    }
}

/// Pause switch helpers.
pub struct Pausable;

impl Pausable {
    /// The storage key of the pause switch.
    pub fn paused_key() -> (r: String)
        ensures
            r@ == PAUSED_KEY@,
    {
        PAUSED_KEY.to_owned()
    }

    /// Whether the contract is paused.
    pub fn is_paused(store: &InstanceStorage) -> (r: bool)
        requires
            pause_slot_readable(store@),
        ensures
            r == paused_in(store@),
    {
        let key = Self::paused_key();
        match Storage::get(store, &key) {
            Some(StoredValue::Bool(b)) => b,
            _ => false,
        }
    }

    /// Sets the switch; refused when already paused.
    pub fn pause(store: &mut InstanceStorage) -> (r: Result<(), PauseError>)
        requires
            pause_slot_readable(old(store)@),
        ensures
            r is Ok <==> !paused_in(old(store)@),
            r is Ok ==> final(store)@ == old(store)@.insert(PAUSED_KEY@, StoredValue::Bool(true)),
            r is Err ==> r == Err::<(), PauseError>(PauseError::AlreadyPaused) && final(store)@ == old(store)@,
    {
        if Self::is_paused(store) {
            return Err(PauseError::AlreadyPaused);
        }
        Storage::set(store, Self::paused_key(), StoredValue::Bool(true));
        Ok(())
    }

    /// Clears the switch; refused when not paused.
    pub fn unpause(store: &mut InstanceStorage) -> (r: Result<(), PauseError>)
        requires
            pause_slot_readable(old(store)@),
        ensures
            r is Ok <==> paused_in(old(store)@),
            r is Ok ==> final(store)@ == old(store)@.insert(PAUSED_KEY@, StoredValue::Bool(false)),
            r is Err ==> r == Err::<(), PauseError>(PauseError::AlreadyUnpaused) && final(store)@ == old(store)@,
    {
        if !Self::is_paused(store) {
            return Err(PauseError::AlreadyUnpaused);
        }
        Storage::set(store, Self::paused_key(), StoredValue::Bool(false));
        Ok(())
    }

    /// Succeeds when the contract is not paused.
    pub fn require_not_paused(store: &InstanceStorage) -> (r: Result<(), PauseError>)
        requires
            pause_slot_readable(store@),
        ensures
            r is Ok <==> !paused_in(store@),
            r is Err ==> r == Err::<(), PauseError>(PauseError::Paused),
    {
        if Self::is_paused(store) {
            return Err(PauseError::Paused);
        }
        Ok(())
    }

    /// Succeeds when the contract is paused.
    pub fn require_paused(store: &InstanceStorage) -> (r: Result<(), PauseError>)
        requires
            pause_slot_readable(store@),
        ensures
            r is Ok <==> paused_in(store@),
            r is Err ==> r == Err::<(), PauseError>(PauseError::NotPaused),
    {
        if !Self::is_paused(store) {
            return Err(PauseError::NotPaused);
        }
        Ok(())
    }
}

/// Pausing then unpausing leaves the switch cleared and every other slot as
/// it was; from an unpaused state both calls succeed.
pub proof fn lemma_pause_unpause_round_trip(
    s0: Map<Seq<char>, StoredValue>,
    s1: Map<Seq<char>, StoredValue>,
    s2: Map<Seq<char>, StoredValue>,
)
    requires
        pause_slot_readable(s0),
        !paused_in(s0),
        s1 == s0.insert(PAUSED_KEY@, StoredValue::Bool(true)),
        s2 == s1.insert(PAUSED_KEY@, StoredValue::Bool(false)),
    ensures
        pause_slot_readable(s1),
        paused_in(s1),
        pause_slot_readable(s2),
        !paused_in(s2),
        forall|k: Seq<char>| k != PAUSED_KEY@ ==> (#[trigger] s2.contains_key(k) == s0.contains_key(k)),
        forall|k: Seq<char>| k != PAUSED_KEY@ && s0.contains_key(k) ==> #[trigger] s2[k] == s0[k],
{
}

/// A successful pause always leaves the contract paused, and a successful
/// unpause always leaves it unpaused, so each refuses when repeated.
pub proof fn lemma_switch_refuses_repeat(
    s: Map<Seq<char>, StoredValue>,
    b: bool,
)
    ensures
        pause_slot_readable(s.insert(PAUSED_KEY@, StoredValue::Bool(b))),
        paused_in(s.insert(PAUSED_KEY@, StoredValue::Bool(b))) == b,
{
}

} // verus!
