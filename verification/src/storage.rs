//! A contract's instance storage — values under short symbol keys — with
//! the initialization flag, admin slot and pause switch kept there by the
//! shared helpers.
use vstd::prelude::*;
use crate::table::Table;

verus! {

/// Storage key of the admin address.
pub const ADMIN: &'static str = "ADMIN";

/// Storage key of the initialization flag.
pub const INITIALIZED: &'static str = "INIT";

/// A value held in instance storage.
#[derive(Debug, PartialEq, Eq)]
pub enum StoredValue {
    Bool(bool),
    U32(u32),
    U64(u64),
    I128(i128),
    Address(String),
    Text(String),
}

impl StoredValue {
    /// An identical copy.
    pub fn copy_value(&self) -> (r: Self)
        ensures
            r == *self,
    {
        match self {
            StoredValue::Bool(b) => StoredValue::Bool(*b),
            StoredValue::U32(v) => StoredValue::U32(*v),
            StoredValue::U64(v) => StoredValue::U64(*v),
            StoredValue::I128(v) => StoredValue::I128(*v),
            StoredValue::Address(a) => StoredValue::Address(a.clone()),
            StoredValue::Text(t) => StoredValue::Text(t.clone()),
        }
    }
}

/// A contract's instance storage.
pub struct InstanceStorage {
    entries: Table<String, StoredValue>,
}

impl View for InstanceStorage {
    type V = Map<Seq<char>, StoredValue>;

    closed spec fn view(&self) -> Map<Seq<char>, StoredValue> {
        self.entries@
    }
}

impl InstanceStorage {
    /// Empty storage.
    pub fn new() -> (r: Self)
        ensures
            r@ == Map::<Seq<char>, StoredValue>::empty(),
    {
        InstanceStorage { entries: Table::new() }
    }
}

/// Why a storage helper refused.
#[derive(Clone, Copy, Debug, PartialEq, Eq, Structural)]
pub enum StorageError {
    NotInitialized,
    AlreadyInitialized,
    AdminNotSet,
}

/// The failure text of each refusal.
pub open spec fn storage_message(e: StorageError) -> Seq<char> {
    match e {
        StorageError::NotInitialized => "Contract not initialized"@,
        StorageError::AlreadyInitialized => "Contract already initialized"@,
        StorageError::AdminNotSet => "Admin not set"@,
    }
}

impl StorageError {
    /// The text the helper fails with.
    pub fn message(&self) -> (r: &'static str)
        ensures
            r@ == storage_message(*self),
    {
        match self {
            StorageError::NotInitialized => "Contract not initialized",
            StorageError::AlreadyInitialized => "Contract already initialized",
            StorageError::AdminNotSet => "Admin not set",
        }
    }
}

/// Whether the admin slot of `s` holds something `get_admin` can read:
/// nothing, or an address.
pub open spec fn admin_slot_readable(s: Map<Seq<char>, StoredValue>) -> bool {
    s.contains_key(ADMIN@) ==> s[ADMIN@] is Address
}

/// The answer of `get_admin` on storage `s` whose admin slot is readable.
pub open spec fn admin_answer(s: Map<Seq<char>, StoredValue>) -> Result<Seq<char>, StorageError> {
    if !s.contains_key(INITIALIZED@) {
        Err(StorageError::NotInitialized)
    } else if !s.contains_key(ADMIN@) {
        Err(StorageError::AdminNotSet)
    } else {
        Ok(s[ADMIN@]->Address_0@)
    }
}

/// Helpers for the common storage slots and generic reads and writes.
pub struct Storage;

impl Storage {
    /// Whether the initialization flag is set.
    pub fn is_initialized(store: &InstanceStorage) -> (r: bool)
        ensures
            r == store@.contains_key(INITIALIZED@),
    {
        store.entries.contains_key(&INITIALIZED.to_owned())
    }

    /// Succeeds when the initialization flag is set.
    pub fn require_initialized(store: &InstanceStorage) -> (r: Result<(), StorageError>)
        ensures
            r is Ok <==> store@.contains_key(INITIALIZED@),
            r is Err ==> r == Err::<(), StorageError>(StorageError::NotInitialized),
    {
        if !Self::is_initialized(store) {
            return Err(StorageError::NotInitialized);
        }
        Ok(())
    }

    /// Sets the initialization flag.
    pub fn set_initialized(store: &mut InstanceStorage)
        ensures
            final(store)@ == old(store)@.insert(INITIALIZED@, StoredValue::Bool(true)),
    {
        store.entries.insert(INITIALIZED.to_owned(), StoredValue::Bool(true));
    }

    /// The admin address; needs the initialization flag and an address in
    /// the admin slot.
    pub fn get_admin(store: &InstanceStorage) -> (r: Result<String, StorageError>)
        requires
            store@.contains_key(INITIALIZED@) ==> admin_slot_readable(store@),
        ensures
            match admin_answer(store@) {
                Ok(a) => r is Ok && r->Ok_0@ == a,
                Err(e) => r == Err::<String, StorageError>(e),
            },
    {
        Self::require_initialized(store)?;
        match store.entries.get(&ADMIN.to_owned()) {
            None => Err(StorageError::AdminNotSet),
            Some(StoredValue::Address(a)) => Ok(a.clone()),
            Some(_) => {
                proof {
                    assert(false);
                }
                Err(StorageError::AdminNotSet)
            },
        }
    }

    /// Stores `admin` in the admin slot.
    pub fn set_admin(store: &mut InstanceStorage, admin: String)
        ensures
            final(store)@ == old(store)@.insert(ADMIN@, StoredValue::Address(admin)),
    {
        store.entries.insert(ADMIN.to_owned(), StoredValue::Address(admin));
    }

    /// Succeeds when the initialization flag is not set.
    pub fn require_not_initialized(store: &InstanceStorage) -> (r: Result<(), StorageError>)
        ensures
            r is Ok <==> !store@.contains_key(INITIALIZED@),
            r is Err ==> r == Err::<(), StorageError>(StorageError::AlreadyInitialized),
    {
        if Self::is_initialized(store) {
            return Err(StorageError::AlreadyInitialized);
        }
        Ok(())
    }

    /// The value under `key`, or `default` when there is none.
    pub fn get_or_default(store: &InstanceStorage, key: &String, default: StoredValue) -> (r: StoredValue)
        ensures
            store@.contains_key(key@) ==> r == store@[key@],
            !store@.contains_key(key@) ==> r == default,
    {
        match store.entries.get(key) {
            Some(v) => v.copy_value(),
            None => default,
        }
    }

    /// Stores `value` under `key`.
    pub fn set(store: &mut InstanceStorage, key: String, value: StoredValue)
        ensures
            final(store)@ == old(store)@.insert(key@, value),
    {
        store.entries.insert(key, value);
    }

    /// The value under `key`, if any.
    pub fn get(store: &InstanceStorage, key: &String) -> (r: Option<StoredValue>)
        ensures
            store@.contains_key(key@) ==> r == Some(store@[key@]),
            !store@.contains_key(key@) ==> r is None,
    {
        match store.entries.get(key) {
            Some(v) => Some(v.copy_value()),
            None => None,
        }
    }

    /// Whether `key` holds a value.
    pub fn has(store: &InstanceStorage, key: &String) -> (r: bool)
        ensures
            r == store@.contains_key(key@),
    {
        store.entries.contains_key(key)
    }
}

/// The admin and initialization slots use different keys.
pub proof fn lemma_slot_keys_distinct()
    ensures
        ADMIN@ != INITIALIZED@,
{
    reveal_strlit("ADMIN");
    reveal_strlit("INIT");
    assert(ADMIN@.len() != INITIALIZED@.len());
}

/// A value written under a key reads back, and writing one key leaves
/// every other key as it was.
pub proof fn lemma_write_then_read(
    before: Map<Seq<char>, StoredValue>,
    after: Map<Seq<char>, StoredValue>,
    key: Seq<char>,
    value: StoredValue,
    other: Seq<char>,
)
    requires
        after == before.insert(key, value),
        other != key,
    ensures
        after.contains_key(key) && after[key] == value,
        after.contains_key(other) == before.contains_key(other),
        before.contains_key(other) ==> after[other] == before[other],
{
}

} // verus!
