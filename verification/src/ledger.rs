//! The per-account store, kept in the storage hash map of `ink_storage`.
//!
//! Nothing in this file is proved: it states what the rest of the library
//! takes for granted about that map.

use vstd::prelude::*;
use crate::account::AccountId;

verus! {

/// What a per-account store holds, as mathematics: the bytes of each account
/// that has an entry, with the number stored for it.
pub type Entries = Map<Seq<u8>, i32>;

/// A storage hash map from accounts to signed 32-bit numbers.
///
/// The map is made empty by [`AccountMap::new`] and never handed in from
/// outside, so it is not bound to a storage cell: every operation works on
/// what was inserted into this very value, and nothing is ever removed.
#[verifier::external_body]
pub struct AccountMap {
    inner: ink_storage::collections::HashMap<ink_env::AccountId, i32>,
}

/// The pairs that the map holds: each account's bytes with the number stored
/// for it.
///
/// The map tells its keys apart by the order of `ink_env::AccountId`, which
/// is the order of its 32 bytes, so two keys are one exactly when their
/// bytes agree.
pub uninterp spec fn account_map_entries(m: AccountMap) -> Entries;

impl AccountMap {
    /// `ink_storage::collections::HashMap::new`: the new map holds no pair.
    #[verifier::external_body]
    pub(crate) fn new() -> (made: AccountMap)
        ensures
            account_map_entries(made) == Entries::empty(),
    {
        AccountMap { inner: ink_storage::collections::HashMap::new() }
    }

    /// `ink_storage::collections::HashMap::len`: the number of pairs held.
    #[verifier::external_body]
    pub(crate) fn len(&self) -> (n: u32)
        ensures
            n == account_map_entries(*self).len(),
    {
        self.inner.len()
    }

    /// `ink_storage::collections::HashMap::get`: the number stored for
    /// `key`, or `None` where the map holds no pair for it.
    ///
    /// The map remembers that it was asked, in a cache of its own; the
    /// pairs it holds, and their number, are the same afterwards.
    #[verifier::external_body]
    pub(crate) fn get(&self, key: &AccountId) -> (found: Option<i32>)
        ensures
            found == (if account_map_entries(*self).contains_key(key@) {
                Some(account_map_entries(*self)[key@])
            } else {
                None
            }),
    {
        self.inner.get(&ink_env::AccountId::from(key.0)).copied()
    }

    /// `ink_storage::collections::HashMap::insert`: afterwards `key` is
    /// paired with `value` and every other pair is as before.
    ///
    /// The map counts its keys in a `u32` and does not guard that count, so
    /// a new key is admitted only while the count is below `u32::MAX`. With
    /// that the call does not panic.
    #[verifier::external_body]
    pub(crate) fn insert(&mut self, key: &AccountId, value: i32)
        requires
            account_map_entries(*old(self)).contains_key(key@)
                || account_map_entries(*old(self)).len() < u32::MAX,
        ensures
            account_map_entries(*final(self)) == account_map_entries(*old(self)).insert(
                key@,
                value,
            ),
        no_unwind
    {
        self.inner.insert(ink_env::AccountId::from(key.0), value);
    }
}

} // verus!
