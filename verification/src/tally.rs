//! Occurrence counts kept in a hash map of `bevy::utils`.
//!
//! The map is keyed by plain integers, so that what it holds does not rest
//! on a hash or an equality of this crate. Nothing of the map itself is
//! verified: the functions below state what its methods do.

use vstd::prelude::*;

verus! {

/// A `bevy::utils::HashMap` from integer codes to counts.
#[verifier::external_body]
pub struct CountStorage {
    inner: bevy::utils::HashMap<u64, u32>,
}

/// The entries that a [`CountStorage`] holds.
pub uninterp spec fn count_storage_entries(storage: CountStorage) -> Map<u64, u32>;

impl CountStorage {
    /// The count on record for `code`: zero where there is no entry.
    pub open spec fn count(self, code: u64) -> u32 {
        if count_storage_entries(self).contains_key(code) {
            count_storage_entries(self)[code]
        } else {
            0
        }
    }

    /// Calls `Default::default` of `hashbrown::HashMap`, which makes a map
    /// without entries.
    #[verifier::external_body]
    pub(crate) fn new() -> (r: CountStorage)
        ensures
            forall|code: u64| !count_storage_entries(r).contains_key(code),
    {
        CountStorage { inner: bevy::utils::HashMap::default() }
    }

    /// Calls `hashbrown::HashMap::get`, which returns the value stored
    /// under the key, or `None` where the map has no such key.
    #[verifier::external_body]
    pub(crate) fn get(&self, code: u64) -> (r: Option<u32>)
        ensures
            r == (if count_storage_entries(*self).contains_key(code) {
                Some(count_storage_entries(*self)[code])
            } else {
                None
            }),
    {
        self.inner.get(&code).copied()
    }

    /// Calls `hashbrown::HashMap::insert`, which stores the value under the
    /// key, in place of the value that was there if there was one, and
    /// leaves every other entry as it was.
    #[verifier::external_body]
    pub(crate) fn insert(&mut self, code: u64, value: u32)
        ensures
            count_storage_entries(*final(self)) == count_storage_entries(*old(self)).insert(
                code,
                value,
            ),
    {
        self.inner.insert(code, value);
    }

    /// Calls `hashbrown::HashMap::iter`, which visits every entry once, in
    /// an order that is not fixed, and copies each entry out: no code comes
    /// twice, every pair is an entry and every entry is among the pairs.
    #[verifier::external_body]
    pub(crate) fn entries(&self) -> (r: Vec<(u64, u32)>)
        ensures
            forall|i: int, j: int| 0 <= i < j < r@.len() ==> r@[i].0 != r@[j].0,
            forall|i: int|
                0 <= i < r@.len() ==> count_storage_entries(*self).contains_key(#[trigger] r@[i].0)
                    && count_storage_entries(*self)[r@[i].0] == r@[i].1,
            forall|code: u64| #[trigger]
                count_storage_entries(*self).contains_key(code) ==> exists|i: int|
                    0 <= i < r@.len() && #[trigger] r@[i].0 == code,
    {
        self.inner.iter().map(|(code, count)| (*code, *count)).collect()
    }

    /// Counts one more occurrence of `code`; a count that has reached the
    /// largest `u32` stays there.
    pub(crate) fn increment(&mut self, code: u64)
        ensures
            final(self).count(code) == bump(old(self).count(code)),
            forall|c: u64| c != code ==> final(self).count(c) == old(self).count(c),
    {
        match self.get(code) {
            Some(n) => {
                if n < u32::MAX {
                    self.insert(code, n + 1);
                }
            },
            None => {
                self.insert(code, 1);
            },
        }
    }

    /// The count on record for `code`.
    pub(crate) fn get_count(&self, code: u64) -> (r: u32)
        ensures
            r == self.count(code),
    {
        match self.get(code) {
            Some(n) => n,
            None => 0,
        }
    }
}

/// A count one higher, held at the largest `u32`.
pub open spec fn bump(n: u32) -> u32 {
    if n < u32::MAX {
        (n + 1) as u32
    } else {
        n
    }
}

} // verus!
