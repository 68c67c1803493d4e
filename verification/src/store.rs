//! The encrypted-secret store: a durable map from identity to an opaque
//! blob, written only by the owning identity.

use crate::error::CustodyError;
use crate::identity::{anonymous_bytes, Identity, MAX_IDENTITY_BYTES};
use crate::memory::StableRegion;
use candid::Principal;
use ic_stable_structures::memory_manager::VirtualMemory;
use ic_stable_structures::{DefaultMemoryImpl, StableBTreeMap};
use vstd::prelude::*;

verus! {

/// An `ic_stable_structures::StableBTreeMap` from `candid::Principal` to
/// `Vec<u8>` in a region of stable memory.
#[verifier::external_body]
pub struct RecordMap {
    map: StableBTreeMap<Principal, Vec<u8>, VirtualMemory<DefaultMemoryImpl>>,
}

/// What a record map holds: for each principal in it, by its bytes, the bytes
/// stored under it.
pub uninterp spec fn stored_records(map: RecordMap) -> Map<Seq<u8>, Seq<u8>>;

/// The records that a map opened on the region finds there: those of the
/// map that was closed on it last, none in a region that holds no map.
pub uninterp spec fn region_records(region: StableRegion) -> Map<Seq<u8>, Seq<u8>>;

/// Calls `StableBTreeMap::init` on the region: the map found there is loaded,
/// or an empty one is written, so that the result holds the records named
/// for the region. `init` stops the process on a region that carries the
/// map's magic bytes with an unknown layout, which no call of this library
/// writes.
#[verifier::external_body]
fn map_init(region: StableRegion) -> (map: RecordMap)
    ensures
        stored_records(map) == region_records(region),
{
    RecordMap { map: StableBTreeMap::init(region.memory) }
}

/// Calls `StableBTreeMap::into_memory`: the region the map lives in. The map
/// writes every change through to its region, so a map opened on the region
/// afterwards finds what this one held.
#[verifier::external_body]
fn map_close(map: RecordMap) -> (region: StableRegion)
    ensures
        region_records(region) == stored_records(map),
{
    StableRegion { memory: map.map.into_memory() }
}

/// Calls `StableBTreeMap::get` with the principal that `Principal::from_slice`
/// makes of `key`: the value stored under the key, if there is one.
/// `from_slice` panics on more than 29 bytes, which the precondition rules
/// out.
#[verifier::external_body]
fn map_get(map: &RecordMap, key: &[u8]) -> (found: Option<Vec<u8>>)
    requires
        key@.len() <= MAX_IDENTITY_BYTES,
    ensures
        match found {
            Some(value) => stored_records(*map).contains_key(key@) && value@ == stored_records(
                *map,
            )[key@],
            None => !stored_records(*map).contains_key(key@),
        },
{
    map.map.get(&Principal::from_slice(key))
}

/// Calls `StableBTreeMap::insert` with the principal that
/// `Principal::from_slice` makes of `key`: afterwards the key maps to `value`
/// and every other key is as before; the value that the key had before, if
/// any, is returned. `from_slice` panics on more than 29 bytes, and the map
/// records a value's length in 32 bits; the preconditions rule both out. The
/// call stops the process when the memory cannot grow any further.
#[verifier::external_body]
fn map_insert(map: &mut RecordMap, key: &[u8], value: Vec<u8>) -> (previous: Option<Vec<u8>>)
    requires
        key@.len() <= MAX_IDENTITY_BYTES,
        value@.len() <= u32::MAX,
    ensures
        stored_records(*final(map)) == stored_records(*old(map)).insert(key@, value@),
        match previous {
            Some(before) => stored_records(*old(map)).contains_key(key@) && before@
                == stored_records(*old(map))[key@],
            None => !stored_records(*old(map)).contains_key(key@),
        },
{
    map.map.insert(Principal::from_slice(key), value)
}

/// What `load` finds for an identity in the given records.
pub open spec fn loaded(records: Map<Seq<u8>, Seq<u8>>, identity: Seq<u8>) -> Option<Seq<u8>> {
    if records.contains_key(identity) {
        Some(records[identity])
    } else {
        None
    }
}

/// The records after `save` was asked to store `blob` for `identity`.
pub open spec fn saved(
    records: Map<Seq<u8>, Seq<u8>>,
    identity: Seq<u8>,
    blob: Seq<u8>,
) -> Map<Seq<u8>, Seq<u8>> {
    if identity == anonymous_bytes() {
        records
    } else {
        records.insert(identity, blob)
    }
}

/// What `save` answers to `identity`.
pub open spec fn save_outcome(identity: Seq<u8>) -> Result<(), CustodyError> {
    if identity == anonymous_bytes() {
        Err(CustodyError::Forbidden)
    } else {
        Ok(())
    }
}

/// The store's invariant: no record is kept for the anonymous identity.
pub open spec fn holds_no_anonymous(records: Map<Seq<u8>, Seq<u8>>) -> bool {
    !records.contains_key(anonymous_bytes())
}

/// The bytes of an optional blob.
pub open spec fn blob_view(blob: Option<Vec<u8>>) -> Option<Seq<u8>> {
    match blob {
        Some(bytes) => Some(bytes@),
        None => None,
    }
}

/// The durable map from identity to encrypted secret. Its view maps the
/// bytes of each identity that has a record to the bytes of its blob.
pub struct SecretStore {
    records: RecordMap,
}

impl View for SecretStore {
    type V = Map<Seq<u8>, Seq<u8>>;

    closed spec fn view(&self) -> Map<Seq<u8>, Seq<u8>> {
        stored_records(self.records)
    }
}

impl SecretStore {
    /// Opens the store kept in the given region of stable memory, with the
    /// records that an earlier store left there.
    pub fn init(region: StableRegion) -> (store: SecretStore)
        ensures
            store@ == region_records(region),
    {
        SecretStore::holding(map_init(region))
    }

    /// Closes the store and gives its region back. A store opened on the
    /// region later finds the records this one held.
    pub fn close(self) -> (region: StableRegion)
        ensures
            region_records(region) == self@,
    {
        map_close(self.records)
    }

    /// Closes the store and opens it again, as a restart of the process
    /// does: the records are as they were.
    pub fn reopen(self) -> (store: SecretStore)
        ensures
            store@ == self@,
    {
        SecretStore::init(self.close())
    }

    /// The blob stored for `identity`, if there is one.
    pub fn load(&self, identity: &Identity) -> (found: Option<Vec<u8>>)
        ensures
            blob_view(found) == loaded(self@, identity@),
    {
        map_get(&self.records, identity.as_slice())
    }

    /// Stores `blob` for `identity`, replacing any earlier record of it. The
    /// anonymous identity is refused before the store is touched, whatever
    /// the blob. The map underneath records a blob's length in 32 bits, which
    /// bounds the blob of every other identity.
    pub fn save(&mut self, identity: &Identity, blob: Vec<u8>) -> (outcome: Result<
        (),
        CustodyError,
    >)
        requires
            !identity.spec_is_anonymous() ==> blob@.len() <= u32::MAX,
        ensures
            outcome == save_outcome(identity@),
            final(self)@ == saved(old(self)@, identity@, blob@),
    {
        if identity.is_anonymous() {
            return Err(CustodyError::Forbidden);
        }
        let _ = map_insert(&mut self.records, identity.as_slice(), blob);
        Ok(())
    }

    /// The store over a record map that was opened: it holds what the map
    /// holds.
    pub fn holding(records: RecordMap) -> (store: SecretStore)
        ensures
            store@ == stored_records(records),
    {
        SecretStore { records }
    }
}

} // verus!
