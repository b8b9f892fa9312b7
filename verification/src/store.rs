//! The versioned store: a key-value persistence layer holding the
//! schema-version marker and the domain record, under whichever schema
//! is live. The store exclusively owns both; the marker must reflect the
//! actual shape of whatever is stored under the record key.

use vstd::prelude::*;

verus! {

/// The domain record under the current schema: a value and a flag.
/// Immutable once written except by a full replace.
#[derive(Clone, Copy, PartialEq, Eq, Structural, Debug)]
pub struct SomeStruct {
    pub something: u32,
    pub sth_else: bool,
}

/// The persisted schema-version marker. `V1_u32` marks the legacy layout,
/// a bare `u32` under the record key; `V2_SomeStruct` marks the current
/// layout, a full `SomeStruct`.
#[allow(non_camel_case_types)]
#[derive(Clone, Copy, PartialEq, Eq, Structural, Debug)]
pub enum StorageVersion {
    V1_u32,
    V2_SomeStruct,
}

/// What the record key currently holds: nothing (never written), a legacy
/// value, or a current-schema record. The two shapes share one key, so at
/// most one of them is ever present.
#[derive(Clone, Copy, PartialEq, Eq, Structural, Debug)]
pub enum RecordSlot {
    Empty,
    Legacy(u32),
    Current(SomeStruct),
}

/// The versioned store: the schema-version marker and the record key.
/// Per-key operations are total and synchronous; nothing here guarantees
/// atomicity across the two keys.
#[derive(Clone, Copy, PartialEq, Eq, Structural, Debug)]
pub struct Store {
    pub version: StorageVersion,
    pub slot: RecordSlot,
}

impl Store {
    /// The current-schema record stored under the record key, if any.
    pub open spec fn spec_record(self) -> Option<SomeStruct> {
        match self.slot {
            RecordSlot::Current(record) => Some(record),
            _ => None,
        }
    }

    /// The legacy record stored under the record key, if any.
    pub open spec fn spec_legacy(self) -> Option<u32> {
        match self.slot {
            RecordSlot::Legacy(value) => Some(value),
            _ => None,
        }
    }

    pub fn get_version(&self) -> (version: StorageVersion)
        ensures
            version == self.version,
    {
        self.version
    }

    pub fn set_version(&mut self, version: StorageVersion)
        ensures
            final(self).version == version,
            final(self).slot == old(self).slot,
    {
        self.version = version;
    }

    /// The current-schema record; `None` means it was never written.
    pub fn get_record(&self) -> (record: Option<SomeStruct>)
        ensures
            record == self.spec_record(),
    {
        match self.slot {
            RecordSlot::Current(record) => Some(record),
            _ => None,
        }
    }

    /// Full replace of the record key with a current-schema record.
    pub fn put_record(&mut self, record: SomeStruct)
        ensures
            final(self).slot == RecordSlot::Current(record),
            final(self).version == old(self).version,
    {
        self.slot = RecordSlot::Current(record);
    }

    /// The legacy record, read without clearing; for migration only.
    pub fn get_legacy_record(&self) -> (record: Option<u32>)
        ensures
            record == self.spec_legacy(),
    {
        match self.slot {
            RecordSlot::Legacy(value) => Some(value),
            _ => None,
        }
    }

    /// Read-and-clear of the legacy record; for migration only. A record
    /// key holding a current-schema record is left untouched.
    pub fn take_legacy_record(&mut self) -> (record: Option<u32>)
        ensures
            record == old(self).spec_legacy(),
            final(self).version == old(self).version,
            old(self).slot is Legacy ==> final(self).slot == RecordSlot::Empty,
            !(old(self).slot is Legacy) ==> final(self).slot == old(self).slot,
    {
        match self.slot {
            RecordSlot::Legacy(value) => {
                self.slot = RecordSlot::Empty;
                Some(value)
            }
            _ => None,
        }
    }
}

impl Default for Store {
    /// A store that was never initialized: the marker defaults to the
    /// legacy version, and the record key holds nothing.
    fn default() -> (store: Store)
        ensures
            store.version == StorageVersion::V1_u32,
            store.slot == RecordSlot::Empty,
    {
        Store { version: StorageVersion::V1_u32, slot: RecordSlot::Empty }
    }
}

} // verus!
