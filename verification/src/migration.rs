//! The migration runner: reads the version marker, converts a stale store
//! to the current schema exactly once, advances the marker, and reports
//! the resource cost. A run on an already-current store is a cheap no-op,
//! which is what makes repeated runs safe.

use vstd::prelude::*;
use crate::schema::{spec_upgrade_v1_to_v2, upgrade_v1_to_v2};
use crate::store::{RecordSlot, SomeStruct, StorageVersion, Store};

verus! {

/// Abstract resource cost of a run, counted in storage reads and writes;
/// the host uses it for accounting.
#[derive(Clone, Copy, PartialEq, Eq, Structural, Debug)]
pub struct Weight {
    pub reads: u64,
    pub writes: u64,
}

/// The legacy value a migration step starts from: the stored legacy
/// record, or zero when none is present.
pub open spec fn spec_legacy_or_default(store: Store) -> u32 {
    match store.slot {
        RecordSlot::Legacy(value) => value,
        _ => 0u32,
    }
}

/// The store state after one migration run.
///
/// A store already at the current version is untouched. A stale store
/// whose record key already holds a current-schema record (a run was
/// interrupted between the record write and the marker advance) only has
/// its marker advanced: the converted record is never converted again.
/// Otherwise the legacy record (or its zero default) is upgraded, written
/// under the record key, and the marker is advanced.
pub open spec fn spec_migrate(store: Store) -> Store {
    if store.version == StorageVersion::V2_SomeStruct {
        store
    } else if store.slot is Current {
        Store { version: StorageVersion::V2_SomeStruct, slot: store.slot }
    } else {
        Store {
            version: StorageVersion::V2_SomeStruct,
            slot: RecordSlot::Current(spec_upgrade_v1_to_v2(spec_legacy_or_default(store))),
        }
    }
}

/// The cost of one migration run: one marker read when the store is
/// already current; one read and the marker write when only the marker
/// was stale; one read and two writes (record, then marker) for the full
/// conversion step.
pub open spec fn spec_migrate_weight(store: Store) -> Weight {
    if store.version == StorageVersion::V2_SomeStruct {
        Weight { reads: 1, writes: 0 }
    } else if store.slot is Current {
        Weight { reads: 1, writes: 1 }
    } else {
        Weight { reads: 1, writes: 2 }
    }
}

/// One migration run. The marker is advanced strictly after the record
/// write, so an interrupted run leaves at worst a converted record under
/// a stale marker, which a later run tolerates.
pub fn migrate_to_struct(store: &mut Store) -> (weight: Weight)
    ensures
        *final(store) == spec_migrate(*old(store)),
        final(store).version == StorageVersion::V2_SomeStruct,
        weight == spec_migrate_weight(*old(store)),
{
    if store.get_version() == StorageVersion::V2_SomeStruct {
        Weight { reads: 1, writes: 0 }
    } else if store.get_record().is_some() {
        store.set_version(StorageVersion::V2_SomeStruct);
        Weight { reads: 1, writes: 1 }
    } else {
        let legacy: Option<u32> = store.take_legacy_record();
        let value: u32 = match legacy {
            Some(value) => value,
            None => 0,
        };
        store.put_record(upgrade_v1_to_v2(value));
        store.set_version(StorageVersion::V2_SomeStruct);
        Weight { reads: 1, writes: 2 }
    }
}

/// The store state after `n` consecutive migration runs.
pub open spec fn spec_migrate_n(store: Store, n: nat) -> Store
    decreases n,
{
    if n == 0 {
        store
    } else {
        spec_migrate(spec_migrate_n(store, (n - 1) as nat))
    }
}

/// Law: migration is idempotent — a second run changes nothing.
pub proof fn lemma_migrate_idempotent(store: Store)
    ensures
        spec_migrate(spec_migrate(store)) == spec_migrate(store),
{
}

/// Law: for every `n >= 1`, the store after `n` consecutive migration
/// runs equals the store after exactly one run.
pub proof fn lemma_migrate_n_runs(store: Store, n: nat)
    requires
        n >= 1,
    ensures
        spec_migrate_n(store, n) == spec_migrate(store),
    decreases n,
{
    reveal_with_fuel(spec_migrate_n, 2);
    if n > 1 {
        lemma_migrate_n_runs(store, (n - 1) as nat);
        lemma_migrate_idempotent(store);
    }
}

/// Law: migrating a store holding the legacy record `value` under a stale
/// marker yields the current marker and the upgraded record: the value
/// carried over, the flag defaulted to `true`.
pub proof fn lemma_conversion_correct(value: u32)
    ensures
        spec_migrate(
            (Store { version: StorageVersion::V1_u32, slot: RecordSlot::Legacy(value) }),
        ) == (Store {
            version: StorageVersion::V2_SomeStruct,
            slot: RecordSlot::Current((SomeStruct { something: value, sth_else: true })),
        }),
{
}

/// Law: a run on a store already at the current version leaves it
/// unchanged, whatever its record, and costs the minimal single read.
pub proof fn lemma_noop_on_current(store: Store)
    requires
        store.version == StorageVersion::V2_SomeStruct,
    ensures
        spec_migrate(store) == store,
        spec_migrate_weight(store) == (Weight { reads: 1, writes: 0 }),
{
}

} // verus!
