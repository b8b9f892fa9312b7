//! A minimal persistent-state module: it keeps a single versioned record,
//! lets authorized callers overwrite it, and publishes a change event.
//! The core of the library is the storage-format versioning and migration
//! mechanism: detecting that stored state was written under the legacy
//! schema, converting it exactly once to the current schema, and reporting
//! the resource cost, while staying safe to invoke repeatedly.

pub mod migration;
pub mod pallet;
pub mod schema;
pub mod store;
