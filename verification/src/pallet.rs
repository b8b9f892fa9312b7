//! The module's operation surface: the single authorized write path, the
//! upgrade lifecycle hook, and the record getter. Caller verification and
//! event delivery are external collaborators; here an origin token is a
//! plain value and the published events are kept as a sequence, so that
//! every contract can say exactly which events a call added.

use vstd::prelude::*;
use crate::migration::{migrate_to_struct, spec_migrate, spec_migrate_weight, Weight};
use crate::store::{RecordSlot, SomeStruct, StorageVersion, Store};

verus! {

/// A stable caller identity, as the authorization collaborator yields it.
pub type AccountId = u64;

/// An opaque caller-origin token: signed by an account, issued by the
/// host's root, or unsigned.
#[derive(Clone, Copy, PartialEq, Eq, Structural, Debug)]
pub enum Origin {
    Signed(AccountId),
    Root,
    Unsigned,
}

/// The caller could not be verified; the operation is rejected and no
/// state is mutated.
#[derive(Clone, Copy, PartialEq, Eq, Structural, Debug)]
pub enum AuthError {
    BadOrigin,
}

/// A domain event handed to the publisher: the stored value and the
/// verified identity of whoever stored it.
#[derive(Clone, Copy, PartialEq, Eq, Structural, Debug)]
pub enum Event {
    SomethingStored(u32, AccountId),
}

/// What caller verification yields: the identity behind a signed origin,
/// and a rejection for anything else.
pub open spec fn spec_ensure_signed(origin: Origin) -> Result<AccountId, AuthError> {
    match origin {
        Origin::Signed(who) => Ok(who),
        _ => Err(AuthError::BadOrigin),
    }
}

/// Verify the caller: a signed origin yields its stable identity; any
/// other origin is rejected.
pub fn ensure_signed(origin: Origin) -> (result: Result<AccountId, AuthError>)
    ensures
        result == spec_ensure_signed(origin),
{
    match origin {
        Origin::Signed(who) => Ok(who),
        _ => Err(AuthError::BadOrigin),
    }
}

/// The module: the versioned store it exclusively owns, and the events it
/// has published so far, oldest first.
pub struct Module {
    pub store: Store,
    pub events: Vec<Event>,
}

impl Module {
    /// The single authorized write path. On a verified caller it replaces
    /// the record wholesale with the given value and flag, publishes
    /// exactly one event carrying that value and the verified identity,
    /// and leaves the version marker alone. On a rejected caller it
    /// returns the authorization error and mutates nothing.
    pub fn do_something(&mut self, origin: Origin, something: u32, sth_else: bool) -> (result:
        Result<(), AuthError>)
        ensures
            match spec_ensure_signed(origin) {
                Ok(who) => {
                    &&& result == Ok::<(), AuthError>(())
                    &&& final(self).store.version == old(self).store.version
                    &&& final(self).store.slot == RecordSlot::Current(
                        (SomeStruct { something, sth_else }),
                    )
                    &&& final(self).events@ == old(self).events@.push(
                        Event::SomethingStored(something, who),
                    )
                },
                Err(auth_error) => {
                    &&& result == Err::<(), AuthError>(auth_error)
                    &&& final(self).store == old(self).store
                    &&& final(self).events@ == old(self).events@
                },
            },
    {
        let who: AccountId = match ensure_signed(origin) {
            Ok(who) => who,
            Err(auth_error) => {
                return Err(auth_error);
            },
        };
        self.store.put_record(SomeStruct { something, sth_else });
        self.events.push(Event::SomethingStored(something, who));
        Ok(())
    }

    /// Lifecycle hook the host invokes once per binary upgrade, before
    /// any `do_something` call against the new schema: runs the migration
    /// and returns the cost incurred. Publishes nothing.
    pub fn on_runtime_upgrade(&mut self) -> (weight: Weight)
        ensures
            final(self).store == spec_migrate(old(self).store),
            final(self).events@ == old(self).events@,
            weight == spec_migrate_weight(old(self).store),
    {
        migrate_to_struct(&mut self.store)
    }

    /// The storage getter for the record: `None` means never written.
    pub fn something(&self) -> (record: Option<SomeStruct>)
        ensures
            record == self.store.spec_record(),
    {
        self.store.get_record()
    }
}

impl Default for Module {
    /// A freshly deployed module: a never-initialized store and no
    /// published events.
    fn default() -> (module: Module)
        ensures
            module.store.version == StorageVersion::V1_u32,
            module.store.slot == RecordSlot::Empty,
            module.events@ == Seq::<Event>::empty(),
    {
        Module { store: Store::default(), events: Vec::new() }
    }
}

} // verus!
