//! The schema registry: the pure conversion from the legacy record shape
//! to the current one.

use vstd::prelude::*;
use crate::store::SomeStruct;

verus! {

/// What upgrading a legacy value yields: the value carries over unchanged,
/// and the flag, which the legacy shape lacked, defaults to `true`.
pub open spec fn spec_upgrade_v1_to_v2(value: u32) -> SomeStruct {
    SomeStruct { something: value, sth_else: true }
}

/// Pure, total, deterministic conversion from the legacy shape to the
/// current one; safe to apply again on a retried migration attempt.
pub fn upgrade_v1_to_v2(value: u32) -> (record: SomeStruct)
    ensures
        record == spec_upgrade_v1_to_v2(value),
{
    SomeStruct { something: value, sth_else: true }
}

} // verus!
