//! Declarations for the outside crates: opaque value types carried through
//! the library, and the two calls whose results it consumes.

use vstd::prelude::*;

verus! {

/// `uuid::Uuid`, the 128-bit identifier of accounts, vertices and edge rows.
/// Nothing inside it is visible to the proofs.
#[verifier::external_type_specification]
#[verifier::external_body]
pub struct ExUuid(uuid::Uuid);

/// `chrono::NaiveDateTime`, the bound of a time-range query. Nothing inside
/// it is visible to the proofs.
#[verifier::external_type_specification]
#[verifier::external_body]
pub struct ExNaiveDateTime(chrono::NaiveDateTime);

/// `serde_json::Value`, a metadata document. Nothing inside it is visible to
/// the proofs.
#[verifier::external_type_specification]
#[verifier::external_body]
pub struct ExJsonValue(serde_json::Value);

/// Calls `uuid::Uuid::new_v4`. The identifier is random, so nothing is
/// claimed about it.
#[verifier::external_body]
pub(crate) fn fresh_id() -> (id: uuid::Uuid) {
    uuid::Uuid::new_v4()
}

/// Calls `num_cpus::get`. The count depends on the machine and on the
/// process's scheduling limits, so nothing is claimed about it.
#[verifier::external_body]
pub(crate) fn available_cpus() -> (cpus: usize) {
    num_cpus::get()
}

} // verus!
