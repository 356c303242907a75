//! What only the machine can supply: fresh identifiers and the time.

use vstd::prelude::*;

verus! {

/// Calls `uuid::Uuid::new_v4` and spells the identifier with its `Display`.
/// Nothing is claimed of the result: it is drawn at random.
#[verifier::external_body]
pub(crate) fn fresh_id() -> (id: String) {
    uuid::Uuid::new_v4().to_string()
}

/// Calls `chrono::Utc::now` and spells the instant with
/// `DateTime::to_rfc3339`. Nothing is claimed of the result: it is the time
/// of the call.
#[verifier::external_body]
pub(crate) fn now() -> (stamp: String) {
    chrono::Utc::now().to_rfc3339()
}

} // verus!
