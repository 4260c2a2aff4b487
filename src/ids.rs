use vstd::prelude::*;
use uuid::Uuid;

verus! {

/// The identifier of a call, generated when its recording is stored.
#[verifier::external_type_specification]
#[verifier::external_body]
pub struct ExUuid(Uuid);

/// Relies on uuid::Uuid::new_v4: a random identifier. Nothing is promised
/// of its value.
pub assume_specification[ Uuid::new_v4 ]() -> Uuid;

} // verus!
