//! The current time, for the timestamps of stored configurations.

use vstd::prelude::*;

verus! {

/// Relies on `chrono::Utc::now` and `DateTime::to_rfc3339`: the current time
/// in RFC 3339 form. Nothing is promised of its value.
#[verifier::external_body]
pub fn get_current_timestamp() -> (r: String) {
    chrono::Utc::now().to_rfc3339()
}

} // verus!
