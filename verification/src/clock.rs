//! The wall clock, modeled as milliseconds since the Unix epoch.

use vstd::prelude::*;

verus! {

/// Relies on std::time::SystemTime::now and its duration_since(UNIX_EPOCH):
/// the wall clock in milliseconds since the epoch, with the pre-epoch error
/// arm mapped to zero. None of these calls can panic; nothing is assumed of
/// the value.
#[verifier::external_body]
fn now_millis_raw() -> (r: u128) {
    match std::time::SystemTime::now().duration_since(std::time::UNIX_EPOCH) {
        Ok(elapsed) => elapsed.as_millis(),
        Err(_) => 0,
    }
}

/// The current instant in milliseconds since the epoch. A clock set before
/// the epoch reads as the epoch itself, and one set past the clock type's
/// range reads as its last representable instant.
pub fn now_millis() -> u64 {
    let t = now_millis_raw();
    if t > u64::MAX as u128 {
        u64::MAX
    } else {
        t as u64
    }
}

} // verus!
