use vstd::prelude::*;

verus! {

/// Relies on std::time::SystemTime::now (read once, converted to
/// milliseconds since the Unix epoch; a clock before the epoch reads as 0).
/// Nothing is promised of the reading: every caller states what holds for an
/// arbitrary instant. The wall clock can step under adjustment; an embedding
/// that needs strictly monotonic session expiry keeps its own monotonic
/// anchor and drives the engine through the instant-taking operations
/// instead of the conveniences that read this clock.
#[verifier::external_body]
pub fn now_millis() -> u64 {
    match std::time::SystemTime::now().duration_since(std::time::UNIX_EPOCH) {
        Ok(d) => d.as_millis() as u64,
        Err(_) => 0,
    }
}

} // verus!
