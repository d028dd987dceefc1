//! Utility helpers: log redaction, ID generation, text, base64 and URL handling.
use vstd::prelude::*;

pub mod b64;
pub mod random;
pub mod redact;
pub mod text;
pub mod urls;

verus! {

/// Milliseconds since the UNIX epoch, through `SystemTime::now().duration_since(UNIX_EPOCH)`
/// (zero when the clock is before the epoch).
/// Trusted: nothing is stated of the value, which depends on the clock.
#[verifier::external_body]
pub(crate) fn unix_time_millis() -> u128 {
    std::time::SystemTime::now().duration_since(std::time::UNIX_EPOCH).unwrap_or_default().as_millis()
}

/// Current time in milliseconds since UNIX epoch (the low 64 bits).
pub fn now_ms() -> u64 {
    let t = unix_time_millis();
    #[verifier::truncate]
    (t as u64)
}

} // verus!
