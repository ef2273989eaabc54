//! Host services the pipeline draws on: entropy for fresh identifiers
//! and the wall clock. Each is a thin trusted wrapper around the
//! outside call; nothing functional can be promised of a random value
//! or of the time, so the wrappers promise nothing and the verified
//! functions beside them establish what must hold of every outcome.

use vstd::prelude::*;
use opentelemetry_sdk::trace::{IdGenerator, RandomIdGenerator};

verus! {

/// Relies on `opentelemetry_sdk::trace::RandomIdGenerator` (its
/// `IdGenerator::new_trace_id`): a random 128-bit trace identifier.
/// Randomness admits no functional contract, so nothing is promised.
#[verifier::external_body]
fn random_trace_id_bits() -> u128 {
    u128::from_be_bytes(RandomIdGenerator::default().new_trace_id().to_bytes())
}

/// Relies on `opentelemetry_sdk::trace::RandomIdGenerator` (its
/// `IdGenerator::new_span_id`): a random 64-bit span identifier.
/// Randomness admits no functional contract, so nothing is promised.
#[verifier::external_body]
fn random_span_id_bits() -> u64 {
    u64::from_be_bytes(RandomIdGenerator::default().new_span_id().to_bytes())
}

/// Relies on `std::time::SystemTime::now` and
/// `SystemTime::duration_since`: the wall clock as nanoseconds since
/// the Unix epoch, or zero should the clock read before the epoch.
/// The time depends on the machine, so nothing is promised of it.
#[verifier::external_body]
pub fn now_unix_nanos() -> u64 {
    match std::time::SystemTime::now().duration_since(std::time::UNIX_EPOCH) {
        Ok(d) => d.as_nanos() as u64,
        Err(_) => 0,
    }
}

/// A freshly generated trace identifier, guaranteed to avoid the
/// reserved all-zero value whatever the entropy source returned.
pub fn fresh_trace_id() -> (r: u128)
    ensures
        r != 0,
{
    let bits = random_trace_id_bits();
    if bits == 0 {
        1
    } else {
        bits
    }
}

/// A freshly generated span identifier, guaranteed to avoid the
/// reserved all-zero value whatever the entropy source returned.
pub fn fresh_span_id() -> (r: u64)
    ensures
        r != 0,
{
    let bits = random_span_id_bits();
    if bits == 0 {
        1
    } else {
        bits
    }
}

} // verus!
