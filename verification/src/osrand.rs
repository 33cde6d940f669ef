use vstd::prelude::*;

verus! {

/// Relies on rand::rngs::OsRng::fill_bytes: fills the buffer from the
/// operating system's cryptographic source. Nothing can be promised of the
/// values drawn; only the length is stated. The process-wide RNG is assumed
/// available; an exhausted or absent OS source aborts rather than returns.
#[verifier::external_body]
pub fn random_bytes(n: usize) -> (r: Vec<u8>)
    ensures
        r@.len() == n,
{
    let mut buf = vec![0u8; n];
    rand::RngCore::fill_bytes(&mut rand::rngs::OsRng, &mut buf);
    buf
}

} // verus!
