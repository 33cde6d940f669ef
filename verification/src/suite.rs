use vstd::prelude::*;

verus! {

/// Declares opaque_ke's Ristretto255 group marker so it can be named in the
/// cipher-suite bindings below. The type is a unit marker; nothing is held.
#[verifier::external_type_specification]
#[verifier::external_body]
pub struct ExRistretto255(opaque_ke::Ristretto255);

/// Declares opaque_ke's triple Diffie-Hellman key-exchange marker.
#[verifier::external_type_specification]
#[verifier::external_body]
pub struct ExTripleDh(opaque_ke::key_exchange::tripledh::TripleDh);

/// Declares the Argon2 key-stretching context of the argon2 crate.
#[verifier::external_type_specification]
#[verifier::external_body]
pub struct ExArgon2<'key>(argon2::Argon2<'key>);

/// The fixed cipher suite of this library: Ristretto255 for both the OPRF
/// and the key exchange, triple Diffie-Hellman, and Argon2 with default
/// parameters as the key-stretching function. The suite's hash is SHA-512,
/// so export and session keys are 64 bytes.
pub struct SafexCipherSuite;

impl opaque_ke::CipherSuite for SafexCipherSuite {
    type OprfCs = opaque_ke::Ristretto255;
    type KeGroup = opaque_ke::Ristretto255;
    type KeyExchange = opaque_ke::key_exchange::tripledh::TripleDh;
    type Ksf = argon2::Argon2<'static>;
}

} // verus!
